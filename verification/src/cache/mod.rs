pub mod expiry_cache;
pub mod keyed_expiry_cache;
pub mod persist;

pub use expiry_cache::{CachedToken, ExpiryTokenCache, Lookup, Slot};
pub use keyed_expiry_cache::KeyedExpiryTokenCache;
pub use persist::InMemoryPersister;
