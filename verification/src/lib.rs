//! Xbox Live authentication, gamertag/XUID resolution and credential caching.
pub mod auth;
pub mod cache;
pub mod client;
pub mod error;
pub mod models;
pub mod people;
pub mod util;

pub use auth::RelyingParty;
pub use client::XboxEndpoints;
pub use error::XboxError;
