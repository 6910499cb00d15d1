pub mod legacy_password;
pub mod relying_party;

pub use legacy_password::LegacyPasswordProvider;
pub use relying_party::RelyingParty;
