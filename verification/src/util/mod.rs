pub mod text;
pub mod xuid;
