pub mod people;
pub mod tokens;

pub use people::{PeopleSearchResponse, Person};
pub use tokens::{DisplayClaims, UserToken, XstsToken, XuiItem, Xuid};
