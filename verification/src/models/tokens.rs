//! Xbox Live credentials and identifiers. Times are microseconds since the Unix epoch (UTC).
use vstd::prelude::*;

use crate::cache::expiry_cache::CachedToken;

verus! {

/// An Xbox Live XUID (unique player identifier), stored in its raw numeric-string form.
///
/// Use [`crate::util::xuid::wrap_xuid`]/[`crate::util::xuid::unwrap_xuid`] to convert to/from
/// the `xuid(123)` wrapped form used by several Xbox Live and Halo Waypoint endpoints.
#[derive(Debug, Clone, PartialEq, Eq, Hash)]
pub struct Xuid(pub String);

impl Xuid {
    pub fn as_str(&self) -> (r: &str)
        ensures
            r@ == self.0@,
    {
        self.0.as_str()
    }
}

impl From<String> for Xuid {
    fn from(value: String) -> (r: Self)
        ensures
            r == Xuid(value),
    {
        Xuid(value)
    }
}

impl vstd::std_specs::convert::FromSpecImpl<String> for Xuid {
    open spec fn obeys_from_spec() -> bool {
        true
    }

    open spec fn from_spec(value: String) -> Self {
        Xuid(value)
    }
}

impl From<&str> for Xuid {
    fn from(value: &str) -> (r: Self)
        ensures
            r.0@ == value@,
    {
        Xuid(String::from_str(value))
    }
}

/// The conversion from a `&str` keeps its characters, as the `ensures` of `from` states; the
/// new `String` is a fresh value, so equality with any one spec value is not claimed.
impl vstd::std_specs::convert::FromSpecImpl<&str> for Xuid {
    open spec fn obeys_from_spec() -> bool {
        false
    }

    open spec fn from_spec(value: &str) -> Self {
        Xuid(choose|s: String| s@ == value@)
    }
}

/// An Xbox Live "user token", obtained by exchanging an RPS ticket (or other credential)
/// against `user.auth.xboxlive.com/user/authenticate`.
#[derive(Debug, Clone)]
pub struct UserToken {
    pub token: String,
    pub not_after: i64,
}

impl UserToken {
    /// The cache entry for this user token: the token, stale once it expires.
    pub fn into_cached(self) -> (r: CachedToken<String>)
        ensures
            r.value == self.token,
            r.expires_at == self.not_after,
    {
        CachedToken::new(self.token, self.not_after)
    }
}

/// The `DisplayClaims.xui[]` entry inside an XSTS ticket, carrying the user hash (`uhs`)
/// needed to build an `XBL3.0 x=<uhs>;<token>` authorization header, plus the gamertag/XUID of
/// the signed-in user themselves.
#[derive(Debug, Clone)]
pub struct XuiItem {
    pub uhs: String,
    /// The signed-in user's own gamertag. Present on Xbox Live relying-party tickets; may be
    /// absent for other relying parties.
    pub gtg: Option<String>,
    /// The signed-in user's own XUID. Present on Xbox Live relying-party tickets; may be
    /// absent for other relying parties.
    pub xid: Option<String>,
}

/// The `DisplayClaims` object inside an XSTS ticket.
#[derive(Debug, Clone)]
pub struct DisplayClaims {
    pub xui: Vec<XuiItem>,
}

/// An XSTS ticket, obtained by exchanging a user token for a specific relying party via
/// `xsts.auth.xboxlive.com/xsts/authorize`.
#[derive(Debug, Clone)]
pub struct XstsToken {
    pub token: String,
    pub not_after: i64,
    pub display_claims: DisplayClaims,
}

/// The header value `XBL3.0 x=<uhs>;<token>`.
pub open spec fn authorization_value(uhs: Seq<char>, token: Seq<char>) -> Seq<char> {
    "XBL3.0 x="@ + uhs + ";"@ + token
}

impl XstsToken {
    /// The first display-claims entry, if any.
    pub open spec fn first_claim(&self) -> Option<XuiItem> {
        if self.display_claims.xui@.len() > 0 {
            Some(self.display_claims.xui@[0])
        } else {
            None
        }
    }

    /// The user hash (`uhs`) from the first display-claims entry, needed to build an
    /// `XBL3.0 x=<uhs>;<token>` authorization header.
    pub fn user_hash(&self) -> (r: Option<&str>)
        ensures
            match r {
                Some(h) => self.first_claim() matches Some(c) && h@ == c.uhs@,
                None => self.first_claim() is None,
            },
    {
        if self.display_claims.xui.len() > 0 {
            Some(self.display_claims.xui[0].uhs.as_str())
        } else {
            None
        }
    }

    /// Builds the `XBL3.0 x=<uhs>;<token>` authorization header value for this ticket.
    pub fn authorization_header(&self) -> (r: Option<String>)
        ensures
            match r {
                Some(h) => self.first_claim() matches Some(c) && h@ == authorization_value(
                    c.uhs@,
                    self.token@,
                ),
                None => self.first_claim() is None,
            },
    {
        match self.user_hash() {
            Some(uhs) => {
                let mut header = String::from_str("XBL3.0 x=");
                header.append(uhs);
                header.append(";");
                header.append(self.token.as_str());
                Some(header)
            },
            None => None,
        }
    }

    /// The signed-in user's own gamertag, from the first display-claims entry.
    pub fn gamertag(&self) -> (r: Option<&str>)
        ensures
            match r {
                Some(g) => self.first_claim() matches Some(c) && c.gtg matches Some(t) && g@
                    == t@,
                None => self.first_claim() is None || self.first_claim().unwrap().gtg is None,
            },
    {
        if self.display_claims.xui.len() > 0 {
            match &self.display_claims.xui[0].gtg {
                Some(gtg) => Some(gtg.as_str()),
                None => None,
            }
        } else {
            None
        }
    }

    /// The signed-in user's own XUID, from the first display-claims entry.
    pub fn xuid(&self) -> (r: Option<Xuid>)
        ensures
            match r {
                Some(x) => self.first_claim() matches Some(c) && c.xid matches Some(t) && x.0@
                    == t@,
                None => self.first_claim() is None || self.first_claim().unwrap().xid is None,
            },
    {
        if self.display_claims.xui.len() > 0 {
            match &self.display_claims.xui[0].xid {
                Some(xid) => Some(Xuid(xid.clone())),
                None => None,
            }
        } else {
            None
        }
    }
}

} // verus!
