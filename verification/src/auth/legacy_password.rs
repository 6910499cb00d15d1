//! Username/password sign-in to Xbox Live by scraping the Microsoft login page, the same way
//! the Xbox Live web login flow works under the hood.
//!
//! This is **not an officially documented API** — it depends on the exact markup/JS shape of
//! `login.live.com`'s login page and may break if Microsoft changes it. It exists to support
//! use cases where an interactive OAuth2 device-code flow isn't practical (e.g. a fully
//! unattended service account).
//!
//! The network exchanges themselves are made by the caller; this module reads what the
//! login page and the login redirect hold, and builds what is sent back.
use vstd::prelude::*;

use crate::error::{is_redirect_status, XboxError};

verus! {

/// Finds the PPFT hidden form field in the login page; its value is the first group.
pub const PPFT_PATTERN: &'static str =
    r#"<input type=\\?"hidden\\?" name=\\?"PPFT\\?" id=\\?"i0327\\?" value=\\?"(.*?)\\?"/>"#;

/// Finds the login POST URL in the login page; the URL is the first group.
pub const POST_URL_PATTERN: &'static str = r#"\\?"urlPost\\?":\\?"(.*?)\\?""#;

/// Finds the RPS ticket (`access_token=...&`) in the login redirect URL; the ticket is the
/// first group.
pub const RPS_TICKET_PATTERN: &'static str = r".*access_token=(.*?)&";

/// The text of the first capture group of the leftmost match of the regular expression
/// `pattern` in `haystack`, as the `regex` crate finds it; `None` when `pattern` is not a valid
/// expression, when nothing matches, or when the group takes no part in the match.
pub uninterp spec fn regex_first_group(pattern: Seq<char>, haystack: Seq<char>) -> Option<
    Seq<char>,
>;

/// `regex::Regex::new(pattern)` followed by `Regex::captures(haystack)` and `Captures::get(1)`:
/// the text of the first capture group of the leftmost match, as [`regex_first_group`] names
/// it. A pattern that does not compile gives `None`, as no match does.
#[verifier::external_body]
fn first_capture(pattern: &str, haystack: &str) -> (r: Option<String>)
    ensures
        match r {
            Some(c) => regex_first_group(pattern@, haystack@) == Some(c@),
            None => regex_first_group(pattern@, haystack@) is None,
        },
{
    let re = regex::Regex::new(pattern).ok()?;
    let caps = re.captures(haystack)?;
    caps.get(1).map(|m| m.as_str().to_string())
}

/// The PPFT token in the login page `body`, if any.
pub fn capture_ppft(body: &str) -> (r: Option<String>)
    ensures
        match r {
            Some(c) => regex_first_group(PPFT_PATTERN@, body@) == Some(c@),
            None => regex_first_group(PPFT_PATTERN@, body@) is None,
        },
{
    first_capture(PPFT_PATTERN, body)
}

/// The login POST URL in the login page `body`, if any.
pub fn capture_post_url(body: &str) -> (r: Option<String>)
    ensures
        match r {
            Some(c) => regex_first_group(POST_URL_PATTERN@, body@) == Some(c@),
            None => regex_first_group(POST_URL_PATTERN@, body@) is None,
        },
{
    first_capture(POST_URL_PATTERN, body)
}

/// The RPS ticket in the login redirect URL `location`, if any.
pub fn capture_rps_ticket(location: &str) -> (r: Option<String>)
    ensures
        match r {
            Some(c) => regex_first_group(RPS_TICKET_PATTERN@, location@) == Some(c@),
            None => regex_first_group(RPS_TICKET_PATTERN@, location@) is None,
        },
{
    first_capture(RPS_TICKET_PATTERN, location)
}

/// Reads the PPFT token and the login POST URL out of the Microsoft login page `body`.
pub fn parse_login_page(body: &str) -> (r: Result<(String, String), XboxError>)
    ensures
        match regex_first_group(PPFT_PATTERN@, body@) {
            None => r matches Err(XboxError::PpftNotFound),
            Some(ppft) => match regex_first_group(POST_URL_PATTERN@, body@) {
                None => r matches Err(XboxError::PostUrlNotFound),
                Some(url) => r matches Ok((p, u)) && p@ == ppft && u@ == url,
            },
        },
{
    let ppft = match capture_ppft(body) {
        Some(ppft) => ppft,
        None => return Err(XboxError::PpftNotFound),
    };
    let post_url = match capture_post_url(body) {
        Some(url) => url,
        None => return Err(XboxError::PostUrlNotFound),
    };
    Ok((ppft, post_url))
}

/// Reads the RPS ticket out of the response to the login form, given its HTTP `status` and
/// its `Location` header, if it has a readable one.
///
/// A sign-in that succeeds redirects to a URL carrying the ticket. A response that does not
/// redirect at all means the account rejected the username or password.
pub fn parse_login_redirect(status: u16, location: Option<&str>) -> (r: Result<
    String,
    XboxError,
>)
    ensures
        match location {
            Some(loc) => match regex_first_group(RPS_TICKET_PATTERN@, loc@) {
                Some(ticket) => r matches Ok(t) && t@ == ticket,
                None => r matches Err(XboxError::RpsTicketNotFound),
            },
            None => if is_redirect_status(status) {
                r matches Err(XboxError::MissingRedirectLocation)
            } else {
                r matches Err(XboxError::InvalidCredentials)
            },
        },
{
    match location {
        Some(loc) => match capture_rps_ticket(loc) {
            Some(ticket) => Ok(ticket),
            None => Err(XboxError::RpsTicketNotFound),
        },
        None => {
            if 300 <= status && status < 400 {
                Err(XboxError::MissingRedirectLocation)
            } else {
                Err(XboxError::InvalidCredentials)
            }
        },
    }
}

/// The `RpsTicket` property of the user-token request: `d=<ticket>`.
pub fn rps_ticket_property(rps_ticket: &str) -> (r: String)
    ensures
        r@ == "d="@ + rps_ticket@,
{
    let mut r = String::from_str("d=");
    r.append(rps_ticket);
    r
}

/// The body of the user-token request: a JWT for Xbox Live's authentication service, on the
/// strength of an RPS ticket.
#[derive(Debug, Clone)]
pub struct UserTokenRequest {
    pub relying_party: String,
    pub token_type: String,
    pub auth_method: String,
    pub site_name: String,
    pub rps_ticket: String,
}

/// The user-token request that exchanges `rps_ticket` for an Xbox Live user token.
pub fn user_token_request(rps_ticket: &str) -> (r: UserTokenRequest)
    ensures
        r.relying_party@ == "http://auth.xboxlive.com"@,
        r.token_type@ == "JWT"@,
        r.auth_method@ == "RPS"@,
        r.site_name@ == "user.auth.xboxlive.com"@,
        r.rps_ticket@ == "d="@ + rps_ticket@,
{
    UserTokenRequest {
        relying_party: String::from_str("http://auth.xboxlive.com"),
        token_type: String::from_str("JWT"),
        auth_method: String::from_str("RPS"),
        site_name: String::from_str("user.auth.xboxlive.com"),
        rps_ticket: rps_ticket_property(rps_ticket),
    }
}

/// The login form posted to the login POST URL.
#[derive(Debug, Clone)]
pub struct LoginForm {
    pub login: String,
    pub passwd: String,
    pub ppft: String,
    pub login_options: String,
}

/// Signs in to Xbox Live using a plain username and password, via the same login flow the
/// Xbox Live website itself uses.
pub struct LegacyPasswordProvider {
    username: String,
    password: String,
}

impl LegacyPasswordProvider {
    /// The account's username.
    pub closed spec fn username(&self) -> Seq<char> {
        self.username@
    }

    /// The account's password.
    pub closed spec fn password(&self) -> Seq<char> {
        self.password@
    }

    pub fn new(username: &str, password: &str) -> (r: Self)
        ensures
            r.username() == username@,
            r.password() == password@,
    {
        LegacyPasswordProvider {
            username: String::from_str(username),
            password: String::from_str(password),
        }
    }

    /// The login form for this account, carrying the PPFT token read from the login page.
    pub fn login_form(&self, ppft: String) -> (r: LoginForm)
        ensures
            r.login@ == self.username(),
            r.passwd@ == self.password(),
            r.ppft == ppft,
            r.login_options@ == "3"@,
    {
        LoginForm {
            login: self.username.clone(),
            passwd: self.password.clone(),
            ppft,
            login_options: String::from_str("3"),
        }
    }
}

} // verus!
