//! Errors produced by this crate.
use std::sync::Arc;

use vstd::prelude::*;

verus! {

#[verifier::external_type_specification]
#[verifier::external_body]
pub struct ExReqwestError(reqwest::Error);

/// Errors produced by this crate.
#[derive(Debug, Clone)]
pub enum XboxError {
    /// An HTTP request completed but returned a non-2xx status.
    HttpStatus { url: String, status: u16 },
    /// The underlying HTTP request itself failed (connection, timeout, decode, ...).
    Network(Arc<reqwest::Error>),
    /// No Xbox Live user matching the given gamertag was found.
    PersonNotFound(String),
    /// Failed to locate the PPFT hidden form field in the Microsoft login page.
    PpftNotFound,
    /// Failed to locate the login POST URL in the Microsoft login page.
    PostUrlNotFound,
    /// The login redirect response was missing a `Location` header.
    MissingRedirectLocation,
    /// Failed to extract the RPS ticket (`access_token=...`) from the login redirect URL.
    RpsTicketNotFound,
    /// The Microsoft account rejected the username or password.
    InvalidCredentials,
}

/// HTTP 401 Unauthorized.
pub const UNAUTHORIZED: u16 = 401;

/// Whether `status` is a 2xx (success) HTTP status.
pub open spec fn is_success_status(status: u16) -> bool {
    200 <= status && status < 300
}

/// Whether `status` is a 3xx (redirection) HTTP status.
pub open spec fn is_redirect_status(status: u16) -> bool {
    300 <= status && status < 400
}

impl XboxError {
    /// Whether this error represents an HTTP 401 (Unauthorized) response,
    /// indicating a cached credential has expired or been revoked server-side.
    pub fn is_unauthorized(&self) -> (r: bool)
        ensures
            r == (self matches XboxError::HttpStatus { status, .. } && status == UNAUTHORIZED),
    {
        match self {
            XboxError::HttpStatus { status, .. } => *status == UNAUTHORIZED,
            _ => false,
        }
    }
}

/// Turns the status of a completed request to `url` into a result: success for a 2xx
/// status, [`XboxError::HttpStatus`] naming `url` and `status` otherwise.
pub fn check_status(url: &str, status: u16) -> (r: Result<(), XboxError>)
    ensures
        is_success_status(status) ==> r is Ok,
        !is_success_status(status) ==> (r matches Err(XboxError::HttpStatus { url: u, status: s })
            && u@ == url@ && s == status),
{
    if 200 <= status && status < 300 {
        Ok(())
    } else {
        Err(XboxError::HttpStatus { url: String::from_str(url), status })
    }
}

} // verus!
