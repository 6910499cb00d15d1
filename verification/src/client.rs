//! The decisions of the Xbox Live client: where it sends requests, how long what it learns
//! stays cached, and when a rejected credential is refreshed and the request retried.
use vstd::prelude::*;

use crate::auth::relying_party::RelyingParty;
use crate::cache::expiry_cache::{
    current_time_micros, lookup_step, refreshed, CachedToken, Lookup, Slot, EXPIRY_SKEW_MICROS,
};
use crate::cache::keyed_expiry_cache::slot_for;
use crate::error::{XboxError, UNAUTHORIZED};
use crate::models::tokens::authorization_value;
use crate::models::{XstsToken, Xuid};

verus! {

/// The timeout of every request the client makes, in seconds.
pub const DEFAULT_TIMEOUT_SECS: u64 = 10;

/// How long a resolved XUID stays cached: 24 hours, in microseconds. XUID resolution isn't a
/// real expiring credential, but gamertags are effectively immutable on the timescale a
/// bot/service cares about, so the same cache shape is reused with a long TTL.
pub const XUID_CACHE_TTL_MICROS: i64 = 86_400_000_000;

/// The XSTS authorization endpoint of Xbox Live.
pub const DEFAULT_XSTS_URL: &'static str = "https://xsts.auth.xboxlive.com/xsts/authorize";

/// The root of Xbox Live's people hub.
pub const DEFAULT_PEOPLEHUB_BASE_URL: &'static str = "https://peoplehub.xboxlive.com";

/// Overridable base URLs for the Xbox Live endpoints this crate calls.
///
/// Exists primarily so tests (and callers proxying/mocking Xbox Live) can point this crate at
/// something other than the real service. [`Default`] points at the real endpoints.
#[derive(Debug, Clone)]
pub struct XboxEndpoints {
    pub xsts_authorize_url: String,
    pub peoplehub_base_url: String,
}

impl Default for XboxEndpoints {
    fn default() -> (r: Self)
        ensures
            r.xsts_authorize_url@ == DEFAULT_XSTS_URL@,
            r.peoplehub_base_url@ == DEFAULT_PEOPLEHUB_BASE_URL@,
    {
        XboxEndpoints {
            xsts_authorize_url: String::from_str(DEFAULT_XSTS_URL),
            peoplehub_base_url: String::from_str(DEFAULT_PEOPLEHUB_BASE_URL),
        }
    }
}

/// The cache entry for a freshly fetched XSTS ticket: the ticket itself, stale once the
/// ticket expires.
pub fn xsts_cache_entry(ticket: XstsToken) -> (r: CachedToken<XstsToken>)
    ensures
        r.value == ticket,
        r.expires_at == ticket.not_after,
{
    let expires_at = ticket.not_after;
    CachedToken::new(ticket, expires_at)
}

/// When an XUID resolved at `now` goes stale: [`XUID_CACHE_TTL_MICROS`] later.
pub open spec fn xuid_expiry(now: int) -> int {
    now + XUID_CACHE_TTL_MICROS
}

/// The cache entry for an XUID resolved at `now`: kept for [`XUID_CACHE_TTL_MICROS`].
pub fn xuid_cache_entry(xuid: Xuid, now: i64) -> (r: CachedToken<Xuid>)
    requires
        now <= i64::MAX - XUID_CACHE_TTL_MICROS,
    ensures
        r.value == xuid,
        r.expires_at == xuid_expiry(now as int),
{
    CachedToken::new(xuid, now + XUID_CACHE_TTL_MICROS)
}

/// The cache entry for an XUID resolved now; `None` when the clock cannot be read, or reads
/// so late that the expiry does not fit in an `i64`.
pub fn xuid_cache_entry_now(xuid: Xuid) -> (r: Option<CachedToken<Xuid>>)
    ensures
        r matches Some(entry) ==> entry.value == xuid && exists|now: i64|
            0 <= now && entry.expires_at == #[trigger] xuid_expiry(now as int),
{
    match current_time_micros() {
        Some(now) => {
            if now <= i64::MAX - XUID_CACHE_TTL_MICROS {
                Some(xuid_cache_entry(xuid, now))
            } else {
                None
            }
        },
        None => None,
    }
}

/// A resolved XUID is served from the cache, with no further search, until it is within the
/// skew window of its 24-hour lifetime running out; from then on the gamertag is looked up
/// again. Whatever the other gamertags' entries hold, they play no part.
pub proof fn lemma_resolved_xuid_stays_cached(
    cache: Map<Seq<char>, Slot<Xuid>>,
    gamertag: Seq<char>,
    entry: CachedToken<Xuid>,
    resolved_at: int,
    later: int,
)
    requires
        entry.expires_at == xuid_expiry(resolved_at),
    ensures
        later < xuid_expiry(resolved_at) - EXPIRY_SKEW_MICROS ==> lookup_step(
            slot_for(cache.insert(gamertag, refreshed(Some(entry))), gamertag),
            later,
        ) == (Lookup::Hit, refreshed(Some(entry))),
        later >= xuid_expiry(resolved_at) - EXPIRY_SKEW_MICROS ==> lookup_step(
            slot_for(cache.insert(gamertag, refreshed(Some(entry))), gamertag),
            later,
        ) == (Lookup::Lead, Slot::<Xuid>::Fetching),
{
}

/// A failed resolution caches nothing: the next lookup of the gamertag searches again.
pub proof fn lemma_failed_resolution_is_retried(
    cache: Map<Seq<char>, Slot<Xuid>>,
    gamertag: Seq<char>,
    later: int,
)
    ensures
        lookup_step(slot_for(cache.insert(gamertag, refreshed(None)), gamertag), later) == (
            Lookup::Lead,
            Slot::<Xuid>::Fetching,
        ),
{
}

/// The body of an XSTS authorization request: a JWT for `relying_party`, in the retail
/// sandbox, on the strength of one user token.
#[derive(Debug, Clone)]
pub struct XstsRequest {
    pub relying_party: String,
    pub token_type: String,
    pub sandbox_id: String,
    pub user_tokens: Vec<String>,
}

/// The XSTS authorization request that exchanges `user_token` for a ticket scoped to
/// `relying_party`.
pub fn xsts_request(user_token: &str, relying_party: RelyingParty) -> (r: XstsRequest)
    ensures
        r.relying_party@ == relying_party.uri(),
        r.token_type@ == "JWT"@,
        r.sandbox_id@ == "RETAIL"@,
        r.user_tokens@.len() == 1,
        r.user_tokens@[0]@ == user_token@,
{
    let mut user_tokens: Vec<String> = Vec::new();
    user_tokens.push(String::from_str(user_token));
    XstsRequest {
        relying_party: String::from_str(relying_party.as_str()),
        token_type: String::from_str("JWT"),
        sandbox_id: String::from_str("RETAIL"),
        user_tokens,
    }
}

/// The `Authorization` header for a people search made with `xsts`. A ticket without display
/// claims cannot authorize the search, which is then reported as the gamertag not being found.
pub fn search_authorization(xsts: &XstsToken, gamertag: &str) -> (r: Result<String, XboxError>)
    ensures
        match xsts.first_claim() {
            Some(c) => r matches Ok(h) && h@ == authorization_value(c.uhs@, xsts.token@),
            None => r matches Err(XboxError::PersonNotFound(g)) && g@ == gamertag@,
        },
{
    match xsts.authorization_header() {
        Some(header) => Ok(header),
        None => Err(XboxError::PersonNotFound(String::from_str(gamertag))),
    }
}

/// What to do after an attempt of an authenticated request.
#[derive(Debug, Clone, Copy, PartialEq, Eq)]
pub enum RetryStep {
    /// Hand the attempt's result to the caller.
    Finish,
    /// Invalidate the XSTS ticket of the relying party and the underlying user token, then
    /// attempt the request once more.
    InvalidateAndRetry,
}

/// Whether `result` is an HTTP 401 (Unauthorized) failure.
pub open spec fn is_unauthorized_result<T>(result: Result<T, XboxError>) -> bool {
    result matches Err(XboxError::HttpStatus { status, .. }) && status == UNAUTHORIZED
}

/// The retry policy of an authenticated request: on an HTTP 401 response the cached
/// credentials are invalidated and the request retried exactly once.
#[derive(Debug)]
pub struct SingleRetry {
    retried: bool,
}

impl SingleRetry {
    /// Whether the request has already been retried.
    pub closed spec fn has_retried(&self) -> bool {
        self.retried
    }

    pub fn new() -> (r: Self)
        ensures
            !r.has_retried(),
    {
        SingleRetry { retried: false }
    }

    /// Decides what follows an attempt that gave `result`: a first attempt rejected with 401
    /// is retried; anything else is handed to the caller.
    pub fn after_attempt<T>(&mut self, result: &Result<T, XboxError>) -> (r: RetryStep)
        ensures
            r == (if !old(self).has_retried() && is_unauthorized_result(*result) {
                RetryStep::InvalidateAndRetry
            } else {
                RetryStep::Finish
            }),
            final(self).has_retried() == (old(self).has_retried() || r
                == RetryStep::InvalidateAndRetry),
    {
        let unauthorized = match result {
            Err(e) => e.is_unauthorized(),
            Ok(_) => false,
        };
        if !self.retried && unauthorized {
            self.retried = true;
            RetryStep::InvalidateAndRetry
        } else {
            RetryStep::Finish
        }
    }
}

/// The outcomes of attempts `results`, each decided by the retry policy in turn, starting from
/// a policy that has retried already or not.
pub open spec fn retry_run<T>(retried: bool, results: Seq<Result<T, XboxError>>) -> Seq<RetryStep>
    decreases results.len(),
{
    if results.len() == 0 {
        Seq::empty()
    } else {
        let step = if !retried && is_unauthorized_result(results[0]) {
            RetryStep::InvalidateAndRetry
        } else {
            RetryStep::Finish
        };
        seq![step] + retry_run(retried || step == RetryStep::InvalidateAndRetry, results.drop_first())
    }
}

/// A request is retried at most once: however its attempts fail, no decision after the first
/// retry asks for another.
pub proof fn lemma_retried_at_most_once<T>(results: Seq<Result<T, XboxError>>, i: int, j: int)
    requires
        0 <= i < j < results.len(),
        retry_run(false, results)[i] == RetryStep::InvalidateAndRetry,
    ensures
        retry_run(false, results)[j] == RetryStep::Finish,
{
    lemma_no_retry_after_retry(results, i, j, false);
}

proof fn lemma_retried_run_finishes<T>(results: Seq<Result<T, XboxError>>, k: int)
    requires
        0 <= k < results.len(),
    ensures
        retry_run(true, results)[k] == RetryStep::Finish,
    decreases results.len(),
{
    let rest = retry_run(true, results.drop_first());
    assert(retry_run(true, results) == seq![RetryStep::Finish] + rest);
    if k > 0 {
        lemma_retry_run_len(true, results.drop_first());
        lemma_retried_run_finishes(results.drop_first(), k - 1);
    }
}

proof fn lemma_retry_run_len<T>(retried: bool, results: Seq<Result<T, XboxError>>)
    ensures
        retry_run(retried, results).len() == results.len(),
    decreases results.len(),
{
    if results.len() > 0 {
        let step = if !retried && is_unauthorized_result(results[0]) {
            RetryStep::InvalidateAndRetry
        } else {
            RetryStep::Finish
        };
        lemma_retry_run_len(retried || step == RetryStep::InvalidateAndRetry, results.drop_first());
    }
}

proof fn lemma_no_retry_after_retry<T>(
    results: Seq<Result<T, XboxError>>,
    i: int,
    j: int,
    retried: bool,
)
    requires
        0 <= i < j < results.len(),
        retry_run(retried, results)[i] == RetryStep::InvalidateAndRetry,
    ensures
        retry_run(retried, results)[j] == RetryStep::Finish,
    decreases results.len(),
{
    let step = if !retried && is_unauthorized_result(results[0]) {
        RetryStep::InvalidateAndRetry
    } else {
        RetryStep::Finish
    };
    let next = retried || step == RetryStep::InvalidateAndRetry;
    let rest = retry_run(next, results.drop_first());
    lemma_retry_run_len(next, results.drop_first());
    assert(retry_run(retried, results) == seq![step] + rest);
    if i == 0 {
        assert(step == RetryStep::InvalidateAndRetry);
        lemma_retried_run_finishes(results.drop_first(), j - 1);
    } else {
        assert(rest[i - 1] == RetryStep::InvalidateAndRetry);
        lemma_no_retry_after_retry(results.drop_first(), i - 1, j - 1, next);
    }
}

} // verus!
