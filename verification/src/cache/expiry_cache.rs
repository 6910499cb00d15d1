//! The expiry-aware, single-flight state of one cached credential.
//!
//! Times are microseconds since the Unix epoch (UTC). The state machine decides, for each
//! lookup, whether the caller may use the cached value, must wait for a refresh that another
//! caller already leads, or must lead a refresh itself; the caller that leads reports the
//! outcome back with [`ExpiryTokenCache::complete_refresh`].
use vstd::prelude::*;

verus! {

/// A cached value paired with the time (microseconds since the Unix epoch) at which it
/// should be considered stale.
#[derive(Debug, Clone)]
pub struct CachedToken<T> {
    pub value: T,
    pub expires_at: i64,
}

impl<T> CachedToken<T> {
    pub fn new(value: T, expires_at: i64) -> (r: Self)
        ensures
            r.value == value,
            r.expires_at == expires_at,
    {
        CachedToken { value, expires_at }
    }
}

/// Buffer subtracted from `expires_at` when deciding whether a cached value is still usable,
/// to avoid handing out a token that expires mid-flight to the caller: one minute.
pub const EXPIRY_SKEW_MICROS: i64 = 60_000_000;

/// A cached value expiring at `expires_at` is stale at `now` once it is within the skew
/// window of expiring.
pub open spec fn is_stale(expires_at: int, now: int) -> bool {
    expires_at <= now + EXPIRY_SKEW_MICROS
}

/// Whether `cached` is stale at `now`.
pub fn token_is_stale<T>(cached: &CachedToken<T>, now: i64) -> (r: bool)
    ensures
        r == is_stale(cached.expires_at as int, now as int),
{
    (cached.expires_at as i128) <= (now as i128) + (EXPIRY_SKEW_MICROS as i128)
}

/// What the cache holds.
#[derive(Debug, Clone)]
pub enum Slot<T> {
    /// Nothing cached and no refresh under way.
    Empty,
    /// A refresh is under way; its leader will report the outcome.
    Fetching,
    /// A value from the last successful refresh.
    Ready(CachedToken<T>),
}

/// What a caller of [`ExpiryTokenCache::get_or_refresh`] is to do.
#[derive(Debug, Clone, Copy, PartialEq, Eq)]
pub enum Lookup {
    /// Use the cached value: it is not stale.
    Hit,
    /// Another caller leads a refresh: wait for its outcome.
    Follow,
    /// Perform the refresh and report its outcome with `complete_refresh`.
    Lead,
}

/// The action a lookup at `now` takes in `slot`, and the state it leaves behind.
pub open spec fn lookup_step<T>(slot: Slot<T>, now: int) -> (Lookup, Slot<T>) {
    match slot {
        Slot::Ready(cached) => if !is_stale(cached.expires_at as int, now) {
            (Lookup::Hit, slot)
        } else {
            (Lookup::Lead, Slot::Fetching)
        },
        Slot::Fetching => (Lookup::Follow, slot),
        Slot::Empty => (Lookup::Lead, Slot::Fetching),
    }
}

/// The value a lookup at `now` may use without a refresh, if any.
pub open spec fn fresh_value<T>(slot: Slot<T>, now: int) -> Option<T> {
    match slot {
        Slot::Ready(cached) => if !is_stale(cached.expires_at as int, now) {
            Some(cached.value)
        } else {
            None
        },
        _ => None,
    }
}

/// The state a refresh leaves behind: the new value on success, nothing on failure, so that a
/// failed refresh does not poison the cache.
pub open spec fn refreshed<T>(outcome: Option<CachedToken<T>>) -> Slot<T> {
    match outcome {
        Some(cached) => Slot::Ready(cached),
        None => Slot::Empty,
    }
}

/// `std::time::SystemTime::now`, read as its distance from `std::time::UNIX_EPOCH`
/// (`SystemTime::duration_since`) in whole seconds and the microseconds of the second
/// (`Duration::as_secs`, `Duration::subsec_micros`); `None` when the system clock reads before
/// the epoch, the one error `duration_since` reports.
///
/// Which instant is read is left unsaid: it is the time. All this states is what
/// `subsec_micros` documents, that the microseconds are less than one million.
#[verifier::external_body]
fn read_system_clock() -> (reading: Option<(u64, u32)>)
    ensures
        reading matches Some((secs, micros)) ==> micros < 1_000_000,
{
    match std::time::SystemTime::now().duration_since(std::time::UNIX_EPOCH) {
        Ok(elapsed) => Some((elapsed.as_secs(), elapsed.subsec_micros())),
        Err(_) => None,
    }
}

/// A clock reading of `secs` whole seconds and `micros` microseconds past the Unix epoch, in
/// microseconds; `None` when that count does not fit in an `i64`.
pub fn micros_since_epoch(secs: u64, micros: u32) -> (r: Option<i64>)
    ensures
        r == (if secs * 1_000_000 + micros <= i64::MAX {
            Some((secs * 1_000_000 + micros) as i64)
        } else {
            None::<i64>
        }),
{
    let total: u128 = (secs as u128) * 1_000_000 + (micros as u128);
    if total <= (i64::MAX as u128) {
        Some(total as i64)
    } else {
        None
    }
}

/// The current time in microseconds since the Unix epoch, as [`micros_since_epoch`] counts
/// the system clock's reading; `None` when the system clock reads before the epoch or further
/// from it than an `i64` of microseconds reaches.
pub fn current_time_micros() -> (now: Option<i64>)
    ensures
        now matches Some(t) ==> 0 <= t,
{
    match read_system_clock() {
        Some((secs, micros)) => micros_since_epoch(secs, micros),
        None => None,
    }
}

/// The state giving up a refresh under way leaves behind.
pub open spec fn abandoned<T>(slot: Slot<T>) -> Slot<T> {
    match slot {
        Slot::Fetching => Slot::Empty,
        _ => slot,
    }
}

/// An expiry-aware, single-flight cache for one token/credential.
///
/// - A lookup returns [`Lookup::Hit`] while the cached value is not within the skew window of
///   expiring.
/// - If the cache is empty or expired, exactly one lookup returns [`Lookup::Lead`]; until that
///   refresh is reported, every other lookup returns [`Lookup::Follow`].
/// - [`ExpiryTokenCache::invalidate`] forces the next lookup to lead a refresh, e.g. after an
///   authenticated request comes back 401.
#[derive(Debug)]
pub struct ExpiryTokenCache<T> {
    slot: Slot<T>,
}

impl<T> View for ExpiryTokenCache<T> {
    type V = Slot<T>;

    open spec fn view(&self) -> Slot<T> {
        self.slot_state()
    }
}

impl<T> Default for ExpiryTokenCache<T> {
    fn default() -> (r: Self)
        ensures
            r@ == Slot::<T>::Empty,
    {
        ExpiryTokenCache::new()
    }
}

impl<T> ExpiryTokenCache<T> {
    /// What the cache holds.
    pub closed spec fn slot_state(&self) -> Slot<T> {
        self.slot
    }

    pub fn new() -> (r: Self)
        ensures
            r@ == Slot::<T>::Empty,
    {
        ExpiryTokenCache { slot: Slot::Empty }
    }

    /// Decides what a caller that wants the value at `now` is to do: use the cached value,
    /// follow a refresh already under way, or lead a new one.
    pub fn get_or_refresh(&mut self, now: i64) -> (r: Lookup)
        ensures
            (r, final(self)@) == lookup_step(old(self)@, now as int),
    {
        match &self.slot {
            Slot::Ready(cached) => {
                if !token_is_stale(cached, now) {
                    return Lookup::Hit;
                }
            },
            Slot::Fetching => {
                return Lookup::Follow;
            },
            Slot::Empty => {},
        }
        self.slot = Slot::Fetching;
        Lookup::Lead
    }

    /// [`ExpiryTokenCache::get_or_refresh`] at the current time; `None`, with the cache left
    /// as it is, when the clock cannot be read.
    pub fn get_or_refresh_now(&mut self) -> (r: Option<Lookup>)
        ensures
            match r {
                Some(lookup) => exists|now: i64|
                    0 <= now && (lookup, final(self)@) == #[trigger] lookup_step(
                        old(self)@,
                        now as int,
                    ),
                None => final(self)@ == old(self)@,
            },
    {
        match current_time_micros() {
            Some(now) => Some(self.get_or_refresh(now)),
            None => None,
        }
    }

    /// Records the outcome of the refresh the caller led: the new value on success, nothing
    /// on failure.
    pub fn complete_refresh(&mut self, outcome: Option<CachedToken<T>>)
        ensures
            final(self)@ == refreshed(outcome),
    {
        self.slot = match outcome {
            Some(cached) => Slot::Ready(cached),
            None => Slot::Empty,
        };
    }

    /// The value the cache holds, stale or not: what a [`Lookup::Hit`] hands out.
    pub fn cached_value(&self) -> (r: Option<&T>)
        ensures
            match r {
                Some(v) => self@ matches Slot::Ready(cached) && cached.value == *v,
                None => !(self@ is Ready),
            },
    {
        match &self.slot {
            Slot::Ready(cached) => Some(&cached.value),
            _ => None,
        }
    }

    /// Returns the currently cached value without triggering a refresh, if one exists and is
    /// not stale at `now`.
    pub fn get_existing(&self, now: i64) -> (r: Option<&T>)
        ensures
            match r {
                Some(v) => fresh_value(self@, now as int) == Some(*v),
                None => fresh_value(self@, now as int) is None,
            },
    {
        match &self.slot {
            Slot::Ready(cached) => {
                if !token_is_stale(cached, now) {
                    Some(&cached.value)
                } else {
                    None
                }
            },
            _ => None,
        }
    }

    /// [`ExpiryTokenCache::get_existing`] at the current time; `None` when the clock cannot be
    /// read.
    pub fn get_existing_now(&self) -> (r: Option<Option<&T>>)
        ensures
            r matches Some(found) ==> exists|now: i64|
                0 <= now && match found {
                    Some(v) => #[trigger] fresh_value(self@, now as int) == Some(*v),
                    None => fresh_value(self@, now as int) is None,
                },
    {
        match current_time_micros() {
            Some(now) => Some(self.get_existing(now)),
            None => None,
        }
    }

    /// Gives up the refresh under way, e.g. when its leader went away before reporting an
    /// outcome, so that the next lookup leads a new one. A cache with no refresh under way is
    /// left as it is.
    pub fn abandon_refresh(&mut self)
        ensures
            final(self)@ == abandoned(old(self)@),
    {
        let fetching = match &self.slot {
            Slot::Fetching => true,
            _ => false,
        };
        if fetching {
            self.slot = Slot::Empty;
        }
    }

    /// Forces the next call to `get_or_refresh` to lead a refresh, e.g. after the server
    /// rejects the cached credential.
    pub fn invalidate(&mut self)
        ensures
            final(self)@ == Slot::<T>::Empty,
    {
        self.slot = Slot::Empty;
    }
}

/// The actions a run of lookups at `times` takes from `slot`, with no refresh reported in
/// between, and the state they leave behind.
pub open spec fn lookup_run<T>(slot: Slot<T>, times: Seq<int>) -> (Seq<Lookup>, Slot<T>)
    decreases times.len(),
{
    if times.len() == 0 {
        (Seq::empty(), slot)
    } else {
        let (first, next) = lookup_step(slot, times[0]);
        let (rest, last) = lookup_run(next, times.drop_first());
        (seq![first] + rest, last)
    }
}

/// How many of `actions` lead a refresh.
pub open spec fn leaders(actions: Seq<Lookup>) -> nat
    decreases actions.len(),
{
    if actions.len() == 0 {
        0
    } else {
        (if actions[0] == Lookup::Lead { 1nat } else { 0nat }) + leaders(actions.drop_first())
    }
}

proof fn lemma_leaders_push_front(a: Lookup, rest: Seq<Lookup>)
    ensures
        leaders(seq![a] + rest) == (if a == Lookup::Lead { 1nat } else { 0nat }) + leaders(rest),
{
    assert((seq![a] + rest).drop_first() =~= rest);
}

/// While a refresh is under way every lookup follows it and the state stays as it is.
pub proof fn lemma_followers_wait<T>(times: Seq<int>)
    ensures
        leaders(lookup_run(Slot::<T>::Fetching, times).0) == 0,
        lookup_run(Slot::<T>::Fetching, times).1 == Slot::<T>::Fetching,
        forall|i: int|
            0 <= i < times.len() ==> #[trigger] lookup_run(Slot::<T>::Fetching, times).0[i]
                == Lookup::Follow,
        lookup_run(Slot::<T>::Fetching, times).0.len() == times.len(),
    decreases times.len(),
{
    if times.len() > 0 {
        lemma_followers_wait::<T>(times.drop_first());
        let (rest, _) = lookup_run(Slot::<T>::Fetching, times.drop_first());
        lemma_leaders_push_front(Lookup::Follow, rest);
        assert forall|i: int| 0 <= i < times.len() implies #[trigger] lookup_run(
            Slot::<T>::Fetching,
            times,
        ).0[i] == Lookup::Follow by {
            if i > 0 {
                assert(lookup_run(Slot::<T>::Fetching, times).0[i] == rest[i - 1]);
            }
        }
    }
}

/// Single flight: whatever the cache holds, a run of lookups with no refresh reported in
/// between leads at most one refresh.
pub proof fn lemma_single_flight<T>(slot: Slot<T>, times: Seq<int>)
    ensures
        leaders(lookup_run(slot, times).0) <= 1,
    decreases times.len(),
{
    if times.len() > 0 {
        let (first, next) = lookup_step(slot, times[0]);
        let (rest, _) = lookup_run(next, times.drop_first());
        lemma_leaders_push_front(first, rest);
        if first == Lookup::Lead {
            lemma_followers_wait::<T>(times.drop_first());
        } else {
            lemma_single_flight(next, times.drop_first());
        }
    }
}

/// A value stored by a successful refresh is handed out without a further refresh for as long
/// as it is not stale, and looking it up leaves the cache unchanged.
pub proof fn lemma_fresh_value_served<T>(cached: CachedToken<T>, now: int)
    requires
        !is_stale(cached.expires_at as int, now),
    ensures
        lookup_step(refreshed(Some(cached)), now) == (Lookup::Hit, refreshed(Some(cached))),
        fresh_value(refreshed(Some(cached)), now) == Some(cached.value),
{
}

/// A value that has become stale is refreshed: the lookup leads a refresh.
pub proof fn lemma_stale_value_refreshed<T>(cached: CachedToken<T>, now: int)
    requires
        is_stale(cached.expires_at as int, now),
    ensures
        lookup_step(refreshed(Some(cached)), now) == (Lookup::Lead, Slot::<T>::Fetching),
        fresh_value(refreshed(Some(cached)), now) is None,
{
}

/// A refresh given up by its leader is led anew by the next lookup, whoever makes it.
pub proof fn lemma_abandoned_refresh_is_led_anew<T>(now: int)
    ensures
        lookup_step(abandoned(Slot::<T>::Fetching), now) == (Lookup::Lead, Slot::<T>::Fetching),
{
}

/// After an invalidation, or after a failed refresh, nothing is handed out and the next
/// lookup leads a new refresh: an error does not poison the cache.
pub proof fn lemma_empty_refetches<T>(now: int)
    ensures
        refreshed::<T>(None) == Slot::<T>::Empty,
        lookup_step(Slot::<T>::Empty, now) == (Lookup::Lead, Slot::<T>::Fetching),
        fresh_value(Slot::<T>::Empty, now) is None,
{
}

} // verus!
