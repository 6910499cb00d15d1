//! An [`ExpiryTokenCache`] per key, for credentials that vary by some dimension (e.g. an XSTS
//! ticket per relying party, or a resolved XUID per gamertag).
use vstd::prelude::*;

use dashmap::DashMap;

use super::expiry_cache::{
    abandoned, current_time_micros, fresh_value, lookup_step, refreshed, CachedToken,
    ExpiryTokenCache, Lookup, Slot,
};

verus! {

#[verifier::external_type_specification]
#[verifier::external_body]
#[verifier::reject_recursive_types(K)]
#[verifier::reject_recursive_types(V)]
#[verifier::reject_recursive_types(S)]
pub struct ExDashMap<K, V, S>(DashMap<K, V, S>);

/// The entries of a `DashMap` from keys to positions, keyed by the keys' characters.
pub uninterp spec fn position_entries(m: DashMap<String, usize>) -> Map<Seq<char>, usize>;

/// `DashMap::new`: an empty map.
#[verifier::external_body]
fn new_positions() -> (fresh: DashMap<String, usize>)
    ensures
        position_entries(fresh).dom() == Set::<Seq<char>>::empty(),
{
    DashMap::new()
}

/// `DashMap::get`, reading the value out of the returned guard: the position recorded for
/// `key`, if any. `String` keys are hashed and compared by their characters.
#[verifier::external_body]
fn position_of(m: &DashMap<String, usize>, key: &str) -> (r: Option<usize>)
    ensures
        match r {
            Some(i) => position_entries(*m).dom().contains(key@) && position_entries(*m)[key@]
                == i,
            None => !position_entries(*m).dom().contains(key@),
        },
{
    m.get(key).map(|entry| *entry.value())
}

/// `DashMap::insert`: records position `i` for `key`, replacing any earlier one, which it
/// returns.
#[verifier::external_body]
fn record_position(m: &mut DashMap<String, usize>, key: String, i: usize) -> (r: Option<usize>)
    ensures
        position_entries(*final(m)) == position_entries(*old(m)).insert(key@, i),
        match r {
            Some(j) => position_entries(*old(m)).dom().contains(key@) && position_entries(
                *old(m),
            )[key@] == j,
            None => !position_entries(*old(m)).dom().contains(key@),
        },
{
    m.insert(key, i)
}

/// What `m` holds for `key`: its slot, or an empty one for a key never looked up.
pub open spec fn slot_for<T>(m: Map<Seq<char>, Slot<T>>, key: Seq<char>) -> Slot<T> {
    if m.dom().contains(key) {
        m[key]
    } else {
        Slot::Empty
    }
}

/// The state `invalidate(key)` leaves behind: the key's slot emptied, if the key is known.
pub open spec fn invalidated<T>(m: Map<Seq<char>, Slot<T>>, key: Seq<char>) -> Map<
    Seq<char>,
    Slot<T>,
> {
    if m.dom().contains(key) {
        m.insert(key, Slot::Empty)
    } else {
        m
    }
}

/// An [`ExpiryTokenCache`] per key, single-flighted per key.
///
/// Each key's cache lives at a position of `slots`; `positions` records it. Keys are never
/// forgotten, so a position once handed out stays with its key.
pub struct KeyedExpiryTokenCache<T> {
    positions: DashMap<String, usize>,
    slots: Vec<ExpiryTokenCache<T>>,
}

impl<T> View for KeyedExpiryTokenCache<T> {
    type V = Map<Seq<char>, Slot<T>>;

    open spec fn view(&self) -> Map<Seq<char>, Slot<T>> {
        self.slot_map()
    }
}

impl<T> Default for KeyedExpiryTokenCache<T> {
    fn default() -> (r: Self)
        ensures
            r.wf(),
            r@ == Map::<Seq<char>, Slot<T>>::empty(),
    {
        KeyedExpiryTokenCache::new()
    }
}

impl<T> KeyedExpiryTokenCache<T> {
    /// Each known key's slot, by key.
    pub closed spec fn slot_map(&self) -> Map<Seq<char>, Slot<T>> {
        position_entries(self.positions).map_values(|i: usize| self.slots@[i as int]@)
    }

    /// Every recorded position is in range and no two keys share one.
    pub closed spec fn wf(&self) -> bool {
        &&& forall|k: Seq<char>| #[trigger]
            position_entries(self.positions).dom().contains(k) ==> position_entries(
                self.positions,
            )[k] < self.slots.len()
        &&& forall|k1: Seq<char>, k2: Seq<char>|
            #![trigger position_entries(self.positions)[k1], position_entries(self.positions)[k2]]
            position_entries(self.positions).dom().contains(k1) && position_entries(
                self.positions,
            ).dom().contains(k2) && k1 != k2 ==> position_entries(self.positions)[k1]
                != position_entries(self.positions)[k2]
    }

    pub fn new() -> (r: Self)
        ensures
            r.wf(),
            r@ == Map::<Seq<char>, Slot<T>>::empty(),
    {
        let r = KeyedExpiryTokenCache { positions: new_positions(), slots: Vec::new() };
        assert(r@ =~= Map::<Seq<char>, Slot<T>>::empty());
        r
    }

    /// The position of `key`'s cache, created empty if the key is new.
    fn position_for(&mut self, key: &str) -> (i: usize)
        requires
            old(self).wf(),
        ensures
            final(self).wf(),
            i < final(self).slots.len(),
            position_entries(final(self).positions).dom().contains(key@),
            position_entries(final(self).positions)[key@] == i,
            final(self)@ == old(self)@.insert(key@, slot_for(old(self)@, key@)),
    {
        match position_of(&self.positions, key) {
            Some(i) => {
                proof {
                    assert(self@.dom().contains(key@));
                    assert(self@ =~= self@.insert(key@, slot_for(self@, key@)));
                }
                i
            },
            None => {
                let ghost old_map = self@;
                let ghost old_entries = position_entries(self.positions);
                let i = self.slots.len();
                self.slots.push(ExpiryTokenCache::new());
                record_position(&mut self.positions, String::from_str(key), i);
                proof {
                    let entries = position_entries(self.positions);
                    assert(entries == old_entries.insert(key@, i));
                    assert forall|k: Seq<char>| #[trigger] entries.dom().contains(k) implies entries[k]
                        < self.slots.len() by {
                        if k != key@ {
                            assert(old_entries.dom().contains(k));
                        }
                    }
                    assert forall|k1: Seq<char>, k2: Seq<char>|
                        entries.dom().contains(k1) && entries.dom().contains(k2) && k1 != k2
                            implies #[trigger] entries[k1] != #[trigger] entries[k2] by {
                        if k1 != key@ && k2 != key@ {
                            assert(old_entries.dom().contains(k1));
                            assert(old_entries.dom().contains(k2));
                        } else if k1 == key@ {
                            assert(old_entries.dom().contains(k2));
                            assert(old_entries[k2] < i);
                        } else {
                            assert(old_entries.dom().contains(k1));
                            assert(old_entries[k1] < i);
                        }
                    }
                    assert forall|k: Seq<char>| #[trigger]
                        old_entries.dom().contains(k) implies self.slots@[old_entries[k] as int]
                        == old(self).slots@[old_entries[k] as int] by {}
                    assert(self@ =~= old_map.insert(key@, Slot::<T>::Empty));
                }
                i
            },
        }
    }

    /// Decides, for `key`, what a caller that wants the value at `now` is to do; the other
    /// keys' caches are left as they are.
    pub fn get_or_refresh(&mut self, key: &str, now: i64) -> (r: Lookup)
        requires
            old(self).wf(),
        ensures
            final(self).wf(),
            r == lookup_step(slot_for(old(self)@, key@), now as int).0,
            final(self)@ == old(self)@.insert(
                key@,
                lookup_step(slot_for(old(self)@, key@), now as int).1,
            ),
    {
        let i = self.position_for(key);
        let ghost mid = self@;
        let ghost mid_slots = self.slots@;
        assert(mid[key@] == mid_slots[i as int]@);
        let r = self.slots[i].get_or_refresh(now);
        proof {
            let entries = position_entries(self.positions);
            assert forall|k: Seq<char>| #[trigger]
                entries.dom().contains(k) && k != key@ implies self.slots@[entries[k] as int]
                == mid_slots[entries[k] as int] by {}
            assert(self@ =~= mid.insert(key@, self.slots@[i as int]@));
        }
        r
    }

    /// [`KeyedExpiryTokenCache::get_or_refresh`] at the current time; `None`, with the cache
    /// left as it is, when the clock cannot be read.
    pub fn get_or_refresh_now(&mut self, key: &str) -> (r: Option<Lookup>)
        requires
            old(self).wf(),
        ensures
            final(self).wf(),
            match r {
                Some(lookup) => exists|now: i64|
                    {
                        &&& 0 <= now
                        &&& lookup == #[trigger] lookup_step(slot_for(old(self)@, key@), now as int).0
                        &&& final(self)@ == old(self)@.insert(
                            key@,
                            lookup_step(slot_for(old(self)@, key@), now as int).1,
                        )
                    },
                None => final(self)@ == old(self)@,
            },
    {
        match current_time_micros() {
            Some(now) => Some(self.get_or_refresh(key, now)),
            None => None,
        }
    }

    /// Records, for `key`, the outcome of the refresh the caller led.
    pub fn complete_refresh(&mut self, key: &str, outcome: Option<CachedToken<T>>)
        requires
            old(self).wf(),
        ensures
            final(self).wf(),
            final(self)@ == old(self)@.insert(key@, refreshed(outcome)),
    {
        let i = self.position_for(key);
        let ghost mid = self@;
        let ghost mid_slots = self.slots@;
        self.slots[i].complete_refresh(outcome);
        proof {
            let entries = position_entries(self.positions);
            assert forall|k: Seq<char>| #[trigger]
                entries.dom().contains(k) && k != key@ implies self.slots@[entries[k] as int]
                == mid_slots[entries[k] as int] by {}
            assert(self@ =~= mid.insert(key@, refreshed(outcome)));
        }
    }

    /// The value cached for `key`, stale or not: what a [`Lookup::Hit`] hands out.
    pub fn cached_value(&self, key: &str) -> (r: Option<&T>)
        requires
            self.wf(),
        ensures
            match r {
                Some(v) => slot_for(self@, key@) matches Slot::Ready(cached) && cached.value == *v,
                None => !(slot_for(self@, key@) is Ready),
            },
    {
        match position_of(&self.positions, key) {
            Some(i) => self.slots[i].cached_value(),
            None => None,
        }
    }

    /// Returns the currently cached value for `key`, if one exists and is not stale at `now`.
    pub fn get_existing(&self, key: &str, now: i64) -> (r: Option<&T>)
        requires
            self.wf(),
        ensures
            match r {
                Some(v) => fresh_value(slot_for(self@, key@), now as int) == Some(*v),
                None => fresh_value(slot_for(self@, key@), now as int) is None,
            },
    {
        match position_of(&self.positions, key) {
            Some(i) => self.slots[i].get_existing(now),
            None => None,
        }
    }

    /// [`KeyedExpiryTokenCache::get_existing`] at the current time; `None` when the clock
    /// cannot be read.
    pub fn get_existing_now(&self, key: &str) -> (r: Option<Option<&T>>)
        requires
            self.wf(),
        ensures
            r matches Some(found) ==> exists|now: i64|
                0 <= now && match found {
                    Some(v) => #[trigger] fresh_value(slot_for(self@, key@), now as int) == Some(*v),
                    None => fresh_value(slot_for(self@, key@), now as int) is None,
                },
    {
        match current_time_micros() {
            Some(now) => Some(self.get_existing(key, now)),
            None => None,
        }
    }

    /// Forces the next call to `get_or_refresh` for `key` to lead a refresh; the other keys'
    /// caches are left as they are.
    pub fn invalidate(&mut self, key: &str)
        requires
            old(self).wf(),
        ensures
            final(self).wf(),
            final(self)@ == invalidated(old(self)@, key@),
    {
        match position_of(&self.positions, key) {
            Some(i) => {
                let ghost mid = self@;
                let ghost mid_slots = self.slots@;
                self.slots[i].invalidate();
                proof {
                    let entries = position_entries(self.positions);
                    assert forall|k: Seq<char>| #[trigger]
                        entries.dom().contains(k) && k != key@ implies self.slots@[entries[k] as int]
                        == mid_slots[entries[k] as int] by {}
                    assert(self@ =~= mid.insert(key@, Slot::<T>::Empty));
                }
            },
            None => {},
        }
    }
    /// Gives up the refresh under way for `key`, e.g. when its leader went away before
    /// reporting an outcome, so that the next lookup for `key` leads a new one; the other keys'
    /// caches are left as they are.
    pub fn abandon_refresh(&mut self, key: &str)
        requires
            old(self).wf(),
        ensures
            final(self).wf(),
            final(self)@ == abandoned_for(old(self)@, key@),
    {
        match position_of(&self.positions, key) {
            Some(i) => {
                let ghost mid = self@;
                let ghost mid_slots = self.slots@;
                self.slots[i].abandon_refresh();
                proof {
                    let entries = position_entries(self.positions);
                    assert forall|k: Seq<char>| #[trigger]
                        entries.dom().contains(k) && k != key@ implies self.slots@[entries[k] as int]
                        == mid_slots[entries[k] as int] by {}
                    assert(mid[key@] == mid_slots[i as int]@);
                    assert(self@ =~= mid.insert(key@, abandoned(mid[key@])));
                }
            },
            None => {},
        }
    }
}

/// The state `abandon_refresh(key)` leaves behind: the refresh under way for the key, if any,
/// given up.
pub open spec fn abandoned_for<T>(m: Map<Seq<char>, Slot<T>>, key: Seq<char>) -> Map<
    Seq<char>,
    Slot<T>,
> {
    if m.dom().contains(key) {
        m.insert(key, abandoned(m[key]))
    } else {
        m
    }
}

/// Keys are cached independently: invalidating one key leaves what every other key holds as
/// it was.
pub proof fn lemma_invalidate_only_affects_one_key<T>(
    m: Map<Seq<char>, Slot<T>>,
    key: Seq<char>,
    other: Seq<char>,
)
    requires
        other != key,
    ensures
        slot_for(invalidated(m, key), other) == slot_for(m, other),
        slot_for(invalidated(m, key), key) == Slot::<T>::Empty,
{
}

/// Keys are cached independently: a lookup or a reported refresh for one key leaves what every
/// other key holds as it was.
pub proof fn lemma_other_keys_untouched<T>(
    m: Map<Seq<char>, Slot<T>>,
    key: Seq<char>,
    slot: Slot<T>,
    other: Seq<char>,
)
    requires
        other != key,
    ensures
        slot_for(m.insert(key, slot), other) == slot_for(m, other),
        slot_for(m.insert(key, slot), key) == slot,
{
}

/// A call on a cache: what a caller asks and, for the keyed cache, of which key.
pub enum CacheCall<T> {
    /// `get_or_refresh(key, now)`.
    GetOrRefresh { key: Seq<char>, now: int },
    /// `get_existing(key, now)`.
    GetExisting { key: Seq<char>, now: int },
    /// `complete_refresh(key, outcome)`.
    CompleteRefresh { key: Seq<char>, outcome: Option<CachedToken<T>> },
    /// `invalidate(key)`.
    Invalidate { key: Seq<char> },
    /// `abandon_refresh(key)`.
    AbandonRefresh { key: Seq<char> },
}

/// What a call answers: the action of a `get_or_refresh` (a `Lead` is a generator run), the
/// value of a `get_existing`, nothing for the others.
pub enum CacheAnswer<T> {
    Action(Lookup),
    Value(Option<T>),
    Done,
}

impl<T> CacheCall<T> {
    /// The key the call names.
    pub open spec fn key(self) -> Seq<char> {
        match self {
            CacheCall::GetOrRefresh { key, .. } => key,
            CacheCall::GetExisting { key, .. } => key,
            CacheCall::CompleteRefresh { key, .. } => key,
            CacheCall::Invalidate { key } => key,
            CacheCall::AbandonRefresh { key } => key,
        }
    }
}

/// The answer and the next state of a single [`ExpiryTokenCache`] holding `slot` that receives
/// `call` (its key plays no part), as the single cache's operations state them.
pub open spec fn single_step<T>(slot: Slot<T>, call: CacheCall<T>) -> (CacheAnswer<T>, Slot<T>) {
    match call {
        CacheCall::GetOrRefresh { now, .. } => {
            let (action, next) = lookup_step(slot, now);
            (CacheAnswer::Action(action), next)
        },
        CacheCall::GetExisting { now, .. } => (CacheAnswer::Value(fresh_value(slot, now)), slot),
        CacheCall::CompleteRefresh { outcome, .. } => (CacheAnswer::Done, refreshed(outcome)),
        CacheCall::Invalidate { .. } => (CacheAnswer::Done, Slot::Empty),
        CacheCall::AbandonRefresh { .. } => (CacheAnswer::Done, abandoned(slot)),
    }
}

/// The answer and the next state of a [`KeyedExpiryTokenCache`] holding `m` that receives
/// `call`, as the keyed cache's operations state them.
pub open spec fn keyed_step<T>(m: Map<Seq<char>, Slot<T>>, call: CacheCall<T>) -> (
    CacheAnswer<T>,
    Map<Seq<char>, Slot<T>>,
) {
    let key = call.key();
    match call {
        CacheCall::GetOrRefresh { now, .. } => {
            let (action, next) = lookup_step(slot_for(m, key), now);
            (CacheAnswer::Action(action), m.insert(key, next))
        },
        CacheCall::GetExisting { now, .. } => (
            CacheAnswer::Value(fresh_value(slot_for(m, key), now)),
            m,
        ),
        CacheCall::CompleteRefresh { outcome, .. } => (
            CacheAnswer::Done,
            m.insert(key, refreshed(outcome)),
        ),
        CacheCall::Invalidate { .. } => (CacheAnswer::Done, invalidated(m, key)),
        CacheCall::AbandonRefresh { .. } => (CacheAnswer::Done, abandoned_for(m, key)),
    }
}

/// The answers of a single cache holding `slot` to `calls`, in turn, and its final state.
pub open spec fn single_run<T>(slot: Slot<T>, calls: Seq<CacheCall<T>>) -> (
    Seq<CacheAnswer<T>>,
    Slot<T>,
)
    decreases calls.len(),
{
    if calls.len() == 0 {
        (Seq::empty(), slot)
    } else {
        let (answer, next) = single_step(slot, calls[0]);
        let (rest, last) = single_run(next, calls.drop_first());
        (seq![answer] + rest, last)
    }
}

/// The answers of a keyed cache holding `m` to `calls`, in turn, and its final state.
pub open spec fn keyed_run<T>(m: Map<Seq<char>, Slot<T>>, calls: Seq<CacheCall<T>>) -> (
    Seq<CacheAnswer<T>>,
    Map<Seq<char>, Slot<T>>,
)
    decreases calls.len(),
{
    if calls.len() == 0 {
        (Seq::empty(), m)
    } else {
        let (answer, next) = keyed_step(m, calls[0]);
        let (rest, last) = keyed_run(next, calls.drop_first());
        (seq![answer] + rest, last)
    }
}

/// The calls of `calls` that name `key`, in order.
pub open spec fn calls_for<T>(calls: Seq<CacheCall<T>>, key: Seq<char>) -> Seq<CacheCall<T>>
    decreases calls.len(),
{
    if calls.len() == 0 {
        Seq::empty()
    } else {
        let rest = calls_for(calls.drop_first(), key);
        if calls[0].key() == key {
            seq![calls[0]] + rest
        } else {
            rest
        }
    }
}

/// The answers, out of `answers`, to the calls of `calls` that name `key`, in order.
pub open spec fn answers_for<T>(
    calls: Seq<CacheCall<T>>,
    answers: Seq<CacheAnswer<T>>,
    key: Seq<char>,
) -> Seq<CacheAnswer<T>>
    decreases calls.len(),
{
    if calls.len() == 0 || answers.len() == 0 {
        Seq::empty()
    } else {
        let rest = answers_for(calls.drop_first(), answers.drop_first(), key);
        if calls[0].key() == key {
            seq![answers[0]] + rest
        } else {
            rest
        }
    }
}

/// Keys are cached independently: over any run of calls on a keyed cache, with any keys in
/// any order, what the calls naming `key` answer (and so which refreshes they lead), and what
/// the cache ends up holding for `key`, are exactly what a separate single cache holding the
/// key's slot answers and ends up holding when it receives only those calls, in the same
/// order. Calls naming other keys play no part.
pub proof fn lemma_keys_behave_as_separate_caches<T>(
    m: Map<Seq<char>, Slot<T>>,
    calls: Seq<CacheCall<T>>,
    key: Seq<char>,
)
    ensures
        answers_for(calls, keyed_run(m, calls).0, key) == single_run(
            slot_for(m, key),
            calls_for(calls, key),
        ).0,
        slot_for(keyed_run(m, calls).1, key) == single_run(
            slot_for(m, key),
            calls_for(calls, key),
        ).1,
    decreases calls.len(),
{
    if calls.len() > 0 {
        let call = calls[0];
        let (answer, next) = keyed_step(m, call);
        let (rest, last) = keyed_run(next, calls.drop_first());
        lemma_keys_behave_as_separate_caches(next, calls.drop_first(), key);
        let answers = keyed_run(m, calls).0;
        assert(answers == seq![answer] + rest);
        assert(answers.drop_first() =~= rest);
        if call.key() == key {
            let (single_answer, single_next) = single_step(slot_for(m, key), call);
            assert(answer == single_answer);
            assert(slot_for(next, key) == single_next);
            assert(calls_for(calls, key) == seq![call] + calls_for(calls.drop_first(), key));
            assert((seq![call] + calls_for(calls.drop_first(), key)).drop_first() =~= calls_for(
                calls.drop_first(),
                key,
            ));
        } else {
            assert(slot_for(next, key) == slot_for(m, key));
        }
    }
}

} // verus!
