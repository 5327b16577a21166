//! Per-player, per-button purchase cooldowns, kept in a concurrent map from
//! (Discord id, button id) to the moment of the last purchase.
use vstd::prelude::*;
use dashmap::DashMap;
use std::time::Instant;

verus! {

/// A concurrent hash map of the `dashmap` crate.
#[verifier::external_type_specification]
#[verifier::external_body]
#[verifier::reject_recursive_types(K)]
#[verifier::reject_recursive_types(V)]
#[verifier::reject_recursive_types(S)]
pub struct ExDashMap<K, V, S>(DashMap<K, V, S>);

/// A moment of the monotonic clock.
#[verifier::external_type_specification]
#[verifier::external_body]
pub struct ExInstant(Instant);

/// What `m` records: for each (Discord id, button id) pair with an entry, the recorded value.
pub uninterp spec fn cooldown_entries(m: DashMap<(String, String), u128>) -> Map<(Seq<char>, Seq<char>), u128>;

/// The record of a map that holds nothing.
pub open spec fn no_records() -> Map<(Seq<char>, Seq<char>), u128> {
    Map::empty()
}

/// An empty map (`DashMap::new`): nothing is recorded.
#[verifier::external_body]
fn empty_cooldown_map() -> (m: DashMap<(String, String), u128>)
    ensures
        cooldown_entries(m) == no_records(),
{
    DashMap::new()
}

/// Records `at` under `key` (`DashMap::insert`): the key now maps to `at`, replacing any earlier
/// value, and every other key keeps its value.
#[verifier::external_body]
fn cooldown_map_insert(m: &mut DashMap<(String, String), u128>, key: (String, String), at: u128)
    ensures
        cooldown_entries(*final(m)) == cooldown_entries(*old(m)).insert((key.0@, key.1@), at),
{
    m.insert(key, at);
}

/// The value recorded under `key` (`DashMap::get`): present exactly when the key has an entry,
/// and then the recorded value.
#[verifier::external_body]
fn cooldown_map_get(m: &DashMap<(String, String), u128>, key: &(String, String)) -> (r: Option<
    u128,
>)
    ensures
        match r {
            None => !cooldown_entries(*m).contains_key((key.0@, key.1@)),
            Some(t) => cooldown_entries(*m).contains_key((key.0@, key.1@)) && cooldown_entries(
                *m,
            )[(key.0@, key.1@)] == t,
        },
{
    m.get(key).map(|entry| *entry.value())
}

/// The current moment (`Instant::now`); nothing is known of its value.
#[verifier::external_body]
fn instant_now() -> Instant {
    Instant::now()
}

/// The nanoseconds since `at` (`Instant::elapsed`); nothing is known of its value, which depends
/// on the clock.
#[verifier::external_body]
fn nanos_since(at: &Instant) -> u128 {
    at.elapsed().as_nanos()
}

/// How long a player must wait between two purchases through the same button: 20 seconds.
pub open spec fn cooldown_nanos() -> u128 {
    20_000_000_000
}

/// The waiting time left, in nanoseconds, when `elapsed` nanoseconds have passed since the last
/// purchase; `None` once the cooldown is over.
pub open spec fn remaining_after(elapsed: u128) -> Option<u64> {
    if elapsed < cooldown_nanos() {
        Some((cooldown_nanos() - elapsed) as u64)
    } else {
        None
    }
}

/// The waiting time left at clock reading `now` for `key`, given the recorded purchase times:
/// `None` when none is recorded; else measured from the recorded time, a clock reading before it
/// counting as no time passed.
pub open spec fn cooldown_at(
    recorded: Map<(Seq<char>, Seq<char>), u128>,
    key: (Seq<char>, Seq<char>),
    now: u128,
) -> Option<u64> {
    if recorded.contains_key(key) {
        let t = recorded[key];
        remaining_after(if now >= t { (now - t) as u128 } else { 0 })
    } else {
        None
    }
}

/// The waiting time left, in nanoseconds, when `elapsed_nanos` have passed since the last
/// purchase; `None` once the cooldown is over.
pub fn cooldown_remaining(elapsed_nanos: u128) -> (r: Option<u64>)
    ensures
        r == remaining_after(elapsed_nanos),
{
    if elapsed_nanos < 20_000_000_000 {
        Some((20_000_000_000 - elapsed_nanos) as u64)
    } else {
        None
    }
}

/// A purchase recorded at `t0` and checked at `t`, less than 20 seconds later, leaves
/// 20 seconds minus the time passed, at most 20 whole seconds; from 20 seconds on, none; and it
/// leaves the cooldowns of the other (Discord id, button id) pairs as they were.
pub proof fn lemma_cooldown_after_purchase(
    recorded: Map<(Seq<char>, Seq<char>), u128>,
    key: (Seq<char>, Seq<char>),
    other: (Seq<char>, Seq<char>),
    t0: u128,
    t: u128,
)
    requires
        t0 <= t,
    ensures
        t - t0 < cooldown_nanos() ==> cooldown_at(recorded.insert(key, t0), key, t) == Some(
            (cooldown_nanos() - (t - t0)) as u64,
        ) && (cooldown_nanos() - (t - t0)) / 1_000_000_000 <= 20,
        t - t0 >= cooldown_nanos() ==> cooldown_at(recorded.insert(key, t0), key, t) is None,
        other != key ==> cooldown_at(recorded.insert(key, t0), other, t) == cooldown_at(
            recorded,
            other,
            t,
        ),
{
}

/// The moments of the last purchases, by (Discord id, button id), kept as nanoseconds since the
/// moment the book was made.
pub struct CooldownBook {
    base: Instant,
    entries: DashMap<(String, String), u128>,
}

impl CooldownBook {
    /// The recorded purchase times, in nanoseconds since the book was made, by
    /// (Discord id, button id).
    pub closed spec fn recorded(&self) -> Map<(Seq<char>, Seq<char>), u128> {
        cooldown_entries(self.entries)
    }

    /// The moment the book was made: the origin of its clock readings and recorded times.
    pub closed spec fn origin(&self) -> Instant {
        self.base
    }

    /// A book with no purchases.
    pub fn new() -> (b: CooldownBook)
        ensures
            b.recorded() == no_records(),
    {
        CooldownBook { base: instant_now(), entries: empty_cooldown_map() }
    }

    /// The clock reading: nanoseconds since the book was made.
    pub fn clock_nanos(&self) -> u128 {
        nanos_since(&self.base)
    }

    /// The waiting time left, in nanoseconds, at clock reading `now` before `user_id` may buy
    /// through `item_id` again.
    pub fn check_cooldown_at(&self, user_id: &str, item_id: &str, now: u128) -> (r: Option<u64>)
        ensures
            r == cooldown_at(self.recorded(), (user_id@, item_id@), now),
    {
        let key = (user_id.to_string(), item_id.to_string());
        match cooldown_map_get(&self.entries, &key) {
            Some(last_use) => {
                let elapsed = if now >= last_use {
                    now - last_use
                } else {
                    0
                };
                cooldown_remaining(elapsed)
            },
            None => None,
        }
    }

    /// The waiting time left, in nanoseconds, before `user_id` may buy through `item_id` again,
    /// measured now from the recorded time of the last purchase: `None` when no purchase is
    /// recorded, or when the last one is 20 seconds old or older.
    pub fn check_cooldown(&self, user_id: &str, item_id: &str) -> (r: Option<u64>)
        ensures
            exists|now: u128| r == cooldown_at(self.recorded(), (user_id@, item_id@), now),
            !self.recorded().contains_key((user_id@, item_id@)) ==> r is None,
            r matches Some(n) ==> 0 < n <= cooldown_nanos(),
    {
        let now = self.clock_nanos();
        self.check_cooldown_at(user_id, item_id, now)
    }

    /// Records a purchase by `user_id` through `item_id` at clock reading `now`; every other
    /// pair keeps its recorded time.
    pub fn set_cooldown_at(&mut self, user_id: &str, item_id: &str, now: u128)
        ensures
            final(self).origin() == old(self).origin(),
            final(self).recorded() == old(self).recorded().insert((user_id@, item_id@), now),
    {
        let key = (user_id.to_string(), item_id.to_string());
        cooldown_map_insert(&mut self.entries, key, now);
    }

    /// Records a purchase by `user_id` through `item_id` now, replacing any earlier time for that
    /// pair; every other pair keeps its recorded time.
    pub fn set_cooldown(&mut self, user_id: &str, item_id: &str)
        ensures
            final(self).origin() == old(self).origin(),
            exists|now: u128|
                final(self).recorded() == old(self).recorded().insert((user_id@, item_id@), now),
    {
        let now = self.clock_nanos();
        self.set_cooldown_at(user_id, item_id, now);
    }
}

} // verus!
