//! Tier 1 cache: exact-match lookup and insert over a discretized key
//! derived from the observation.
//!
//! The observation space is effectively continuous, so it is bucketed into at
//! most 2126 distinct integer keys; one entry is kept per distinct key and a
//! write replaces the previous entry for that key. Entry timestamps are
//! logical: the cache keeps an operation counter and stamps entries with it.
//! The cache grows without bound for the lifetime of the process; callers
//! running long-lived processes should be aware there is no eviction.

use vstd::prelude::*;
use vstd::string::StrSliceExecFns;
use vstd::string::StringExecFns;

use crate::game::action_of_ordinal;
use crate::game::action_ordinal;
use crate::game::Action;
use crate::game::Decision;
use crate::game::DecisionModel;
use crate::game::GameState;

verus! {

/// Truncating integer division (rounds toward zero), as the key formula uses.
pub open spec fn tdiv(x: int, d: int) -> int
    recommends
        d > 0,
{
    if x >= 0 {
        x / d
    } else {
        -((-x) / d)
    }
}

/// The smaller of two integers.
pub open spec fn spec_min(a: int, b: int) -> int {
    if a < b {
        a
    } else {
        b
    }
}

/// The health bucket: health divided by 10, capped at 10.
pub open spec fn bucket_health(health: i32) -> int {
    spec_min(tdiv(health as int, 10), 10)
}

/// The ammo bucket: ammo divided by 5, capped at 20.
pub open spec fn bucket_ammo(ammo: i32) -> int {
    spec_min(tdiv(ammo as int, 5), 20)
}

/// The enemy bucket: the enemy count, capped at 5.
pub open spec fn bucket_enemies(enemies: i32) -> int {
    spec_min(enemies as int, 5)
}

/// The discretized cache key of an observation:
/// `health_bucket * 200 + ammo_bucket * 6 + enemy_bucket`,
/// at most 2125 for observations with nonnegative fields.
pub open spec fn spec_state_hash(health: i32, ammo: i32, enemies: i32) -> int {
    bucket_health(health) * 200 + bucket_ammo(ammo) * 6 + bucket_enemies(enemies)
}

/// Truncating division of a possibly negative `x` by a positive constant `d`.
fn div_trunc(x: i32, d: u64) -> (r: i64)
    requires
        d > 0,
    ensures
        r == tdiv(x as int, d as int),
{
    if x >= 0 {
        ((x as u64) / d) as i64
    } else {
        let neg = (-(x as i64)) as u64;
        -((neg / d) as i64)
    }
}

/// The smaller of two machine integers.
fn min_i64(a: i64, b: i64) -> (r: i64)
    ensures
        r == spec_min(a as int, b as int),
{
    if a < b {
        a
    } else {
        b
    }
}

/// Discretize an observation into its cache key. A pure function of the
/// health, ammo and enemy-count fields alone.
pub fn state_hash(state: &GameState) -> (r: i64)
    ensures
        r == spec_state_hash(state.health, state.ammo, state.enemies_visible),
{
    let h = min_i64(div_trunc(state.health, 10), 10);
    let a = min_i64(div_trunc(state.ammo, 5), 20);
    let e = min_i64(state.enemies_visible as i64, 5);
    h * 200 + a * 6 + e
}

/// Law: observations in the same bucket triple share a key.
pub proof fn lemma_state_hash_same_bucket(s1: GameState, s2: GameState)
    requires
        bucket_health(s1.health) == bucket_health(s2.health),
        bucket_ammo(s1.ammo) == bucket_ammo(s2.ammo),
        bucket_enemies(s1.enemies_visible) == bucket_enemies(s2.enemies_visible),
    ensures
        spec_state_hash(s1.health, s1.ammo, s1.enemies_visible) == spec_state_hash(
            s2.health,
            s2.ammo,
            s2.enemies_visible,
        ),
{
}

/// Law: for observations with nonnegative fields, observations in distinct
/// bucket triples get distinct keys, so the key function is injective on
/// bucket triples.
pub proof fn lemma_state_hash_injective(s1: GameState, s2: GameState)
    requires
        s1.health >= 0,
        s1.ammo >= 0,
        s1.enemies_visible >= 0,
        s2.health >= 0,
        s2.ammo >= 0,
        s2.enemies_visible >= 0,
        !(bucket_health(s1.health) == bucket_health(s2.health) && bucket_ammo(s1.ammo)
            == bucket_ammo(s2.ammo) && bucket_enemies(s1.enemies_visible) == bucket_enemies(
            s2.enemies_visible,
        )),
    ensures
        spec_state_hash(s1.health, s1.ammo, s1.enemies_visible) != spec_state_hash(
            s2.health,
            s2.ammo,
            s2.enemies_visible,
        ),
{
    assert(0 <= bucket_health(s1.health) <= 10);
    assert(0 <= bucket_ammo(s1.ammo) <= 20);
    assert(0 <= bucket_enemies(s1.enemies_visible) <= 5);
    assert(0 <= bucket_health(s2.health) <= 10);
    assert(0 <= bucket_ammo(s2.ammo) <= 20);
    assert(0 <= bucket_enemies(s2.enemies_visible) <= 5);
}

/// Law: for observations with nonnegative fields the key lies in [0, 2125],
/// so the key space holds at most 2126 distinct buckets.
pub proof fn lemma_state_hash_range(s: GameState)
    requires
        s.health >= 0,
        s.ammo >= 0,
        s.enemies_visible >= 0,
    ensures
        0 <= spec_state_hash(s.health, s.ammo, s.enemies_visible) <= 2125,
{
    assert(0 <= bucket_health(s.health) <= 10);
    assert(0 <= bucket_ammo(s.ammo) <= 20);
    assert(0 <= bucket_enemies(s.enemies_visible) <= 5);
}

/// One cached row: the decision projection stored for a key, with
/// bookkeeping counters stamped from the cache's logical clock.
#[derive(Clone, Debug)]
pub struct CachedEntry {
    pub key: i64,
    pub action_index: i32,
    pub confidence: u64,
    pub source_doc_id: String,
    pub hit_count: u64,
    pub created_at: u64,
    pub last_accessed: u64,
}

/// Cache statistics: row count and the sum of all hit counters.
pub struct CacheStats {
    pub entries: usize,
    pub total_hits: u64,
}

/// The first index holding `key`, searching from index `i`.
pub open spec fn find_from(s: Seq<CachedEntry>, key: int, i: nat) -> Option<int>
    decreases s.len() - i,
{
    if i >= s.len() {
        None
    } else if s[i as int].key == key {
        Some(i as int)
    } else {
        find_from(s, key, (i + 1) as nat)
    }
}

/// The index of the entry holding `key`, if one exists.
pub open spec fn spec_find(s: Seq<CachedEntry>, key: int) -> Option<int> {
    find_from(s, key, 0)
}

/// The sum of the hit counters of the entries from index `i` on.
pub open spec fn sum_hits_from(s: Seq<CachedEntry>, i: nat) -> int
    decreases s.len() - i,
{
    if i >= s.len() {
        0
    } else {
        s[i as int].hit_count + sum_hits_from(s, (i + 1) as nat)
    }
}

/// The sum of the hit counters of all entries.
pub open spec fn spec_sum_hits(s: Seq<CachedEntry>) -> int {
    sum_hits_from(s, 0)
}

/// `x + 1`, saturated at the top of the `u64` range.
pub open spec fn sat_inc(x: u64) -> u64 {
    if x == u64::MAX {
        x
    } else {
        (x + 1) as u64
    }
}

/// `x` saturated to the range of `u64`.
pub open spec fn sat_u64(x: int) -> int {
    if x > u64::MAX {
        u64::MAX as int
    } else {
        x
    }
}

/// The action stored in an entry; an out-of-range ordinal (corrupt data)
/// falls back to the fixed safe default action rather than failing.
pub open spec fn spec_entry_action(e: CachedEntry) -> Action {
    match action_of_ordinal(e.action_index as int) {
        Some(a) => a,
        None => Action::Attack,
    }
}

/// The source identifier a decision is stored under: its matched identifier,
/// or a fixed placeholder when it has none.
pub open spec fn spec_source_of(d: Decision) -> Seq<char> {
    match d.rule_matched {
        Some(s) => s@,
        None => "unknown"@,
    }
}

/// Whether `e` is exactly the row that inserting decision `d` at `key` at
/// logical time `now` writes.
pub open spec fn entry_of_insert(e: CachedEntry, key: int, d: Decision, now: u64) -> bool {
    &&& e.key == key
    &&& e.action_index == action_ordinal(d.action)
    &&& e.confidence == d.confidence
    &&& e.source_doc_id@ == spec_source_of(d)
    &&& e.hit_count == 0
    &&& e.created_at == now
    &&& e.last_accessed == now
}

/// Whether `new_entries` is `old_entries` with decision `d` upserted at
/// `key` at logical time `now`: the entry at `key` replaced if one exists,
/// else a fresh entry appended, every other entry untouched.
pub open spec fn cache_upserted(
    old_entries: Seq<CachedEntry>,
    new_entries: Seq<CachedEntry>,
    key: int,
    d: Decision,
    now: u64,
) -> bool {
    match spec_find(old_entries, key) {
        Some(i) => new_entries.len() == old_entries.len() && (forall|j: int|
            0 <= j < old_entries.len() && j != i ==> new_entries[j] == old_entries[j])
            && entry_of_insert(new_entries[i], key, d, now),
        None => new_entries.len() == old_entries.len() + 1 && (forall|j: int|
            0 <= j < old_entries.len() ==> new_entries[j] == old_entries[j]) && entry_of_insert(
            new_entries[old_entries.len() as int],
            key,
            d,
            now,
        ),
    }
}

/// Tier 1 cache client: an exact-match table keyed by the discretized
/// observation key, holding one entry per key.
pub struct CacheClient {
    enabled: bool,
    entries: Vec<CachedEntry>,
    clock: u64,
}

impl CacheClient {
    /// Well-formed: at most one entry per key.
    pub closed spec fn wf(&self) -> bool {
        forall|i: int, j: int|
            0 <= i < j < self.entries@.len() ==> self.entries@[i].key != self.entries@[j].key
    }

    /// The entries currently stored.
    pub closed spec fn entries(&self) -> Seq<CachedEntry> {
        self.entries@
    }

    /// The logical clock used to stamp bookkeeping fields.
    pub closed spec fn clock(&self) -> u64 {
        self.clock
    }

    /// Whether the tier is enabled.
    pub closed spec fn spec_enabled(&self) -> bool {
        self.enabled
    }

    /// A fresh cache, enabled or disabled. A disabled cache never answers and
    /// never stores.
    pub fn new(enabled: bool) -> (r: CacheClient)
        ensures
            r.wf(),
            r.spec_enabled() == enabled,
            r.entries() =~= Seq::<CachedEntry>::empty(),
            r.clock() == 0,
    {
        CacheClient { enabled, entries: Vec::new(), clock: 0 }
    }

    /// Whether the tier is enabled.
    pub fn is_enabled(&self) -> (r: bool)
        ensures
            r == self.spec_enabled(),
    {
        self.enabled
    }

    /// The index of the entry holding `key`, or `None`.
    fn find_index(&self, key: i64) -> (r: Option<usize>)
        ensures
            match r {
                Some(i) => i < self.entries().len() && self.entries()[i as int].key == key
                    && spec_find(self.entries(), key as int) == Some(i as int),
                None => spec_find(self.entries(), key as int) is None,
            },
    {
        let mut i: usize = 0;
        while i < self.entries.len()
            invariant
                0 <= i <= self.entries@.len(),
                find_from(self.entries@, key as int, 0) == find_from(self.entries@, key as int, i as nat),
            decreases self.entries@.len() - i,
        {
            if self.entries[i].key == key {
                return Some(i);
            }
            i = i + 1;
        }
        None
    }

    /// Look up the cached decision for an observation.
    ///
    /// A disabled cache never answers. On a hit the entry's hit counter is
    /// incremented and its last-access stamp refreshed, and the returned
    /// decision carries tier 1, the stored confidence, and the stored source
    /// identifier under the `tier1:` prefix.
    pub fn lookup(&mut self, state: &GameState) -> (r: Option<Decision>)
        requires
            old(self).wf(),
        ensures
            final(self).wf(),
            final(self).spec_enabled() == old(self).spec_enabled(),
            !old(self).spec_enabled() ==> r is None && final(self).entries() == old(self).entries() && final(self).clock() == old(self).clock(),
            old(self).spec_enabled() ==> {
                let key = spec_state_hash(state.health, state.ammo, state.enemies_visible);
                match spec_find(old(self).entries(), key) {
                    None => r is None && final(self).entries() == old(self).entries() && final(self).clock() == old(self).clock(),
                    Some(i) => {
                        let e = old(self).entries()[i];
                        &&& r is Some
                        &&& r.unwrap()@ == (DecisionModel {
                            action: spec_entry_action(e),
                            decision_level: 1,
                            confidence: e.confidence as int,
                            matched: Some("tier1:"@ + e.source_doc_id@),
                        })
                        &&& final(self).entries() == old(self).entries().update(
                            i,
                            (CachedEntry {
                                hit_count: sat_inc(e.hit_count),
                                last_accessed: old(self).clock(),
                                ..e
                            }),
                        )
                        &&& final(self).clock() == sat_inc(old(self).clock())
                    },
                }
            },
    {
        if !self.enabled {
            return None;
        }
        let key = state_hash(state);
        match self.find_index(key) {
            None => None,
            Some(i) => {
                proof {
                    lemma_find_from_some(self.entries@, key as int, 0);
                }
                let decision = decision_from_entry(&self.entries[i]);
                let e = &self.entries[i];
                let updated = CachedEntry {
                    key: e.key,
                    action_index: e.action_index,
                    confidence: e.confidence,
                    source_doc_id: e.source_doc_id.clone(),
                    hit_count: if e.hit_count == u64::MAX {
                        u64::MAX
                    } else {
                        e.hit_count + 1
                    },
                    created_at: e.created_at,
                    last_accessed: self.clock,
                };
                self.entries[i] = updated;
                self.clock = if self.clock == u64::MAX {
                    u64::MAX
                } else {
                    self.clock + 1
                };
                Some(decision)
            },
        }
    }

    /// Store a decision's projection for an observation's key, replacing any
    /// entry already stored at that key and resetting its hit counter.
    ///
    /// A disabled cache stores nothing.
    pub fn insert(&mut self, state: &GameState, decision: &Decision)
        requires
            old(self).wf(),
        ensures
            final(self).wf(),
            final(self).spec_enabled() == old(self).spec_enabled(),
            !old(self).spec_enabled() ==> final(self).entries() == old(self).entries() && final(self).clock() == old(self).clock(),
            old(self).spec_enabled() ==> {
                let key = spec_state_hash(state.health, state.ammo, state.enemies_visible);
                &&& final(self).clock() == sat_inc(old(self).clock())
                &&& cache_upserted(
                    old(self).entries(),
                    final(self).entries(),
                    key,
                    *decision,
                    old(self).clock(),
                )
            },
    {
        if !self.enabled {
            return ;
        }
        let key = state_hash(state);
        let source = match &decision.rule_matched {
            Some(s) => s.clone(),
            None => String::from_str("unknown"),
        };
        let entry = CachedEntry {
            key,
            action_index: decision.action.to_index(),
            confidence: decision.confidence,
            source_doc_id: source,
            hit_count: 0,
            created_at: self.clock,
            last_accessed: self.clock,
        };
        match self.find_index(key) {
            Some(i) => {
                proof {
                    lemma_find_from_some(self.entries@, key as int, 0);
                }
                self.entries[i] = entry;
            },
            None => {
                proof {
                    lemma_find_from_none(self.entries@, key as int, 0);
                }
                self.entries.push(entry);
            },
        }
        self.clock = if self.clock == u64::MAX {
            u64::MAX
        } else {
            self.clock + 1
        };
    }

    /// Row count and the sum of all hit counters, for observability only.
    pub fn stats(&self) -> (r: CacheStats)
        ensures
            r.entries == self.entries().len(),
            r.total_hits == sat_u64(spec_sum_hits(self.entries())),
    {
        let mut total: u128 = 0;
        let mut i: usize = 0;
        while i < self.entries.len()
            invariant
                0 <= i <= self.entries@.len(),
                total <= i * (u64::MAX as int),
                spec_sum_hits(self.entries@) == total + sum_hits_from(self.entries@, i as nat),
            decreases self.entries@.len() - i,
        {
            total = total + self.entries[i].hit_count as u128;
            i = i + 1;
        }
        let total_hits: u64 = if total > u64::MAX as u128 {
            u64::MAX
        } else {
            total as u64
        };
        CacheStats { entries: self.entries.len(), total_hits }
    }
}

/// Map a stored row to the tier 1 decision it denotes: the stored action (or
/// the safe default action if the stored ordinal is out of range), the stored
/// confidence, and the stored source identifier under the `tier1:` prefix.
pub fn decision_from_entry(e: &CachedEntry) -> (r: Decision)
    ensures
        r@ == (DecisionModel {
            action: spec_entry_action(*e),
            decision_level: 1,
            confidence: e.confidence as int,
            matched: Some("tier1:"@ + e.source_doc_id@),
        }),
{
    let action = match Action::from_index(e.action_index) {
        Some(a) => a,
        None => Action::Attack,
    };
    let matched = String::from_str("tier1:").concat(e.source_doc_id.as_str());
    Decision {
        action,
        decision_level: 1,
        confidence: e.confidence,
        latency_ns: 0,
        rule_matched: Some(matched),
    }
}

/// If `s[i]` holds `key` and no earlier entry does, the search finds `i`.
proof fn lemma_find_from_first(s: Seq<CachedEntry>, key: int, i: int)
    requires
        0 <= i < s.len(),
        s[i].key == key,
        forall|j: int| 0 <= j < i ==> s[j].key != key,
    ensures
        spec_find(s, key) == Some(i),
{
    lemma_find_from_upto(s, key, 0, i);
}

/// The search from `f` finds `i` when `s[i]` holds `key` and no entry in
/// `[f, i)` does.
proof fn lemma_find_from_upto(s: Seq<CachedEntry>, key: int, f: nat, i: int)
    requires
        f <= i < s.len(),
        s[i].key == key,
        forall|j: int| f <= j < i ==> s[j].key != key,
    ensures
        find_from(s, key, f) == Some(i),
    decreases i - f,
{
    if f < i {
        lemma_find_from_upto(s, key, (f + 1) as nat, i);
    }
}

/// Law: a cache write is found by a later read. After a decision is upserted
/// at a key, the entry the search finds at that key is exactly the row the
/// upsert wrote, so a later lookup of the same bucket answers with the
/// written decision's projection.
pub proof fn lemma_upsert_then_find(
    old_entries: Seq<CachedEntry>,
    new_entries: Seq<CachedEntry>,
    key: int,
    d: Decision,
    now: u64,
)
    requires
        cache_upserted(old_entries, new_entries, key, d, now),
    ensures
        spec_find(new_entries, key) is Some,
        entry_of_insert(new_entries[spec_find(new_entries, key).unwrap()], key, d, now),
{
    match spec_find(old_entries, key) {
        Some(i) => {
            lemma_find_from_some(old_entries, key, 0);
            lemma_find_from_first(new_entries, key, i);
        },
        None => {
            lemma_find_from_none(old_entries, key, 0);
            lemma_find_from_first(new_entries, key, old_entries.len() as int);
        },
    }
}

/// If no entry from index `i` on holds `key`, no index past `i` holds it.
proof fn lemma_find_from_none(s: Seq<CachedEntry>, key: int, i: nat)
    requires
        find_from(s, key, i) is None,
    ensures
        forall|j: int| i <= j < s.len() ==> s[j].key != key,
    decreases s.len() - i,
{
    if i < s.len() {
        lemma_find_from_none(s, key, (i + 1) as nat);
    }
}

/// A found index lies in range, holds the key, and is the first to do so.
proof fn lemma_find_from_some(s: Seq<CachedEntry>, key: int, i: nat)
    requires
        find_from(s, key, i) is Some,
    ensures
        ({
            let idx = find_from(s, key, i).unwrap();
            &&& i <= idx < s.len()
            &&& s[idx].key == key
            &&& forall|j: int| i <= j < idx ==> s[j].key != key
        }),
    decreases s.len() - i,
{
    if i < s.len() && s[i as int].key != key {
        lemma_find_from_some(s, key, (i + 1) as nat);
    }
}

} // verus!
