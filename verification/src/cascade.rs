//! The decision cascade: one pass per call through a fixed escalation order,
//! short-circuiting on the first tier that produces a decision.
//!
//! The order is: random mode (bypasses every tier), the rule engine (tier 0),
//! the local cache (tier 1), the remote search client (tier 2, with its
//! answer written back into the cache), and finally the deterministic random
//! fallback, which guarantees that every call ends in exactly one decision.
//! The remote round trip cannot be made from here, so a call runs in two
//! phases: `decide_local` either finishes or hands back the planned remote
//! request, and `decide_remote` finishes from the parsed response. Every
//! decision is stamped with the wall-clock time elapsed since its phase-one
//! call began.

use vstd::prelude::*;

use crate::cache::cache_upserted;
use crate::cache::sat_inc;
use crate::cache::spec_find;
use crate::cache::spec_state_hash;
use crate::cache::CacheClient;
use crate::cache::CachedEntry;
use crate::cache::spec_entry_action;
use crate::clock::duration_nanos;
use crate::clock::elapsed_since;
use crate::clock::now_instant;
use crate::game::Action;
use crate::game::LEVEL_FALLBACK;
use crate::game::Decision;
use crate::game::DecisionModel;
use crate::game::GameState;
use crate::rag::default_weights;
use crate::rag::spec_best_hit;
use crate::rag::spec_hit_score;
use crate::rag::spec_hit_tactic;
use crate::rag::spec_situation_tags;
use crate::rag::spec_tactic_action;
use crate::rag::RagClient;
use crate::rag::SearchHit;
use crate::rag::SearchRequest;
use crate::strategy::is_default_rules;
use crate::strategy::spec_first_match;
use crate::strategy::RuleEngine;

verus! {

/// Which decision tiers are active. Ablation experiments switch tiers off;
/// random mode bypasses every tier.
#[derive(Debug, Clone, Copy, PartialEq, Eq, Structural)]
pub struct CascadeConfig {
    pub l0_enabled: bool,
    pub l1_enabled: bool,
    pub l2_enabled: bool,
    pub random_mode: bool,
}

impl CascadeConfig {
    /// The random baseline: every tier off, random mode on.
    pub fn random() -> (r: CascadeConfig)
        ensures
            r == (CascadeConfig {
                l0_enabled: false,
                l1_enabled: false,
                l2_enabled: false,
                random_mode: true,
            }),
    {
        CascadeConfig { l0_enabled: false, l1_enabled: false, l2_enabled: false, random_mode: true }
    }

    /// Rules only: tier 0 on, everything else off.
    pub fn rule_only() -> (r: CascadeConfig)
        ensures
            r == (CascadeConfig {
                l0_enabled: true,
                l1_enabled: false,
                l2_enabled: false,
                random_mode: false,
            }),
    {
        CascadeConfig { l0_enabled: true, l1_enabled: false, l2_enabled: false, random_mode: false }
    }

    /// The full agent: all three tiers on.
    pub fn full_agent() -> (r: CascadeConfig)
        ensures
            r == (CascadeConfig {
                l0_enabled: true,
                l1_enabled: true,
                l2_enabled: true,
                random_mode: false,
            }),
    {
        CascadeConfig { l0_enabled: true, l1_enabled: true, l2_enabled: true, random_mode: false }
    }
}

/// The seed a generator starts from: a seed of zero is remapped to one, so
/// the stream never starts at the degenerate fixed point of the step
/// function.
pub open spec fn spec_init_state(seed: u64) -> u64 {
    if seed == 0 {
        1
    } else {
        seed
    }
}

/// One step of the 64-bit xorshift stream.
pub open spec fn xorshift_step(x: u64) -> u64 {
    let a = x ^ (x << 13u64);
    let b = a ^ (a >> 7u64);
    b ^ (b << 17u64)
}

/// The action a 64-bit draw denotes: the draw modulo 3, as an ordinal.
pub open spec fn spec_draw_action(x: u64) -> Action {
    if x % 3 == 0 {
        Action::MoveLeft
    } else if x % 3 == 1 {
        Action::MoveRight
    } else {
        Action::Attack
    }
}

/// The generator state after `n` draws from `seed`.
pub open spec fn spec_state_after(seed: u64, n: nat) -> u64
    decreases n,
{
    if n == 0 {
        spec_init_state(seed)
    } else {
        xorshift_step(spec_state_after(seed, (n - 1) as nat))
    }
}

/// The `n`-th action (counting from zero) of the stream seeded with `seed`.
pub open spec fn spec_nth_action(seed: u64, n: nat) -> Action {
    spec_draw_action(spec_state_after(seed, (n + 1) as nat))
}

/// The step function never maps a nonzero state to zero.
proof fn lemma_step_nonzero(x: u64)
    requires
        x != 0,
    ensures
        xorshift_step(x) != 0,
{
    assert(({
        let a = x ^ (x << 13u64);
        let b = a ^ (a >> 7u64);
        b ^ (b << 17u64)
    }) != 0) by (bit_vector)
        requires
            x != 0,
    ;
}

/// Law: the stream never reaches the degenerate fixed point: whatever the
/// seed (zero included, which is remapped), the state after any number of
/// draws is nonzero.
pub proof fn lemma_stream_never_zero(seed: u64, n: nat)
    ensures
        spec_state_after(seed, n) != 0,
    decreases n,
{
    if n > 0 {
        lemma_stream_never_zero(seed, (n - 1) as nat);
        lemma_step_nonzero(spec_state_after(seed, (n - 1) as nat));
    }
}

/// Law: the stream is a pure function of the seed: a generator holding the
/// stream state after `n` draws draws exactly the stream's `n`-th action and
/// lands in the stream state after `n + 1` draws, so two generators built
/// with the same seed produce identical action sequences for any number of
/// draws.
pub proof fn lemma_draw_follows_stream(seed: u64, n: nat)
    ensures
        spec_state_after(seed, (n + 1) as nat) == xorshift_step(spec_state_after(seed, n)),
        spec_nth_action(seed, n) == spec_draw_action(xorshift_step(spec_state_after(seed, n))),
{
}

/// Deterministic pseudo-random generator: a 64-bit xorshift stream, seeded at
/// construction and fully reproducible from the seed.
pub struct DeterministicRng {
    state: u64,
}

impl DeterministicRng {
    /// The internal stream state.
    pub closed spec fn spec_state(&self) -> u64 {
        self.state
    }

    /// A generator seeded with `seed`; a zero seed is remapped to one.
    pub fn new(seed: u64) -> (r: DeterministicRng)
        ensures
            r.spec_state() == spec_init_state(seed),
    {
        DeterministicRng { state: if seed == 0 {
            1
        } else {
            seed
        } }
    }

    /// Advance the stream one step and return the new 64-bit value.
    pub fn next_u64(&mut self) -> (r: u64)
        ensures
            final(self).spec_state() == xorshift_step(old(self).spec_state()),
            r == xorshift_step(old(self).spec_state()),
    {
        let mut x = self.state;
        x = x ^ (x << 13u64);
        x = x ^ (x >> 7u64);
        x = x ^ (x << 17u64);
        self.state = x;
        x
    }

    /// Draw the next value and reduce it to an action: the draw modulo 3,
    /// read as an action ordinal.
    pub fn random_action(&mut self) -> (r: Action)
        ensures
            final(self).spec_state() == xorshift_step(old(self).spec_state()),
            r == spec_draw_action(xorshift_step(old(self).spec_state())),
    {
        let v = self.next_u64();
        let idx = (v % 3) as i32;
        match Action::from_index(idx) {
            Some(a) => a,
            None => Action::Attack,
        }
    }
}

/// A remote query planned by phase one of a call: the request to send, and
/// the clock reading the final decision's latency is stamped from.
pub struct PendingQuery {
    pub request: SearchRequest,
    pub started: std::time::Instant,
}

/// What phase one of a call produced: either a finished decision, or the
/// remote query that phase two needs answered.
pub enum CascadeStep {
    Done(Decision),
    NeedRemote(PendingQuery),
}

/// Whether `d` is the random-fallback decision drawn from a generator in
/// state `prior`: tier 255, zero confidence, no matched identifier.
pub open spec fn is_fallback_decision(d: Decision, prior: u64) -> bool {
    d@ == (DecisionModel {
        action: spec_draw_action(xorshift_step(prior)),
        decision_level: LEVEL_FALLBACK as int,
        confidence: 0,
        matched: None,
    })
}

/// The decision cascade: the three tiers, the shared generator, and the
/// static enablement configuration. The orchestrator exclusively owns every
/// tier and the generator's running state.
pub struct DecisionCascade {
    config: CascadeConfig,
    rule_engine: RuleEngine,
    cache_client: CacheClient,
    rag_client: RagClient,
    rng: DeterministicRng,
}

impl DecisionCascade {
    /// The static enablement configuration.
    pub closed spec fn spec_config(&self) -> CascadeConfig {
        self.config
    }

    /// The tier 0 rule engine.
    pub closed spec fn rule_engine(&self) -> RuleEngine {
        self.rule_engine
    }

    /// The tier 1 cache.
    pub closed spec fn cache(&self) -> CacheClient {
        self.cache_client
    }

    /// The tier 2 search client.
    pub closed spec fn rag_client(&self) -> RagClient {
        self.rag_client
    }

    /// The shared generator.
    pub closed spec fn rng(&self) -> DeterministicRng {
        self.rng
    }

    /// Well-formed: each tier is well-formed and enabled exactly as the
    /// configuration says.
    pub open spec fn wf(&self) -> bool {
        &&& self.rule_engine().wf()
        &&& self.cache().wf()
        &&& self.rag_client().wf()
        &&& self.rule_engine().spec_enabled() == self.spec_config().l0_enabled
        &&& self.cache().spec_enabled() == self.spec_config().l1_enabled
        &&& self.rag_client().spec_enabled() == self.spec_config().l2_enabled
    }

    /// The cache is untouched between `a` and `b`.
    pub open spec fn cache_unchanged(a: DecisionCascade, b: DecisionCascade) -> bool {
        b.cache().entries() == a.cache().entries() && b.cache().clock() == a.cache().clock()
    }

    /// A cascade over the default rule set, a fresh empty cache, a client for
    /// the service at the given address, and a generator seeded with `seed`.
    /// Each tier is enabled exactly as the configuration says.
    pub fn new(
        config: CascadeConfig,
        health_threshold: u32,
        opensearch_url: String,
        seed: u64,
    ) -> (r: DecisionCascade)
        ensures
            r.wf(),
            r.spec_config() == config,
            is_default_rules(r.rule_engine().rules(), health_threshold),
            r.cache().entries() =~= Seq::<CachedEntry>::empty(),
            r.cache().clock() == 0,
            r.rag_client().spec_url() == opensearch_url@,
            r.rag_client().spec_k() == 5,
            r.rag_client().spec_weights() == default_weights(),
            r.rng().spec_state() == spec_init_state(seed),
    {
        DecisionCascade {
            rule_engine: RuleEngine::with_default_rules(config.l0_enabled, health_threshold),
            cache_client: CacheClient::new(config.l1_enabled),
            rag_client: RagClient::new(config.l2_enabled, opensearch_url),
            rng: DeterministicRng::new(seed),
            config,
        }
    }

    /// The static enablement configuration.
    pub fn config(&self) -> (r: &CascadeConfig)
        ensures
            *r == self.spec_config(),
    {
        &self.config
    }

    /// Phase one of a call: walk the escalation order as far as possible
    /// without the remote service.
    ///
    /// In random mode the generator answers at once with tier 255 and zero
    /// confidence. Otherwise tier 0 is asked first, then tier 1; escalation
    /// never skips ahead of a satisfied lower tier. If both decline and
    /// tier 2 is enabled and the observation yields tags, the planned remote
    /// request is handed back for phase two; in every other case the
    /// generator's fallback answers. Finished decisions are stamped with the
    /// elapsed wall-clock time.
    pub fn decide_local(&mut self, state: &GameState) -> (r: CascadeStep)
        requires
            old(self).wf(),
        ensures
            final(self).wf(),
            final(self).spec_config() == old(self).spec_config(),
            final(self).rule_engine() == old(self).rule_engine(),
            final(self).rag_client() == old(self).rag_client(),
            ({
                let cfg = old(self).spec_config();
                let rules = old(self).rule_engine().rules();
                let entries = old(self).cache().entries();
                let key = spec_state_hash(state.health, state.ammo, state.enemies_visible);
                let prior = old(self).rng().spec_state();
                &&& cfg.random_mode ==> (r matches CascadeStep::Done(d) && is_fallback_decision(
                    d,
                    prior,
                ) && final(self).rng().spec_state() == xorshift_step(prior)
                    && Self::cache_unchanged(*old(self), *final(self)))
                &&& !cfg.random_mode && cfg.l0_enabled && spec_first_match(rules, *state) is Some
                    ==> (r matches CascadeStep::Done(d) && d@ == (DecisionModel {
                    action: spec_first_match(rules, *state).unwrap().action,
                    decision_level: 0,
                    confidence: 1000,
                    matched: Some(spec_first_match(rules, *state).unwrap().name@),
                }) && final(self).rng().spec_state() == prior && Self::cache_unchanged(
                    *old(self),
                    *final(self),
                ))
                &&& !cfg.random_mode && !(cfg.l0_enabled && spec_first_match(rules, *state) is Some)
                    && cfg.l1_enabled && spec_find(entries, key) is Some ==> ({
                    let e = entries[spec_find(entries, key).unwrap()];
                    r matches CascadeStep::Done(d) && d@ == (DecisionModel {
                        action: spec_entry_action(e),
                        decision_level: 1,
                        confidence: e.confidence as int,
                        matched: Some("tier1:"@ + e.source_doc_id@),
                    }) && final(self).rng().spec_state() == prior && final(self).cache().entries()
                        == entries.update(
                        spec_find(entries, key).unwrap(),
                        (CachedEntry {
                            hit_count: sat_inc(e.hit_count),
                            last_accessed: old(self).cache().clock(),
                            ..e
                        }),
                    ) && final(self).cache().clock() == sat_inc(old(self).cache().clock())
                })
                &&& !cfg.random_mode && !(cfg.l0_enabled && spec_first_match(rules, *state) is Some)
                    && !(cfg.l1_enabled && spec_find(entries, key) is Some) && cfg.l2_enabled
                    && spec_situation_tags(*state).len() > 0 ==> (r matches
                CascadeStep::NeedRemote(p) && p.request.k == old(self).rag_client().spec_k()
                    && p.request.tags@.map_values(|t: String| t@) == spec_situation_tags(*state)
                    && p.request.min_trust_milli == 300 && p.request.exclude_retired && final(self).rng().spec_state() == prior && Self::cache_unchanged(*old(self), *final(self)))
                &&& !cfg.random_mode && !(cfg.l0_enabled && spec_first_match(rules, *state) is Some)
                    && !(cfg.l1_enabled && spec_find(entries, key) is Some) && !(cfg.l2_enabled
                    && spec_situation_tags(*state).len() > 0) ==> (r matches CascadeStep::Done(d)
                    && is_fallback_decision(d, prior) && final(self).rng().spec_state()
                    == xorshift_step(prior) && Self::cache_unchanged(*old(self), *final(self)))
            }),
    {
        let started = now_instant();
        if self.config.random_mode {
            let action = self.rng.random_action();
            let latency_ns = duration_nanos(&elapsed_since(&started));
            return CascadeStep::Done(
                Decision {
                    action,
                    decision_level: LEVEL_FALLBACK,
                    confidence: 0,
                    latency_ns,
                    rule_matched: None,
                },
            );
        }
        if self.config.l0_enabled {
            if let Some(decision) = self.rule_engine.evaluate(state) {
                let mut decision = decision;
                decision.latency_ns = duration_nanos(&elapsed_since(&started));
                return CascadeStep::Done(decision);
            }
        }
        if self.config.l1_enabled {
            if let Some(decision) = self.cache_client.lookup(state) {
                let mut decision = decision;
                decision.latency_ns = duration_nanos(&elapsed_since(&started));
                return CascadeStep::Done(decision);
            }
        }
        if self.config.l2_enabled {
            if let Some(request) = self.rag_client.plan_query(state) {
                return CascadeStep::NeedRemote(PendingQuery { request, started });
            }
        }
        let action = self.rng.random_action();
        let latency_ns = duration_nanos(&elapsed_since(&started));
        CascadeStep::Done(
            Decision { action, decision_level: LEVEL_FALLBACK, confidence: 0, latency_ns, rule_matched: None },
        )
    }

    /// Phase two of a call: finish from the remote service's parsed hits.
    ///
    /// A nonempty hit list yields the tier 2 decision of the best-scoring
    /// hit, which is also written back into the cache so a future call can
    /// hit tier 1 for the same bucket. An empty hit list (absent evidence,
    /// transport failure, malformed response) falls through to the
    /// generator's fallback. The decision is stamped with the wall-clock
    /// time elapsed since the phase-one call began.
    pub fn decide_remote(
        &mut self,
        state: &GameState,
        pending: PendingQuery,
        hits: Vec<SearchHit>,
    ) -> (r: Decision)
        requires
            old(self).wf(),
        ensures
            final(self).wf(),
            final(self).spec_config() == old(self).spec_config(),
            final(self).rule_engine() == old(self).rule_engine(),
            final(self).rag_client() == old(self).rag_client(),
            ({
                let w = old(self).rag_client().spec_weights();
                let k = old(self).rag_client().spec_k();
                let key = spec_state_hash(state.health, state.ammo, state.enemies_visible);
                let prior = old(self).rng().spec_state();
                &&& old(self).rag_client().spec_enabled() && hits@.len() > 0 ==> ({
                    let b = spec_best_hit(w, hits@, k);
                    &&& r@ == (DecisionModel {
                        action: spec_tactic_action(spec_hit_tactic(hits@[b])),
                        decision_level: 2,
                        confidence: spec_hit_score(w, hits@[b], k),
                        matched: Some("tier2:"@ + hits@[b].doc_id@),
                    })
                    &&& final(self).rng().spec_state() == prior
                    &&& old(self).cache().spec_enabled() ==> cache_upserted(
                        old(self).cache().entries(),
                        final(self).cache().entries(),
                        key,
                        r,
                        old(self).cache().clock(),
                    ) && final(self).cache().clock() == sat_inc(old(self).cache().clock())
                    &&& !old(self).cache().spec_enabled() ==> Self::cache_unchanged(
                        *old(self),
                        *final(self),
                    )
                })
                &&& !(old(self).rag_client().spec_enabled() && hits@.len() > 0) ==> (
                is_fallback_decision(r, prior) && final(self).rng().spec_state() == xorshift_step(
                    prior,
                ) && Self::cache_unchanged(*old(self), *final(self)))
            }),
    {
        match self.rag_client.respond(hits) {
            Some(decision) => {
                self.cache_client.insert(state, &decision);
                let mut decision = decision;
                decision.latency_ns = duration_nanos(&elapsed_since(&pending.started));
                decision
            },
            None => {
                let action = self.rng.random_action();
                let latency_ns = duration_nanos(&elapsed_since(&pending.started));
                Decision {
                    action,
                    decision_level: LEVEL_FALLBACK,
                    confidence: 0,
                    latency_ns,
                    rule_matched: None,
                }
            },
        }
    }
}

} // verus!
