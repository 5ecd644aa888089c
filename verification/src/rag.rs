//! Tier 2 remote search client: derives situational tags from the
//! observation, and scores and ranks the candidate strategy documents a
//! remote document-search service returns.
//!
//! The network round trip itself is outside this library: callers send the
//! planned request (`plan_query`) to the service and hand the parsed hits
//! back (`respond`). Transport failure, a malformed response and an empty hit
//! list all come back here as an empty hit vector, which yields no decision
//! (fail-open). All fractional quantities are in thousandths.

use vstd::prelude::*;
use vstd::string::StrSliceExecFns;
use vstd::string::StringExecFns;

use crate::cache::spec_min;
use crate::game::Action;
use crate::game::Decision;
use crate::game::DecisionModel;
use crate::game::GameState;
use crate::text::is_prefix_of;
use crate::text::str_starts_with;

verus! {

/// A candidate strategy document, built from one search hit: transient, never
/// persisted as a full record.
#[derive(Debug)]
pub struct StrategyDoc {
    pub doc_id: String,
    pub situation_tags: Vec<String>,
    pub tactic: String,
    pub weapon: String,
    pub similarity: u32,
    pub confidence: u32,
    pub recency: u32,
}

/// Scoring weights for candidate ranking: three nonnegative coefficients in
/// thousandths, combined as a weighted sum.
#[derive(Debug, Clone)]
pub struct ScoringWeights {
    pub similarity: u32,
    pub confidence: u32,
    pub recency: u32,
}

/// The default weights: 0.4 similarity, 0.4 confidence, 0.2 recency.
pub open spec fn default_weights() -> ScoringWeights {
    ScoringWeights { similarity: 400, confidence: 400, recency: 200 }
}

impl Default for ScoringWeights {
    /// The default weights: 0.4 similarity, 0.4 confidence, 0.2 recency.
    fn default() -> (r: ScoringWeights)
        ensures
            r == default_weights(),
    {
        ScoringWeights { similarity: 400, confidence: 400, recency: 200 }
    }
}

/// The weighted sum `(ws*sim + wc*conf + wr*rec) / 1000`, floored.
pub open spec fn spec_weighted_score(w: ScoringWeights, sim: int, conf: int, rec: int) -> int {
    (w.similarity * sim + w.confidence * conf + w.recency * rec) / 1000
}

/// The score of a candidate document under the given weights.
pub open spec fn spec_score(w: ScoringWeights, d: StrategyDoc) -> int {
    spec_weighted_score(w, d.similarity as int, d.confidence as int, d.recency as int)
}

/// The product of two values each below 2^32 is below 2^64.
proof fn lemma_u32_mul_bound(a: int, b: int)
    by (nonlinear_arith)
    requires
        0 <= a < 0x1_0000_0000,
        0 <= b < 0x1_0000_0000,
    ensures
        0 <= a * b < 0x1_0000_0000_0000_0000,
{
}

/// The weighted sum of three values in thousandths, floored back to
/// thousandths.
fn weighted_sum(w: &ScoringWeights, sim: u32, conf: u32, rec: u32) -> (r: u64)
    ensures
        r == spec_weighted_score(*w, sim as int, conf as int, rec as int),
{
    proof {
        lemma_u32_mul_bound(w.similarity as int, sim as int);
        lemma_u32_mul_bound(w.confidence as int, conf as int);
        lemma_u32_mul_bound(w.recency as int, rec as int);
    }
    let total: u128 = (w.similarity as u128) * (sim as u128) + (w.confidence as u128) * (
    conf as u128) + (w.recency as u128) * (rec as u128);
    (total / 1000) as u64
}

impl StrategyDoc {
    /// The weighted score of this candidate under the given weights.
    pub fn score_with(&self, weights: &ScoringWeights) -> (r: u64)
        ensures
            r == spec_score(*weights, *self),
    {
        weighted_sum(weights, self.similarity, self.confidence, self.recency)
    }

    /// The weighted score of this candidate under the default weights.
    pub fn score(&self) -> (r: u64)
        ensures
            r == spec_score(default_weights(), *self),
    {
        self.score_with(&ScoringWeights::default())
    }
}

/// One hit of the remote search response, already parsed to plain values:
/// fractional scores in thousandths, absent fields as `None`.
#[derive(Debug)]
pub struct SearchHit {
    pub doc_id: String,
    pub situation_tags: Vec<String>,
    pub tactic: Option<String>,
    pub weapon: Option<String>,
    pub relevance_milli: u32,
    pub trust_milli: Option<u32>,
}

/// The tactic of a hit; a hit without one defaults to the generic attack
/// tactic.
pub open spec fn spec_hit_tactic(h: SearchHit) -> Seq<char> {
    match h.tactic {
        Some(t) => t@,
        None => "attack"@,
    }
}

/// The trust score of a hit in thousandths; a hit without one defaults to
/// one half.
pub open spec fn spec_hit_trust(h: SearchHit) -> int {
    match h.trust_milli {
        Some(t) => t as int,
        None => 500,
    }
}

/// The similarity of a hit: its relevance divided by the result limit `k`,
/// clamped to [0, 1000].
pub open spec fn spec_hit_similarity(h: SearchHit, k: u32) -> int {
    spec_min(h.relevance_milli as int / k as int, 1000)
}

/// The score a hit's candidate gets under the given weights: similarity,
/// trust and the fixed recency of seed-corpus documents (0.8), weighted.
pub open spec fn spec_hit_score(w: ScoringWeights, h: SearchHit, k: u32) -> int {
    spec_weighted_score(w, spec_hit_similarity(h, k), spec_hit_trust(h), 800)
}

/// Whether `doc` is exactly the candidate built from `hit` with result
/// limit `k`.
pub open spec fn candidate_matches(doc: StrategyDoc, hit: SearchHit, k: u32) -> bool {
    &&& doc.doc_id == hit.doc_id
    &&& doc.situation_tags == hit.situation_tags
    &&& doc.tactic@ == spec_hit_tactic(hit)
    &&& doc.weapon@ == (match hit.weapon {
        Some(w) => w@,
        None => "shotgun"@,
    })
    &&& doc.similarity == spec_hit_similarity(hit, k)
    &&& doc.confidence == spec_hit_trust(hit)
    &&& doc.recency == 800
}

/// Build the candidate a hit denotes: identifier and tags from the hit,
/// tactic and weapon from its decision fields (with generic defaults),
/// similarity normalized from the relevance score, confidence from the trust
/// score, and the fixed seed-corpus recency.
pub fn candidate_from_hit(hit: SearchHit, k: u32) -> (r: StrategyDoc)
    requires
        k > 0,
    ensures
        candidate_matches(r, hit, k),
{
    let q = hit.relevance_milli / k;
    let similarity = if q > 1000 {
        1000
    } else {
        q
    };
    let confidence = match hit.trust_milli {
        Some(t) => t,
        None => 500,
    };
    let tactic = match hit.tactic {
        Some(t) => t,
        None => String::from_str("attack"),
    };
    let weapon = match hit.weapon {
        Some(w) => w,
        None => String::from_str("shotgun"),
    };
    StrategyDoc {
        doc_id: hit.doc_id,
        situation_tags: hit.situation_tags,
        tactic,
        weapon,
        similarity,
        confidence,
        recency: 800,
    }
}

/// A candidate's score equals its hit's score.
pub proof fn lemma_candidate_score(doc: StrategyDoc, hit: SearchHit, k: u32, w: ScoringWeights)
    requires
        candidate_matches(doc, hit, k),
    ensures
        spec_score(w, doc) == spec_hit_score(w, hit, k),
{
}

/// The situational tags derived from an observation, by fixed thresholds:
/// the checks are mutually independent, so zero to three tags may apply.
pub open spec fn spec_situation_tags(s: GameState) -> Seq<Seq<char>> {
    let health_tags: Seq<Seq<char>> = if s.health < 30 {
        seq!["low_health"@]
    } else if s.health >= 80 {
        seq!["full_health"@]
    } else {
        Seq::empty()
    };
    let ammo_tags: Seq<Seq<char>> = if s.ammo < 10 {
        seq!["low_ammo"@]
    } else if s.ammo >= 50 {
        seq!["ammo_abundant"@]
    } else {
        Seq::empty()
    };
    let enemy_tags: Seq<Seq<char>> = if s.enemies_visible >= 3 {
        seq!["multi_enemy"@]
    } else if s.enemies_visible == 1 {
        seq!["single_enemy"@]
    } else {
        Seq::empty()
    };
    health_tags + ammo_tags + enemy_tags
}

/// Derive the situational tags of an observation.
pub fn derive_situation_tags(state: &GameState) -> (r: Vec<String>)
    ensures
        r@.map_values(|t: String| t@) == spec_situation_tags(*state),
{
    let mut tags: Vec<String> = Vec::new();
    if state.health < 30 {
        tags.push(String::from_str("low_health"));
    } else if state.health >= 80 {
        tags.push(String::from_str("full_health"));
    }
    if state.ammo < 10 {
        tags.push(String::from_str("low_ammo"));
    } else if state.ammo >= 50 {
        tags.push(String::from_str("ammo_abundant"));
    }
    if state.enemies_visible >= 3 {
        tags.push(String::from_str("multi_enemy"));
    } else if state.enemies_visible == 1 {
        tags.push(String::from_str("single_enemy"));
    }
    proof {
        assert(tags@.map_values(|t: String| t@) =~= spec_situation_tags(*state));
    }
    tags
}

/// What a tactic label means as an action: retreating and kiting tactics map
/// to the evasive action, flanking tactics to the lateral action, and
/// anything else (aggressive, charge, attack, hold, cover, dodge, ...) to the
/// offensive action.
pub open spec fn spec_tactic_action(t: Seq<char>) -> Action {
    if is_prefix_of("retreat"@, t) || is_prefix_of("kite"@, t) {
        Action::MoveLeft
    } else if is_prefix_of("flank"@, t) {
        Action::MoveRight
    } else {
        Action::Attack
    }
}

/// Map a tactic label to the action it denotes.
pub fn tactic_to_action(tactic: &str) -> (r: Action)
    ensures
        r == spec_tactic_action(tactic@),
{
    if str_starts_with(tactic, "retreat") || str_starts_with(tactic, "kite") {
        Action::MoveLeft
    } else if str_starts_with(tactic, "flank") {
        Action::MoveRight
    } else {
        Action::Attack
    }
}

/// The index of the best-scoring hit among indices `[i, len)` together with
/// the best index `b` seen so far; only a strictly greater score displaces
/// the running best, so ties resolve to the earliest index.
pub open spec fn best_hit_from(
    w: ScoringWeights,
    hits: Seq<SearchHit>,
    k: u32,
    i: nat,
    b: int,
) -> int
    decreases hits.len() - i,
{
    if i >= hits.len() {
        b
    } else if spec_hit_score(w, hits[i as int], k) > spec_hit_score(w, hits[b], k) {
        best_hit_from(w, hits, k, (i + 1) as nat, i as int)
    } else {
        best_hit_from(w, hits, k, (i + 1) as nat, b)
    }
}

/// The index of the best-scoring hit; ties resolve to the hit encountered
/// first in response order.
pub open spec fn spec_best_hit(w: ScoringWeights, hits: Seq<SearchHit>, k: u32) -> int {
    best_hit_from(w, hits, k, 1, 0)
}

proof fn lemma_best_hit_from(w: ScoringWeights, hits: Seq<SearchHit>, k: u32, i: nat, b: int)
    requires
        0 <= b < i <= hits.len(),
        forall|j: int| 0 <= j < i ==> spec_hit_score(w, hits[j], k) <= spec_hit_score(w, hits[b], k),
        forall|j: int| 0 <= j < b ==> spec_hit_score(w, hits[j], k) < spec_hit_score(w, hits[b], k),
    ensures
        ({
            let r = best_hit_from(w, hits, k, i, b);
            &&& 0 <= r < hits.len()
            &&& forall|j: int|
                0 <= j < hits.len() ==> spec_hit_score(w, hits[j], k) <= spec_hit_score(
                    w,
                    hits[r],
                    k,
                )
            &&& forall|j: int| 0 <= j < r ==> spec_hit_score(w, hits[j], k) < spec_hit_score(
                w,
                hits[r],
                k,
            )
        }),
    decreases hits.len() - i,
{
    if i < hits.len() {
        if spec_hit_score(w, hits[i as int], k) > spec_hit_score(w, hits[b], k) {
            lemma_best_hit_from(w, hits, k, (i + 1) as nat, i as int);
        } else {
            lemma_best_hit_from(w, hits, k, (i + 1) as nat, b);
        }
    }
}

/// Law: the selected hit scores at least as high as every hit, and strictly
/// higher than every hit before it, so equal scores resolve to the hit
/// encountered first in response order.
pub proof fn lemma_best_hit_first_max(w: ScoringWeights, hits: Seq<SearchHit>, k: u32)
    requires
        hits.len() > 0,
    ensures
        ({
            let b = spec_best_hit(w, hits, k);
            &&& 0 <= b < hits.len()
            &&& forall|j: int|
                0 <= j < hits.len() ==> spec_hit_score(w, hits[j], k) <= spec_hit_score(
                    w,
                    hits[b],
                    k,
                )
            &&& forall|j: int| 0 <= j < b ==> spec_hit_score(w, hits[j], k) < spec_hit_score(
                w,
                hits[b],
                k,
            )
        }),
{
    lemma_best_hit_from(w, hits, k, 1, 0);
}

/// The request the remote search service is asked: the top `k` documents
/// whose situational tags overlap the given set, excluding retired documents
/// and documents below the minimum trust score (in thousandths).
#[derive(Debug)]
pub struct SearchRequest {
    pub k: u32,
    pub tags: Vec<String>,
    pub min_trust_milli: u32,
    pub exclude_retired: bool,
}

/// Tier 2 search client configuration: enablement, the service address, the
/// index searched, the result limit, and the scoring weights.
pub struct RagClient {
    enabled: bool,
    opensearch_url: String,
    index_name: String,
    k: u32,
    weights: ScoringWeights,
}

impl RagClient {
    /// Whether the tier is enabled.
    pub closed spec fn spec_enabled(&self) -> bool {
        self.enabled
    }

    /// The service address.
    pub closed spec fn spec_url(&self) -> Seq<char> {
        self.opensearch_url@
    }

    /// The name of the index searched.
    pub closed spec fn spec_index_name(&self) -> Seq<char> {
        self.index_name@
    }

    /// The result limit.
    pub closed spec fn spec_k(&self) -> u32 {
        self.k
    }

    /// The scoring weights.
    pub closed spec fn spec_weights(&self) -> ScoringWeights {
        self.weights
    }

    /// Well-formed: the result limit is positive.
    pub open spec fn wf(&self) -> bool {
        self.spec_k() > 0
    }

    /// A client for the service at the given address, with the fixed index
    /// name, result limit 5, and the default scoring weights.
    pub fn new(enabled: bool, opensearch_url: String) -> (r: RagClient)
        ensures
            r.wf(),
            r.spec_enabled() == enabled,
            r.spec_url() == opensearch_url@,
            r.spec_index_name() == "strategies"@,
            r.spec_k() == 5,
            r.spec_weights() == default_weights(),
    {
        RagClient {
            enabled,
            opensearch_url,
            index_name: String::from_str("strategies"),
            k: 5,
            weights: ScoringWeights::default(),
        }
    }

    /// Whether the tier is enabled.
    pub fn is_enabled(&self) -> (r: bool)
        ensures
            r == self.spec_enabled(),
    {
        self.enabled
    }

    /// The service address.
    pub fn opensearch_url(&self) -> (r: &str)
        ensures
            r@ == self.spec_url(),
    {
        self.opensearch_url.as_str()
    }

    /// Plan the remote query for an observation: the derived tags, the result
    /// limit, and the fixed trust filter. A disabled client plans nothing,
    /// and an observation with no derived tags is not worth a remote round
    /// trip.
    pub fn plan_query(&self, state: &GameState) -> (r: Option<SearchRequest>)
        ensures
            !self.spec_enabled() ==> r is None,
            self.spec_enabled() && spec_situation_tags(*state).len() == 0 ==> r is None,
            self.spec_enabled() && spec_situation_tags(*state).len() > 0 ==> r is Some && {
                let req = r.unwrap();
                &&& req.k == self.spec_k()
                &&& req.tags@.map_values(|t: String| t@) == spec_situation_tags(*state)
                &&& req.min_trust_milli == 300
                &&& req.exclude_retired == true
            },
    {
        if !self.enabled {
            return None;
        }
        let tags = derive_situation_tags(state);
        if tags.len() == 0 {
            return None;
        }
        Some(SearchRequest { k: self.k, tags, min_trust_milli: 300, exclude_retired: true })
    }

    /// Score the returned hits and decide from the winner.
    ///
    /// Every hit becomes a candidate; each candidate is scored under the
    /// client's weights; the maximum wins, with ties resolving to the hit
    /// encountered first in response order. The decision carries tier 2, the
    /// winning score as its confidence, the winner's identifier under the
    /// `tier2:` prefix, and the action the winner's tactic label denotes. A
    /// disabled client, or an empty hit list, yields no decision.
    pub fn respond(&self, hits: Vec<SearchHit>) -> (r: Option<Decision>)
        requires
            self.wf(),
        ensures
            !self.spec_enabled() ==> r is None,
            self.spec_enabled() && hits@.len() == 0 ==> r is None,
            self.spec_enabled() && hits@.len() > 0 ==> r is Some && {
                let b = spec_best_hit(self.spec_weights(), hits@, self.spec_k());
                r.unwrap()@ == (DecisionModel {
                    action: spec_tactic_action(spec_hit_tactic(hits@[b])),
                    decision_level: 2,
                    confidence: spec_hit_score(self.spec_weights(), hits@[b], self.spec_k()),
                    matched: Some("tier2:"@ + hits@[b].doc_id@),
                })
            },
    {
        if !self.enabled {
            return None;
        }
        if hits.len() == 0 {
            return None;
        }
        let ghost orig = hits@;
        let mut hits = hits;
        let mut docs: Vec<StrategyDoc> = Vec::new();
        while hits.len() > 0
            invariant
                self.wf(),
                docs@.len() + hits@.len() == orig.len(),
                hits@ == orig.skip(docs@.len() as int),
                forall|j: int|
                    0 <= j < docs@.len() ==> candidate_matches(#[trigger] docs@[j], orig[j], self.spec_k()),
            decreases hits@.len(),
        {
            let hit = hits.remove(0);
            docs.push(candidate_from_hit(hit, self.k));
            proof {
                assert(hits@ =~= orig.skip(docs@.len() as int));
            }
        }
        let ghost w = self.spec_weights();
        let mut best: usize = 0;
        let mut best_score: u64 = docs[0].score_with(&self.weights);
        proof {
            lemma_candidate_score(docs@[0], orig[0], self.spec_k(), w);
        }
        let mut i: usize = 1;
        while i < docs.len()
            invariant
                self.wf(),
                w == self.spec_weights(),
                docs@.len() == orig.len(),
                1 <= i <= docs@.len(),
                0 <= (best as int) < i,
                forall|j: int|
                    0 <= j < docs@.len() ==> candidate_matches(#[trigger] docs@[j], orig[j], self.spec_k()),
                best_score == spec_hit_score(w, orig[best as int], self.spec_k()),
                spec_best_hit(w, orig, self.spec_k()) == best_hit_from(
                    w,
                    orig,
                    self.spec_k(),
                    i as nat,
                    best as int,
                ),
            decreases docs@.len() - i,
        {
            let s = docs[i].score_with(&self.weights);
            proof {
                lemma_candidate_score(docs@[i as int], orig[i as int], self.spec_k(), w);
            }
            if s > best_score {
                best = i;
                best_score = s;
            }
            i = i + 1;
        }
        let winner = docs.remove(best);
        let action = tactic_to_action(winner.tactic.as_str());
        let matched = String::from_str("tier2:").concat(winner.doc_id.as_str());
        Some(
            Decision {
                action,
                decision_level: 2,
                confidence: best_score,
                latency_ns: 0,
                rule_matched: Some(matched),
            },
        )
    }
}

} // verus!
