//! Tier 0 rule engine: priority-ordered condition/action rules evaluated
//! against the observation, with no I/O.
//!
//! Rules are compiled once into an immutable list sorted descending by
//! priority; the sort is stable, so rules of equal priority keep their
//! insertion order. Evaluation walks the sorted list and answers with the
//! first rule whose condition holds.

use vstd::prelude::*;

use crate::game::spec_health_fraction;
use crate::game::Action;
use crate::game::Decision;
use crate::game::DecisionModel;
use crate::game::GameState;

verus! {

/// A condition tree over the observation: leaf predicates combined with
/// AND / OR nodes, evaluated by recursive short-circuit descent.
#[derive(Debug)]
pub enum RuleCondition {
    /// Health fraction (in thousandths) strictly below the threshold.
    HealthBelow(u32),
    /// Health fraction (in thousandths) strictly above the threshold.
    HealthAbove(u32),
    /// At least this many enemies visible.
    EnemiesAtLeast(i32),
    /// No enemies visible.
    NoEnemies,
    /// Ammo strictly below the threshold.
    AmmoBelow(i32),
    /// All child conditions hold.
    And(Vec<RuleCondition>),
    /// At least one child condition holds.
    Or(Vec<RuleCondition>),
}

/// What a condition tree means on an observation.
pub open spec fn spec_eval(c: RuleCondition, s: GameState) -> bool
    decreases c,
{
    match c {
        RuleCondition::HealthBelow(t) => spec_health_fraction(s.health) < t,
        RuleCondition::HealthAbove(t) => spec_health_fraction(s.health) > t,
        RuleCondition::EnemiesAtLeast(n) => s.enemies_visible >= n,
        RuleCondition::NoEnemies => s.enemies_visible == 0,
        RuleCondition::AmmoBelow(n) => s.ammo < n,
        RuleCondition::And(cs) => forall|i: int|
            0 <= i < cs@.len() ==> spec_eval(#[trigger] cs@[i], s),
        RuleCondition::Or(cs) => exists|i: int|
            0 <= i < cs@.len() && spec_eval(#[trigger] cs@[i], s),
    }
}

impl RuleCondition {
    /// Evaluate the condition tree against an observation.
    #[verifier::loop_isolation(false)]
    pub fn evaluate(&self, state: &GameState) -> (r: bool)
        ensures
            r == spec_eval(*self, *state),
        decreases *self,
    {
        match self {
            RuleCondition::HealthBelow(t) => state.health_fraction() < *t,
            RuleCondition::HealthAbove(t) => state.health_fraction() > *t,
            RuleCondition::EnemiesAtLeast(n) => state.enemies_visible >= *n,
            RuleCondition::NoEnemies => state.enemies_visible == 0,
            RuleCondition::AmmoBelow(n) => state.ammo < *n,
            RuleCondition::And(cs) => {
                let mut i: usize = 0;
                while i < cs.len()
                    invariant
                        i <= cs@.len(),
                        forall|j: int| 0 <= j < i ==> spec_eval(#[trigger] cs@[j], *state),
                    decreases cs@.len() - i,
                {
                    if !cs[i].evaluate(state) {
                        return false;
                    }
                    i = i + 1;
                }
                true
            },
            RuleCondition::Or(cs) => {
                let mut i: usize = 0;
                while i < cs.len()
                    invariant
                        i <= cs@.len(),
                        forall|j: int| 0 <= j < i ==> !spec_eval(#[trigger] cs@[j], *state),
                    decreases cs@.len() - i,
                {
                    if cs[i].evaluate(state) {
                        return true;
                    }
                    i = i + 1;
                }
                false
            },
        }
    }
}

/// A single rule: a named condition tree, the action it selects, and a
/// priority (higher priorities are checked first).
#[derive(Debug)]
pub struct Rule {
    pub name: String,
    pub condition: RuleCondition,
    pub action: Action,
    pub priority: u8,
}

/// Sorted descending by priority.
pub open spec fn sorted_desc(s: Seq<Rule>) -> bool {
    forall|i: int, j: int| 0 <= i < j < s.len() ==> s[i].priority >= s[j].priority
}

/// The position a rule of priority `p` is inserted at, scanning from `i`:
/// after every rule of priority at least `p`, so that equal priorities keep
/// insertion order.
pub open spec fn insert_pos_from(s: Seq<Rule>, p: u8, i: nat) -> int
    decreases s.len() - i,
{
    if i >= s.len() {
        i as int
    } else if s[i as int].priority >= p {
        insert_pos_from(s, p, (i + 1) as nat)
    } else {
        i as int
    }
}

/// The position a rule of priority `p` is inserted at.
pub open spec fn insert_pos(s: Seq<Rule>, p: u8) -> int {
    insert_pos_from(s, p, 0)
}

/// The rule list after inserting `r` in priority order (stable).
pub open spec fn insert_rule(s: Seq<Rule>, r: Rule) -> Seq<Rule> {
    s.insert(insert_pos(s, r.priority), r)
}

/// The first rule from index `i` on whose condition holds on `s`.
pub open spec fn first_match_from(rules: Seq<Rule>, s: GameState, i: nat) -> Option<Rule>
    decreases rules.len() - i,
{
    if i >= rules.len() {
        None
    } else if spec_eval(rules[i as int].condition, s) {
        Some(rules[i as int])
    } else {
        first_match_from(rules, s, (i + 1) as nat)
    }
}

/// The first rule in the list whose condition holds on `s`.
pub open spec fn spec_first_match(rules: Seq<Rule>, s: GameState) -> Option<Rule> {
    first_match_from(rules, s, 0)
}

/// The insert position lies in range; everything before it has priority at
/// least `p` and the rule at it, if any, has lower priority.
proof fn lemma_insert_pos_bounds(s: Seq<Rule>, p: u8, i: nat)
    requires
        i <= s.len(),
    ensures
        ({
            let pos = insert_pos_from(s, p, i);
            &&& i <= pos <= s.len()
            &&& forall|j: int| i <= j < pos ==> s[j].priority >= p
            &&& pos < s.len() ==> s[pos].priority < p
        }),
    decreases s.len() - i,
{
    if i < s.len() && s[i as int].priority >= p {
        lemma_insert_pos_bounds(s, p, (i + 1) as nat);
    }
}

/// Whether `rules` is exactly the fixed default rule set for the given
/// health threshold (in thousandths).
pub open spec fn is_default_rules(rules: Seq<Rule>, health_threshold: u32) -> bool {
    &&& rules.len() == 3
    &&& rules[0].name@ == "emergency_retreat"@
    &&& rules[0].condition == RuleCondition::HealthBelow(health_threshold)
    &&& rules[0].action == Action::MoveLeft
    &&& rules[0].priority == 100
    &&& rules[1].name@ == "attack_visible_enemy"@
    &&& rules[1].condition == RuleCondition::EnemiesAtLeast(1)
    &&& rules[1].action == Action::Attack
    &&& rules[1].priority == 50
    &&& rules[2].name@ == "reposition_no_enemies"@
    &&& rules[2].condition == RuleCondition::NoEnemies
    &&& rules[2].action == Action::MoveLeft
    &&& rules[2].priority == 10
}

/// Tier 0 rule engine: compiled rules sorted descending by priority, with an
/// enablement flag that suppresses all evaluation without discarding the
/// compiled rules.
pub struct RuleEngine {
    rules: Vec<Rule>,
    enabled: bool,
}

impl RuleEngine {
    /// The compiled rules, in evaluation order.
    pub closed spec fn rules(&self) -> Seq<Rule> {
        self.rules@
    }

    /// Whether the tier is enabled.
    pub closed spec fn spec_enabled(&self) -> bool {
        self.enabled
    }

    /// Well-formed: the rule list is sorted descending by priority.
    pub open spec fn wf(&self) -> bool {
        sorted_desc(self.rules())
    }

    /// An engine with no rules.
    pub fn new(enabled: bool) -> (r: RuleEngine)
        ensures
            r.wf(),
            r.spec_enabled() == enabled,
            r.rules() =~= Seq::<Rule>::empty(),
    {
        RuleEngine { rules: Vec::new(), enabled }
    }

    /// Add a rule, keeping the list sorted descending by priority; a rule of
    /// equal priority goes after those already present.
    pub fn add_rule(&mut self, rule: Rule)
        requires
            old(self).wf(),
        ensures
            final(self).wf(),
            final(self).spec_enabled() == old(self).spec_enabled(),
            final(self).rules() == insert_rule(old(self).rules(), rule),
    {
        proof {
            lemma_insert_pos_bounds(self.rules@, rule.priority, 0);
        }
        let ghost old_rules = self.rules@;
        let ghost pos = insert_pos(old_rules, rule.priority);
        let mut i: usize = 0;
        while i < self.rules.len() && self.rules[i].priority >= rule.priority
            invariant
                i <= self.rules@.len(),
                self.rules@ == old_rules,
                insert_pos_from(old_rules, rule.priority, 0) == insert_pos_from(
                    old_rules,
                    rule.priority,
                    i as nat,
                ),
            decreases self.rules@.len() - i,
        {
            i = i + 1;
        }
        self.rules.insert(i, rule);
        proof {
            let new_rules = self.rules@;
            assert(new_rules == old_rules.insert(pos, rule));
            assert forall|a: int, b: int|
                0 <= a < b < new_rules.len() implies new_rules[a].priority
                >= new_rules[b].priority by {
                if a < pos {
                    assert(new_rules[a] == old_rules[a]);
                } else if a > pos {
                    assert(new_rules[a] == old_rules[a - 1]);
                }
                if b < pos {
                    assert(new_rules[b] == old_rules[b]);
                } else if b > pos {
                    assert(new_rules[b] == old_rules[b - 1]);
                }
            }
        }
    }

    /// An engine holding the fixed default rule set: emergency retreat on low
    /// health (priority 100), attack when enemies are visible (priority 50),
    /// reposition when none are (priority 10). The health threshold is in
    /// thousandths.
    pub fn with_default_rules(enabled: bool, health_threshold: u32) -> (r: RuleEngine)
        ensures
            r.wf(),
            r.spec_enabled() == enabled,
            is_default_rules(r.rules(), health_threshold),
    {
        let mut engine = RuleEngine::new(enabled);
        let retreat = Rule {
            name: String::from_str("emergency_retreat"),
            condition: RuleCondition::HealthBelow(health_threshold),
            action: Action::MoveLeft,
            priority: 100,
        };
        let ghost g_retreat = retreat;
        engine.add_rule(retreat);
        proof {
            assert(engine.rules() =~= seq![g_retreat]);
        }
        let ghost rules1 = engine.rules();
        let attack = Rule {
            name: String::from_str("attack_visible_enemy"),
            condition: RuleCondition::EnemiesAtLeast(1),
            action: Action::Attack,
            priority: 50,
        };
        let ghost g_attack = attack;
        engine.add_rule(attack);
        proof {
            assert(insert_pos_from(rules1, 50, 0) == insert_pos_from(rules1, 50, 1));
            assert(insert_pos(rules1, 50) == 1);
            assert(engine.rules() =~= seq![g_retreat, g_attack]);
        }
        let ghost rules2 = engine.rules();
        let reposition = Rule {
            name: String::from_str("reposition_no_enemies"),
            condition: RuleCondition::NoEnemies,
            action: Action::MoveLeft,
            priority: 10,
        };
        let ghost g_reposition = reposition;
        engine.add_rule(reposition);
        proof {
            assert(insert_pos_from(rules2, 10, 0) == insert_pos_from(rules2, 10, 1));
            assert(insert_pos_from(rules2, 10, 1) == insert_pos_from(rules2, 10, 2));
            assert(insert_pos(rules2, 10) == 2);
            assert(engine.rules() =~= seq![g_retreat, g_attack, g_reposition]);
        }
        engine
    }

    /// Walk the sorted rules and answer with the first whose condition holds:
    /// a tier 0 decision with full confidence and the rule's name as the
    /// matched identifier. A disabled engine, or one with no matching rule,
    /// declines.
    #[verifier::loop_isolation(false)]
    pub fn evaluate(&self, state: &GameState) -> (r: Option<Decision>)
        ensures
            !self.spec_enabled() ==> r is None,
            self.spec_enabled() ==> match spec_first_match(self.rules(), *state) {
                None => r is None,
                Some(rule) => r is Some && r.unwrap()@ == (DecisionModel {
                    action: rule.action,
                    decision_level: 0,
                    confidence: 1000,
                    matched: Some(rule.name@),
                }),
            },
    {
        if !self.enabled {
            return None;
        }
        let mut i: usize = 0;
        while i < self.rules.len()
            invariant
                i <= self.rules@.len(),
                first_match_from(self.rules@, *state, 0) == first_match_from(
                    self.rules@,
                    *state,
                    i as nat,
                ),
            decreases self.rules@.len() - i,
        {
            if self.rules[i].condition.evaluate(state) {
                return Some(
                    Decision {
                        action: self.rules[i].action,
                        decision_level: 0,
                        confidence: 1000,
                        latency_ns: 0,
                        rule_matched: Some(self.rules[i].name.clone()),
                    },
                );
            }
            i = i + 1;
        }
        None
    }

    /// Whether the tier is enabled.
    pub fn is_enabled(&self) -> (r: bool)
        ensures
            r == self.spec_enabled(),
    {
        self.enabled
    }

    /// Enable or disable the tier, keeping the compiled rules.
    pub fn set_enabled(&mut self, enabled: bool)
        ensures
            final(self).spec_enabled() == enabled,
            final(self).rules() == old(self).rules(),
    {
        self.enabled = enabled;
    }

    /// How many rules are compiled.
    pub fn rule_count(&self) -> (r: usize)
        ensures
            r == self.rules().len(),
    {
        self.rules.len()
    }
}

/// Law: when two rules both match an observation, the engine resolves to the
/// higher-priority rule, whichever order the two were added in.
pub proof fn lemma_priority_wins(hi: Rule, lo: Rule, s: GameState)
    requires
        spec_eval(hi.condition, s),
        spec_eval(lo.condition, s),
        hi.priority > lo.priority,
    ensures
        spec_first_match(insert_rule(insert_rule(Seq::empty(), lo), hi), s) == Some(hi),
        spec_first_match(insert_rule(insert_rule(Seq::empty(), hi), lo), s) == Some(hi),
{
    let e = Seq::<Rule>::empty();
    let s_lo = insert_rule(e, lo);
    assert(insert_pos(e, lo.priority) == 0);
    assert(s_lo =~= seq![lo]);
    let s_lo_hi = insert_rule(s_lo, hi);
    assert(insert_pos(s_lo, hi.priority) == 0);
    assert(s_lo_hi =~= seq![hi, lo]);
    assert(spec_first_match(s_lo_hi, s) == Some(hi));

    let s_hi = insert_rule(e, hi);
    assert(insert_pos(e, hi.priority) == 0);
    assert(s_hi =~= seq![hi]);
    let s_hi_lo = insert_rule(s_hi, lo);
    assert(insert_pos_from(s_hi, lo.priority, 0) == insert_pos_from(s_hi, lo.priority, 1));
    assert(insert_pos(s_hi, lo.priority) == 1);
    assert(s_hi_lo =~= seq![hi, lo]);
    assert(spec_first_match(s_hi_lo, s) == Some(hi));
}

} // verus!
