//! Domain types: the observation record, the fixed action enumeration, and
//! the decision record returned to callers.
//!
//! All fractional quantities (health fraction, confidence, thresholds) are
//! carried in thousandths, so `1000` stands for the full fraction `1`.

use vstd::prelude::*;

verus! {

/// The closed set of actions the agent can take, each with a stable ordinal.
#[derive(Clone, Copy, PartialEq, Eq, Structural, Debug, Hash)]
pub enum Action {
    MoveLeft,
    MoveRight,
    Attack,
}

/// The stable ordinal of an action: 0, 1 or 2.
pub open spec fn action_ordinal(a: Action) -> int {
    match a {
        Action::MoveLeft => 0,
        Action::MoveRight => 1,
        Action::Attack => 2,
    }
}

/// The action denoted by an ordinal; ordinals outside 0..3 denote no action.
pub open spec fn action_of_ordinal(idx: int) -> Option<Action> {
    if idx == 0 {
        Some(Action::MoveLeft)
    } else if idx == 1 {
        Some(Action::MoveRight)
    } else if idx == 2 {
        Some(Action::Attack)
    } else {
        None
    }
}

impl Action {
    /// The stable integer ordinal of this action.
    pub fn to_index(self) -> (r: i32)
        ensures
            r == action_ordinal(self),
    {
        match self {
            Action::MoveLeft => 0,
            Action::MoveRight => 1,
            Action::Attack => 2,
        }
    }

    /// The action with the given ordinal, or `None` for any other integer.
    pub fn from_index(idx: i32) -> (r: Option<Action>)
        ensures
            r == action_of_ordinal(idx as int),
    {
        if idx == 0 {
            Some(Action::MoveLeft)
        } else if idx == 1 {
            Some(Action::MoveRight)
        } else if idx == 2 {
            Some(Action::Attack)
        } else {
            None
        }
    }

    /// Every action, in ordinal order.
    pub fn all() -> (r: [Action; 3])
        ensures
            r@ == seq![Action::MoveLeft, Action::MoveRight, Action::Attack],
    {
        let r = [Action::MoveLeft, Action::MoveRight, Action::Attack];
        proof {
            assert(r@ =~= seq![Action::MoveLeft, Action::MoveRight, Action::Attack]);
        }
        r
    }
}

/// Law: for every action, ordinal -> action -> ordinal is the identity, the
/// ordinal lies in 0..3, and every ordinal outside 0..3 denotes no action.
pub proof fn lemma_action_ordinal_round_trip()
    ensures
        forall|a: Action| action_of_ordinal(#[trigger] action_ordinal(a)) == Some(a),
        forall|a: Action| 0 <= #[trigger] action_ordinal(a) < 3,
        forall|idx: int| !(0 <= idx < 3) ==> #[trigger] action_of_ordinal(idx) is None,
{
}

/// One observation of the environment at a game tick.
///
/// Positions, the orientation angle and the elapsed episode time are carried
/// in thousandths of their native unit; the decision tiers never read them.
#[derive(Clone, Debug)]
pub struct GameState {
    pub health: i32,
    pub ammo: i32,
    pub kills: i32,
    pub enemies_visible: i32,
    pub position_x: i64,
    pub position_y: i64,
    pub position_z: i64,
    pub angle: i64,
    pub episode_time: i64,
    pub is_dead: bool,
    pub tick: u32,
}

/// Health as a fraction of full health (100), in thousandths,
/// clamped to [0, 1000].
pub open spec fn spec_health_fraction(health: i32) -> int {
    if health <= 0 {
        0
    } else if health >= 100 {
        1000
    } else {
        health * 10
    }
}

impl GameState {
    /// Health as a fraction of full health, in thousandths of 1,
    /// clamped to [0, 1000].
    pub fn health_fraction(&self) -> (r: u32)
        ensures
            r == spec_health_fraction(self.health),
    {
        if self.health <= 0 {
            0
        } else if self.health >= 100 {
            1000
        } else {
            (self.health as u32) * 10
        }
    }

    /// Whether the agent is in danger: health fraction strictly below the
    /// threshold (in thousandths).
    pub fn is_low_health(&self, threshold: u32) -> (r: bool)
        ensures
            r == (spec_health_fraction(self.health) < threshold),
    {
        self.health_fraction() < threshold
    }

    /// Whether ammo is strictly below the threshold.
    pub fn is_low_ammo(&self, threshold: i32) -> (r: bool)
        ensures
            r == (self.ammo < threshold),
    {
        self.ammo < threshold
    }
}

/// The decision level of the random fallback, outside the three cascade tiers.
pub const LEVEL_FALLBACK: u8 = 255;

/// A decision returned to the caller, annotated with the tier that produced
/// it, a confidence in thousandths, the end-to-end latency of the call, and
/// the identifier of the matched rule or source document if one exists.
#[derive(Clone, Debug)]
pub struct Decision {
    pub action: Action,
    pub decision_level: u8,
    pub confidence: u64,
    pub latency_ns: u64,
    pub rule_matched: Option<String>,
}

/// The mathematical content of a decision: everything but the latency stamp,
/// with the matched identifier read as a sequence of characters.
pub struct DecisionModel {
    pub action: Action,
    pub decision_level: int,
    pub confidence: int,
    pub matched: Option<Seq<char>>,
}

impl View for Decision {
    type V = DecisionModel;

    open spec fn view(&self) -> DecisionModel {
        DecisionModel {
            action: self.action,
            decision_level: self.decision_level as int,
            confidence: self.confidence as int,
            matched: match self.rule_matched {
                Some(s) => Some(s@),
                None => None,
            },
        }
    }
}

} // verus!
