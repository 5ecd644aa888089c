//! The orchestrator boundary consumed by an external transport layer: the
//! wire shape of the observation, the wire enumeration of actions, and the
//! per-request mode-override strings.
//!
//! An unrecognized mode-override string parses to nothing, which callers must
//! reject as a caller error rather than silently ignore.

use vstd::prelude::*;

use crate::cascade::CascadeConfig;
use crate::game::action_ordinal;
use crate::game::Action;
use crate::game::GameState;
use crate::text::str_eq;

verus! {

/// The observation as the transport delivers it: the observation fields
/// (fractional quantities in thousandths) plus an optional mode-override
/// string, where the empty string means the server's default mode.
#[derive(Debug)]
pub struct WireGameState {
    pub health: i32,
    pub ammo: i32,
    pub kills: i32,
    pub enemies_visible: i32,
    pub position_x: i64,
    pub position_y: i64,
    pub position_z: i64,
    pub angle: i64,
    pub episode_time: i64,
    pub is_dead: bool,
    pub tick: u32,
    pub cascade_mode: String,
}

/// The wire enumeration value of the evasive action.
pub const ACTION_TYPE_MOVE_LEFT: i32 = 0;

/// The wire enumeration value of the lateral action.
pub const ACTION_TYPE_MOVE_RIGHT: i32 = 1;

/// The wire enumeration value of the offensive action.
pub const ACTION_TYPE_ATTACK: i32 = 2;

/// The wire enumeration value of an action: its stable ordinal.
pub fn action_to_proto(action: Action) -> (r: i32)
    ensures
        r == action_ordinal(action),
{
    match action {
        Action::MoveLeft => ACTION_TYPE_MOVE_LEFT,
        Action::MoveRight => ACTION_TYPE_MOVE_RIGHT,
        Action::Attack => ACTION_TYPE_ATTACK,
    }
}

/// The internal observation a wire observation denotes: the same fields,
/// with the mode-override string left behind.
pub fn proto_to_game_state(proto: &WireGameState) -> (r: GameState)
    ensures
        r == (GameState {
            health: proto.health,
            ammo: proto.ammo,
            kills: proto.kills,
            enemies_visible: proto.enemies_visible,
            position_x: proto.position_x,
            position_y: proto.position_y,
            position_z: proto.position_z,
            angle: proto.angle,
            episode_time: proto.episode_time,
            is_dead: proto.is_dead,
            tick: proto.tick,
        }),
{
    GameState {
        health: proto.health,
        ammo: proto.ammo,
        kills: proto.kills,
        enemies_visible: proto.enemies_visible,
        position_x: proto.position_x,
        position_y: proto.position_y,
        position_z: proto.position_z,
        angle: proto.angle,
        episode_time: proto.episode_time,
        is_dead: proto.is_dead,
        tick: proto.tick,
    }
}

/// The configuration a mode-override string denotes, if any.
pub open spec fn spec_parse_cascade_mode(mode: Seq<char>) -> Option<CascadeConfig> {
    if mode == "random"@ {
        Some(
            CascadeConfig {
                l0_enabled: false,
                l1_enabled: false,
                l2_enabled: false,
                random_mode: true,
            },
        )
    } else if mode == "rule_only"@ {
        Some(
            CascadeConfig {
                l0_enabled: true,
                l1_enabled: false,
                l2_enabled: false,
                random_mode: false,
            },
        )
    } else if mode == "full_agent"@ {
        Some(
            CascadeConfig { l0_enabled: true, l1_enabled: true, l2_enabled: true, random_mode: false
            },
        )
    } else {
        None
    }
}

/// Parse a mode-override string into the configuration it names, or nothing
/// for any other string (the empty string included).
pub fn parse_cascade_mode(mode: &str) -> (r: Option<CascadeConfig>)
    ensures
        r == spec_parse_cascade_mode(mode@),
{
    if str_eq(mode, "random") {
        Some(CascadeConfig::random())
    } else if str_eq(mode, "rule_only") {
        Some(CascadeConfig::rule_only())
    } else if str_eq(mode, "full_agent") {
        Some(CascadeConfig::full_agent())
    } else {
        None
    }
}

} // verus!
