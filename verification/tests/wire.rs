use agent_core::game::Action;
use agent_core::wire::action_to_proto;
use agent_core::wire::parse_cascade_mode;
use agent_core::wire::proto_to_game_state;
use agent_core::wire::WireGameState;
use agent_core::wire::ACTION_TYPE_ATTACK;
use agent_core::wire::ACTION_TYPE_MOVE_LEFT;
use agent_core::wire::ACTION_TYPE_MOVE_RIGHT;

#[test]
fn test_action_to_proto_mapping() {
    assert_eq!(action_to_proto(Action::MoveLeft), ACTION_TYPE_MOVE_LEFT);
    assert_eq!(action_to_proto(Action::MoveRight), ACTION_TYPE_MOVE_RIGHT);
    assert_eq!(action_to_proto(Action::Attack), ACTION_TYPE_ATTACK);
}

#[test]
fn test_proto_to_game_state_conversion() {
    let proto = WireGameState {
        health: 75,
        ammo: 20,
        kills: 3,
        enemies_visible: 2,
        position_x: 1000,
        position_y: 2000,
        position_z: 3000,
        angle: 90_000,
        episode_time: 45_500,
        is_dead: false,
        tick: 100,
        cascade_mode: String::new(),
    };
    let gs = proto_to_game_state(&proto);
    assert_eq!(gs.health, 75);
    assert_eq!(gs.ammo, 20);
    assert_eq!(gs.kills, 3);
    assert_eq!(gs.enemies_visible, 2);
    assert_eq!(gs.position_x, 1000);
    assert_eq!(gs.angle, 90_000);
    assert!(!gs.is_dead);
    assert_eq!(gs.tick, 100);
}

#[test]
fn test_parse_cascade_mode() {
    let random = parse_cascade_mode("random").unwrap();
    assert!(random.random_mode);

    let rule_only = parse_cascade_mode("rule_only").unwrap();
    assert!(rule_only.l0_enabled);
    assert!(!rule_only.l1_enabled);

    let full = parse_cascade_mode("full_agent").unwrap();
    assert!(full.l0_enabled);
    assert!(full.l1_enabled);
    assert!(full.l2_enabled);

    assert!(parse_cascade_mode("").is_none());
    assert!(parse_cascade_mode("invalid").is_none());
}
