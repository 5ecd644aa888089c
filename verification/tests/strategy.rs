use agent_core::game::Action;
use agent_core::game::GameState;
use agent_core::strategy::Rule;
use agent_core::strategy::RuleCondition;
use agent_core::strategy::RuleEngine;

fn make_state(health: i32, enemies: i32, ammo: i32) -> GameState {
    GameState {
        health,
        ammo,
        kills: 0,
        enemies_visible: enemies,
        position_x: 0,
        position_y: 0,
        position_z: 0,
        angle: 0,
        episode_time: 0,
        is_dead: false,
        tick: 0,
    }
}

#[test]
fn test_emergency_retreat() {
    let engine = RuleEngine::with_default_rules(true, 300);
    let state = make_state(20, 3, 50); // health 20% < 30% threshold
    let decision = engine.evaluate(&state).expect("Should match");
    assert_eq!(decision.decision_level, 0);
    assert_eq!(decision.rule_matched, Some("emergency_retreat".to_string()));
}

#[test]
fn test_attack_visible_enemy() {
    let engine = RuleEngine::with_default_rules(true, 300);
    let state = make_state(80, 2, 50); // healthy, enemies visible
    let decision = engine.evaluate(&state).expect("Should match");
    assert_eq!(decision.action, Action::Attack);
    assert_eq!(decision.rule_matched, Some("attack_visible_enemy".to_string()));
}

#[test]
fn test_reposition_no_enemies() {
    let engine = RuleEngine::with_default_rules(true, 300);
    let state = make_state(80, 0, 50); // healthy, no enemies
    let decision = engine.evaluate(&state).expect("Should match");
    assert_eq!(decision.rule_matched, Some("reposition_no_enemies".to_string()));
}

#[test]
fn test_disabled_engine() {
    let engine = RuleEngine::with_default_rules(false, 300);
    let state = make_state(20, 3, 50);
    assert!(engine.evaluate(&state).is_none());
}

#[test]
fn test_latency_under_1ms() {
    let engine = RuleEngine::with_default_rules(true, 300);
    let state = make_state(50, 2, 30);
    let decision = engine.evaluate(&state).expect("Should match");
    assert!(
        decision.latency_ns < 1_000_000,
        "tier 0 latency too high: {}ns",
        decision.latency_ns
    );
}

#[test]
fn test_compound_and_condition() {
    let mut engine = RuleEngine::new(true);
    engine.add_rule(Rule {
        name: "low_health_and_enemies".to_string(),
        condition: RuleCondition::And(vec![
            RuleCondition::HealthBelow(500),
            RuleCondition::EnemiesAtLeast(2),
        ]),
        action: Action::MoveRight,
        priority: 90,
    });

    // Both conditions met
    let state = make_state(30, 3, 50);
    let decision = engine.evaluate(&state).expect("Should match");
    assert_eq!(decision.action, Action::MoveRight);

    // Only one condition met (health OK)
    let state = make_state(80, 3, 50);
    assert!(engine.evaluate(&state).is_none());
}

#[test]
fn test_compound_or_condition() {
    let mut engine = RuleEngine::new(true);
    engine.add_rule(Rule {
        name: "danger_any".to_string(),
        condition: RuleCondition::Or(vec![
            RuleCondition::HealthBelow(200),
            RuleCondition::AmmoBelow(5),
        ]),
        action: Action::MoveLeft,
        priority: 80,
    });

    // Low health triggers
    let state = make_state(10, 0, 50);
    assert!(engine.evaluate(&state).is_some());

    // Low ammo triggers
    let state = make_state(80, 0, 3);
    assert!(engine.evaluate(&state).is_some());

    // Neither triggers
    let state = make_state(80, 0, 50);
    assert!(engine.evaluate(&state).is_none());
}

#[test]
fn test_priority_ordering() {
    let mut engine = RuleEngine::new(true);

    engine.add_rule(Rule {
        name: "low_priority".to_string(),
        condition: RuleCondition::EnemiesAtLeast(1),
        action: Action::MoveRight,
        priority: 10,
    });
    engine.add_rule(Rule {
        name: "high_priority".to_string(),
        condition: RuleCondition::EnemiesAtLeast(1),
        action: Action::Attack,
        priority: 90,
    });

    let state = make_state(50, 2, 50);
    let decision = engine.evaluate(&state).expect("Should match");
    assert_eq!(decision.action, Action::Attack);
    assert_eq!(decision.rule_matched, Some("high_priority".to_string()));
}

#[test]
fn test_priority_ordering_reversed_registration() {
    let mut engine = RuleEngine::new(true);

    engine.add_rule(Rule {
        name: "high_priority".to_string(),
        condition: RuleCondition::EnemiesAtLeast(1),
        action: Action::Attack,
        priority: 90,
    });
    engine.add_rule(Rule {
        name: "low_priority".to_string(),
        condition: RuleCondition::EnemiesAtLeast(1),
        action: Action::MoveRight,
        priority: 10,
    });

    let state = make_state(50, 2, 50);
    let decision = engine.evaluate(&state).expect("Should match");
    assert_eq!(decision.action, Action::Attack);
    assert_eq!(decision.rule_matched, Some("high_priority".to_string()));
}

#[test]
fn test_equal_priority_keeps_insertion_order() {
    let mut engine = RuleEngine::new(true);

    engine.add_rule(Rule {
        name: "first_registered".to_string(),
        condition: RuleCondition::EnemiesAtLeast(1),
        action: Action::MoveLeft,
        priority: 50,
    });
    engine.add_rule(Rule {
        name: "second_registered".to_string(),
        condition: RuleCondition::EnemiesAtLeast(1),
        action: Action::MoveRight,
        priority: 50,
    });

    let state = make_state(50, 2, 50);
    let decision = engine.evaluate(&state).expect("Should match");
    assert_eq!(decision.rule_matched, Some("first_registered".to_string()));
}

#[test]
fn test_rule_count() {
    let engine = RuleEngine::with_default_rules(true, 300);
    assert_eq!(engine.rule_count(), 3);
}

#[test]
fn test_set_enabled() {
    let mut engine = RuleEngine::with_default_rules(true, 300);
    assert!(engine.is_enabled());
    engine.set_enabled(false);
    assert!(!engine.is_enabled());
    let state = make_state(20, 3, 50);
    assert!(engine.evaluate(&state).is_none());
}
