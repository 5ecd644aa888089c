use agent_core::cascade::CascadeConfig;
use agent_core::cascade::CascadeStep;
use agent_core::cascade::DecisionCascade;
use agent_core::cascade::DeterministicRng;
use agent_core::game::Decision;
use agent_core::game::GameState;
use agent_core::rag::SearchHit;

fn make_state(health: i32, enemies: i32) -> GameState {
    GameState {
        health,
        ammo: 50,
        kills: 0,
        enemies_visible: enemies,
        position_x: 0,
        position_y: 0,
        position_z: 0,
        angle: 0,
        episode_time: 0,
        is_dead: false,
        tick: 0,
    }
}

fn make_cascade(config: CascadeConfig, seed: u64) -> DecisionCascade {
    DecisionCascade::new(config, 300, "http://localhost:9200".to_string(), seed)
}

fn unwrap_done(step: CascadeStep) -> Decision {
    match step {
        CascadeStep::Done(decision) => decision,
        CascadeStep::NeedRemote(_) => panic!("expected a finished decision"),
    }
}

#[test]
fn test_random_mode_deterministic() {
    // Same seed must produce same sequence
    let mut c1 = make_cascade(CascadeConfig::random(), 42);
    let mut c2 = make_cascade(CascadeConfig::random(), 42);
    let state = make_state(100, 0);
    for _ in 0..100 {
        let d1 = unwrap_done(c1.decide_local(&state));
        let d2 = unwrap_done(c2.decide_local(&state));
        assert_eq!(d1.action, d2.action);
    }
}

#[test]
fn test_random_mode_uniform_distribution() {
    // 1000 actions should be roughly uniform across 3 actions
    let mut cascade = make_cascade(CascadeConfig::random(), 12345);
    let state = make_state(100, 0);
    let mut counts = [0u32; 3];
    for _ in 0..1000 {
        let d = unwrap_done(cascade.decide_local(&state));
        counts[d.action.to_index() as usize] += 1;
    }
    // Each should be roughly 333. Allow wide margin (200-500)
    for (i, &count) in counts.iter().enumerate() {
        assert!(
            count > 200 && count < 500,
            "Action {i} count {count} outside expected range [200, 500]"
        );
    }
}

#[test]
fn test_random_mode_level_255() {
    let mut cascade = make_cascade(CascadeConfig::random(), 42);
    let d = unwrap_done(cascade.decide_local(&make_state(50, 1)));
    assert_eq!(d.decision_level, 255);
    assert_eq!(d.confidence, 0);
}

#[test]
fn test_rule_only_fires_l0() {
    let mut cascade = make_cascade(CascadeConfig::rule_only(), 42);
    // Low health -> emergency_retreat rule fires
    let d = unwrap_done(cascade.decide_local(&make_state(20, 2)));
    assert_eq!(d.decision_level, 0);
    assert_eq!(d.rule_matched, Some("emergency_retreat".to_string()));
}

#[test]
fn test_rule_only_falls_through_to_random() {
    // When no rules match in rule-only mode, should still return a decision
    let mut cascade = make_cascade(CascadeConfig::rule_only(), 42);
    // With default rules, healthy+no enemies -> reposition_no_enemies,
    // so all states match. Test that rules fire properly.
    let d = unwrap_done(cascade.decide_local(&make_state(80, 0)));
    assert_eq!(d.decision_level, 0); // reposition rule fires
}

#[test]
fn test_full_agent_l0_first() {
    let mut cascade = make_cascade(CascadeConfig::full_agent(), 42);
    // Low health should trigger tier 0 even in full mode
    let d = unwrap_done(cascade.decide_local(&make_state(20, 2)));
    assert_eq!(d.decision_level, 0);
}

#[test]
fn test_cascade_latency_under_100ms() {
    let mut cascade = make_cascade(CascadeConfig::full_agent(), 42);
    let state = make_state(50, 2);
    let d = unwrap_done(cascade.decide_local(&state));
    // The local pass should complete well under 100ms
    assert!(d.latency_ns < 100_000_000, "Cascade too slow: {}ns", d.latency_ns);
}

#[test]
fn test_config_presets() {
    let r = CascadeConfig::random();
    assert!(r.random_mode);
    assert!(!r.l0_enabled);

    let ro = CascadeConfig::rule_only();
    assert!(!ro.random_mode);
    assert!(ro.l0_enabled);
    assert!(!ro.l1_enabled);
    assert!(!ro.l2_enabled);

    let fa = CascadeConfig::full_agent();
    assert!(!fa.random_mode);
    assert!(fa.l0_enabled);
    assert!(fa.l1_enabled);
    assert!(fa.l2_enabled);
}

#[test]
fn test_deterministic_rng_no_zero_state() {
    // Seed 0 should not cause stuck state
    let mut rng = DeterministicRng::new(0);
    let first = rng.next_u64();
    let second = rng.next_u64();
    assert_ne!(first, second);
    assert_ne!(first, 0);
}

#[test]
fn test_different_seeds_different_sequences() {
    let mut c1 = make_cascade(CascadeConfig::random(), 42);
    let mut c2 = make_cascade(CascadeConfig::random(), 9999);
    let state = make_state(100, 0);
    let mut different = false;
    for _ in 0..20 {
        let d1 = unwrap_done(c1.decide_local(&state));
        let d2 = unwrap_done(c2.decide_local(&state));
        if d1.action != d2.action {
            different = true;
            break;
        }
    }
    assert!(different, "Different seeds should produce different sequences");
}

#[test]
fn test_tier2_write_back() {
    // Tiers 1 and 2 enabled, no rules: the first call escalates to the remote
    // tier, whose answer is written back; the second call hits the cache.
    let config = CascadeConfig {
        l0_enabled: false,
        l1_enabled: true,
        l2_enabled: true,
        random_mode: false,
    };
    let mut cascade = make_cascade(config, 42);
    let state = make_state(20, 2); // low health -> tags exist

    let pending = match cascade.decide_local(&state) {
        CascadeStep::NeedRemote(pending) => pending,
        CascadeStep::Done(_) => panic!("expected the remote tier to be asked"),
    };
    assert_eq!(pending.request.k, 5);
    assert!(pending.request.tags.contains(&"low_health".to_string()));

    let hits = vec![SearchHit {
        doc_id: "doc_7".to_string(),
        situation_tags: vec!["low_health".to_string()],
        tactic: Some("retreat_and_cover".to_string()),
        weapon: None,
        relevance_milli: 5000,
        trust_milli: Some(900),
    }];
    let d = cascade.decide_remote(&state, pending, hits);
    assert_eq!(d.decision_level, 2);
    assert_eq!(d.rule_matched, Some("tier2:doc_7".to_string()));

    // The same bucket now answers from tier 1.
    let d2 = unwrap_done(cascade.decide_local(&state));
    assert_eq!(d2.decision_level, 1);
    assert_eq!(d2.rule_matched, Some("tier1:tier2:doc_7".to_string()));
}

#[test]
fn test_remote_failure_falls_back_to_random() {
    let config = CascadeConfig {
        l0_enabled: false,
        l1_enabled: false,
        l2_enabled: true,
        random_mode: false,
    };
    let mut cascade = make_cascade(config, 42);
    let state = make_state(20, 2);

    let pending = match cascade.decide_local(&state) {
        CascadeStep::NeedRemote(pending) => pending,
        CascadeStep::Done(_) => panic!("expected the remote tier to be asked"),
    };
    // An empty hit list stands for a failed or empty response.
    let d = cascade.decide_remote(&state, pending, vec![]);
    assert_eq!(d.decision_level, 255);
    assert_eq!(d.confidence, 0);
    assert_eq!(d.rule_matched, None);
}

#[test]
fn test_all_tiers_disabled_falls_back_to_random() {
    let config = CascadeConfig {
        l0_enabled: false,
        l1_enabled: false,
        l2_enabled: false,
        random_mode: false,
    };
    let mut cascade = make_cascade(config, 7);
    let d = unwrap_done(cascade.decide_local(&make_state(50, 1)));
    assert_eq!(d.decision_level, 255);
    assert_eq!(d.confidence, 0);
}
