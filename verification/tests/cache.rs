use agent_core::cache::decision_from_entry;
use agent_core::cache::state_hash;
use agent_core::cache::CacheClient;
use agent_core::cache::CachedEntry;
use agent_core::game::Action;
use agent_core::game::Decision;
use agent_core::game::GameState;

fn make_state(health: i32, ammo: i32, enemies: i32) -> GameState {
    GameState {
        health,
        ammo,
        kills: 0,
        enemies_visible: enemies,
        position_x: 0,
        position_y: 0,
        position_z: 0,
        angle: 0,
        episode_time: 0,
        is_dead: false,
        tick: 0,
    }
}

fn make_decision(action: Action, confidence: u64, source: &str) -> Decision {
    Decision {
        action,
        decision_level: 2,
        confidence,
        latency_ns: 0,
        rule_matched: Some(source.to_string()),
    }
}

#[test]
fn test_state_hash_buckets() {
    // Different states should produce different hashes
    let s1 = make_state(50, 25, 2);
    let s2 = make_state(60, 30, 3);
    let s3 = make_state(20, 10, 1);

    let h1 = state_hash(&s1);
    let h2 = state_hash(&s2);
    let h3 = state_hash(&s3);

    assert_ne!(h1, h2);
    assert_ne!(h2, h3);
    assert_ne!(h1, h3);
}

#[test]
fn test_state_hash_same_bucket() {
    // Similar states within same bucket should produce same hash
    let s1 = make_state(51, 25, 2);
    let s2 = make_state(59, 27, 2); // Same bucket (50-59 health, 25-29 ammo, 2 enemies)

    assert_eq!(state_hash(&s1), state_hash(&s2));
}

#[test]
fn test_state_hash_formula() {
    // health 50 -> bucket 5; ammo 25 -> bucket 5; enemies 2 -> bucket 2
    assert_eq!(state_hash(&make_state(50, 25, 2)), 5 * 200 + 5 * 6 + 2);
    // everything capped: health 999 -> 10, ammo 999 -> 20, enemies 9 -> 5
    assert_eq!(state_hash(&make_state(999, 999, 9)), 10 * 200 + 20 * 6 + 5);
    assert_eq!(state_hash(&make_state(0, 0, 0)), 0);
}

#[test]
fn test_cache_insert_and_lookup() {
    let mut cache = CacheClient::new(true);
    let state = make_state(50, 30, 2);

    let decision = make_decision(Action::Attack, 850, "test_doc");
    cache.insert(&state, &decision);

    let retrieved = cache.lookup(&state).unwrap();
    assert_eq!(retrieved.action, Action::Attack);
    assert_eq!(retrieved.decision_level, 1); // tier 1 cache level
    assert_eq!(retrieved.confidence, 850);
    assert_eq!(retrieved.rule_matched, Some("tier1:test_doc".to_string()));
}

#[test]
fn test_cache_miss() {
    let mut cache = CacheClient::new(true);
    let state = make_state(50, 30, 2);

    assert!(cache.lookup(&state).is_none());
}

#[test]
fn test_cache_disabled() {
    let mut cache = CacheClient::new(false);
    let state = make_state(50, 30, 2);

    let decision = make_decision(Action::MoveLeft, 900, "doc");
    cache.insert(&state, &decision);
    assert!(cache.lookup(&state).is_none()); // Disabled, no lookup

    // And the disabled insert stored nothing at all.
    assert_eq!(cache.stats().entries, 0);
}

#[test]
fn test_cache_hit_count_increment() {
    let mut cache = CacheClient::new(true);
    let state = make_state(50, 30, 2);

    let decision = make_decision(Action::MoveRight, 750, "doc2");
    cache.insert(&state, &decision);

    // First lookup
    cache.lookup(&state);
    // Second lookup
    cache.lookup(&state);

    let stats = cache.stats();
    assert_eq!(stats.total_hits, 2);
}

#[test]
fn test_cache_stats() {
    let mut cache = CacheClient::new(true);

    // Insert 3 different states
    for i in 0..3 {
        let state = make_state(50 + i * 10, 30, 2);
        let decision = make_decision(Action::Attack, 800, &format!("doc{}", i));
        cache.insert(&state, &decision);
    }

    // Lookup first state twice
    let state0 = make_state(50, 30, 2);
    cache.lookup(&state0);
    cache.lookup(&state0);

    let stats = cache.stats();
    assert_eq!(stats.entries, 3);
    assert_eq!(stats.total_hits, 2);
}

#[test]
fn test_cache_round_trip() {
    let mut cache = CacheClient::new(true);
    let state = make_state(40, 12, 1);

    let decision = make_decision(Action::MoveLeft, 850, "doc_x");
    cache.insert(&state, &decision);

    let first = cache.lookup(&state).unwrap();
    assert_eq!(first.decision_level, 1);
    assert_eq!(first.confidence, 850);
    assert_eq!(first.rule_matched, Some("tier1:doc_x".to_string()));

    let second = cache.lookup(&state).unwrap();
    assert_eq!(second.confidence, 850);

    assert_eq!(cache.stats().total_hits, 2);
    assert_eq!(cache.stats().entries, 1);
}

#[test]
fn test_cache_insert_replaces() {
    let mut cache = CacheClient::new(true);
    let state = make_state(50, 30, 2);

    cache.insert(&state, &make_decision(Action::Attack, 700, "doc_a"));
    cache.insert(&state, &make_decision(Action::MoveRight, 600, "doc_b"));

    let retrieved = cache.lookup(&state).unwrap();
    assert_eq!(retrieved.action, Action::MoveRight);
    assert_eq!(retrieved.confidence, 600);
    assert_eq!(retrieved.rule_matched, Some("tier1:doc_b".to_string()));
    assert_eq!(cache.stats().entries, 1);
}

#[test]
fn test_cache_insert_without_source_uses_placeholder() {
    let mut cache = CacheClient::new(true);
    let state = make_state(50, 30, 2);

    let decision = Decision {
        action: Action::Attack,
        decision_level: 2,
        confidence: 500,
        latency_ns: 0,
        rule_matched: None,
    };
    cache.insert(&state, &decision);

    let retrieved = cache.lookup(&state).unwrap();
    assert_eq!(retrieved.rule_matched, Some("tier1:unknown".to_string()));
}

#[test]
fn test_corrupt_entry_defaults_to_attack() {
    // A stored ordinal outside 0..3 decodes to the safe default action.
    let entry = CachedEntry {
        key: 7,
        action_index: 99,
        confidence: 400,
        source_doc_id: "bad".to_string(),
        hit_count: 0,
        created_at: 0,
        last_accessed: 0,
    };
    let decision = decision_from_entry(&entry);
    assert_eq!(decision.action, Action::Attack);
    assert_eq!(decision.decision_level, 1);
    assert_eq!(decision.confidence, 400);
    assert_eq!(decision.rule_matched, Some("tier1:bad".to_string()));
}
