//! The policy store: path matching, regex action matching and the allow/deny
//! query, run against the real regex engine.

use blog_rs::policy::{action_match, path_match, PolicyStore, Rule};

fn rule(sub: &str, obj: &str, act: &str) -> Vec<String> {
    vec![sub.to_string(), obj.to_string(), act.to_string()]
}

#[test]
fn empty_store_denies_everything() {
    let store = PolicyStore::new();
    assert!(!store.check("alice", "/api/users/alice", "GET"));
}

#[test]
fn check_needs_subject_object_and_action_together() {
    let mut store = PolicyStore::new();
    store
        .add_rule("p", rule("alice", "/api/users/alice", "(GET)|(POST)|(PUT)|(DELETE)"))
        .unwrap();
    assert!(store.check("alice", "/api/users/alice", "GET"));
    assert!(store.check("alice", "/api/users/alice", "DELETE"));
    // subject must match exactly
    assert!(!store.check("bob", "/api/users/alice", "GET"));
    assert!(!store.check("Alice", "/api/users/alice", "GET"));
    // object must match segment-wise
    assert!(!store.check("alice", "/api/users/bob", "GET"));
    assert!(!store.check("alice", "/api/users", "GET"));
    assert!(!store.check("alice", "/api/users/alice/posts", "GET"));
    // action must match the pattern in full
    assert!(!store.check("alice", "/api/users/alice", "PATCH"));
    assert!(!store.check("alice", "/api/users/alice", "GETX"));
    assert!(!store.check("alice", "/api/users/alice", "XGET"));
}

#[test]
fn wildcard_segment_matches_any_single_segment() {
    let mut store = PolicyStore::new();
    store.add_rule("p", rule("alice", "/api/*/alice", "GET")).unwrap();
    assert!(store.check("alice", "/api/users/alice", "GET"));
    assert!(store.check("alice", "/api/things/alice", "GET"));
    assert!(!store.check("alice", "/api/a/b/alice", "GET"));
    assert!(!store.check("alice", "/api/alice", "GET"));
}

#[test]
fn path_match_is_segment_exact() {
    assert!(path_match("/api/users/alice", "/api/users/alice"));
    assert!(path_match("/api/*/alice", "/api/users/alice"));
    assert!(path_match("*", "anything"));
    assert!(!path_match("/api/users", "/api/users/"));
    assert!(!path_match("/api/users/al", "/api/users/alice"));
    assert!(path_match("", ""));
}

#[test]
fn action_match_demands_full_cover() {
    assert!(action_match("(GET)|(POST)|(PUT)|(DELETE)", "PUT"));
    assert!(!action_match("(GET)|(POST)|(PUT)|(DELETE)", "PATCH"));
    assert!(!action_match("GET", "GETTER"));
    assert!(action_match("GE?T", "GT"));
}

#[test]
fn invalid_action_pattern_matches_nothing() {
    assert!(!action_match("(GET", "GET"));
    let mut store = PolicyStore::new();
    store.add_rule("p", rule("alice", "/api/users/alice", "(GET")).unwrap();
    assert!(!store.check("alice", "/api/users/alice", "GET"));
}

#[test]
fn add_rule_is_idempotent_and_visible() {
    let mut store = PolicyStore::new();
    store.add_rule("p", rule("alice", "/a/b", "GET")).unwrap();
    store.add_rule("p", rule("alice", "/a/b", "GET")).unwrap();
    assert_eq!(store.rules.len(), 1);
    assert!(store.check("alice", "/a/b", "GET"));
}

#[test]
fn add_rule_rejects_wrong_field_count() {
    let mut store = PolicyStore::new();
    assert!(store.add_rule("p", vec!["alice".to_string()]).is_err());
    assert_eq!(store.rules.len(), 0);
}

#[test]
fn remove_rule_deletes_by_exact_fields() {
    let mut store = PolicyStore::new();
    store.add_rule("p", rule("alice", "/a/b", "GET")).unwrap();
    store.add_rule("p", rule("bob", "/a/b", "GET")).unwrap();
    // a near miss removes nothing, and is not an error
    store.remove_rule("p", rule("alice", "/a/b", "POST")).unwrap();
    assert_eq!(store.rules.len(), 2);
    store.remove_rule("p", rule("alice", "/a/b", "GET")).unwrap();
    assert_eq!(store.rules.len(), 1);
    assert!(!store.check("alice", "/a/b", "GET"));
    assert!(store.check("bob", "/a/b", "GET"));
}

#[test]
fn contains_rule_is_exact() {
    let mut store = PolicyStore::new();
    store.add_rule("p", rule("alice", "/a/b", "GET")).unwrap();
    let stored = Rule {
        ptype: "p".to_string(),
        subject: "alice".to_string(),
        object: "/a/b".to_string(),
        action: "GET".to_string(),
    };
    let other = Rule { action: "POST".to_string(), ..stored.clone() };
    assert!(store.contains_rule(&stored));
    assert!(!store.contains_rule(&other));
}
