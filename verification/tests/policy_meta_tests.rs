use knishio_client::json::JsonValue;
use knishio_client::policy_meta::PolicyMeta;

fn jstr(s: &str) -> JsonValue {
    JsonValue::Str(s.to_string())
}

fn jarr(items: &[&str]) -> JsonValue {
    JsonValue::Array(items.iter().map(|s| jstr(s)).collect())
}

fn jobj(entries: Vec<(&str, JsonValue)>) -> JsonValue {
    JsonValue::Object(entries.into_iter().map(|(k, v)| (k.to_string(), v)).collect())
}

fn strings(items: &[&str]) -> Vec<String> {
    items.iter().map(|s| s.to_string()).collect()
}

fn perms(p: &PolicyMeta, action: &str, key: &str) -> Option<Vec<String>> {
    p.get_permissions(action, key).cloned()
}

fn has_action(entries: &[(String, Vec<(String, Vec<String>)>)], action: &str) -> bool {
    entries.iter().any(|(a, _)| a == action)
}

fn rule_of(entries: &[(String, Vec<(String, Vec<String>)>)], action: &str, key: &str) -> Option<Vec<String>> {
    entries
        .iter()
        .find(|(a, _)| a == action)
        .and_then(|(_, rules)| rules.iter().find(|(k, _)| k == key).map(|(_, v)| v.clone()))
}

#[test]
fn test_policy_meta_new() {
    let policy = jobj(vec![
        ("read", jobj(vec![("pubkey", jarr(&["all"]))])),
        ("write", jobj(vec![("characters", jarr(&["all"]))])),
    ]);

    let meta_keys = strings(&["pubkey", "characters", "balance"]);
    let policy_meta = PolicyMeta::new(policy, meta_keys);

    assert!(has_action(policy_meta.get(), "read"));
    assert!(has_action(policy_meta.get(), "write"));

    assert!(perms(&policy_meta, "read", "balance").is_some());
    assert!(perms(&policy_meta, "write", "balance").is_some());
}

#[test]
fn test_normalize_policy() {
    let policy = jobj(vec![
        ("read", jobj(vec![("pubkey", jarr(&["all"])), ("balance", jarr(&["self"]))])),
        ("write", jobj(vec![("characters", jarr(&["all"]))])),
        ("invalid", jstr("this should be filtered out")),
    ]);

    let normalized = PolicyMeta::normalize_policy(policy);

    assert_eq!(normalized.len(), 2);
    assert!(has_action(&normalized, "read"));
    assert!(has_action(&normalized, "write"));
    assert!(!has_action(&normalized, "invalid"));

    assert_eq!(rule_of(&normalized, "read", "pubkey"), Some(strings(&["all"])));
    assert_eq!(rule_of(&normalized, "read", "balance"), Some(strings(&["self"])));
    assert_eq!(rule_of(&normalized, "write", "characters"), Some(strings(&["all"])));
}

#[test]
fn test_fill_default() {
    let mut policy_meta = PolicyMeta::default();

    let meta_keys = strings(&["pubkey", "characters", "balance"]);

    policy_meta.fill_default(meta_keys);

    assert_eq!(perms(&policy_meta, "read", "pubkey"), Some(strings(&["all"])));
    assert_eq!(perms(&policy_meta, "read", "characters"), Some(strings(&["all"])));
    assert_eq!(perms(&policy_meta, "read", "balance"), Some(strings(&["all"])));

    assert_eq!(perms(&policy_meta, "write", "pubkey"), Some(strings(&["all"])));
    assert_eq!(perms(&policy_meta, "write", "characters"), Some(strings(&["all"])));
    assert_eq!(perms(&policy_meta, "write", "balance"), Some(strings(&["self"])));
}

#[test]
fn test_fill_default_preserves_existing() {
    let mut policy_meta = PolicyMeta::default();
    policy_meta.set_permissions("read", "balance", strings(&["bundle123"]));

    let meta_keys = strings(&["balance", "pubkey"]);
    policy_meta.fill_default(meta_keys);

    assert_eq!(perms(&policy_meta, "read", "balance"), Some(strings(&["bundle123"])));

    assert_eq!(perms(&policy_meta, "read", "pubkey"), Some(strings(&["all"])));
    assert_eq!(perms(&policy_meta, "write", "pubkey"), Some(strings(&["all"])));
    assert_eq!(perms(&policy_meta, "write", "balance"), Some(strings(&["self"])));
}

#[test]
fn test_get_and_to_json() {
    let policy = jobj(vec![("read", jobj(vec![("pubkey", jarr(&["all"]))]))]);

    let policy_meta = PolicyMeta::new(policy, vec![]);
    let policy_ref = policy_meta.get();

    assert!(has_action(policy_ref, "read"));
    assert_eq!(rule_of(policy_ref, "read", "pubkey"), Some(strings(&["all"])));
}

#[test]
fn test_create_from_graphql() {
    let data = jobj(vec![("policy", jobj(vec![("read", jobj(vec![("pubkey", jarr(&["all"]))]))]))]);

    let meta_keys = strings(&["pubkey"]);
    let policy_meta = PolicyMeta::create_from_graphql(&data, meta_keys).unwrap();

    assert_eq!(perms(&policy_meta, "read", "pubkey"), Some(strings(&["all"])));
}

#[test]
fn test_create_from_db() {
    let data = JsonValue::Array(vec![jobj(vec![("read", jobj(vec![("pubkey", jarr(&["all"]))]))])]);

    let meta_keys = strings(&["pubkey"]);
    let policy_meta = PolicyMeta::create_from_db(&data, meta_keys).unwrap();

    assert_eq!(perms(&policy_meta, "read", "pubkey"), Some(strings(&["all"])));
}

#[test]
fn test_is_allowed() {
    let policy = jobj(vec![
        ("read", jobj(vec![("pubkey", jarr(&["all"])), ("balance", jarr(&["bundle123", "self"]))])),
        ("write", jobj(vec![("private", jarr(&["self"]))])),
    ]);

    let policy_meta = PolicyMeta::new(policy, vec![]);

    assert!(policy_meta.is_allowed("read", "pubkey", "anyone"));

    assert!(policy_meta.is_allowed("read", "balance", "bundle123"));
    assert!(!policy_meta.is_allowed("read", "balance", "other_bundle"));

    assert!(policy_meta.is_allowed("read", "balance", "self"));
    assert!(policy_meta.is_allowed("write", "private", "self"));

    assert!(!policy_meta.is_allowed("read", "nonexistent", "anyone"));
}

#[test]
fn test_permission_management() {
    let mut policy_meta = PolicyMeta::default();

    policy_meta.set_permissions("read", "test_key", vec!["all".to_string()]);
    assert_eq!(policy_meta.get_permissions("read", "test_key"), Some(&vec!["all".to_string()]));

    let removed = policy_meta.remove_permissions("read", "test_key");
    assert_eq!(removed, Some(vec!["all".to_string()]));
    assert_eq!(policy_meta.get_permissions("read", "test_key"), None);
}

#[test]
fn test_utility_methods() {
    let mut policy_meta = PolicyMeta::default();
    assert!(policy_meta.is_empty());

    policy_meta.set_permissions("read", "test", vec!["all".to_string()]);
    assert!(!policy_meta.is_empty());

    let keys = policy_meta.get_policy_keys();
    assert!(keys.iter().any(|k| k == "test"));

    policy_meta.clear();
    assert!(policy_meta.is_empty());
}

#[test]
fn mod_test_javascript_compatibility() {
    let policy_meta = PolicyMeta::new(jobj(vec![]), strings(&["pubkey", "characters", "balance"]));

    assert_eq!(perms(&policy_meta, "read", "pubkey"), Some(strings(&["all"])));
    assert_eq!(perms(&policy_meta, "read", "characters"), Some(strings(&["all"])));
    assert_eq!(perms(&policy_meta, "read", "balance"), Some(strings(&["all"])));

    assert_eq!(perms(&policy_meta, "write", "pubkey"), Some(strings(&["all"])));
    assert_eq!(perms(&policy_meta, "write", "characters"), Some(strings(&["all"])));
    assert_eq!(perms(&policy_meta, "write", "balance"), Some(strings(&["self"])));

    let raw_policy = jobj(vec![
        ("read", jobj(vec![("pubkey", jarr(&["all"]))])),
        ("write", jobj(vec![("balance", jarr(&["self"]))])),
        ("invalid_action", jobj(vec![("some_key", jarr(&["all"]))])),
    ]);

    let normalized = PolicyMeta::normalize_policy(raw_policy);
    assert_eq!(normalized.len(), 2);
    assert!(has_action(&normalized, "read"));
    assert!(has_action(&normalized, "write"));
    assert!(!has_action(&normalized, "invalid_action"));

    assert!(has_action(policy_meta.get(), "read"));
    assert!(has_action(policy_meta.get(), "write"));
}

#[test]
fn fill_default_twice_changes_nothing() {
    let mut once = PolicyMeta::default();
    once.set_permissions("write", "pubkey", strings(&["bundle9"]));
    once.fill_default(strings(&["pubkey", "name"]));
    let mut twice = PolicyMeta::default();
    twice.set_permissions("write", "pubkey", strings(&["bundle9"]));
    twice.fill_default(strings(&["pubkey", "name"]));
    twice.fill_default(strings(&["pubkey", "name"]));
    for action in ["read", "write"] {
        for key in ["pubkey", "name"] {
            assert_eq!(perms(&once, action, key), perms(&twice, action, key));
        }
    }
    assert_eq!(perms(&twice, "write", "pubkey"), Some(strings(&["bundle9"])));
    assert_eq!(perms(&twice, "write", "name"), Some(strings(&["self"])));
}

#[test]
fn set_then_get_returns_what_was_set_and_keeps_others() {
    let mut p = PolicyMeta::default();
    p.set_permissions("read", "a", strings(&["x"]));
    p.set_permissions("read", "b", strings(&["y"]));
    p.set_permissions("read", "a", strings(&["z"]));
    assert_eq!(perms(&p, "read", "a"), Some(strings(&["z"])));
    assert_eq!(perms(&p, "read", "b"), Some(strings(&["y"])));
    assert_eq!(p.remove_permissions("write", "a"), None);
    let keys = p.get_policy_keys();
    assert_eq!(keys.len(), 2);
}

#[test]
fn normalize_later_entry_wins_and_skips_non_arrays() {
    let policy = jobj(vec![
        ("read", jobj(vec![("k", jarr(&["one"])), ("k", jarr(&["two"])), ("bad", jstr("x"))])),
        ("read", jobj(vec![("k", JsonValue::Array(vec![jstr("three"), JsonValue::Number(3)]))])),
    ]);
    let normalized = PolicyMeta::normalize_policy(policy);
    assert_eq!(normalized.len(), 1);
    assert_eq!(rule_of(&normalized, "read", "k"), Some(strings(&["three"])));
    assert_eq!(rule_of(&normalized, "read", "bad"), None);
}

#[test]
fn test_diff_function() {
    let set_a: Vec<String> = ["a", "b", "c"].iter().map(|s| s.to_string()).collect();
    let set_b: Vec<String> = ["b", "d"].iter().map(|s| s.to_string()).collect();

    let diff_result = PolicyMeta::diff(&set_a, &set_b);
    let mut sorted_diff = diff_result;
    sorted_diff.sort();

    assert_eq!(sorted_diff, vec!["a", "c"]);
}
