use knishio_client::json::JsonValue;
use knishio_client::rules::{Callback, Condition, FromJsonObject, Meta, Rule, ToJsonObject};
use knishio_client::text::is_numeric;

fn jstr(s: &str) -> JsonValue {
    JsonValue::Str(s.to_string())
}

fn jobj(entries: Vec<(&str, JsonValue)>) -> JsonValue {
    JsonValue::Object(entries.into_iter().map(|(k, v)| (k.to_string(), v)).collect())
}

fn jarr(items: Vec<JsonValue>) -> JsonValue {
    JsonValue::Array(items)
}

fn field<'a>(v: &'a JsonValue, key: &str) -> &'a JsonValue {
    v.get(key).unwrap()
}

fn item(v: &JsonValue, i: usize) -> JsonValue {
    match v {
        JsonValue::Array(items) => items[i].clone(),
        other => panic!("not an array: {:?}", other),
    }
}

fn len_of(v: &JsonValue) -> usize {
    match v {
        JsonValue::Array(items) => items.len(),
        other => panic!("not an array: {:?}", other),
    }
}

fn callback(
    action: &str,
    address: Option<&str>,
    token: Option<&str>,
    amount: Option<&str>,
    comparison: Option<&str>,
) -> Callback {
    Callback::new(
        action.to_string(),
        None,
        None,
        None,
        address.map(|s| s.to_string()),
        token.map(|s| s.to_string()),
        amount.map(|s| s.to_string()),
        comparison.map(|s| s.to_string()),
    )
    .unwrap()
}

#[test]
fn test_meta_creation() {
    let meta = Meta::new("test_key".to_string(), "test_value".to_string());
    assert_eq!(meta.key(), Some("test_key".to_string()));
    assert_eq!(meta.value(), Some("test_value".to_string()));
}

#[test]
fn test_meta_from_object() {
    let object = jobj(vec![("key", jstr("meta_key")), ("value", jstr("meta_value"))]);
    let meta = Meta::from_object(&object).unwrap();
    assert_eq!(meta.key(), Some("meta_key".to_string()));
    assert_eq!(meta.value(), Some("meta_value".to_string()));
}

#[test]
fn test_callback_new() {
    let callback = Callback::new(
        "test_action".to_string(),
        Some("test_meta_type".to_string()),
        Some("test_meta_id".to_string()),
        None,
        Some("test_address".to_string()),
        Some("TEST".to_string()),
        Some("100".to_string()),
        Some(">=".to_string()),
    )
    .unwrap();
    assert_eq!(callback.action, "test_action");
    assert_eq!(callback.meta_type, Some("test_meta_type".to_string()));
    assert_eq!(callback.meta_id, Some("test_meta_id".to_string()));
    assert_eq!(callback.address, Some("test_address".to_string()));
    assert_eq!(callback.token, Some("TEST".to_string()));
    assert_eq!(callback.amount, Some("100".to_string()));
    assert_eq!(callback.comparison, Some(">=".to_string()));
}

#[test]
fn test_callback_new_empty_action() {
    let result = Callback::new("".to_string(), None, None, None, None, None, None, None);
    assert!(result.is_err());
    assert!(result.unwrap_err().to_string().contains("missing mandatory \"action\" parameter"));
}

#[test]
fn test_callback_new_invalid_amount() {
    let result = Callback::new(
        "test_action".to_string(),
        None,
        None,
        None,
        None,
        None,
        Some("not_a_number".to_string()),
        None,
    );
    assert!(result.is_err());
    assert!(result.unwrap_err().to_string().contains("string containing numbers"));
}

#[test]
fn test_callback_setters() {
    let mut callback = Callback::new("test_action".to_string(), None, None, None, None, None, None, None).unwrap();
    callback.set_comparison(">=".to_string());
    assert_eq!(callback.comparison, Some(">=".to_string()));
    callback.set_amount("500".to_string()).unwrap();
    assert_eq!(callback.amount, Some("500".to_string()));
    callback.set_token("TOKEN".to_string());
    assert_eq!(callback.token, Some("TOKEN".to_string()));
    callback.set_address("addr123".to_string());
    assert_eq!(callback.address, Some("addr123".to_string()));
    let meta = Meta::new("key".to_string(), "value".to_string());
    callback.set_meta(meta.clone());
    assert_eq!(callback.meta, Some(meta));
    callback.set_meta_type("type1".to_string());
    assert_eq!(callback.meta_type, Some("type1".to_string()));
    callback.set_meta_id("id1".to_string());
    assert_eq!(callback.meta_id, Some("id1".to_string()));
}

#[test]
fn test_callback_set_invalid_amount() {
    let mut callback = Callback::new("test_action".to_string(), None, None, None, None, None, None, None).unwrap();
    let result = callback.set_amount("invalid_amount".to_string());
    assert!(result.is_err());
    assert!(result.unwrap_err().to_string().contains("string containing numbers"));
    assert_eq!(callback.amount, None);
}

#[test]
fn test_callback_from_object() {
    let object = jobj(vec![
        ("action", jstr("collect")),
        ("metaType", jstr("test_type")),
        ("metaId", jstr("test_id")),
        ("address", jstr("test_address")),
        ("token", jstr("TEST")),
        ("amount", jstr("100")),
        ("comparison", jstr(">=")),
    ]);
    let callback = Callback::from_object(&object).unwrap();
    assert_eq!(callback.action, "collect");
    assert_eq!(callback.meta_type, Some("test_type".to_string()));
    assert_eq!(callback.meta_id, Some("test_id".to_string()));
    assert_eq!(callback.address, Some("test_address".to_string()));
    assert_eq!(callback.token, Some("TEST".to_string()));
    assert_eq!(callback.amount, Some("100".to_string()));
    assert_eq!(callback.comparison, Some(">=".to_string()));
}

#[test]
fn test_callback_from_object_with_meta() {
    let object = jobj(vec![
        ("action", jstr("meta")),
        ("metaType", jstr("test_type")),
        ("metaId", jstr("test_id")),
        ("meta", jobj(vec![("key", jstr("test_key")), ("value", jstr("test_value"))])),
    ]);
    let callback = Callback::from_object(&object).unwrap();
    assert_eq!(callback.action, "meta");
    assert_eq!(callback.meta_type, Some("test_type".to_string()));
    assert_eq!(callback.meta_id, Some("test_id".to_string()));
    assert!(callback.meta.is_some());
    let meta = callback.meta.unwrap();
    assert_eq!(meta.key(), Some("test_key".to_string()));
    assert_eq!(meta.value(), Some("test_value".to_string()));
}

#[test]
fn test_callback_to_json() {
    let callback = Callback::new(
        "collect".to_string(),
        Some("test_type".to_string()),
        Some("test_id".to_string()),
        None,
        Some("test_address".to_string()),
        Some("TEST".to_string()),
        Some("100".to_string()),
        Some(">=".to_string()),
    )
    .unwrap();
    let json_value = callback.to_json();
    assert_eq!(field(&json_value, "action"), &jstr("collect"));
    assert_eq!(field(&json_value, "metaType"), &jstr("test_type"));
    assert_eq!(field(&json_value, "metaId"), &jstr("test_id"));
    assert_eq!(field(&json_value, "address"), &jstr("test_address"));
    assert_eq!(field(&json_value, "token"), &jstr("TEST"));
    assert_eq!(field(&json_value, "amount"), &jstr("100"));
    assert_eq!(field(&json_value, "comparison"), &jstr(">="));
}

#[test]
fn test_callback_is_reject() {
    assert!(callback("reject", None, None, None, None).is_reject());
    assert!(callback("REJECT", None, None, None, None).is_reject());
    assert!(!callback("collect", None, None, None, None).is_reject());
}

#[test]
fn test_callback_is_meta() {
    let meta = Meta::new("key".to_string(), "value".to_string());
    let cb = Callback::new(
        "meta".to_string(),
        Some("type".to_string()),
        Some("id".to_string()),
        Some(meta),
        None,
        None,
        None,
        None,
    )
    .unwrap();
    assert!(cb.is_meta());
    assert!(!callback("meta", None, None, None, None).is_meta());
}

#[test]
fn test_callback_is_collect() {
    assert!(callback("collect", Some("address"), Some("TOKEN"), Some("100"), Some(">=")).is_collect());
    assert!(!callback("collect", None, None, None, None).is_collect());
}

#[test]
fn test_callback_is_buffer() {
    assert!(callback("buffer", Some("address"), Some("TOKEN"), Some("100"), Some(">=")).is_buffer());
}

#[test]
fn test_callback_is_remit() {
    assert!(callback("remit", None, Some("TOKEN"), Some("100"), None).is_remit());
}

#[test]
fn test_callback_is_burn() {
    assert!(callback("burn", None, Some("TOKEN"), Some("100"), Some(">=")).is_burn());
}

#[test]
fn callback_test_javascript_compatibility() {
    assert!(Callback::new("test_action".to_string(), None, None, None, None, None, None, None).is_ok());
    assert!(Callback::new("".to_string(), None, None, None, None, None, None, None).is_err());
    let invalid_amount = Callback::new(
        "action".to_string(),
        None,
        None,
        None,
        None,
        None,
        Some("not_numeric".to_string()),
        None,
    );
    assert!(invalid_amount.is_err());
    let js_style_object = jobj(vec![
        ("action", jstr("collect")),
        ("address", jstr("test_address")),
        ("token", jstr("TEST")),
        ("amount", jstr("500")),
        ("comparison", jstr(">")),
    ]);
    let callback = Callback::from_object(&js_style_object).unwrap();
    let json_output = callback.to_json();
    for key in ["action", "address", "token", "amount", "comparison"] {
        assert_eq!(field(&json_output, key), field(&js_style_object, key));
    }
    assert!(callback.is_collect());
    assert!(!callback.is_reject());
    assert!(!callback.is_burn());
}

#[test]
fn test_rule_new() {
    let condition = Condition::new("balance".to_string(), "100".to_string(), ">=".to_string()).unwrap();
    let cb = callback("collect", Some("address"), Some("TOKEN"), Some("50"), Some(">="));
    let rule = Rule::new(vec![condition], vec![cb]);
    assert_eq!(rule.condition_count(), 1);
    assert_eq!(rule.callback_count(), 1);
    assert!(!rule.is_empty());
}

#[test]
fn test_rule_empty() {
    let rule = Rule::empty();
    assert_eq!(rule.condition_count(), 0);
    assert_eq!(rule.callback_count(), 0);
    assert!(rule.is_empty());
}

#[test]
fn test_rule_add_condition() {
    let mut rule = Rule::empty();
    let condition = Condition::new("token".to_string(), "TEST".to_string(), "==".to_string()).unwrap();
    rule.add_condition(condition);
    assert_eq!(rule.condition_count(), 1);
    assert_eq!(rule.get_conditions()[0].key, "token");
    assert_eq!(rule.get_conditions()[0].value, "TEST");
    assert_eq!(rule.get_conditions()[0].comparison, "==");
}

#[test]
fn test_rule_add_callback() {
    let mut rule = Rule::empty();
    rule.add_callback(callback("reject", None, None, None, None));
    assert_eq!(rule.callback_count(), 1);
    assert_eq!(rule.get_callbacks()[0].action, "reject");
}

#[test]
fn test_rule_add_condition_from_object() {
    let mut rule = Rule::empty();
    let condition_object = jobj(vec![("key", jstr("amount")), ("value", jstr("1000")), ("comparison", jstr("<"))]);
    rule.add_condition_from_object(&condition_object).unwrap();
    assert_eq!(rule.condition_count(), 1);
    assert_eq!(rule.get_conditions()[0].key, "amount");
    assert_eq!(rule.get_conditions()[0].value, "1000");
    assert_eq!(rule.get_conditions()[0].comparison, "<");
}

#[test]
fn test_rule_add_callback_from_object() {
    let mut rule = Rule::empty();
    let callback_object = jobj(vec![
        ("action", jstr("burn")),
        ("token", jstr("FIRE")),
        ("amount", jstr("100")),
        ("comparison", jstr(">")),
    ]);
    rule.add_callback_from_object(&callback_object).unwrap();
    assert_eq!(rule.callback_count(), 1);
    assert_eq!(rule.get_callbacks()[0].action, "burn");
    assert_eq!(rule.get_callbacks()[0].token, Some("FIRE".to_string()));
    assert_eq!(rule.get_callbacks()[0].amount, Some("100".to_string()));
    assert_eq!(rule.get_callbacks()[0].comparison, Some(">".to_string()));
}

fn two_part_rule_object() -> JsonValue {
    jobj(vec![
        (
            "condition",
            jarr(vec![
                jobj(vec![("key", jstr("balance")), ("value", jstr("500")), ("comparison", jstr(">="))]),
                jobj(vec![("key", jstr("token")), ("value", jstr("TEST")), ("comparison", jstr("=="))]),
            ]),
        ),
        (
            "callback",
            jarr(vec![
                jobj(vec![
                    ("action", jstr("collect")),
                    ("address", jstr("test_address")),
                    ("token", jstr("TEST")),
                    ("amount", jstr("100")),
                    ("comparison", jstr(">=")),
                ]),
                jobj(vec![("action", jstr("reject"))]),
            ]),
        ),
    ])
}

#[test]
fn test_rule_from_object() {
    let rule = Rule::from_object(&two_part_rule_object()).unwrap();
    assert_eq!(rule.condition_count(), 2);
    assert_eq!(rule.callback_count(), 2);
    assert_eq!(rule.get_conditions()[0].key, "balance");
    assert_eq!(rule.get_conditions()[0].value, "500");
    assert_eq!(rule.get_conditions()[0].comparison, ">=");
    assert_eq!(rule.get_conditions()[1].key, "token");
    assert_eq!(rule.get_conditions()[1].value, "TEST");
    assert_eq!(rule.get_conditions()[1].comparison, "==");
    assert_eq!(rule.get_callbacks()[0].action, "collect");
    assert_eq!(rule.get_callbacks()[0].address, Some("test_address".to_string()));
    assert_eq!(rule.get_callbacks()[0].token, Some("TEST".to_string()));
    assert_eq!(rule.get_callbacks()[0].amount, Some("100".to_string()));
    assert_eq!(rule.get_callbacks()[0].comparison, Some(">=".to_string()));
    assert_eq!(rule.get_callbacks()[1].action, "reject");
}

#[test]
fn test_rule_from_object_missing_condition() {
    let object = jobj(vec![("callback", jarr(vec![jobj(vec![("action", jstr("reject"))])]))]);
    let result = Rule::from_object(&object);
    assert!(result.is_err());
    assert!(result.unwrap_err().to_string().contains("no condition field"));
}

#[test]
fn test_rule_from_object_missing_callback() {
    let object = jobj(vec![(
        "condition",
        jarr(vec![jobj(vec![("key", jstr("balance")), ("value", jstr("500")), ("comparison", jstr(">="))])]),
    )]);
    let result = Rule::from_object(&object);
    assert!(result.is_err());
    assert!(result.unwrap_err().to_string().contains("no callback field"));
}

#[test]
fn test_rule_from_object_invalid_condition_type() {
    let object = jobj(vec![("condition", jstr("not_an_array")), ("callback", jarr(vec![]))]);
    let result = Rule::from_object(&object);
    assert!(result.is_err());
    assert!(result.unwrap_err().to_string().contains("condition field must be an array"));
}

#[test]
fn test_rule_from_object_invalid_callback_type() {
    let object = jobj(vec![("condition", jarr(vec![])), ("callback", jstr("not_an_array"))]);
    let result = Rule::from_object(&object);
    assert!(result.is_err());
    assert!(result.unwrap_err().to_string().contains("callback field must be an array"));
}

#[test]
fn test_rule_to_json() {
    let condition1 = Condition::new("balance".to_string(), "100".to_string(), ">=".to_string()).unwrap();
    let condition2 = Condition::new("token".to_string(), "TEST".to_string(), "==".to_string()).unwrap();
    let callback1 = callback("collect", Some("address"), Some("TOKEN"), Some("50"), Some(">="));
    let callback2 = callback("reject", None, None, None, None);
    let rule = Rule::new(vec![condition1, condition2], vec![callback1, callback2]);
    let json_value = rule.to_json();
    let conditions = field(&json_value, "condition");
    assert_eq!(len_of(conditions), 2);
    assert_eq!(field(&item(conditions, 0), "key"), &jstr("balance"));
    assert_eq!(field(&item(conditions, 0), "value"), &jstr("100"));
    assert_eq!(field(&item(conditions, 0), "comparison"), &jstr(">="));
    assert_eq!(field(&item(conditions, 1), "key"), &jstr("token"));
    assert_eq!(field(&item(conditions, 1), "value"), &jstr("TEST"));
    assert_eq!(field(&item(conditions, 1), "comparison"), &jstr("=="));
    let callbacks = field(&json_value, "callback");
    assert_eq!(len_of(callbacks), 2);
    assert_eq!(field(&item(callbacks, 0), "action"), &jstr("collect"));
    assert_eq!(field(&item(callbacks, 0), "address"), &jstr("address"));
    assert_eq!(field(&item(callbacks, 0), "token"), &jstr("TOKEN"));
    assert_eq!(field(&item(callbacks, 0), "amount"), &jstr("50"));
    assert_eq!(field(&item(callbacks, 0), "comparison"), &jstr(">="));
    assert_eq!(field(&item(callbacks, 1), "action"), &jstr("reject"));
}

#[test]
fn test_rule_clear_operations() {
    let condition = Condition::new("test".to_string(), "value".to_string(), "==".to_string()).unwrap();
    let cb = callback("test_action", None, None, None, None);
    let mut rule = Rule::new(vec![condition], vec![cb]);
    assert_eq!(rule.condition_count(), 1);
    assert_eq!(rule.callback_count(), 1);
    assert!(!rule.is_empty());
    rule.clear_conditions();
    assert_eq!(rule.condition_count(), 0);
    assert_eq!(rule.callback_count(), 1);
    rule.clear_callbacks();
    assert_eq!(rule.condition_count(), 0);
    assert_eq!(rule.callback_count(), 0);
    assert!(rule.is_empty());
    let mut again = Rule::new(
        vec![Condition::new("a".to_string(), "b".to_string(), "c".to_string()).unwrap()],
        vec![callback("reject", None, None, None, None)],
    );
    again.clear();
    assert!(again.is_empty());
}

#[test]
fn test_rule_traits() {
    let object = jobj(vec![
        (
            "condition",
            jarr(vec![jobj(vec![("key", jstr("status")), ("value", jstr("active")), ("comparison", jstr("=="))])]),
        ),
        (
            "callback",
            jarr(vec![jobj(vec![("action", jstr("remit")), ("token", jstr("REMIT")), ("amount", jstr("75"))])]),
        ),
    ]);
    let rule = Rule::from_json_object(&object).unwrap();
    assert_eq!(rule.condition_count(), 1);
    assert_eq!(rule.callback_count(), 1);
    assert_eq!(rule.get_conditions()[0].key, "status");
    assert_eq!(rule.get_conditions()[0].value, "active");
    assert_eq!(rule.get_callbacks()[0].action, "remit");
    let json_output = rule.to_json_object();
    assert!(matches!(field(&json_output, "condition"), JsonValue::Array(_)));
    assert!(matches!(field(&json_output, "callback"), JsonValue::Array(_)));
    assert_eq!(field(&item(field(&json_output, "condition"), 0), "key"), &jstr("status"));
    assert_eq!(field(&item(field(&json_output, "callback"), 0), "action"), &jstr("remit"));
}

#[test]
fn rule_test_javascript_compatibility() {
    assert!(Rule::empty().is_empty());
    let condition = Condition::new("balance".to_string(), "500".to_string(), ">".to_string()).unwrap();
    let cb = callback("collect", Some("test_address"), Some("TEST"), Some("100"), Some(">="));
    let rule = Rule::new(vec![condition], vec![cb]);
    assert_eq!(rule.condition_count(), 1);
    assert_eq!(rule.callback_count(), 1);
    let js_style_object = jobj(vec![
        (
            "condition",
            jarr(vec![jobj(vec![
                ("key", jstr("wallet_balance")),
                ("value", jstr("1000")),
                ("comparison", jstr(">=")),
            ])]),
        ),
        (
            "callback",
            jarr(vec![jobj(vec![
                ("action", jstr("collect")),
                ("address", jstr("collect_address")),
                ("token", jstr("COLLECT")),
                ("amount", jstr("250")),
                ("comparison", jstr(">=")),
            ])]),
        ),
    ]);
    let rule_from_object = Rule::from_object(&js_style_object).unwrap();
    let json_output = rule_from_object.to_json();
    let out_condition = item(field(&json_output, "condition"), 0);
    let in_condition = item(field(&js_style_object, "condition"), 0);
    for key in ["key", "value", "comparison"] {
        assert_eq!(field(&out_condition, key), field(&in_condition, key));
    }
    let out_callback = item(field(&json_output, "callback"), 0);
    let in_callback = item(field(&js_style_object, "callback"), 0);
    assert_eq!(field(&out_callback, "action"), field(&in_callback, "action"));
    assert_eq!(field(&out_callback, "address"), field(&in_callback, "address"));
    let mut dynamic_rule = Rule::empty();
    dynamic_rule.add_condition(Condition::new("token_type".to_string(), "DYNAMIC".to_string(), "==".to_string()).unwrap());
    dynamic_rule.add_callback(callback("burn", None, Some("BURN"), Some("50"), Some(">")));
    assert_eq!(dynamic_rule.condition_count(), 1);
    assert_eq!(dynamic_rule.callback_count(), 1);
    assert_eq!(dynamic_rule.get_conditions()[0].key, "token_type");
    assert_eq!(dynamic_rule.get_callbacks()[0].action, "burn");
}

fn meta_of(pairs: Vec<(&str, JsonValue)>) -> Meta {
    let mut meta = Meta::empty();
    for (k, v) in pairs {
        meta.set_property(k.to_string(), v);
    }
    meta
}

#[test]
fn test_cross_sdk_rule_json_compatibility() {
    let condition = Condition::new("balance".to_string(), "1000".to_string(), ">=".to_string()).unwrap();
    let meta = meta_of(vec![("type", jstr("validation")), ("level", jstr("strict"))]);
    let cb = Callback::new(
        "collect".to_string(),
        Some("policy".to_string()),
        Some("balance_check".to_string()),
        Some(meta),
        Some("target_address".to_string()),
        Some("COLLECT".to_string()),
        Some("250".to_string()),
        Some(">=".to_string()),
    )
    .unwrap();
    let rule = Rule::new(vec![condition], vec![cb]);
    let json_output = rule.to_json();
    assert!(json_output.get("condition").is_some());
    assert!(json_output.get("callback").is_some());
    let conditions = field(&json_output, "condition");
    assert_eq!(len_of(conditions), 1);
    assert_eq!(field(&item(conditions, 0), "key"), &jstr("balance"));
    assert_eq!(field(&item(conditions, 0), "value"), &jstr("1000"));
    assert_eq!(field(&item(conditions, 0), "comparison"), &jstr(">="));
    let callbacks = field(&json_output, "callback");
    assert_eq!(len_of(callbacks), 1);
    let c0 = item(callbacks, 0);
    assert_eq!(field(&c0, "action"), &jstr("collect"));
    assert_eq!(field(&c0, "metaType"), &jstr("policy"));
    assert_eq!(field(&c0, "metaId"), &jstr("balance_check"));
    assert_eq!(field(&c0, "address"), &jstr("target_address"));
    assert_eq!(field(&c0, "token"), &jstr("COLLECT"));
    assert_eq!(field(&c0, "amount"), &jstr("250"));
    assert_eq!(field(&c0, "comparison"), &jstr(">="));
    let meta_obj = field(&c0, "meta");
    assert_eq!(field(meta_obj, "type"), &jstr("validation"));
    assert_eq!(field(meta_obj, "level"), &jstr("strict"));
}

#[test]
fn test_cross_sdk_callback_action_validation() {
    let reject_callback = callback("reject", None, None, None, None);
    assert!(reject_callback.is_reject());
    assert!(!reject_callback.is_collect());
    assert!(!reject_callback.is_meta());
    let meta = meta_of(vec![("test", jstr("value"))]);
    let meta_callback = Callback::new(
        "meta".to_string(),
        Some("test_type".to_string()),
        Some("test_id".to_string()),
        Some(meta),
        None,
        None,
        None,
        None,
    )
    .unwrap();
    assert!(meta_callback.is_meta());
    assert!(!meta_callback.is_collect());
    assert!(!meta_callback.is_reject());
    let collect_callback = callback("collect", Some("test_address"), Some("TEST"), Some("100"), Some(">="));
    assert!(collect_callback.is_collect());
    assert!(!collect_callback.is_meta());
    assert!(!collect_callback.is_reject());
    let buffer_callback = callback("buffer", Some("buffer_address"), Some("BUFFER"), Some("200"), Some(">"));
    assert!(buffer_callback.is_buffer());
    assert!(!buffer_callback.is_collect());
    let remit_callback = callback("remit", None, Some("REMIT"), Some("150"), None);
    assert!(remit_callback.is_remit());
    assert!(!remit_callback.is_collect());
    let burn_callback = callback("burn", None, Some("BURN"), Some("50"), Some("<"));
    assert!(burn_callback.is_burn());
    assert!(!burn_callback.is_remit());
}

#[test]
fn test_cross_sdk_rule_validation_errors() {
    let no_condition = jobj(vec![("callback", jarr(vec![jobj(vec![("action", jstr("reject"))])]))]);
    let error = Rule::from_object(&no_condition).unwrap_err().to_string();
    assert!(error.contains("no condition field"));
    let no_callback = jobj(vec![(
        "condition",
        jarr(vec![jobj(vec![("key", jstr("test")), ("value", jstr("value")), ("comparison", jstr("=="))])]),
    )]);
    let error = Rule::from_object(&no_callback).unwrap_err().to_string();
    assert!(error.contains("no callback field"));
    let bad_condition = jobj(vec![("condition", jstr("not_an_array")), ("callback", jarr(vec![]))]);
    let error = Rule::from_object(&bad_condition).unwrap_err().to_string();
    assert!(error.contains("condition field must be an array"));
    let bad_callback = jobj(vec![("condition", jarr(vec![])), ("callback", jstr("not_an_array"))]);
    let error = Rule::from_object(&bad_callback).unwrap_err().to_string();
    assert!(error.contains("callback field must be an array"));
}

#[test]
fn test_cross_sdk_numeric_validation() {
    for amount in ["0", "100", "1000.50", "0.001", "999999"] {
        let result = Callback::new(
            "collect".to_string(),
            None,
            None,
            None,
            Some("address".to_string()),
            Some("TOKEN".to_string()),
            Some(amount.to_string()),
            Some(">=".to_string()),
        );
        assert!(result.is_ok(), "Amount '{}' should be valid", amount);
    }
    for amount in ["", "abc", "10.20.30", "not_a_number", "100a"] {
        let result = Callback::new(
            "collect".to_string(),
            None,
            None,
            None,
            Some("address".to_string()),
            Some("TOKEN".to_string()),
            Some(amount.to_string()),
            Some(">=".to_string()),
        );
        assert!(result.is_err(), "Amount '{}' should be invalid", amount);
        let error = result.unwrap_err().to_string();
        assert!(error.contains("should be a string containing numbers"));
    }
}

#[test]
fn test_cross_sdk_round_trip_compatibility() {
    let condition1 = Condition::new("wallet_balance".to_string(), "500".to_string(), ">=".to_string()).unwrap();
    let condition2 = Condition::new("token_type".to_string(), "PREMIUM".to_string(), "==".to_string()).unwrap();
    let meta = meta_of(vec![
        ("validation_level", jstr("high")),
        ("priority", JsonValue::Number(1)),
        ("enabled", JsonValue::Bool(true)),
    ]);
    let callback1 = Callback::new(
        "collect".to_string(),
        Some("reward".to_string()),
        Some("premium_bonus".to_string()),
        Some(meta),
        Some("reward_pool_address".to_string()),
        Some("REWARD".to_string()),
        Some("100".to_string()),
        Some(">=".to_string()),
    )
    .unwrap();
    let callback2 = callback("reject", None, None, None, None);
    let original_rule = Rule::new(vec![condition1, condition2], vec![callback1, callback2]);
    let json_output = original_rule.to_json();
    let restored_rule = Rule::from_object(&json_output).unwrap();
    assert_eq!(original_rule.condition_count(), restored_rule.condition_count());
    assert_eq!(original_rule.callback_count(), restored_rule.callback_count());
    for (orig, rest) in original_rule.get_conditions().iter().zip(restored_rule.get_conditions().iter()) {
        assert_eq!(orig.key, rest.key);
        assert_eq!(orig.value, rest.value);
        assert_eq!(orig.comparison, rest.comparison);
    }
    for (orig, rest) in original_rule.get_callbacks().iter().zip(restored_rule.get_callbacks().iter()) {
        assert_eq!(orig.action, rest.action);
        assert_eq!(orig.meta_type, rest.meta_type);
        assert_eq!(orig.meta_id, rest.meta_id);
        assert_eq!(orig.address, rest.address);
        assert_eq!(orig.token, rest.token);
        assert_eq!(orig.amount, rest.amount);
        assert_eq!(orig.comparison, rest.comparison);
    }
    assert!(restored_rule.get_callbacks()[0].is_collect());
    assert!(restored_rule.get_callbacks()[1].is_reject());
    assert_eq!(original_rule, restored_rule);
}

#[test]
fn test_cross_sdk_meta_dynamic_properties() {
    let meta = meta_of(vec![
        ("stringProp", jstr("test_value")),
        ("numberProp", JsonValue::Number(42)),
        ("booleanProp", JsonValue::Bool(true)),
        ("arrayProp", jarr(vec![jstr("item1"), jstr("item2")])),
        ("objectProp", jobj(vec![("nested", jstr("value"))])),
    ]);
    assert_eq!(meta.get_property("stringProp"), Some(&jstr("test_value")));
    assert_eq!(meta.get_property("numberProp"), Some(&JsonValue::Number(42)));
    assert_eq!(meta.get_property("booleanProp"), Some(&JsonValue::Bool(true)));
    assert_eq!(meta.get_property("arrayProp"), Some(&jarr(vec![jstr("item1"), jstr("item2")])));
    assert_eq!(meta.get_property("objectProp"), Some(&jobj(vec![("nested", jstr("value"))])));
    assert!(meta.has_property("stringProp"));
    assert!(meta.has_property("numberProp"));
    assert!(!meta.has_property("nonexistent"));
    let keys = meta.keys();
    assert_eq!(keys.len(), 5);
    for k in ["stringProp", "numberProp", "booleanProp", "arrayProp", "objectProp"] {
        assert!(keys.contains(&k.to_string()));
    }
    let json_output = meta.to_json();
    assert_eq!(field(&json_output, "stringProp"), &jstr("test_value"));
    assert_eq!(field(&json_output, "numberProp"), &JsonValue::Number(42));
    assert_eq!(field(&json_output, "booleanProp"), &JsonValue::Bool(true));
    assert!(matches!(field(&json_output, "arrayProp"), JsonValue::Array(_)));
    assert!(matches!(field(&json_output, "objectProp"), JsonValue::Object(_)));
    let restored_meta = Meta::from_object(&json_output).unwrap();
    assert_eq!(restored_meta.get_property("stringProp"), Some(&jstr("test_value")));
    assert_eq!(restored_meta.get_property("numberProp"), Some(&JsonValue::Number(42)));
    assert_eq!(restored_meta.get_property("booleanProp"), Some(&JsonValue::Bool(true)));
}

#[test]
fn meta_set_replaces_in_place_and_remove_returns_value() {
    let mut meta = meta_of(vec![("a", jstr("1")), ("b", jstr("2"))]);
    meta.set_property("a".to_string(), jstr("3"));
    assert_eq!(meta.keys(), vec!["a".to_string(), "b".to_string()]);
    assert_eq!(meta.get_property("a"), Some(&jstr("3")));
    assert_eq!(meta.remove_property("a"), Some(jstr("3")));
    assert_eq!(meta.remove_property("a"), None);
    assert_eq!(meta.keys(), vec!["b".to_string()]);
    assert!(!meta.is_empty());
    meta.clear();
    assert!(meta.is_empty());
    assert_eq!(meta.key(), None);
    assert_eq!(meta.value(), None);
}

#[test]
fn meta_from_object_keeps_last_value_and_ignores_non_objects() {
    let object = jobj(vec![("x", jstr("1")), ("y", jstr("2")), ("x", jstr("3"))]);
    let meta = Meta::from_object(&object).unwrap();
    assert_eq!(meta.keys(), vec!["x".to_string(), "y".to_string()]);
    assert_eq!(meta.get_property("x"), Some(&jstr("3")));
    assert!(Meta::from_object(&jstr("text")).unwrap().is_empty());
}

#[test]
fn numeric_texts() {
    assert!(is_numeric("-12.5"));
    assert!(is_numeric("+7"));
    assert!(is_numeric(".5"));
    assert!(!is_numeric("-"));
    assert!(!is_numeric("."));
    assert!(!is_numeric("1e5"));
}

#[test]
fn rule_reading_stops_at_the_first_bad_item() {
    let object = jobj(vec![
        (
            "condition",
            jarr(vec![
                jobj(vec![("key", jstr("k")), ("value", jstr("v")), ("comparison", jstr("=="))]),
                jobj(vec![("key", jstr("k"))]),
            ]),
        ),
        ("callback", jstr("not_an_array")),
    ]);
    let error = Rule::from_object(&object).unwrap_err().to_string();
    assert_eq!(error, "Missing or invalid 'value' field");
    let object = jobj(vec![
        ("condition", jarr(vec![])),
        ("callback", jarr(vec![jobj(vec![("action", jstr("collect")), ("amount", jstr("x"))])])),
    ]);
    let error = Rule::from_object(&object).unwrap_err().to_string();
    assert_eq!(error, "Parameter amount should be a string containing numbers");
    let no_action = jobj(vec![("token", jstr("T"))]);
    assert_eq!(
        Callback::from_object(&no_action).unwrap_err().to_string(),
        "Missing or invalid 'action' field"
    );
}
