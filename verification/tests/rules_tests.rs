use knishio_client::error::KnishIOError;
use knishio_client::json::JsonValue;
use knishio_client::rules::condition::Condition;
use knishio_client::rules::{FromJsonObject, RuleArgumentError, ToJsonObject};

fn jstr(s: &str) -> JsonValue {
    JsonValue::Str(s.to_string())
}

fn jobj(entries: Vec<(&str, JsonValue)>) -> JsonValue {
    JsonValue::Object(entries.into_iter().map(|(k, v)| (k.to_string(), v)).collect())
}

#[test]
fn test_rule_argument_error() {
    let error = RuleArgumentError::new("Test error message");
    assert_eq!(error.message, "Test error message");
    assert_eq!(error.to_string(), "Rule argument error: Test error message");
}

#[test]
fn test_rule_argument_error_conversion() {
    let rule_error = RuleArgumentError::new("Test conversion");
    let knish_error: KnishIOError = rule_error.into();
    assert!(knish_error.to_string().contains("Test conversion"));
}

#[test]
fn test_condition_new() {
    let condition = Condition::new("balance".to_string(), "100".to_string(), ">=".to_string()).unwrap();

    assert_eq!(condition.key, "balance");
    assert_eq!(condition.value, "100");
    assert_eq!(condition.comparison, ">=");
}

#[test]
fn test_condition_new_empty_key() {
    let result = Condition::new("".to_string(), "100".to_string(), ">=".to_string());

    assert!(result.is_err());
    assert!(result.unwrap_err().to_string().contains("not all class parameters are initialised"));
}

#[test]
fn test_condition_new_empty_value() {
    let result = Condition::new("balance".to_string(), "".to_string(), ">=".to_string());

    assert!(result.is_err());
    assert!(result.unwrap_err().to_string().contains("not all class parameters are initialised"));
}

#[test]
fn test_condition_new_empty_comparison() {
    let result = Condition::new("balance".to_string(), "100".to_string(), "".to_string());

    assert!(result.is_err());
    assert!(result.unwrap_err().to_string().contains("not all class parameters are initialised"));
}

#[test]
fn test_condition_from_object() {
    let object = jobj(vec![("key", jstr("token")), ("value", jstr("TEST")), ("comparison", jstr("=="))]);

    let condition = Condition::from_object(&object).unwrap();

    assert_eq!(condition.key, "token");
    assert_eq!(condition.value, "TEST");
    assert_eq!(condition.comparison, "==");
}

#[test]
fn test_condition_from_object_missing_key() {
    let object = jobj(vec![("value", jstr("TEST")), ("comparison", jstr("=="))]);

    let result = Condition::from_object(&object);
    assert!(result.is_err());
    assert!(result.unwrap_err().to_string().contains("Missing or invalid 'key' field"));
}

#[test]
fn test_condition_from_object_missing_value() {
    let object = jobj(vec![("key", jstr("token")), ("comparison", jstr("=="))]);

    let result = Condition::from_object(&object);
    assert!(result.is_err());
    assert!(result.unwrap_err().to_string().contains("Missing or invalid 'value' field"));
}

#[test]
fn test_condition_from_object_missing_comparison() {
    let object = jobj(vec![("key", jstr("token")), ("value", jstr("TEST"))]);

    let result = Condition::from_object(&object);
    assert!(result.is_err());
    assert!(result.unwrap_err().to_string().contains("Missing or invalid 'comparison' field"));
}

#[test]
fn test_condition_to_json() {
    let condition = Condition::new("amount".to_string(), "50".to_string(), ">".to_string()).unwrap();

    let json_value = condition.to_json();

    assert_eq!(json_value.get("key"), Some(&jstr("amount")));
    assert_eq!(json_value.get("value"), Some(&jstr("50")));
    assert_eq!(json_value.get("comparison"), Some(&jstr(">")));
}

#[test]
fn test_condition_traits() {
    let object = jobj(vec![("key", jstr("balance")), ("value", jstr("1000")), ("comparison", jstr("<="))]);

    let condition = Condition::from_json_object(&object).unwrap();
    assert_eq!(condition.key, "balance");
    assert_eq!(condition.value, "1000");
    assert_eq!(condition.comparison, "<=");

    let json_output = condition.to_json_object();
    assert_eq!(json_output.get("key"), Some(&jstr("balance")));
    assert_eq!(json_output.get("value"), Some(&jstr("1000")));
    assert_eq!(json_output.get("comparison"), Some(&jstr("<=")));
}

#[test]
fn condition_test_javascript_compatibility() {
    let valid_condition =
        Condition::new("test_key".to_string(), "test_value".to_string(), "test_comparison".to_string());
    assert!(valid_condition.is_ok());

    let invalid_conditions = vec![
        Condition::new("".to_string(), "value".to_string(), "comp".to_string()),
        Condition::new("key".to_string(), "".to_string(), "comp".to_string()),
        Condition::new("key".to_string(), "value".to_string(), "".to_string()),
    ];

    for invalid in invalid_conditions {
        assert!(invalid.is_err());
    }

    let js_style_object =
        jobj(vec![("key", jstr("wallet_balance")), ("value", jstr("500")), ("comparison", jstr(">="))]);

    let condition = Condition::from_object(&js_style_object).unwrap();
    let json_output = condition.to_json();

    assert_eq!(json_output.get("key"), js_style_object.get("key"));
    assert_eq!(json_output.get("value"), js_style_object.get("value"));
    assert_eq!(json_output.get("comparison"), js_style_object.get("comparison"));
}

#[test]
fn condition_from_object_rejects_non_string_field() {
    let object = jobj(vec![("key", JsonValue::Number(5)), ("value", jstr("TEST")), ("comparison", jstr("=="))]);
    let err = Condition::from_object(&object).unwrap_err();
    assert_eq!(err.to_string(), "Missing or invalid 'key' field");
    let empty = jobj(vec![("key", jstr("")), ("value", jstr("TEST")), ("comparison", jstr("=="))]);
    let err = Condition::from_object(&empty).unwrap_err();
    assert_eq!(err.to_string(), "Condition::new() - not all class parameters are initialised!");
}
