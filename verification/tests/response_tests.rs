use knishio_client::error::KnishIOError;
use knishio_client::json::JsonValue;
use knishio_client::response::standard_response::{
    ResponseError, ResponseFactory, ResponseMetadata, ResponseUtils, StandardResponse, UniversalResponse,
    ValidationResult,
};
use knishio_client::response::ResponseUtils as OperationNames;

#[test]
fn test_success_response() {
    let response = StandardResponse::success("test payload", "test_operation");
    assert!(response.success());
    assert_eq!(response.payload(), Some(&"test payload"));
    assert_eq!(response.reason(), None);
}

#[test]
fn test_failure_response() {
    let response: StandardResponse<String> = StandardResponse::failure("test error", "test_operation");
    assert!(!response.success());
    assert_eq!(response.payload(), None);
    assert_eq!(response.reason(), Some("test error"));
}

#[test]
fn test_map_operation() {
    let response = StandardResponse::success(42, "test_operation");
    let mapped = response.map(|x| x * 2);
    assert!(mapped.success());
    assert_eq!(mapped.payload(), Some(&84));
    assert_eq!(mapped.data(), Some(&JsonValue::Null));
}

#[test]
fn test_response_utils() {
    let responses = vec![
        StandardResponse::success(1, "op1"),
        StandardResponse::success(2, "op2"),
        StandardResponse::success(3, "op3"),
    ];

    let combined = ResponseUtils::combine_responses(responses);
    assert!(combined.success());
    if let Some(payloads) = combined.payload() {
        assert_eq!(payloads.len(), 3);
    }
}

#[test]
fn combine_reports_every_failure_message() {
    let responses: Vec<StandardResponse<i32>> = vec![
        StandardResponse::success(1, "op1"),
        StandardResponse::failure("first", "op2"),
        StandardResponse::failure("second", "op3"),
    ];
    let combined = ResponseUtils::combine_responses(responses);
    assert!(!combined.success());
    assert_eq!(combined.reason(), Some("Combined operation failed: first; second"));
}

#[test]
fn map_keeps_failure_message_and_fold_picks_branch() {
    let failed: StandardResponse<i32> = StandardResponse::failure("broken", "op");
    let mapped = failed.map(|x| x + 1);
    assert!(!mapped.success());
    assert_eq!(mapped.reason(), Some("broken"));
    let ok = StandardResponse::success(5, "op");
    assert_eq!(ok.fold(|x| x * 10, |_| -1), 50);
    let bad: StandardResponse<i32> = StandardResponse::failure("nope", "op");
    assert_eq!(bad.fold(|x| x * 10, |m| m.len() as i32), 4);
}

#[test]
fn validation_round_trip_and_results() {
    let ok = StandardResponse::success(7, "op");
    let v = ok.to_validation_result();
    assert!(v.success);
    assert_eq!(v.data, Some(7));
    let back = ResponseUtils::from_validation_result(v, "again");
    assert_eq!(back.payload(), Some(&7));

    let bad: StandardResponse<i32> = StandardResponse::failure("why", "op");
    let v = bad.to_validation_result();
    assert!(!v.success);
    assert_eq!(v.error.as_ref().map(|e| e.message.clone()), Some("why".to_string()));
    match bad.to_result() {
        Err(KnishIOError::Custom(m)) => assert_eq!(m, "why"),
        other => panic!("unexpected {:?}", other),
    }
    let failed: ValidationResult<i32> = ValidationResult::failure("bad input").with_warnings(vec!["w".to_string()]);
    assert_eq!(failed.warnings, vec!["w".to_string()]);
    let r = ResponseUtils::from_validation_result(failed, "op");
    assert_eq!(r.reason(), Some("bad input"));
}

#[test]
fn factory_and_error_builders() {
    let r = ResponseFactory::create_success_response(3, "op", Some(JsonValue::Bool(true)), Some(12));
    assert!(r.success());
    assert_eq!(r.data(), Some(&JsonValue::Bool(true)));
    let e: StandardResponse<i32> = ResponseFactory::create_error_response("failed", "op", None);
    assert_eq!(e.reason(), Some("failed"));
    let err = ResponseError::new("m").with_code("E1").with_context("ctx").with_operation("op");
    assert_eq!(err.code, Some("E1".to_string()));
    assert_eq!(err.context, Some("ctx".to_string()));
    assert_eq!(err.operation, Some("op".to_string()));
    assert!(err.timestamp.chars().all(|c| c.is_ascii_digit()));
    let meta = ResponseMetadata::new("op");
    assert_eq!(meta.client_version, "0.1.0");
}

#[test]
fn operation_names_are_read_from_documents() {
    assert_eq!(OperationNames::extract_operation_name("query GetBalance { Balance }"), Some("GetBalance".to_string()));
    assert_eq!(OperationNames::extract_operation_name("query GetBalance($a: String) { Balance }"), Some("GetBalance".to_string()));
    assert_eq!(OperationNames::extract_operation_name("mutation ProposeMolecule { x }"), Some("ProposeMolecule".to_string()));
    assert_eq!(
        OperationNames::extract_operation_name(
            "mutation CreateWallet($molecule: MoleculeInput!) { ProposeMolecule(molecule: $molecule) { status } }"
        ),
        Some("CreateWallet".to_string())
    );
    assert_eq!(OperationNames::extract_operation_name("{ Balance(token: $t) { amount } }"), Some("Balance".to_string()));
    assert_eq!(OperationNames::extract_operation_name("{ Wallet }"), Some("Wallet".to_string()));
    assert_eq!(OperationNames::extract_operation_name("nothing here"), None);
    assert_eq!(OperationNames::extract_operation_name("{ Wallet\u{2003}x }"), Some("Wallet".to_string()));
    assert_eq!(OperationNames::extract_operation_name("{\tToken\u{3000}y }"), Some("Token".to_string()));
}

#[test]
fn sequence_steps_stop_at_the_first_failure() {
    let ok: StandardResponse<i32> = StandardResponse::success(1, "op");
    assert!(ResponseUtils::sequence_failure(0, &ok).is_none());
    let bad: StandardResponse<i32> = StandardResponse::failure("boom", "op");
    let stop = ResponseUtils::sequence_failure(1, &bad).unwrap();
    assert!(!stop.success());
    assert_eq!(stop.reason(), Some("Sequence failed at operation 2: boom"));
    let all = ResponseUtils::sequence_result(vec![StandardResponse::success(1, "a"), StandardResponse::success(2, "b")]);
    assert!(all.success());
    assert_eq!(all.payload(), Some(&vec![1, 2]));
}
