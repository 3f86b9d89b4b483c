use knishio_client::json::JsonValue;
use knishio_client::mutation::{
    BaseMutation, ClaimShadowWalletParams, CreateIdentifierParams, MutationActiveSession, MutationBuilder,
    MutationLinkIdentifier, MutationRequestAuthorizationGuest,
};

#[test]
fn test_mutation_active_session_creation() {
    let mutation = MutationActiveSession::new();
    let mutation_string = mutation.get_mutation();

    assert!(mutation_string.contains("mutation("));
    assert!(mutation_string.contains("$bundleHash: String!"));
    assert!(mutation_string.contains("$metaType: String!"));
    assert!(mutation_string.contains("$metaId: String!"));
    assert!(mutation_string.contains("ActiveSession("));
    assert!(mutation_string.contains("bundleHash"));
    assert!(mutation_string.contains("metaType"));
    assert!(mutation_string.contains("metaId"));
    assert!(mutation_string.contains("jsonData"));
    assert!(mutation_string.contains("createdAt"));
    assert!(mutation_string.contains("updatedAt"));
}

#[test]
fn test_mutation_link_identifier_creation() {
    let mutation = MutationLinkIdentifier::new();
    let mutation_string = mutation.get_mutation();

    assert!(mutation_string.contains("mutation( $bundle: String!, $type: String!, $content: String! )"));
    assert!(mutation_string.contains("LinkIdentifier( bundle: $bundle, type: $type, content: $content )"));
    assert!(mutation_string.contains("type"));
    assert!(mutation_string.contains("bundle"));
    assert!(mutation_string.contains("content"));
    assert!(mutation_string.contains("set"));
    assert!(mutation_string.contains("message"));
}

#[test]
fn test_mutation_request_authorization_guest_creation() {
    let mutation = MutationRequestAuthorizationGuest::new();
    let mutation_string = mutation.get_mutation();

    assert!(mutation_string.contains("mutation( $cellSlug: String, $pubkey: String, $encrypt: Boolean )"));
    assert!(mutation_string.contains("AccessToken( cellSlug: $cellSlug, pubkey: $pubkey, encrypt: $encrypt )"));
    assert!(mutation_string.contains("token"));
    assert!(mutation_string.contains("pubkey"));
    assert!(mutation_string.contains("expiresAt"));
}

#[test]
fn test_claim_shadow_wallet_params() {
    let params = ClaimShadowWalletParams { token: "TEST".to_string(), batch_id: Some("batch123".to_string()) };

    assert_eq!(params.token, "TEST");
    assert_eq!(params.batch_id, Some("batch123".to_string()));
}

#[test]
fn test_create_identifier_params() {
    let params = CreateIdentifierParams {
        identifier_type: "email".to_string(),
        contact: "user@example.com".to_string(),
        code: "123456".to_string(),
    };

    assert_eq!(params.identifier_type, "email");
    assert_eq!(params.contact, "user@example.com");
    assert_eq!(params.code, "123456");
}

#[test]
fn test_base_mutation_creation() {
    let mutation = BaseMutation::new("mutation { test }");
    assert_eq!(mutation.get_mutation(), "mutation { test }");
}

#[test]
fn test_mutation_with_variables() {
    let variables = JsonValue::Object(vec![("key".to_string(), JsonValue::Str("value".to_string()))]);
    let mutation = BaseMutation::new("mutation { test }").with_variables(variables.clone());

    assert_eq!(mutation.compiled_variables(None), Some(variables));
}

#[test]
fn mutation_variables_pass_through_and_builder_records_secret() {
    let given = JsonValue::Object(vec![("bundleHash".to_string(), JsonValue::Str("b".to_string()))]);
    assert_eq!(MutationActiveSession::new().compiled_variables(Some(given.clone())), Some(given.clone()));
    assert_eq!(MutationLinkIdentifier::new().compiled_variables(None), None);
    let base = BaseMutation::new("mutation { x }").with_variables(JsonValue::Null);
    assert_eq!(base.compiled_variables(Some(given.clone())), Some(given));
    let builder = MutationBuilder::new().with_secret("test-secret").with_bundle("test-bundle");
    let mutation = builder.active_session();
    assert!(mutation.get_mutation().contains("ActiveSession("));
}
