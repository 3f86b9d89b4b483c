use knishio_client::error::KnishIOError;
use knishio_client::json::JsonValue;
use knishio_client::response::{
    AnyResponse, BaseResponse, Response, ResponseActiveSession, ResponseAtom, ResponseAuthorizationGuest,
    ResponseBalance, ResponseCreateMeta, ResponseFactory, ResponseLinkIdentifier, ResponseMetaType,
    ResponseMetaTypeViaAtom, ResponseProposeMolecule, ResponseRequestAuthorizationGuest, ResponseUtils,
    ResponseWalletBundle, ResponseWalletList,
};

fn jstr(s: &str) -> JsonValue {
    JsonValue::Str(s.to_string())
}

fn jobj(entries: Vec<(&str, JsonValue)>) -> JsonValue {
    JsonValue::Object(entries.into_iter().map(|(k, v)| (k.to_string(), v)).collect())
}

fn answer(key: &str, data: JsonValue) -> JsonValue {
    jobj(vec![("data", jobj(vec![(key, data)]))])
}

#[test]
fn test_base_response_creation() {
    let json = answer(
        "Balance",
        jobj(vec![("bundleHash", jstr("test123")), ("tokenSlug", jstr("KNISH")), ("amount", jstr("100.0"))]),
    );
    let response = BaseResponse::new(json).unwrap();
    assert!(response.success());
    assert!(response.error().is_none());
}

#[test]
fn test_response_with_error() {
    let json = jobj(vec![("exception", jstr("Invalid request"))]);
    let result = BaseResponse::new(json);
    assert!(result.is_err());
    assert!(matches!(result.unwrap_err(), KnishIOError::InvalidResponse));
}

#[test]
fn test_propose_molecule_response() {
    let json = answer(
        "ProposeMolecule",
        jobj(vec![
            ("molecularHash", jstr("abc123")),
            ("status", jstr("accepted")),
            ("createdAt", jstr("2024-01-01T00:00:00Z")),
        ]),
    );
    let response = ResponseProposeMolecule::new(json, None).unwrap();
    assert!(Response::success(&response));
    assert_eq!(response.status(), "accepted");
    assert_eq!(response.molecular_hash(), Some("abc123".to_string()));
}

#[test]
fn null_and_unauthenticated_answers_are_refused() {
    assert!(matches!(BaseResponse::new(JsonValue::Null), Err(KnishIOError::InvalidResponse)));
    let json = jobj(vec![("exception", jstr("Unauthenticated."))]);
    assert!(matches!(BaseResponse::new(json), Err(KnishIOError::Unauthenticated)));
    let json = jobj(vec![("exception", JsonValue::Number(3))]);
    assert!(matches!(BaseResponse::new(json), Err(KnishIOError::InvalidResponse)));
}

#[test]
fn dotted_paths_lead_into_the_answer() {
    let json = answer("Balance", jobj(vec![("amount", jstr("5"))]));
    let response = BaseResponse::new(json.clone()).unwrap();
    assert_eq!(response.dot_get("data.Balance.amount"), Some(&jstr("5")));
    assert!(response.dot_has("data.Balance"));
    assert!(!response.dot_has("data.Wallet"));
    assert!(!response.dot_has("data..Balance"));
    assert_eq!(response.get_data(), &json);
    let keyed = response.with_data_key("data.Balance");
    assert_eq!(keyed.get_data(), &jobj(vec![("amount", jstr("5"))]));
    let missing = BaseResponse::new(json.clone()).unwrap().with_data_key("data.Nothing");
    assert_eq!(missing.get_data(), &json);
    assert_eq!(Response::to_json(&missing), json);
}

#[test]
fn base_reason_and_status() {
    let json = answer("X", jobj(vec![("message", jstr("m")), ("status", jstr("ok"))]));
    let response = BaseResponse::new(json).unwrap().with_data_key("data.X");
    assert_eq!(Response::reason(&response), Some("m".to_string()));
    assert_eq!(Response::status(&response), Some("ok".to_string()));
    let json = answer("X", jobj(vec![("reason", JsonValue::Number(1)), ("message", jstr("m"))]));
    let response = BaseResponse::new(json).unwrap().with_data_key("data.X");
    assert_eq!(Response::reason(&response), Some("Invalid response from server".to_string()));
    let not_object = answer("X", jstr("text"));
    let response = BaseResponse::new(not_object).unwrap().with_data_key("data.X");
    assert!(!Response::success(&response));
}

#[test]
fn query_reference_is_kept() {
    let q = jobj(vec![("query", jstr("{ Balance }"))]);
    let response = ResponseBalance::new(answer("Balance", jobj(vec![])), Some(q.clone())).unwrap();
    assert_eq!(Response::query(&response), Some(&q));
    assert_eq!(response.wallet_data(), Some(&jobj(vec![])));
}

#[test]
fn active_session_fields() {
    let data = jobj(vec![("active", JsonValue::Bool(true)), ("expiresAt", jstr("later")), ("sessionId", jstr("s1"))]);
    let response = ResponseActiveSession::new(answer("ActiveSession", data), None).unwrap();
    assert!(response.active());
    assert_eq!(response.expires_at(), Some("later".to_string()));
    assert_eq!(response.session_id(), Some("s1".to_string()));
    let empty = ResponseActiveSession::new(answer("ActiveSession", jobj(vec![])), None).unwrap();
    assert!(!empty.active());
}

#[test]
fn atom_instances_and_guest_wallet() {
    let items = JsonValue::Array(vec![jobj(vec![("position", jstr("p"))])]);
    let response = ResponseAtom::new(answer("Atom", jobj(vec![("instances", items)])), None).unwrap();
    assert_eq!(response.instances(), vec![jobj(vec![("position", jstr("p"))])]);
    let none = ResponseAtom::new(answer("Atom", jobj(vec![])), None).unwrap();
    assert!(none.instances().is_empty());

    let guest = ResponseAuthorizationGuest::new(answer("AuthorizeGuest", jobj(vec![("wallet", jstr("w"))])), None).unwrap();
    assert!(Response::success(&guest));
    let no_wallet = ResponseAuthorizationGuest::new(answer("AuthorizeGuest", jobj(vec![])), None).unwrap();
    assert!(!Response::success(&no_wallet));
}

#[test]
fn accepted_mutations_and_link_identifier() {
    let ok = ResponseCreateMeta::new(answer("ProposeMolecule", jobj(vec![("status", jstr("accepted"))])));
    assert!(Response::success(&ok));
    assert!(ResponseUtils::is_molecular_accepted(&ok));
    let rejected = ResponseCreateMeta::new(answer("ProposeMolecule", jobj(vec![("status", jstr("rejected"))])));
    assert!(!Response::success(&rejected));
    assert!(!ResponseUtils::is_molecular_accepted(&rejected));

    let link = ResponseLinkIdentifier::new(
        answer("LinkIdentifier", jobj(vec![("set", JsonValue::Bool(true)), ("type", jstr("email"))])),
        None,
    )
    .unwrap();
    assert!(Response::success(&link));
    assert_eq!(link.identifier_type(), Some("email".to_string()));
    assert_eq!(link.message(), None);
}

#[test]
fn meta_type_counts_and_atoms() {
    let data = jobj(vec![
        ("instanceCount", jobj(vec![("a", JsonValue::Number(2)), ("b", JsonValue::Number(5))])),
        ("paginatorInfo", jobj(vec![("total", JsonValue::Number(7))])),
    ]);
    let response = ResponseMetaType::new(answer("MetaType", data), None).unwrap();
    assert_eq!(response.instance_count(), vec![("a".to_string(), 2), ("b".to_string(), 5)]);
    assert_eq!(response.paginator_info(), Some(&jobj(vec![("total", JsonValue::Number(7))])));
    let bad = jobj(vec![("instanceCount", jobj(vec![("a", JsonValue::Number(2)), ("b", jstr("x"))]))]);
    let response = ResponseMetaType::new(answer("MetaType", bad), None).unwrap();
    assert!(response.instance_count().is_empty());

    let atoms = JsonValue::Array(vec![jstr("a1"), jstr("a2")]);
    let via = ResponseMetaTypeViaAtom::new(answer("AtomsByMoleculeLookup", atoms), None).unwrap();
    assert_eq!(via.atoms(), vec![jstr("a1"), jstr("a2")]);
}

#[test]
fn wallet_bundles_keep_the_last_per_hash() {
    let items = JsonValue::Array(vec![
        jobj(vec![("bundleHash", jstr("h1")), ("n", JsonValue::Number(1))]),
        jobj(vec![("other", jstr("x"))]),
        jobj(vec![("bundleHash", jstr("h2"))]),
        jobj(vec![("bundleHash", jstr("h1")), ("n", JsonValue::Number(3))]),
    ]);
    let response = ResponseWalletBundle::new(answer("WalletBundle", items), None).unwrap();
    let bundles = response.bundles();
    assert_eq!(bundles.len(), 2);
    let h1 = bundles.iter().find(|(k, _)| k == "h1").unwrap();
    assert_eq!(h1.1, jobj(vec![("bundleHash", jstr("h1")), ("n", JsonValue::Number(3))]));
    assert!(bundles.iter().any(|(k, _)| k == "h2"));

    let list = ResponseWalletList::new(answer("Wallet", JsonValue::Array(vec![jstr("w")])), None).unwrap();
    assert_eq!(list.wallets(), vec![jstr("w")]);
}

#[test]
fn guest_access_token_fields() {
    let data = jobj(vec![("key", jstr("k1")), ("token", jstr("t")), ("encrypt", JsonValue::Bool(false))]);
    let response = ResponseRequestAuthorizationGuest::new(answer("AccessToken", data), None).unwrap();
    assert_eq!(response.pub_key().unwrap(), "k1");
    assert_eq!(response.token(), Some("t".to_string()));
    assert_eq!(response.encrypt(), Some(false));
    assert!(matches!(response.payload_key("missing"), Err(KnishIOError::InvalidResponse)));
    assert!(Response::success(&response));
    assert_eq!(Response::reason(&response), Some("Invalid response from server".to_string()));
    let empty = ResponseRequestAuthorizationGuest::new(answer("AccessToken", jobj(vec![])), None).unwrap();
    assert!(!Response::success(&empty));
    assert!(matches!(empty.pub_key(), Err(KnishIOError::InvalidResponse)));
}

#[test]
fn proposal_defaults_payload_and_molecule() {
    let data = jobj(vec![("payload", jobj(vec![("x", JsonValue::Number(1))]))]);
    let response = ResponseProposeMolecule::new(answer("ProposeMolecule", data), None).unwrap();
    assert_eq!(response.status(), "rejected");
    assert_eq!(response.reason(), "Invalid response from server");
    assert!(!Response::success(&response));
    assert_eq!(Response::payload(&response), Some(&jobj(vec![("x", JsonValue::Number(1))])));

    let text = jobj(vec![("payload", jstr("{\"x\":1}")), ("createdAt", jstr("123"))]);
    let response = ResponseProposeMolecule::new(answer("ProposeMolecule", text), None).unwrap();
    assert_eq!(Response::payload(&response), None);
    assert_eq!(response.payload_text(), Some("{\"x\":1}".to_string()));
    let molecule = response.molecule().unwrap();
    assert_eq!(molecule.created_at, "123");
    assert_eq!(molecule.status, None);
    let response = response.with_parsed_payload(Some(jobj(vec![("x", JsonValue::Number(1))])));
    assert_eq!(Response::payload(&response), Some(&jobj(vec![("x", JsonValue::Number(1))])));
    assert!(response.client_molecule().is_none());
}

#[test]
fn factory_picks_the_response_kind() {
    let json = answer("Balance", jobj(vec![("amount", jstr("1"))]));
    let r = ResponseFactory::create_response("Balance", json.clone(), None).unwrap();
    assert!(matches!(r, AnyResponse::Balance(_)));
    assert_eq!(Response::data(&r), &jobj(vec![("amount", jstr("1"))]));
    let r = ResponseFactory::create_response("Unknown", json.clone(), None).unwrap();
    assert!(matches!(r, AnyResponse::Base(_)));
    assert_eq!(Response::data(&r), &json);
    let bad = jobj(vec![("exception", jstr("x"))]);
    assert!(matches!(ResponseFactory::create_response("Balance", bad, None), Err(KnishIOError::InvalidResponse)));

    let m = answer("ProposeMolecule", jobj(vec![("status", jstr("accepted")), ("molecularHash", jstr("h"))]));
    let r = ResponseFactory::create_mutation_response("CreateToken", m.clone(), None, None).unwrap();
    assert!(matches!(r, AnyResponse::CreateToken(_)));
    assert!(ResponseUtils::is_molecular_accepted(&r));
    assert_eq!(ResponseUtils::extract_molecular_hash(&r), Some("h".to_string()));
    let r = ResponseFactory::create_mutation_response("Other", m, None, None).unwrap();
    assert!(matches!(r, AnyResponse::ProposeMolecule(_)));
}

#[test]
fn atom_response_gives_the_metas_texts_in_order() {
    let instances = JsonValue::Array(vec![
        jobj(vec![("metasJson", jstr("{\"a\":1}"))]),
        jobj(vec![("position", jstr("p"))]),
        jobj(vec![("metasJson", jstr("[]"))]),
    ]);
    let response = ResponseAtom::new(answer("Atom", jobj(vec![("instances", instances)])), None).unwrap();
    assert_eq!(response.metas_texts(), vec!["{\"a\":1}".to_string(), "[]".to_string()]);
    let empty = ResponseAtom::new(answer("Atom", jobj(vec![])), None).unwrap();
    assert!(empty.metas_texts().is_empty());
}
