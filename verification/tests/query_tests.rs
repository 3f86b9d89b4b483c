use knishio_client::json::JsonValue;
use knishio_client::query::active_session::QueryActiveSession;
use knishio_client::query::atom::{QueryAtom, QueryAtomParams, ATOM_QUERY};
use knishio_client::query::balance::QueryBalance;
use knishio_client::query::batch::QueryBatch;
use knishio_client::query::continu_id::QueryContinuId;
use knishio_client::query::meta_type::{
    KeyValue, MetaIdValue, MetaTypeValue, QueryMetaType, QueryMetaTypeParams, ValueValue,
};
use knishio_client::query::meta_type_via_atom::{
    QueryMetaTypeViaAtom, QueryMetaTypeViaAtomParams, META_TYPE_VIA_ATOM_QUERY,
};
use knishio_client::query::policy::QueryPolicy;
use knishio_client::query::token::QueryToken;
use knishio_client::query::user_activity::QueryUserActivity;
use knishio_client::query::wallet_bundle::QueryWalletBundle;
use knishio_client::query::wallet_list::QueryWalletList;

fn jstr(s: &str) -> JsonValue {
    JsonValue::Str(s.to_string())
}

fn jarr(items: &[&str]) -> JsonValue {
    JsonValue::Array(items.iter().map(|s| jstr(s)).collect())
}

fn jobj(entries: Vec<(&str, JsonValue)>) -> JsonValue {
    JsonValue::Object(entries.into_iter().map(|(k, v)| (k.to_string(), v)).collect())
}

fn is_object(v: &JsonValue) -> bool {
    matches!(v, JsonValue::Object(_))
}

// ---- active session ----

#[test]
fn test_query_active_session_creation() {
    let query = QueryActiveSession::new();
    assert!(query.bundle_hash().is_none());
    assert!(query.meta_type().is_none());
    assert!(query.meta_id().is_none());
}

#[test]
fn test_query_active_session_with_parameters() {
    let query = QueryActiveSession::new()
        .with_bundle_hash("test-bundle")
        .with_meta_type("user")
        .with_meta_id("123");

    assert_eq!(query.bundle_hash(), Some("test-bundle"));
    assert_eq!(query.meta_type(), Some("user"));
    assert_eq!(query.meta_id(), Some("123"));
}

#[test]
fn active_session_test_with_meta() {
    let query = QueryActiveSession::new().with_meta("session", "456");
    assert_eq!(query.meta_type(), Some("session"));
    assert_eq!(query.meta_id(), Some("456"));
}

#[test]
fn active_session_test_convenience_methods() {
    let query = QueryActiveSession::by_bundle_hash("test-bundle");
    assert_eq!(query.bundle_hash(), Some("test-bundle"));

    let query = QueryActiveSession::by_meta_type("user");
    assert_eq!(query.meta_type(), Some("user"));

    let query = QueryActiveSession::by_meta_id("123");
    assert_eq!(query.meta_id(), Some("123"));

    let query = QueryActiveSession::by_meta("user", "456");
    assert_eq!(query.meta_type(), Some("user"));
    assert_eq!(query.meta_id(), Some("456"));

    let query = QueryActiveSession::all();
    assert!(query.bundle_hash().is_none());
    assert!(query.meta_type().is_none());
    assert!(query.meta_id().is_none());
}

#[test]
fn active_session_test_compiled_variables() {
    let query = QueryActiveSession::new()
        .with_bundle_hash("test-bundle")
        .with_meta_type("user")
        .with_meta_id("123");

    let variables = query.compiled_variables(None).unwrap();
    assert_eq!(variables.get("bundleHash"), Some(&jstr("test-bundle")));
    assert_eq!(variables.get("metaType"), Some(&jstr("user")));
    assert_eq!(variables.get("metaId"), Some(&jstr("123")));
}

#[test]
fn active_session_test_compiled_variables_partial() {
    let query = QueryActiveSession::new().with_bundle_hash("test-bundle");
    let variables = query.compiled_variables(None).unwrap();

    assert_eq!(variables.get("bundleHash"), Some(&jstr("test-bundle")));
    assert!(is_object(&variables));
    assert!(variables.get("metaType").is_none());
    assert!(variables.get("metaId").is_none());
}

#[test]
fn active_session_test_query_string() {
    let query = QueryActiveSession::new();
    let query_string = query.get_query();

    assert!(query_string.contains("ActiveUserQuery"));
    assert!(query_string.contains("ActiveUser"));
    assert!(query_string.contains("bundleHash"));
    assert!(query_string.contains("metaType"));
    assert!(query_string.contains("metaId"));
    assert!(query_string.contains("jsonData"));
    assert!(query_string.contains("createdAt"));
    assert!(query_string.contains("updatedAt"));
}

// ---- balance ----

#[test]
fn test_query_balance_creation() {
    let query = QueryBalance::new();
    assert!(query.address.is_none());
    assert!(query.token.is_none());
}

#[test]
fn test_query_balance_with_parameters() {
    let query = QueryBalance::new().with_token("KNISH").with_address("test-address");

    assert_eq!(query.token, Some("KNISH".to_string()));
    assert_eq!(query.address, Some("test-address".to_string()));
}

#[test]
fn test_query_balance_convenience_methods() {
    let query = QueryBalance::by_token("KNISH");
    assert_eq!(query.token, Some("KNISH".to_string()));

    let query = QueryBalance::by_address("test-address");
    assert_eq!(query.address, Some("test-address".to_string()));

    let query = QueryBalance::by_token_and_bundle("KNISH", "bundle-hash");
    assert_eq!(query.token, Some("KNISH".to_string()));
    assert_eq!(query.bundle_hash, Some("bundle-hash".to_string()));
}

#[test]
fn balance_test_compiled_variables() {
    let query = QueryBalance::new().with_token("KNISH").with_address("test-address");

    let variables = query.compiled_variables(None).unwrap();
    assert_eq!(variables.get("token"), Some(&jstr("KNISH")));
    assert_eq!(variables.get("address"), Some(&jstr("test-address")));
}

#[test]
fn balance_test_query_string() {
    let query = QueryBalance::new();
    let query_string = query.get_query();

    assert!(query_string.contains("Balance("));
    assert!(query_string.contains("address"));
    assert!(query_string.contains("bundleHash"));
    assert!(query_string.contains("tokenSlug"));
    assert!(query_string.contains("tokenUnits"));
    assert!(query_string.contains("tradeRates"));
}

// ---- batch ----

#[test]
fn test_query_batch_creation() {
    let query = QueryBatch::new();
    assert!(query.batch_id().is_none());
}

#[test]
fn test_query_batch_with_batch_id() {
    let query = QueryBatch::with_batch_id("test-batch-id");
    assert_eq!(query.batch_id(), Some("test-batch-id"));
}

#[test]
fn test_set_batch_id() {
    let mut query = QueryBatch::new();
    query.set_batch_id("new-batch-id");
    assert_eq!(query.batch_id(), Some("new-batch-id"));
}

#[test]
fn batch_test_convenience_methods() {
    let query = QueryBatch::by_id("batch-123");
    assert_eq!(query.batch_id(), Some("batch-123"));

    let query = QueryBatch::all();
    assert!(query.batch_id().is_none());
}

#[test]
fn batch_test_compiled_variables() {
    let query = QueryBatch::with_batch_id("test-batch");
    let variables = query.compiled_variables(None).unwrap();
    assert_eq!(variables.get("batchId"), Some(&jstr("test-batch")));
}

#[test]
fn batch_test_compiled_variables_empty() {
    let query = QueryBatch::new();
    let variables = query.compiled_variables(None).unwrap();
    assert!(is_object(&variables));
    assert!(variables.get("batchId").is_none());
}

#[test]
fn batch_test_compiled_variables_with_provided() {
    let query = QueryBatch::new();
    let provided_vars = jobj(vec![("batchId", jstr("provided-batch"))]);
    let variables = query.compiled_variables(Some(provided_vars)).unwrap();
    assert_eq!(variables.get("batchId"), Some(&jstr("provided-batch")));
}

#[test]
fn batch_test_query_string() {
    let query = QueryBatch::new();
    let query_string = query.get_query();

    assert!(query_string.contains("Batch( batchId: $batchId )"));
    assert!(query_string.contains("batchId"));
    assert!(query_string.contains("molecularHash"));
    assert!(query_string.contains("wallet"));
    assert!(query_string.contains("fromWallet"));
    assert!(query_string.contains("toWallet"));
    assert!(query_string.contains("sourceTokenUnits"));
    assert!(query_string.contains("transferTokenUnits"));
    assert!(query_string.contains("metas"));
    assert!(query_string.contains("throughMetas"));
    assert!(query_string.contains("children"));
}

#[test]
fn test_get_fields() {
    let fields = QueryBatch::get_fields();
    assert!(fields.contains("batchId"));
    assert!(fields.contains("molecularHash"));
    assert!(fields.contains("wallet"));
    assert!(fields.contains("tokenUnits"));
}

// ---- continu id ----

#[test]
fn test_query_continu_id_creation() {
    let query = QueryContinuId::new("test-bundle-hash");
    assert_eq!(query.bundle(), "test-bundle-hash");
}

#[test]
fn test_query_continu_id_by_bundle() {
    let query = QueryContinuId::by_bundle("test-bundle");
    assert_eq!(query.bundle(), "test-bundle");
}

#[test]
fn test_set_bundle() {
    let mut query = QueryContinuId::new("original-bundle");
    query.set_bundle("new-bundle");
    assert_eq!(query.bundle(), "new-bundle");
}

#[test]
fn continu_id_test_compiled_variables() {
    let query = QueryContinuId::new("test-bundle-hash");
    let variables = query.compiled_variables(None).unwrap();
    assert_eq!(variables.get("bundle"), Some(&jstr("test-bundle-hash")));
    assert_eq!(variables.get("token"), Some(&jstr("USER")));
}

#[test]
fn continu_id_test_compiled_variables_with_provided() {
    let query = QueryContinuId::new("test-bundle-hash");
    let provided_vars = jobj(vec![("bundle", jstr("provided-bundle"))]);
    let variables = query.compiled_variables(Some(provided_vars)).unwrap();
    assert_eq!(variables.get("bundle"), Some(&jstr("provided-bundle")));
}

#[test]
fn continu_id_test_query_string() {
    let query = QueryContinuId::new("test-bundle");
    let query_string = query.get_query();

    assert!(query_string.contains("ContinuId(bundle: $bundle, token: $token)"));
    assert!(query_string.contains("address"));
    assert!(query_string.contains("bundleHash"));
    assert!(query_string.contains("tokenSlug"));
    assert!(query_string.contains("position"));
    assert!(query_string.contains("batchId"));
    assert!(query_string.contains("characters"));
    assert!(query_string.contains("pubkey"));
    assert!(query_string.contains("amount"));
    assert!(query_string.contains("createdAt"));
}

// ---- policy ----

#[test]
fn test_query_policy_creation() {
    let query = QueryPolicy::new();
    assert!(query.meta_type().is_none());
    assert!(query.meta_id().is_none());
}

#[test]
fn test_query_policy_with_parameters() {
    let query = QueryPolicy::new().with_meta_type("user").with_meta_id("123");

    assert_eq!(query.meta_type(), Some("user"));
    assert_eq!(query.meta_id(), Some("123"));
}

#[test]
fn policy_test_with_meta() {
    let query = QueryPolicy::new().with_meta("user", "456");
    assert_eq!(query.meta_type(), Some("user"));
    assert_eq!(query.meta_id(), Some("456"));
}

#[test]
fn policy_test_convenience_methods() {
    let query = QueryPolicy::by_meta_type("user");
    assert_eq!(query.meta_type(), Some("user"));
    assert!(query.meta_id().is_none());

    let query = QueryPolicy::by_meta_id("123");
    assert!(query.meta_type().is_none());
    assert_eq!(query.meta_id(), Some("123"));

    let query = QueryPolicy::by_meta("user", "456");
    assert_eq!(query.meta_type(), Some("user"));
    assert_eq!(query.meta_id(), Some("456"));

    let query = QueryPolicy::all();
    assert!(query.meta_type().is_none());
    assert!(query.meta_id().is_none());
}

#[test]
fn policy_test_compiled_variables() {
    let query = QueryPolicy::new().with_meta_type("user").with_meta_id("123");

    let variables = query.compiled_variables(None).unwrap();
    assert_eq!(variables.get("metaType"), Some(&jstr("user")));
    assert_eq!(variables.get("metaId"), Some(&jstr("123")));
}

#[test]
fn policy_test_compiled_variables_partial() {
    let query = QueryPolicy::new().with_meta_type("user");
    let variables = query.compiled_variables(None).unwrap();

    assert_eq!(variables.get("metaType"), Some(&jstr("user")));
    assert!(is_object(&variables));
    assert!(variables.get("metaId").is_none());
}

#[test]
fn policy_test_compiled_variables_empty() {
    let query = QueryPolicy::new();
    let variables = query.compiled_variables(None).unwrap();

    assert!(is_object(&variables));
    assert!(variables.get("metaType").is_none());
    assert!(variables.get("metaId").is_none());
}

#[test]
fn policy_test_query_string() {
    let query = QueryPolicy::new();
    let query_string = query.get_query();

    assert!(query_string.contains("Policy( metaType: $metaType, metaId: $metaId )"));
    assert!(query_string.contains("molecularHash"));
    assert!(query_string.contains("position"));
    assert!(query_string.contains("metaType"));
    assert!(query_string.contains("metaId"));
    assert!(query_string.contains("conditions"));
    assert!(query_string.contains("callback"));
    assert!(query_string.contains("rule"));
    assert!(query_string.contains("createdAt"));
}

// ---- token ----

#[test]
fn test_query_token_creation() {
    let query = QueryToken::new();
    assert!(query.slug().is_none());
    assert!(query.slugs().is_empty());
    assert!(query.limit().is_none());
    assert!(query.order().is_none());
}

#[test]
fn test_query_token_with_parameters() {
    let query = QueryToken::new().with_slug("KNISH").with_limit(10).with_order("createdAt");

    assert_eq!(query.slug(), Some("KNISH"));
    assert_eq!(query.limit(), Some(10));
    assert_eq!(query.order(), Some("createdAt"));
}

#[test]
fn test_query_token_with_slugs() {
    let slugs = vec!["KNISH".to_string(), "TOKEN2".to_string()];
    let query = QueryToken::new().with_slugs(slugs.clone());
    assert_eq!(query.slugs(), slugs.as_slice());
}

#[test]
fn test_add_slug() {
    let query = QueryToken::new().add_slug("KNISH").add_slug("TOKEN2");

    assert_eq!(query.slugs().len(), 2);
    assert_eq!(query.slugs()[0], "KNISH");
    assert_eq!(query.slugs()[1], "TOKEN2");
}

#[test]
fn token_test_convenience_methods() {
    let query = QueryToken::by_slug("KNISH");
    assert_eq!(query.slug(), Some("KNISH"));

    let slugs = vec!["KNISH".to_string(), "TOKEN2".to_string()];
    let query = QueryToken::by_slugs(slugs.clone());
    assert_eq!(query.slugs(), slugs.as_slice());

    let query = QueryToken::all_with_limit(100);
    assert_eq!(query.limit(), Some(100));

    let query = QueryToken::with_ordering("name");
    assert_eq!(query.order(), Some("name"));

    let query = QueryToken::limited_ordered(50, "createdAt");
    assert_eq!(query.limit(), Some(50));
    assert_eq!(query.order(), Some("createdAt"));
}

#[test]
fn token_test_compiled_variables() {
    let query = QueryToken::new().with_slug("KNISH").with_limit(10).with_order("createdAt");

    let variables = query.compiled_variables(None).unwrap();
    assert_eq!(variables.get("slug"), Some(&jstr("KNISH")));
    assert_eq!(variables.get("limit"), Some(&JsonValue::Number(10)));
    assert_eq!(variables.get("order"), Some(&jstr("createdAt")));
}

#[test]
fn test_compiled_variables_with_slugs() {
    let slugs = vec!["KNISH".to_string(), "TOKEN2".to_string()];
    let query = QueryToken::new().with_slugs(slugs.clone());

    let variables = query.compiled_variables(None).unwrap();
    assert_eq!(variables.get("slugs"), Some(&jarr(&["KNISH", "TOKEN2"])));
}

#[test]
fn token_test_query_string() {
    let query = QueryToken::new();
    let query_string = query.get_query();

    assert!(query_string.contains("Token( slug: $slug, slugs: $slugs, limit: $limit, order: $order )"));
    assert!(query_string.contains("slug"));
    assert!(query_string.contains("name"));
    assert!(query_string.contains("fungibility"));
    assert!(query_string.contains("supply"));
    assert!(query_string.contains("decimals"));
    assert!(query_string.contains("amount"));
    assert!(query_string.contains("icon"));
}

// ---- user activity ----

#[test]
fn test_query_user_activity_creation() {
    let query = QueryUserActivity::new();
    assert!(query.bundle_hash().is_none());
    assert!(query.meta_type().is_none());
    assert!(query.meta_id().is_none());
    assert!(query.count_by.is_empty());
}

#[test]
fn test_query_user_activity_with_parameters() {
    let query = QueryUserActivity::new()
        .with_bundle_hash("test-bundle")
        .with_meta_type("user")
        .with_meta_id("123")
        .with_ip_address("192.168.1.1")
        .with_browser("Chrome")
        .with_os_cpu("Windows")
        .with_resolution("1920x1080")
        .with_time_zone("UTC")
        .with_interval("day");

    assert_eq!(query.bundle_hash(), Some("test-bundle"));
    assert_eq!(query.meta_type(), Some("user"));
    assert_eq!(query.meta_id(), Some("123"));
}

#[test]
fn test_count_by_parameters() {
    let query = QueryUserActivity::new().add_count_by("browser").add_count_by("ipAddress");

    assert_eq!(query.count_by.len(), 2);
    assert_eq!(query.count_by[0], "browser");
    assert_eq!(query.count_by[1], "ipAddress");
}

#[test]
fn user_activity_test_convenience_methods() {
    let query = QueryUserActivity::by_bundle_hash("test-bundle");
    assert_eq!(query.bundle_hash(), Some("test-bundle"));

    let query = QueryUserActivity::by_meta_type("user");
    assert_eq!(query.meta_type(), Some("user"));

    let query = QueryUserActivity::by_meta("user", "123");
    assert_eq!(query.meta_type(), Some("user"));
    assert_eq!(query.meta_id(), Some("123"));

    let query = QueryUserActivity::by_ip_address("192.168.1.1");
    assert!(query.ip_address.is_some());

    let query = QueryUserActivity::by_browser("Chrome");
    assert!(query.browser.is_some());

    let count_by = vec!["browser".to_string(), "ipAddress".to_string()];
    let query = QueryUserActivity::with_counting(count_by.clone(), "day");
    assert_eq!(query.count_by, count_by);
    assert_eq!(query.interval, Some("day".to_string()));

    let query = QueryUserActivity::all();
    assert!(query.bundle_hash().is_none());
    assert!(query.meta_type().is_none());
}

#[test]
fn user_activity_test_compiled_variables() {
    let query = QueryUserActivity::new()
        .with_bundle_hash("test-bundle")
        .with_meta_type("user")
        .with_meta_id("123")
        .with_ip_address("192.168.1.1")
        .with_browser("Chrome")
        .add_count_by("browser")
        .with_interval("day");

    let variables = query.compiled_variables(None).unwrap();
    assert_eq!(variables.get("bundleHash"), Some(&jstr("test-bundle")));
    assert_eq!(variables.get("metaType"), Some(&jstr("user")));
    assert_eq!(variables.get("metaId"), Some(&jstr("123")));
    assert_eq!(variables.get("ipAddress"), Some(&jstr("192.168.1.1")));
    assert_eq!(variables.get("browser"), Some(&jstr("Chrome")));
    assert_eq!(variables.get("countBy"), Some(&jarr(&["browser"])));
    assert_eq!(variables.get("interval"), Some(&jstr("day")));
}

#[test]
fn user_activity_test_query_string() {
    let query = QueryUserActivity::new();
    let query_string = query.get_query();

    assert!(query_string.contains("UserActivity"));
    assert!(query_string.contains("bundleHash"));
    assert!(query_string.contains("metaType"));
    assert!(query_string.contains("metaId"));
    assert!(query_string.contains("ipAddress"));
    assert!(query_string.contains("browser"));
    assert!(query_string.contains("osCpu"));
    assert!(query_string.contains("resolution"));
    assert!(query_string.contains("timeZone"));
    assert!(query_string.contains("countBy"));
    assert!(query_string.contains("interval"));

    assert!(query_string.contains("fragment SubFields"));
    assert!(query_string.contains("fragment Recursive"));
    assert!(query_string.contains("instanceCount"));
    assert!(query_string.contains("...SubFields"));
    assert!(query_string.contains("...Recursive"));
}

// ---- wallet bundle ----

#[test]
fn test_query_wallet_bundle_creation() {
    let query = QueryWalletBundle::new();
    assert_eq!(query.bundle_hashes().len(), 0);
}

#[test]
fn test_query_wallet_bundle_with_bundle_hashes() {
    let hashes = vec!["hash1".to_string(), "hash2".to_string()];
    let query = QueryWalletBundle::with_bundle_hashes(hashes.clone());
    assert_eq!(query.bundle_hashes(), hashes.as_slice());
}

#[test]
fn test_add_bundle_hash() {
    let query = QueryWalletBundle::new().add_bundle_hash("hash1").add_bundle_hash("hash2");

    assert_eq!(query.bundle_hashes().len(), 2);
    assert_eq!(query.bundle_hashes()[0], "hash1");
    assert_eq!(query.bundle_hashes()[1], "hash2");
}

#[test]
fn test_add_bundle_hashes() {
    let initial_hashes = vec!["hash1".to_string()];
    let additional_hashes = vec!["hash2".to_string(), "hash3".to_string()];

    let query = QueryWalletBundle::with_bundle_hashes(initial_hashes).add_bundle_hashes(additional_hashes);

    assert_eq!(query.bundle_hashes().len(), 3);
    assert_eq!(query.bundle_hashes()[0], "hash1");
    assert_eq!(query.bundle_hashes()[1], "hash2");
    assert_eq!(query.bundle_hashes()[2], "hash3");
}

#[test]
fn test_set_bundle_hashes() {
    let mut query = QueryWalletBundle::new().add_bundle_hash("original");
    let new_hashes = vec!["new1".to_string(), "new2".to_string()];

    query.set_bundle_hashes(new_hashes.clone());
    assert_eq!(query.bundle_hashes(), new_hashes.as_slice());
}

#[test]
fn test_clear_bundle_hashes() {
    let mut query = QueryWalletBundle::new().add_bundle_hash("hash1").add_bundle_hash("hash2");

    assert_eq!(query.bundle_hashes().len(), 2);
    query.clear_bundle_hashes();
    assert_eq!(query.bundle_hashes().len(), 0);
}

#[test]
fn wallet_bundle_test_convenience_methods() {
    let query = QueryWalletBundle::by_bundle("single-hash");
    assert_eq!(query.bundle_hashes().len(), 1);
    assert_eq!(query.bundle_hashes()[0], "single-hash");

    let hashes = vec!["hash1".to_string(), "hash2".to_string()];
    let query = QueryWalletBundle::by_bundles(hashes.clone());
    assert_eq!(query.bundle_hashes(), hashes.as_slice());

    let slice = ["hash1", "hash2"];
    let query = QueryWalletBundle::from_slice(&slice);
    assert_eq!(query.bundle_hashes().len(), 2);
    assert_eq!(query.bundle_hashes()[0], "hash1");
    assert_eq!(query.bundle_hashes()[1], "hash2");
}

#[test]
fn wallet_bundle_test_compiled_variables() {
    let hashes = vec!["hash1".to_string(), "hash2".to_string()];
    let query = QueryWalletBundle::with_bundle_hashes(hashes.clone());
    let variables = query.compiled_variables(None).unwrap();

    assert_eq!(variables.get("bundleHashes"), Some(&jarr(&["hash1", "hash2"])));
}

#[test]
fn wallet_bundle_test_compiled_variables_with_provided() {
    let query = QueryWalletBundle::new();
    let provided_vars = jobj(vec![("bundleHashes", jarr(&["provided-hash1", "provided-hash2"]))]);
    let variables = query.compiled_variables(Some(provided_vars)).unwrap();

    assert_eq!(variables.get("bundleHashes"), Some(&jarr(&["provided-hash1", "provided-hash2"])));
}

#[test]
fn wallet_bundle_test_query_string() {
    let query = QueryWalletBundle::new();
    let query_string = query.get_query();

    assert!(query_string.contains("WalletBundle( bundleHashes: $bundleHashes )"));
    assert!(query_string.contains("bundleHash"));
    assert!(query_string.contains("metas"));
    assert!(query_string.contains("molecularHash"));
    assert!(query_string.contains("position"));
    assert!(query_string.contains("key"));
    assert!(query_string.contains("value"));
    assert!(query_string.contains("createdAt"));
}

// ---- wallet list ----

#[test]
fn test_query_wallet_list_creation() {
    let query = QueryWalletList::new();
    assert!(query.bundle_hash().is_none());
    assert!(query.token_slug().is_none());
}

#[test]
fn test_query_wallet_list_with_parameters() {
    let query = QueryWalletList::new().with_bundle_hash("test-bundle").with_token_slug("KNISH");

    assert_eq!(query.bundle_hash(), Some("test-bundle"));
    assert_eq!(query.token_slug(), Some("KNISH"));
}

#[test]
fn test_with_filters() {
    let query = QueryWalletList::new().with_filters("test-bundle", "KNISH");
    assert_eq!(query.bundle_hash(), Some("test-bundle"));
    assert_eq!(query.token_slug(), Some("KNISH"));
}

#[test]
fn wallet_list_test_convenience_methods() {
    let query = QueryWalletList::by_bundle_hash("test-bundle");
    assert_eq!(query.bundle_hash(), Some("test-bundle"));
    assert!(query.token_slug().is_none());

    let query = QueryWalletList::by_token_slug("KNISH");
    assert!(query.bundle_hash().is_none());
    assert_eq!(query.token_slug(), Some("KNISH"));

    let query = QueryWalletList::by_bundle_and_token("test-bundle", "KNISH");
    assert_eq!(query.bundle_hash(), Some("test-bundle"));
    assert_eq!(query.token_slug(), Some("KNISH"));

    let query = QueryWalletList::all();
    assert!(query.bundle_hash().is_none());
    assert!(query.token_slug().is_none());
}

#[test]
fn wallet_list_test_compiled_variables() {
    let query = QueryWalletList::new().with_bundle_hash("test-bundle").with_token_slug("KNISH");

    let variables = query.compiled_variables(None).unwrap();
    assert_eq!(variables.get("bundleHash"), Some(&jstr("test-bundle")));
    assert_eq!(variables.get("tokenSlug"), Some(&jstr("KNISH")));
}

#[test]
fn wallet_list_test_compiled_variables_partial() {
    let query = QueryWalletList::new().with_bundle_hash("test-bundle");
    let variables = query.compiled_variables(None).unwrap();

    assert_eq!(variables.get("bundleHash"), Some(&jstr("test-bundle")));
    assert!(is_object(&variables));
    assert!(variables.get("tokenSlug").is_none());

    let query = QueryWalletList::new().with_token_slug("KNISH");
    let variables = query.compiled_variables(None).unwrap();

    assert!(variables.get("bundleHash").is_none());
    assert_eq!(variables.get("tokenSlug"), Some(&jstr("KNISH")));
}

#[test]
fn wallet_list_test_compiled_variables_empty() {
    let query = QueryWalletList::new();
    let variables = query.compiled_variables(None).unwrap();

    assert!(is_object(&variables));
    assert!(variables.get("bundleHash").is_none());
    assert!(variables.get("tokenSlug").is_none());
}

#[test]
fn wallet_list_test_query_string() {
    let query = QueryWalletList::new();
    let query_string = query.get_query();

    assert!(query_string.contains("Wallet( bundleHash: $bundleHash, tokenSlug: $tokenSlug )"));
    assert!(query_string.contains("address"));
    assert!(query_string.contains("bundleHash"));
    assert!(query_string.contains("token"));
    assert!(query_string.contains("tokenSlug"));
    assert!(query_string.contains("batchId"));
    assert!(query_string.contains("position"));
    assert!(query_string.contains("amount"));
    assert!(query_string.contains("characters"));
    assert!(query_string.contains("pubkey"));
    assert!(query_string.contains("createdAt"));
    assert!(query_string.contains("tokenUnits"));
    assert!(query_string.contains("tradeRates"));

    assert!(query_string.contains("name"));
    assert!(query_string.contains("fungibility"));
    assert!(query_string.contains("supply"));
    assert!(query_string.contains("metas"));
}

// ---- meta type ----

#[test]
fn test_query_meta_type_creation() {
    let query = QueryMetaType::new();
    assert!(query.meta_type.is_none());
    assert!(query.meta_id.is_none());
    assert!(query.latest.is_none());
}

#[test]
fn test_query_meta_type_with_single_values() {
    let query = QueryMetaType::new()
        .with_meta_type("user")
        .with_meta_id("123")
        .with_key("name")
        .with_value("John");

    assert!(matches!(query.meta_type, Some(MetaTypeValue::Single(_))));
    assert!(matches!(query.meta_id, Some(MetaIdValue::Single(_))));
    assert!(matches!(query.key, Some(KeyValue::Single(_))));
    assert!(matches!(query.value, Some(ValueValue::Single(_))));
}

#[test]
fn test_query_meta_type_with_multiple_values() {
    let meta_types = vec!["user".to_string(), "admin".to_string()];
    let meta_ids = vec!["123".to_string(), "456".to_string()];

    let query = QueryMetaType::new().with_meta_types(meta_types.clone()).with_meta_ids(meta_ids.clone());

    assert!(matches!(query.meta_type, Some(MetaTypeValue::Multiple(_))));
    assert!(matches!(query.meta_id, Some(MetaIdValue::Multiple(_))));
}

#[test]
fn meta_type_test_create_variables_single_values() {
    let params = QueryMetaTypeParams {
        meta_type: Some(MetaTypeValue::Single("user".to_string())),
        meta_id: Some(MetaIdValue::Single("123".to_string())),
        latest: Some(true),
        ..Default::default()
    };

    let variables = QueryMetaType::create_variables(params);
    assert_eq!(variables.get("metaType"), Some(&jstr("user")));
    assert_eq!(variables.get("metaId"), Some(&jstr("123")));
    assert_eq!(variables.get("latest"), Some(&JsonValue::Bool(true)));
}

#[test]
fn meta_type_test_create_variables_multiple_values() {
    let params = QueryMetaTypeParams {
        meta_type: Some(MetaTypeValue::Multiple(vec!["user".to_string(), "admin".to_string()])),
        meta_id: Some(MetaIdValue::Multiple(vec!["123".to_string(), "456".to_string()])),
        ..Default::default()
    };

    let variables = QueryMetaType::create_variables(params);
    assert_eq!(variables.get("metaTypes"), Some(&jarr(&["user", "admin"])));
    assert_eq!(variables.get("metaIds"), Some(&jarr(&["123", "456"])));
}

#[test]
fn meta_type_test_create_variables_with_limit_zero() {
    let params = QueryMetaTypeParams {
        query_args: Some(jobj(vec![("limit", JsonValue::Number(0))])),
        ..Default::default()
    };

    let variables = QueryMetaType::create_variables(params);
    let args = variables.get("queryArgs").unwrap();
    assert_eq!(args.get("limit"), Some(&jstr("*")));
}

#[test]
fn meta_type_test_convenience_methods() {
    let query = QueryMetaType::by_meta_type("user");
    assert!(matches!(query.meta_type, Some(MetaTypeValue::Single(_))));

    let query = QueryMetaType::by_meta_types(vec!["user".to_string(), "admin".to_string()]);
    assert!(matches!(query.meta_type, Some(MetaTypeValue::Multiple(_))));

    let query = QueryMetaType::latest();
    assert_eq!(query.latest, Some(true));

    let query = QueryMetaType::paginated(2, 10);
    assert!(query.query_args.is_some());
}

#[test]
fn meta_type_test_query_string() {
    let query = QueryMetaType::new();
    let query_string = query.get_query();

    assert!(query_string.contains("MetaType("));
    assert!(query_string.contains("metaType: $metaType"));
    assert!(query_string.contains("metaTypes: $metaTypes"));
    assert!(query_string.contains("instanceCount"));
    assert!(query_string.contains("instances"));
    assert!(query_string.contains("metas(latest:$latest)"));
    assert!(query_string.contains("paginatorInfo"));
}

#[test]
fn meta_type_variables_default_latest_false_and_keep_nonzero_limit() {
    let query = QueryMetaType::paginated(2, 10).with_key("k");
    let variables = query.compiled_variables(None).unwrap();
    assert_eq!(variables.get("latest"), Some(&JsonValue::Bool(false)));
    assert_eq!(variables.get("key"), Some(&jstr("k")));
    let args = variables.get("queryArgs").unwrap();
    assert_eq!(args.get("page"), Some(&JsonValue::Number(2)));
    assert_eq!(args.get("limit"), Some(&JsonValue::Number(10)));
}

#[test]
fn test_query_atom_creation() {
    let query = QueryAtom::new();
    assert!(query.molecular_hashes.is_empty());
    assert!(query.latest.is_none());
}

#[test]
fn test_query_atom_builder_pattern() {
    let query = QueryAtom::new().add_molecular_hash("hash1").add_token_slug("KNISH").with_latest(true);
    assert_eq!(query.molecular_hashes.len(), 1);
    assert_eq!(query.token_slugs.len(), 1);
    assert_eq!(query.latest, Some(true));
}

#[test]
fn atom_test_convenience_methods() {
    let query = QueryAtom::by_molecular_hash("test-hash");
    assert_eq!(query.molecular_hashes.len(), 1);
    assert_eq!(query.molecular_hashes[0], "test-hash");

    let query = QueryAtom::by_token_slug("KNISH");
    assert_eq!(query.token_slugs.len(), 1);
    assert_eq!(query.token_slugs[0], "KNISH");

    let query = QueryAtom::latest();
    assert_eq!(query.latest, Some(true));
}

#[test]
fn atom_test_compiled_variables() {
    let query = QueryAtom::new().add_molecular_hash("hash1").add_token_slug("KNISH").with_latest(true);
    let variables = query.compiled_variables(None).unwrap();
    assert_eq!(variables.get("molecularHashes"), Some(&jarr(&["hash1"])));
    assert_eq!(variables.get("tokenSlugs"), Some(&jarr(&["KNISH"])));
    assert_eq!(variables.get("latest"), Some(&JsonValue::Bool(true)));
}

#[test]
fn atom_test_query_string() {
    let query = QueryAtom::new();
    let query_string = query.get_query();
    assert!(query_string.contains("Atom("));
    assert!(query_string.contains("molecularHashes"));
    assert!(query_string.contains("instances"));
    assert!(query_string.contains("position"));
    assert!(query_string.contains("walletAddress"));
    assert!(query_string.contains("isotope"));
    assert!(query_string.contains("paginatorInfo"));
    assert_eq!(query_string, ATOM_QUERY);
}

#[test]
fn atom_compiled_variables_passes_given_variables_through() {
    let given = jobj(vec![("x", JsonValue::Number(1))]);
    let query = QueryAtom::by_isotope("V");
    assert_eq!(query.compiled_variables(Some(given.clone())), Some(given));
}

#[test]
fn atom_empty_query_sends_empty_object() {
    assert_eq!(QueryAtom::new().compiled_variables(None), Some(jobj(vec![])));
}

#[test]
fn atom_create_variables_merges_hashes() {
    let params = QueryAtomParams {
        molecular_hashes: Some(vec!["a".to_string()]),
        molecular_hash: Some("b".to_string()),
        latest: Some(false),
        ..QueryAtomParams::default()
    };
    let vars = QueryAtom::create_variables(params);
    assert_eq!(
        vars,
        jobj(vec![("molecularHashes", jarr(&["a", "b"])), ("latest", JsonValue::Bool(false))])
    );
}

#[test]
fn atom_create_variables_ignores_other_fields_and_empty_lists() {
    let params = QueryAtomParams {
        molecular_hashes: Some(vec![]),
        token_slug: Some("KNISH".to_string()),
        query_args: Some(jobj(vec![("limit", JsonValue::Number(5))])),
        ..QueryAtomParams::default()
    };
    let vars = QueryAtom::create_variables(params);
    assert_eq!(vars, jobj(vec![("queryArgs", jobj(vec![("limit", JsonValue::Number(5))]))]));
    assert_eq!(QueryAtom::create_variables(QueryAtomParams::default()), jobj(vec![]));
}

#[test]
fn test_query_meta_type_via_atom_creation() {
    let query = QueryMetaTypeViaAtom::new();
    assert!(query.meta_types.is_empty());
    assert!(query.meta_ids.is_empty());
    assert!(query.atom_values.is_empty());
    assert!(query.latest.is_none());
}

#[test]
fn test_query_meta_type_via_atom_with_values() {
    let query = QueryMetaTypeViaAtom::new()
        .add_meta_type("user")
        .add_meta_id("123")
        .add_atom_value("test-value")
        .with_latest(true);
    assert_eq!(query.meta_types.len(), 1);
    assert_eq!(query.meta_ids.len(), 1);
    assert_eq!(query.atom_values.len(), 1);
    assert_eq!(query.latest, Some(true));
}

#[test]
fn meta_type_via_atom_test_create_variables_single_values() {
    let params = QueryMetaTypeViaAtomParams {
        meta_type: Some("user".to_string()),
        meta_id: Some("123".to_string()),
        key: Some("name".to_string()),
        value: Some("John".to_string()),
        latest: Some(true),
        ..Default::default()
    };
    let variables = QueryMetaTypeViaAtom::create_variables(params);
    assert_eq!(variables.get("metaTypes"), Some(&jarr(&["user"])));
    assert_eq!(variables.get("metaIds"), Some(&jarr(&["123"])));
    assert_eq!(variables.get("latest"), Some(&JsonValue::Bool(true)));
    let filter = match variables.get("filter") {
        Some(JsonValue::Array(items)) => items.clone(),
        other => panic!("filter is not an array: {:?}", other),
    };
    assert_eq!(filter.len(), 1);
    assert_eq!(filter[0].get("key"), Some(&jstr("name")));
    assert_eq!(filter[0].get("value"), Some(&jstr("John")));
    assert_eq!(filter[0].get("comparison"), Some(&jstr("=")));
}

#[test]
fn meta_type_via_atom_test_create_variables_multiple_values() {
    let params = QueryMetaTypeViaAtomParams {
        meta_types: vec!["user".to_string(), "admin".to_string()],
        meta_ids: vec!["123".to_string(), "456".to_string()],
        atom_values: vec!["val1".to_string(), "val2".to_string()],
        ..Default::default()
    };
    let variables = QueryMetaTypeViaAtom::create_variables(params);
    assert_eq!(variables.get("metaTypes"), Some(&jarr(&["user", "admin"])));
    assert_eq!(variables.get("metaIds"), Some(&jarr(&["123", "456"])));
    assert_eq!(variables.get("atomValues"), Some(&jarr(&["val1", "val2"])));
}

#[test]
fn meta_type_via_atom_test_create_variables_with_limit_zero() {
    let params = QueryMetaTypeViaAtomParams {
        query_args: Some(jobj(vec![("limit", JsonValue::Number(0))])),
        ..Default::default()
    };
    let variables = QueryMetaTypeViaAtom::create_variables(params);
    let args = variables.get("queryArgs").unwrap();
    assert_eq!(args.get("limit"), Some(&jstr("*")));
}

#[test]
fn meta_type_via_atom_test_convenience_methods() {
    let query = QueryMetaTypeViaAtom::by_meta_type("user");
    assert_eq!(query.meta_types.len(), 1);
    assert_eq!(query.meta_types[0], "user");

    let query = QueryMetaTypeViaAtom::by_atom_values(vec!["val1".to_string(), "val2".to_string()]);
    assert_eq!(query.atom_values.len(), 2);

    let query = QueryMetaTypeViaAtom::latest();
    assert_eq!(query.latest, Some(true));

    let query = QueryMetaTypeViaAtom::paginated(2, 10);
    assert!(query.query_args.is_some());
}

#[test]
fn meta_type_via_atom_test_query_string() {
    let query = QueryMetaTypeViaAtom::new();
    let query_string = query.get_query();
    assert!(query_string.contains("MetaTypeViaAtom("));
    assert!(query_string.contains("metaTypes: $metaTypes"));
    assert!(query_string.contains("atomValues: $atomValues"));
    assert!(query_string.contains("cellSlugs: $cellSlugs"));
    assert!(query_string.contains("instanceCount"));
    assert!(query_string.contains("instances"));
    assert!(query_string.contains("metas( values: $values, keys: $keys )"));
    assert!(query_string.contains("paginatorInfo"));
    assert_eq!(query_string, META_TYPE_VIA_ATOM_QUERY);
}

#[test]
fn meta_type_via_atom_defaults_send_only_latest_false() {
    let variables = QueryMetaTypeViaAtom::create_variables(QueryMetaTypeViaAtomParams::default());
    assert_eq!(variables, jobj(vec![("latest", JsonValue::Bool(false))]));
}

#[test]
fn meta_type_via_atom_single_value_wins_over_list_and_key_alone_adds_no_filter() {
    let params = QueryMetaTypeViaAtomParams {
        cell_slug: Some("c1".to_string()),
        cell_slugs: vec!["c2".to_string()],
        key: Some("name".to_string()),
        count_by: Some("metaType".to_string()),
        filter: vec![jobj(vec![("key", jstr("k"))])],
        ..Default::default()
    };
    let variables = QueryMetaTypeViaAtom::create_variables(params);
    assert_eq!(
        variables,
        jobj(vec![
            ("cellSlugs", jarr(&["c1"])),
            ("countBy", jstr("metaType")),
            ("filter", JsonValue::Array(vec![jobj(vec![("key", jstr("k"))])])),
            ("latest", JsonValue::Bool(false)),
        ])
    );
}

#[test]
fn meta_type_via_atom_compiled_variables_from_fields() {
    let query = QueryMetaTypeViaAtom::new()
        .add_key("k")
        .add_value("v")
        .with_cell_slugs(vec!["c".to_string()])
        .add_filter(jobj(vec![("key", jstr("a"))]))
        .with_count_by("key");
    let variables = query.compiled_variables(None).unwrap();
    assert_eq!(
        variables,
        jobj(vec![
            ("keys", jarr(&["k"])),
            ("values", jarr(&["v"])),
            ("cellSlugs", jarr(&["c"])),
            ("countBy", jstr("key")),
            ("filter", JsonValue::Array(vec![jobj(vec![("key", jstr("a"))])])),
            ("latest", JsonValue::Bool(false)),
        ])
    );
    let given = jobj(vec![]);
    assert_eq!(query.compiled_variables(Some(given.clone())), Some(given));
}

#[test]
fn meta_type_via_atom_paginated_arguments() {
    let query = QueryMetaTypeViaAtom::paginated(2, 0);
    assert_eq!(
        query.query_args,
        Some(jobj(vec![("page", JsonValue::Number(2)), ("limit", JsonValue::Number(0))]))
    );
    let variables = query.compiled_variables(None).unwrap();
    let args = variables.get("queryArgs").unwrap();
    assert_eq!(args.get("limit"), Some(&jstr("*")));
    assert_eq!(args.get("page"), Some(&JsonValue::Number(2)));
}
