//! The responses to each query and mutation of the node: where their data
//! sits in the answer, when they report success, and what they read from it.

use vstd::prelude::*;
use crate::error::KnishIOError;
use crate::json::{
    Json, JsonValue, array_field, bool_field, clone_items, entries_view, flag_field, items_view, json_get,
    lemma_entries_view, lemma_items_view, opt_json, opt_json_ref, str_field, string_field,
};
use crate::molecule::Molecule;
use crate::response::base::{BaseResponse, DEFAULT_REASON, Response, data_view, rejection};
use crate::keyed::{distinct_keys, find_key, keyed, lemma_distinct_push, lemma_keyed_push, lemma_keyed_update};
use crate::text::{opt_view, str_eq, strings_view};

verus! {

/// The status of an accepted molecule.
pub open spec fn accepted(data: Json) -> bool {
    str_field(data, "status"@) == Some("accepted"@)
}

/// The items of an array, or none for any other value.
pub open spec fn items_or_empty(items: Option<Seq<Json>>) -> Seq<Json> {
    match items {
        Some(s) => s,
        None => Seq::empty(),
    }
}

/// The items under `key` of a value, or none.
fn array_items(data: &JsonValue, key: &str) -> (r: Vec<JsonValue>)
    ensures
        items_view(r@) == items_or_empty(array_field(data@, key@)),
{
    match data.get(key) {
        Some(v) => own_items(v),
        None => {
            let r: Vec<JsonValue> = Vec::new();
            assert(items_view(r@) =~= Seq::<Json>::empty());
            r
        },
    }
}

/// The items of a value that is an array, or none.
fn own_items(data: &JsonValue) -> (r: Vec<JsonValue>)
    ensures
        items_view(r@) == items_or_empty(match data@ {
            Json::Array(items) => Some(items),
            _ => None,
        }),
{
    match data.as_array() {
        Some(a) => clone_items(a),
        None => {
            let r: Vec<JsonValue> = Vec::new();
            assert(items_view(r@) =~= Seq::<Json>::empty());
            r
        },
    }
}

/// Whether a status reads `accepted`.
fn is_accepted(status: Option<String>) -> (r: bool)
    ensures
        r == (opt_view(status) == Some("accepted"@)),
{
    match status {
        Some(s) => str_eq(s.as_str(), "accepted"),
        None => false,
    }
}

/// The response to an active-session query.
#[derive(Debug)]
pub struct ResponseActiveSession {
    base: BaseResponse,
}

impl ResponseActiveSession {
    /// A response to an answer, with its data at `data.ActiveSession`; refused as `rejection` says.
    pub fn new(json: JsonValue, query: Option<JsonValue>) -> (r: Result<Self, KnishIOError>)
        ensures
            match r {
                Ok(t) => rejection(json@) is None && t.raw_answer() == json@
                    && t.view_data() == data_view(json@, Some("data.ActiveSession"@)) && t.query_view() == opt_json(query),
                Err(e) => rejection(json@) == Some(e),
            },
    {
        let base = BaseResponse::with_query(json, query)?;
        Ok(ResponseActiveSession { base: base.with_data_key("data.ActiveSession") })
    }

    /// Whether the session is active; false when absent.
    pub fn active(&self) -> (r: bool)
        ensures
            r == (bool_field(self.view_data(), "active"@) == Some(true)),
    {
        match flag_field(self.base.get_data(), "active") {
            Some(b) => b,
            None => false,
        }
    }

    /// When the session expires.
    pub fn expires_at(&self) -> (r: Option<String>)
        ensures
            opt_view(r) == str_field(self.view_data(), "expiresAt"@),
    {
        string_field(self.base.get_data(), "expiresAt")
    }

    /// The identifier of the session.
    pub fn session_id(&self) -> (r: Option<String>)
        ensures
            opt_view(r) == str_field(self.view_data(), "sessionId"@),
    {
        string_field(self.base.get_data(), "sessionId")
    }
}

impl Response for ResponseActiveSession {
    closed spec fn view_data(&self) -> Json {
        self.base.content()
    }

    closed spec fn raw_answer(&self) -> Json {
        self.base.raw()
    }

    closed spec fn query_view(&self) -> Option<Json> {
        self.base.query_of()
    }

    open spec fn succeeded(&self) -> bool {
        json_get(self.raw_answer(), "exception"@) is None && self.view_data() is Object
    }

    open spec fn payload_view(&self) -> Option<Json> {
        Some(self.view_data())
    }

    open spec fn reason_view(&self) -> Option<Seq<char>> {
        Some(crate::response::base::reason_of(self.view_data()))
    }

    open spec fn status_view(&self) -> Option<Seq<char>> {
        str_field(self.view_data(), "status"@)
    }

    fn data(&self) -> (r: &JsonValue) {
        self.base.get_data()
    }

    fn success(&self) -> (r: bool) {
        self.base.success()
    }

    fn error(&self) -> (r: Option<String>) {
        self.base.error()
    }

    fn get(&self, key: &str) -> (r: Option<&JsonValue>) {
        self.base.get(key)
    }

    fn payload(&self) -> (r: Option<&JsonValue>) {
        self.base.payload()
    }

    fn reason(&self) -> (r: Option<String>) {
        self.base.reason()
    }

    fn status(&self) -> (r: Option<String>) {
        self.base.status()
    }

    fn to_json(&self) -> (r: JsonValue) {
        self.base.to_json()
    }

    fn query(&self) -> (r: Option<&JsonValue>) {
        self.base.query()
    }
}

/// The `metasJson` texts of a list of atom instances, in order; an instance
/// without one adds none.
pub open spec fn instance_metas_texts(items: Seq<Json>) -> Seq<Seq<char>>
    decreases items.len(),
{
    if items.len() == 0 {
        Seq::empty()
    } else {
        let rest = instance_metas_texts(items.drop_last());
        match str_field(items.last(), "metasJson"@) {
            Some(t) => rest.push(t),
            None => rest,
        }
    }
}

/// The response to an atom query.
#[derive(Debug)]
pub struct ResponseAtom {
    base: BaseResponse,
}

impl ResponseAtom {
    /// A response to an answer, with its data at `data.Atom`; refused as `rejection` says.
    pub fn new(json: JsonValue, query: Option<JsonValue>) -> (r: Result<Self, KnishIOError>)
        ensures
            match r {
                Ok(t) => rejection(json@) is None && t.raw_answer() == json@
                    && t.view_data() == data_view(json@, Some("data.Atom"@)) && t.query_view() == opt_json(query),
                Err(e) => rejection(json@) == Some(e),
            },
    {
        let base = BaseResponse::with_query(json, query)?;
        Ok(ResponseAtom { base: base.with_data_key("data.Atom") })
    }

    /// The atoms found; none when absent.
    pub fn instances(&self) -> (r: Vec<JsonValue>)
        ensures
            items_view(r@) == items_or_empty(array_field(self.view_data(), "instances"@)),
    {
        array_items(self.base.get_data(), "instances")
    }

    /// The metadata of the instances as the node sends it, JSON text under
    /// `metasJson`, in order; an instance without it adds none.
    pub fn metas_texts(&self) -> (r: Vec<String>)
        ensures
            strings_view(r@) == instance_metas_texts(items_or_empty(array_field(self.view_data(), "instances"@))),
    {
        let instances = self.instances();
        let ghost items = items_view(instances@);
        proof {
            lemma_items_view(instances@);
        }
        let mut r: Vec<String> = Vec::new();
        let mut i: usize = 0;
        while i < instances.len()
            invariant
                i <= instances@.len(),
                items == items_view(instances@),
                items.len() == instances@.len(),
                forall|k: int| 0 <= k < instances@.len() ==> #[trigger] items[k] == instances@[k]@,
                strings_view(r@) == instance_metas_texts(items.take(i as int)),
            decreases instances@.len() - i,
        {
            let t = string_field(&instances[i], "metasJson");
            assert(items.take(i + 1).drop_last() =~= items.take(i as int));
            assert(items.take(i + 1).last() == instances@[i as int]@);
            match t {
                Some(s) => {
                    r.push(s);
                },
                None => {},
            }
            assert(strings_view(r@) =~= instance_metas_texts(items.take(i + 1)));
            i = i + 1;
        }
        assert(items.take(instances@.len() as int) =~= items);
        r
    }
}

impl Response for ResponseAtom {
    closed spec fn view_data(&self) -> Json {
        self.base.content()
    }

    closed spec fn raw_answer(&self) -> Json {
        self.base.raw()
    }

    closed spec fn query_view(&self) -> Option<Json> {
        self.base.query_of()
    }

    open spec fn succeeded(&self) -> bool {
        json_get(self.raw_answer(), "exception"@) is None && self.view_data() is Object
    }

    open spec fn payload_view(&self) -> Option<Json> {
        Some(self.view_data())
    }

    open spec fn reason_view(&self) -> Option<Seq<char>> {
        Some(crate::response::base::reason_of(self.view_data()))
    }

    open spec fn status_view(&self) -> Option<Seq<char>> {
        str_field(self.view_data(), "status"@)
    }

    fn data(&self) -> (r: &JsonValue) {
        self.base.get_data()
    }

    fn success(&self) -> (r: bool) {
        self.base.success()
    }

    fn error(&self) -> (r: Option<String>) {
        self.base.error()
    }

    fn get(&self, key: &str) -> (r: Option<&JsonValue>) {
        self.base.get(key)
    }

    fn payload(&self) -> (r: Option<&JsonValue>) {
        self.base.payload()
    }

    fn reason(&self) -> (r: Option<String>) {
        self.base.reason()
    }

    fn status(&self) -> (r: Option<String>) {
        self.base.status()
    }

    fn to_json(&self) -> (r: JsonValue) {
        self.base.to_json()
    }

    fn query(&self) -> (r: Option<&JsonValue>) {
        self.base.query()
    }
}

/// The response to a guest authorization.
#[derive(Debug)]
pub struct ResponseAuthorizationGuest {
    base: BaseResponse,
}

impl ResponseAuthorizationGuest {
    /// A response to an answer, with its data at `data.AuthorizeGuest`; refused as `rejection` says.
    pub fn new(json: JsonValue, query: Option<JsonValue>) -> (r: Result<Self, KnishIOError>)
        ensures
            match r {
                Ok(t) => rejection(json@) is None && t.raw_answer() == json@
                    && t.view_data() == data_view(json@, Some("data.AuthorizeGuest"@)) && t.query_view() == opt_json(query),
                Err(e) => rejection(json@) == Some(e),
            },
    {
        let base = BaseResponse::with_query(json, query)?;
        Ok(ResponseAuthorizationGuest { base: base.with_data_key("data.AuthorizeGuest") })
    }

    /// The wallet of the guest.
    pub fn wallet(&self) -> (r: Option<String>)
        ensures
            opt_view(r) == str_field(self.view_data(), "wallet"@),
    {
        string_field(self.base.get_data(), "wallet")
    }
}

impl Response for ResponseAuthorizationGuest {
    closed spec fn view_data(&self) -> Json {
        self.base.content()
    }

    closed spec fn raw_answer(&self) -> Json {
        self.base.raw()
    }

    closed spec fn query_view(&self) -> Option<Json> {
        self.base.query_of()
    }

    open spec fn succeeded(&self) -> bool {
        str_field(self.view_data(), "wallet"@) is Some
    }

    open spec fn payload_view(&self) -> Option<Json> {
        Some(self.view_data())
    }

    open spec fn reason_view(&self) -> Option<Seq<char>> {
        Some(crate::response::base::reason_of(self.view_data()))
    }

    open spec fn status_view(&self) -> Option<Seq<char>> {
        str_field(self.view_data(), "status"@)
    }

    fn data(&self) -> (r: &JsonValue) {
        self.base.get_data()
    }

    fn success(&self) -> (r: bool) {
        self.wallet().is_some()
    }

    fn error(&self) -> (r: Option<String>) {
        self.base.error()
    }

    fn get(&self, key: &str) -> (r: Option<&JsonValue>) {
        self.base.get(key)
    }

    fn payload(&self) -> (r: Option<&JsonValue>) {
        self.base.payload()
    }

    fn reason(&self) -> (r: Option<String>) {
        self.base.reason()
    }

    fn status(&self) -> (r: Option<String>) {
        self.base.status()
    }

    fn to_json(&self) -> (r: JsonValue) {
        self.base.to_json()
    }

    fn query(&self) -> (r: Option<&JsonValue>) {
        self.base.query()
    }
}

/// The response to a balance query.
#[derive(Debug)]
pub struct ResponseBalance {
    base: BaseResponse,
}

impl ResponseBalance {
    /// A response to an answer, with its data at `data.Balance`; refused as `rejection` says.
    pub fn new(json: JsonValue, query: Option<JsonValue>) -> (r: Result<Self, KnishIOError>)
        ensures
            match r {
                Ok(t) => rejection(json@) is None && t.raw_answer() == json@
                    && t.view_data() == data_view(json@, Some("data.Balance"@)) && t.query_view() == opt_json(query),
                Err(e) => rejection(json@) == Some(e),
            },
    {
        let base = BaseResponse::with_query(json, query)?;
        Ok(ResponseBalance { base: base.with_data_key("data.Balance") })
    }

    /// The wallet data: the data itself.
    pub fn wallet_data(&self) -> (r: Option<&JsonValue>)
        ensures
            r matches Some(d) && d@ == self.view_data(),
    {
        Some(self.base.get_data())
    }
}

impl Response for ResponseBalance {
    closed spec fn view_data(&self) -> Json {
        self.base.content()
    }

    closed spec fn raw_answer(&self) -> Json {
        self.base.raw()
    }

    closed spec fn query_view(&self) -> Option<Json> {
        self.base.query_of()
    }

    open spec fn succeeded(&self) -> bool {
        json_get(self.raw_answer(), "exception"@) is None && self.view_data() is Object
    }

    open spec fn payload_view(&self) -> Option<Json> {
        Some(self.view_data())
    }

    open spec fn reason_view(&self) -> Option<Seq<char>> {
        Some(crate::response::base::reason_of(self.view_data()))
    }

    open spec fn status_view(&self) -> Option<Seq<char>> {
        str_field(self.view_data(), "status"@)
    }

    fn data(&self) -> (r: &JsonValue) {
        self.base.get_data()
    }

    fn success(&self) -> (r: bool) {
        self.base.success()
    }

    fn error(&self) -> (r: Option<String>) {
        self.base.error()
    }

    fn get(&self, key: &str) -> (r: Option<&JsonValue>) {
        self.base.get(key)
    }

    fn payload(&self) -> (r: Option<&JsonValue>) {
        self.wallet_data()
    }

    fn reason(&self) -> (r: Option<String>) {
        self.base.reason()
    }

    fn status(&self) -> (r: Option<String>) {
        self.base.status()
    }

    fn to_json(&self) -> (r: JsonValue) {
        self.base.to_json()
    }

    fn query(&self) -> (r: Option<&JsonValue>) {
        self.base.query()
    }
}

/// The response to the claim of a shadow wallet.
#[derive(Debug)]
pub struct ResponseClaimShadowWallet {
    base: BaseResponse,
}

impl ResponseClaimShadowWallet {
    /// A response to an answer, with its data at `data.ProposeMolecule`; refused as `rejection` says.
    pub fn new(json: JsonValue, query: Option<JsonValue>) -> (r: Result<Self, KnishIOError>)
        ensures
            match r {
                Ok(t) => rejection(json@) is None && t.raw_answer() == json@
                    && t.view_data() == data_view(json@, Some("data.ProposeMolecule"@)) && t.query_view() == opt_json(query),
                Err(e) => rejection(json@) == Some(e),
            },
    {
        let base = BaseResponse::with_query(json, query)?;
        Ok(ResponseClaimShadowWallet { base: base.with_data_key("data.ProposeMolecule") })
    }

    /// The hash of the molecule.
    pub fn molecular_hash(&self) -> (r: Option<String>)
        ensures
            opt_view(r) == str_field(self.view_data(), "molecularHash"@),
    {
        string_field(self.base.get_data(), "molecularHash")
    }

    /// The status of the molecule.
    pub fn status(&self) -> (r: Option<String>)
        ensures
            opt_view(r) == str_field(self.view_data(), "status"@),
    {
        string_field(self.base.get_data(), "status")
    }
}

impl Response for ResponseClaimShadowWallet {
    closed spec fn view_data(&self) -> Json {
        self.base.content()
    }

    closed spec fn raw_answer(&self) -> Json {
        self.base.raw()
    }

    closed spec fn query_view(&self) -> Option<Json> {
        self.base.query_of()
    }

    open spec fn succeeded(&self) -> bool {
        json_get(self.raw_answer(), "exception"@) is None && self.view_data() is Object && accepted(self.view_data())
    }

    open spec fn payload_view(&self) -> Option<Json> {
        Some(self.view_data())
    }

    open spec fn reason_view(&self) -> Option<Seq<char>> {
        Some(crate::response::base::reason_of(self.view_data()))
    }

    open spec fn status_view(&self) -> Option<Seq<char>> {
        str_field(self.view_data(), "status"@)
    }

    fn data(&self) -> (r: &JsonValue) {
        self.base.get_data()
    }

    fn success(&self) -> (r: bool) {
        self.base.success() && is_accepted(string_field(self.base.get_data(), "status"))
    }

    fn error(&self) -> (r: Option<String>) {
        self.base.error()
    }

    fn get(&self, key: &str) -> (r: Option<&JsonValue>) {
        self.base.get(key)
    }

    fn payload(&self) -> (r: Option<&JsonValue>) {
        self.base.payload()
    }

    fn reason(&self) -> (r: Option<String>) {
        self.base.reason()
    }

    fn status(&self) -> (r: Option<String>) {
        self.base.status()
    }

    fn to_json(&self) -> (r: JsonValue) {
        self.base.to_json()
    }

    fn query(&self) -> (r: Option<&JsonValue>) {
        self.base.query()
    }
}

/// The response to the creation of an identifier.
#[derive(Debug)]
pub struct ResponseCreateIdentifier {
    base: BaseResponse,
}

impl ResponseCreateIdentifier {
    /// A response to an answer, with its data at `data.ProposeMolecule`; refused as `rejection` says.
    pub fn new(json: JsonValue, query: Option<JsonValue>) -> (r: Result<Self, KnishIOError>)
        ensures
            match r {
                Ok(t) => rejection(json@) is None && t.raw_answer() == json@
                    && t.view_data() == data_view(json@, Some("data.ProposeMolecule"@)) && t.query_view() == opt_json(query),
                Err(e) => rejection(json@) == Some(e),
            },
    {
        let base = BaseResponse::with_query(json, query)?;
        Ok(ResponseCreateIdentifier { base: base.with_data_key("data.ProposeMolecule") })
    }

    /// The hash of the molecule.
    pub fn molecular_hash(&self) -> (r: Option<String>)
        ensures
            opt_view(r) == str_field(self.view_data(), "molecularHash"@),
    {
        string_field(self.base.get_data(), "molecularHash")
    }

    /// The status of the molecule.
    pub fn status(&self) -> (r: Option<String>)
        ensures
            opt_view(r) == str_field(self.view_data(), "status"@),
    {
        string_field(self.base.get_data(), "status")
    }
}

impl Response for ResponseCreateIdentifier {
    closed spec fn view_data(&self) -> Json {
        self.base.content()
    }

    closed spec fn raw_answer(&self) -> Json {
        self.base.raw()
    }

    closed spec fn query_view(&self) -> Option<Json> {
        self.base.query_of()
    }

    open spec fn succeeded(&self) -> bool {
        json_get(self.raw_answer(), "exception"@) is None && self.view_data() is Object && accepted(self.view_data())
    }

    open spec fn payload_view(&self) -> Option<Json> {
        Some(self.view_data())
    }

    open spec fn reason_view(&self) -> Option<Seq<char>> {
        Some(crate::response::base::reason_of(self.view_data()))
    }

    open spec fn status_view(&self) -> Option<Seq<char>> {
        str_field(self.view_data(), "status"@)
    }

    fn data(&self) -> (r: &JsonValue) {
        self.base.get_data()
    }

    fn success(&self) -> (r: bool) {
        self.base.success() && is_accepted(string_field(self.base.get_data(), "status"))
    }

    fn error(&self) -> (r: Option<String>) {
        self.base.error()
    }

    fn get(&self, key: &str) -> (r: Option<&JsonValue>) {
        self.base.get(key)
    }

    fn payload(&self) -> (r: Option<&JsonValue>) {
        self.base.payload()
    }

    fn reason(&self) -> (r: Option<String>) {
        self.base.reason()
    }

    fn status(&self) -> (r: Option<String>) {
        self.base.status()
    }

    fn to_json(&self) -> (r: JsonValue) {
        self.base.to_json()
    }

    fn query(&self) -> (r: Option<&JsonValue>) {
        self.base.query()
    }
}

/// The response to a ContinuID query.
#[derive(Debug)]
pub struct ResponseContinuId {
    base: BaseResponse,
}

impl ResponseContinuId {
    /// A response to an answer, with its data at `data.ContinuId`; refused as `rejection` says.
    pub fn new(json: JsonValue, query: Option<JsonValue>) -> (r: Result<Self, KnishIOError>)
        ensures
            match r {
                Ok(t) => rejection(json@) is None && t.raw_answer() == json@
                    && t.view_data() == data_view(json@, Some("data.ContinuId"@)) && t.query_view() == opt_json(query),
                Err(e) => rejection(json@) == Some(e),
            },
    {
        let base = BaseResponse::with_query(json, query)?;
        Ok(ResponseContinuId { base: base.with_data_key("data.ContinuId") })
    }

    /// The bundle hash of the wallet.
    pub fn bundle_hash(&self) -> (r: Option<String>)
        ensures
            opt_view(r) == str_field(self.view_data(), "bundleHash"@),
    {
        string_field(self.base.get_data(), "bundleHash")
    }

    /// The position of the wallet.
    pub fn position(&self) -> (r: Option<String>)
        ensures
            opt_view(r) == str_field(self.view_data(), "position"@),
    {
        string_field(self.base.get_data(), "position")
    }
}

impl Response for ResponseContinuId {
    closed spec fn view_data(&self) -> Json {
        self.base.content()
    }

    closed spec fn raw_answer(&self) -> Json {
        self.base.raw()
    }

    closed spec fn query_view(&self) -> Option<Json> {
        self.base.query_of()
    }

    open spec fn succeeded(&self) -> bool {
        json_get(self.raw_answer(), "exception"@) is None && self.view_data() is Object
    }

    open spec fn payload_view(&self) -> Option<Json> {
        Some(self.view_data())
    }

    open spec fn reason_view(&self) -> Option<Seq<char>> {
        Some(crate::response::base::reason_of(self.view_data()))
    }

    open spec fn status_view(&self) -> Option<Seq<char>> {
        str_field(self.view_data(), "status"@)
    }

    fn data(&self) -> (r: &JsonValue) {
        self.base.get_data()
    }

    fn success(&self) -> (r: bool) {
        self.base.success()
    }

    fn error(&self) -> (r: Option<String>) {
        self.base.error()
    }

    fn get(&self, key: &str) -> (r: Option<&JsonValue>) {
        self.base.get(key)
    }

    fn payload(&self) -> (r: Option<&JsonValue>) {
        self.base.payload()
    }

    fn reason(&self) -> (r: Option<String>) {
        self.base.reason()
    }

    fn status(&self) -> (r: Option<String>) {
        self.base.status()
    }

    fn to_json(&self) -> (r: JsonValue) {
        self.base.to_json()
    }

    fn query(&self) -> (r: Option<&JsonValue>) {
        self.base.query()
    }
}

/// The response to the creation of meta data.
#[derive(Debug)]
pub struct ResponseCreateMeta {
    base: BaseResponse,
}

impl ResponseCreateMeta {
    /// A response to an answer that passes the checks, with its data at `data.ProposeMolecule`.
    pub fn new(json: JsonValue) -> (r: Self)
        requires
            rejection(json@) is None,
        ensures
            r.raw_answer() == json@,
            r.view_data() == data_view(json@, Some("data.ProposeMolecule"@)),
            r.query_view() is None,
    {
        ResponseCreateMeta { base: BaseResponse::accepted(json).with_data_key("data.ProposeMolecule") }
    }

    /// The hash of the molecule.
    pub fn molecular_hash(&self) -> (r: Option<String>)
        ensures
            opt_view(r) == str_field(self.view_data(), "molecularHash"@),
    {
        string_field(self.base.get_data(), "molecularHash")
    }

    /// The status of the molecule.
    pub fn status(&self) -> (r: Option<String>)
        ensures
            opt_view(r) == str_field(self.view_data(), "status"@),
    {
        string_field(self.base.get_data(), "status")
    }
}

impl Response for ResponseCreateMeta {
    closed spec fn view_data(&self) -> Json {
        self.base.content()
    }

    closed spec fn raw_answer(&self) -> Json {
        self.base.raw()
    }

    closed spec fn query_view(&self) -> Option<Json> {
        self.base.query_of()
    }

    open spec fn succeeded(&self) -> bool {
        json_get(self.raw_answer(), "exception"@) is None && self.view_data() is Object && accepted(self.view_data())
    }

    open spec fn payload_view(&self) -> Option<Json> {
        Some(self.view_data())
    }

    open spec fn reason_view(&self) -> Option<Seq<char>> {
        Some(crate::response::base::reason_of(self.view_data()))
    }

    open spec fn status_view(&self) -> Option<Seq<char>> {
        str_field(self.view_data(), "status"@)
    }

    fn data(&self) -> (r: &JsonValue) {
        self.base.get_data()
    }

    fn success(&self) -> (r: bool) {
        self.base.success() && is_accepted(string_field(self.base.get_data(), "status"))
    }

    fn error(&self) -> (r: Option<String>) {
        self.base.error()
    }

    fn get(&self, key: &str) -> (r: Option<&JsonValue>) {
        self.base.get(key)
    }

    fn payload(&self) -> (r: Option<&JsonValue>) {
        self.base.payload()
    }

    fn reason(&self) -> (r: Option<String>) {
        self.base.reason()
    }

    fn status(&self) -> (r: Option<String>) {
        self.base.status()
    }

    fn to_json(&self) -> (r: JsonValue) {
        self.base.to_json()
    }

    fn query(&self) -> (r: Option<&JsonValue>) {
        self.base.query()
    }
}

/// The response to the creation of a rule.
#[derive(Debug)]
pub struct ResponseCreateRule {
    base: BaseResponse,
}

impl ResponseCreateRule {
    /// A response to an answer that passes the checks, with its data at `data.ProposeMolecule`.
    pub fn new(json: JsonValue) -> (r: Self)
        requires
            rejection(json@) is None,
        ensures
            r.raw_answer() == json@,
            r.view_data() == data_view(json@, Some("data.ProposeMolecule"@)),
            r.query_view() is None,
    {
        ResponseCreateRule { base: BaseResponse::accepted(json).with_data_key("data.ProposeMolecule") }
    }

    /// The hash of the molecule.
    pub fn molecular_hash(&self) -> (r: Option<String>)
        ensures
            opt_view(r) == str_field(self.view_data(), "molecularHash"@),
    {
        string_field(self.base.get_data(), "molecularHash")
    }

    /// The status of the molecule.
    pub fn status(&self) -> (r: Option<String>)
        ensures
            opt_view(r) == str_field(self.view_data(), "status"@),
    {
        string_field(self.base.get_data(), "status")
    }
}

impl Response for ResponseCreateRule {
    closed spec fn view_data(&self) -> Json {
        self.base.content()
    }

    closed spec fn raw_answer(&self) -> Json {
        self.base.raw()
    }

    closed spec fn query_view(&self) -> Option<Json> {
        self.base.query_of()
    }

    open spec fn succeeded(&self) -> bool {
        json_get(self.raw_answer(), "exception"@) is None && self.view_data() is Object && accepted(self.view_data())
    }

    open spec fn payload_view(&self) -> Option<Json> {
        Some(self.view_data())
    }

    open spec fn reason_view(&self) -> Option<Seq<char>> {
        Some(crate::response::base::reason_of(self.view_data()))
    }

    open spec fn status_view(&self) -> Option<Seq<char>> {
        str_field(self.view_data(), "status"@)
    }

    fn data(&self) -> (r: &JsonValue) {
        self.base.get_data()
    }

    fn success(&self) -> (r: bool) {
        self.base.success() && is_accepted(string_field(self.base.get_data(), "status"))
    }

    fn error(&self) -> (r: Option<String>) {
        self.base.error()
    }

    fn get(&self, key: &str) -> (r: Option<&JsonValue>) {
        self.base.get(key)
    }

    fn payload(&self) -> (r: Option<&JsonValue>) {
        self.base.payload()
    }

    fn reason(&self) -> (r: Option<String>) {
        self.base.reason()
    }

    fn status(&self) -> (r: Option<String>) {
        self.base.status()
    }

    fn to_json(&self) -> (r: JsonValue) {
        self.base.to_json()
    }

    fn query(&self) -> (r: Option<&JsonValue>) {
        self.base.query()
    }
}

/// The response to the creation of a token.
#[derive(Debug)]
pub struct ResponseCreateToken {
    base: BaseResponse,
}

impl ResponseCreateToken {
    /// A response to an answer that passes the checks, with its data at `data.ProposeMolecule`.
    pub fn new(json: JsonValue) -> (r: Self)
        requires
            rejection(json@) is None,
        ensures
            r.raw_answer() == json@,
            r.view_data() == data_view(json@, Some("data.ProposeMolecule"@)),
            r.query_view() is None,
    {
        ResponseCreateToken { base: BaseResponse::accepted(json).with_data_key("data.ProposeMolecule") }
    }

    /// The hash of the molecule.
    pub fn molecular_hash(&self) -> (r: Option<String>)
        ensures
            opt_view(r) == str_field(self.view_data(), "molecularHash"@),
    {
        string_field(self.base.get_data(), "molecularHash")
    }

    /// The status of the molecule.
    pub fn status(&self) -> (r: Option<String>)
        ensures
            opt_view(r) == str_field(self.view_data(), "status"@),
    {
        string_field(self.base.get_data(), "status")
    }
}

impl Response for ResponseCreateToken {
    closed spec fn view_data(&self) -> Json {
        self.base.content()
    }

    closed spec fn raw_answer(&self) -> Json {
        self.base.raw()
    }

    closed spec fn query_view(&self) -> Option<Json> {
        self.base.query_of()
    }

    open spec fn succeeded(&self) -> bool {
        json_get(self.raw_answer(), "exception"@) is None && self.view_data() is Object && accepted(self.view_data())
    }

    open spec fn payload_view(&self) -> Option<Json> {
        Some(self.view_data())
    }

    open spec fn reason_view(&self) -> Option<Seq<char>> {
        Some(crate::response::base::reason_of(self.view_data()))
    }

    open spec fn status_view(&self) -> Option<Seq<char>> {
        str_field(self.view_data(), "status"@)
    }

    fn data(&self) -> (r: &JsonValue) {
        self.base.get_data()
    }

    fn success(&self) -> (r: bool) {
        self.base.success() && is_accepted(string_field(self.base.get_data(), "status"))
    }

    fn error(&self) -> (r: Option<String>) {
        self.base.error()
    }

    fn get(&self, key: &str) -> (r: Option<&JsonValue>) {
        self.base.get(key)
    }

    fn payload(&self) -> (r: Option<&JsonValue>) {
        self.base.payload()
    }

    fn reason(&self) -> (r: Option<String>) {
        self.base.reason()
    }

    fn status(&self) -> (r: Option<String>) {
        self.base.status()
    }

    fn to_json(&self) -> (r: JsonValue) {
        self.base.to_json()
    }

    fn query(&self) -> (r: Option<&JsonValue>) {
        self.base.query()
    }
}

/// The response to the creation of a wallet.
#[derive(Debug)]
pub struct ResponseCreateWallet {
    base: BaseResponse,
}

impl ResponseCreateWallet {
    /// A response to an answer that passes the checks, with its data at `data.ProposeMolecule`.
    pub fn new(json: JsonValue) -> (r: Self)
        requires
            rejection(json@) is None,
        ensures
            r.raw_answer() == json@,
            r.view_data() == data_view(json@, Some("data.ProposeMolecule"@)),
            r.query_view() is None,
    {
        ResponseCreateWallet { base: BaseResponse::accepted(json).with_data_key("data.ProposeMolecule") }
    }

    /// The hash of the molecule.
    pub fn molecular_hash(&self) -> (r: Option<String>)
        ensures
            opt_view(r) == str_field(self.view_data(), "molecularHash"@),
    {
        string_field(self.base.get_data(), "molecularHash")
    }

    /// The status of the molecule.
    pub fn status(&self) -> (r: Option<String>)
        ensures
            opt_view(r) == str_field(self.view_data(), "status"@),
    {
        string_field(self.base.get_data(), "status")
    }
}

impl Response for ResponseCreateWallet {
    closed spec fn view_data(&self) -> Json {
        self.base.content()
    }

    closed spec fn raw_answer(&self) -> Json {
        self.base.raw()
    }

    closed spec fn query_view(&self) -> Option<Json> {
        self.base.query_of()
    }

    open spec fn succeeded(&self) -> bool {
        json_get(self.raw_answer(), "exception"@) is None && self.view_data() is Object && accepted(self.view_data())
    }

    open spec fn payload_view(&self) -> Option<Json> {
        Some(self.view_data())
    }

    open spec fn reason_view(&self) -> Option<Seq<char>> {
        Some(crate::response::base::reason_of(self.view_data()))
    }

    open spec fn status_view(&self) -> Option<Seq<char>> {
        str_field(self.view_data(), "status"@)
    }

    fn data(&self) -> (r: &JsonValue) {
        self.base.get_data()
    }

    fn success(&self) -> (r: bool) {
        self.base.success() && is_accepted(string_field(self.base.get_data(), "status"))
    }

    fn error(&self) -> (r: Option<String>) {
        self.base.error()
    }

    fn get(&self, key: &str) -> (r: Option<&JsonValue>) {
        self.base.get(key)
    }

    fn payload(&self) -> (r: Option<&JsonValue>) {
        self.base.payload()
    }

    fn reason(&self) -> (r: Option<String>) {
        self.base.reason()
    }

    fn status(&self) -> (r: Option<String>) {
        self.base.status()
    }

    fn to_json(&self) -> (r: JsonValue) {
        self.base.to_json()
    }

    fn query(&self) -> (r: Option<&JsonValue>) {
        self.base.query()
    }
}

/// The response to an authorization request.
#[derive(Debug)]
pub struct ResponseRequestAuthorization {
    base: BaseResponse,
}

impl ResponseRequestAuthorization {
    /// A response to an answer that passes the checks, with its data at `data.ProposeMolecule`.
    pub fn new(json: JsonValue) -> (r: Self)
        requires
            rejection(json@) is None,
        ensures
            r.raw_answer() == json@,
            r.view_data() == data_view(json@, Some("data.ProposeMolecule"@)),
            r.query_view() is None,
    {
        ResponseRequestAuthorization { base: BaseResponse::accepted(json).with_data_key("data.ProposeMolecule") }
    }

    /// The hash of the molecule.
    pub fn molecular_hash(&self) -> (r: Option<String>)
        ensures
            opt_view(r) == str_field(self.view_data(), "molecularHash"@),
    {
        string_field(self.base.get_data(), "molecularHash")
    }

    /// The status of the molecule.
    pub fn status(&self) -> (r: Option<String>)
        ensures
            opt_view(r) == str_field(self.view_data(), "status"@),
    {
        string_field(self.base.get_data(), "status")
    }
}

impl Response for ResponseRequestAuthorization {
    closed spec fn view_data(&self) -> Json {
        self.base.content()
    }

    closed spec fn raw_answer(&self) -> Json {
        self.base.raw()
    }

    closed spec fn query_view(&self) -> Option<Json> {
        self.base.query_of()
    }

    open spec fn succeeded(&self) -> bool {
        json_get(self.raw_answer(), "exception"@) is None && self.view_data() is Object && accepted(self.view_data())
    }

    open spec fn payload_view(&self) -> Option<Json> {
        Some(self.view_data())
    }

    open spec fn reason_view(&self) -> Option<Seq<char>> {
        Some(crate::response::base::reason_of(self.view_data()))
    }

    open spec fn status_view(&self) -> Option<Seq<char>> {
        str_field(self.view_data(), "status"@)
    }

    fn data(&self) -> (r: &JsonValue) {
        self.base.get_data()
    }

    fn success(&self) -> (r: bool) {
        self.base.success() && is_accepted(string_field(self.base.get_data(), "status"))
    }

    fn error(&self) -> (r: Option<String>) {
        self.base.error()
    }

    fn get(&self, key: &str) -> (r: Option<&JsonValue>) {
        self.base.get(key)
    }

    fn payload(&self) -> (r: Option<&JsonValue>) {
        self.base.payload()
    }

    fn reason(&self) -> (r: Option<String>) {
        self.base.reason()
    }

    fn status(&self) -> (r: Option<String>) {
        self.base.status()
    }

    fn to_json(&self) -> (r: JsonValue) {
        self.base.to_json()
    }

    fn query(&self) -> (r: Option<&JsonValue>) {
        self.base.query()
    }
}

/// The response to a token request.
#[derive(Debug)]
pub struct ResponseRequestTokens {
    base: BaseResponse,
}

impl ResponseRequestTokens {
    /// A response to an answer that passes the checks, with its data at `data.ProposeMolecule`.
    pub fn new(json: JsonValue) -> (r: Self)
        requires
            rejection(json@) is None,
        ensures
            r.raw_answer() == json@,
            r.view_data() == data_view(json@, Some("data.ProposeMolecule"@)),
            r.query_view() is None,
    {
        ResponseRequestTokens { base: BaseResponse::accepted(json).with_data_key("data.ProposeMolecule") }
    }

    /// The hash of the molecule.
    pub fn molecular_hash(&self) -> (r: Option<String>)
        ensures
            opt_view(r) == str_field(self.view_data(), "molecularHash"@),
    {
        string_field(self.base.get_data(), "molecularHash")
    }

    /// The status of the molecule.
    pub fn status(&self) -> (r: Option<String>)
        ensures
            opt_view(r) == str_field(self.view_data(), "status"@),
    {
        string_field(self.base.get_data(), "status")
    }
}

impl Response for ResponseRequestTokens {
    closed spec fn view_data(&self) -> Json {
        self.base.content()
    }

    closed spec fn raw_answer(&self) -> Json {
        self.base.raw()
    }

    closed spec fn query_view(&self) -> Option<Json> {
        self.base.query_of()
    }

    open spec fn succeeded(&self) -> bool {
        json_get(self.raw_answer(), "exception"@) is None && self.view_data() is Object && accepted(self.view_data())
    }

    open spec fn payload_view(&self) -> Option<Json> {
        Some(self.view_data())
    }

    open spec fn reason_view(&self) -> Option<Seq<char>> {
        Some(crate::response::base::reason_of(self.view_data()))
    }

    open spec fn status_view(&self) -> Option<Seq<char>> {
        str_field(self.view_data(), "status"@)
    }

    fn data(&self) -> (r: &JsonValue) {
        self.base.get_data()
    }

    fn success(&self) -> (r: bool) {
        self.base.success() && is_accepted(string_field(self.base.get_data(), "status"))
    }

    fn error(&self) -> (r: Option<String>) {
        self.base.error()
    }

    fn get(&self, key: &str) -> (r: Option<&JsonValue>) {
        self.base.get(key)
    }

    fn payload(&self) -> (r: Option<&JsonValue>) {
        self.base.payload()
    }

    fn reason(&self) -> (r: Option<String>) {
        self.base.reason()
    }

    fn status(&self) -> (r: Option<String>) {
        self.base.status()
    }

    fn to_json(&self) -> (r: JsonValue) {
        self.base.to_json()
    }

    fn query(&self) -> (r: Option<&JsonValue>) {
        self.base.query()
    }
}

/// The response to a token transfer.
#[derive(Debug)]
pub struct ResponseTransferTokens {
    base: BaseResponse,
}

impl ResponseTransferTokens {
    /// A response to an answer that passes the checks, with its data at `data.ProposeMolecule`.
    pub fn new(json: JsonValue) -> (r: Self)
        requires
            rejection(json@) is None,
        ensures
            r.raw_answer() == json@,
            r.view_data() == data_view(json@, Some("data.ProposeMolecule"@)),
            r.query_view() is None,
    {
        ResponseTransferTokens { base: BaseResponse::accepted(json).with_data_key("data.ProposeMolecule") }
    }

    /// The hash of the molecule.
    pub fn molecular_hash(&self) -> (r: Option<String>)
        ensures
            opt_view(r) == str_field(self.view_data(), "molecularHash"@),
    {
        string_field(self.base.get_data(), "molecularHash")
    }

    /// The status of the molecule.
    pub fn status(&self) -> (r: Option<String>)
        ensures
            opt_view(r) == str_field(self.view_data(), "status"@),
    {
        string_field(self.base.get_data(), "status")
    }
}

impl Response for ResponseTransferTokens {
    closed spec fn view_data(&self) -> Json {
        self.base.content()
    }

    closed spec fn raw_answer(&self) -> Json {
        self.base.raw()
    }

    closed spec fn query_view(&self) -> Option<Json> {
        self.base.query_of()
    }

    open spec fn succeeded(&self) -> bool {
        json_get(self.raw_answer(), "exception"@) is None && self.view_data() is Object && accepted(self.view_data())
    }

    open spec fn payload_view(&self) -> Option<Json> {
        Some(self.view_data())
    }

    open spec fn reason_view(&self) -> Option<Seq<char>> {
        Some(crate::response::base::reason_of(self.view_data()))
    }

    open spec fn status_view(&self) -> Option<Seq<char>> {
        str_field(self.view_data(), "status"@)
    }

    fn data(&self) -> (r: &JsonValue) {
        self.base.get_data()
    }

    fn success(&self) -> (r: bool) {
        self.base.success() && is_accepted(string_field(self.base.get_data(), "status"))
    }

    fn error(&self) -> (r: Option<String>) {
        self.base.error()
    }

    fn get(&self, key: &str) -> (r: Option<&JsonValue>) {
        self.base.get(key)
    }

    fn payload(&self) -> (r: Option<&JsonValue>) {
        self.base.payload()
    }

    fn reason(&self) -> (r: Option<String>) {
        self.base.reason()
    }

    fn status(&self) -> (r: Option<String>) {
        self.base.status()
    }

    fn to_json(&self) -> (r: JsonValue) {
        self.base.to_json()
    }

    fn query(&self) -> (r: Option<&JsonValue>) {
        self.base.query()
    }
}

/// The response to the linking of an identifier.
#[derive(Debug)]
pub struct ResponseLinkIdentifier {
    base: BaseResponse,
}

impl ResponseLinkIdentifier {
    /// A response to an answer, with its data at `data.LinkIdentifier`; refused as `rejection` says.
    pub fn new(json: JsonValue, query: Option<JsonValue>) -> (r: Result<Self, KnishIOError>)
        ensures
            match r {
                Ok(t) => rejection(json@) is None && t.raw_answer() == json@
                    && t.view_data() == data_view(json@, Some("data.LinkIdentifier"@)) && t.query_view() == opt_json(query),
                Err(e) => rejection(json@) == Some(e),
            },
    {
        let base = BaseResponse::with_query(json, query)?;
        Ok(ResponseLinkIdentifier { base: base.with_data_key("data.LinkIdentifier") })
    }

    /// Whether the identifier was set; false when absent.
    pub fn set(&self) -> (r: bool)
        ensures
            r == (bool_field(self.view_data(), "set"@) == Some(true)),
    {
        match flag_field(self.base.get_data(), "set") {
            Some(b) => b,
            None => false,
        }
    }

    /// The message of the node.
    pub fn message(&self) -> (r: Option<String>)
        ensures
            opt_view(r) == str_field(self.view_data(), "message"@),
    {
        string_field(self.base.get_data(), "message")
    }

    /// The type of the identifier.
    pub fn identifier_type(&self) -> (r: Option<String>)
        ensures
            opt_view(r) == str_field(self.view_data(), "type"@),
    {
        string_field(self.base.get_data(), "type")
    }

    /// The bundle the identifier is linked to.
    pub fn bundle(&self) -> (r: Option<String>)
        ensures
            opt_view(r) == str_field(self.view_data(), "bundle"@),
    {
        string_field(self.base.get_data(), "bundle")
    }

    /// The content of the identifier.
    pub fn content(&self) -> (r: Option<String>)
        ensures
            opt_view(r) == str_field(self.view_data(), "content"@),
    {
        string_field(self.base.get_data(), "content")
    }
}

impl Response for ResponseLinkIdentifier {
    closed spec fn view_data(&self) -> Json {
        self.base.content()
    }

    closed spec fn raw_answer(&self) -> Json {
        self.base.raw()
    }

    closed spec fn query_view(&self) -> Option<Json> {
        self.base.query_of()
    }

    open spec fn succeeded(&self) -> bool {
        bool_field(self.view_data(), "set"@) == Some(true)
    }

    open spec fn payload_view(&self) -> Option<Json> {
        Some(self.view_data())
    }

    open spec fn reason_view(&self) -> Option<Seq<char>> {
        Some(crate::response::base::reason_of(self.view_data()))
    }

    open spec fn status_view(&self) -> Option<Seq<char>> {
        str_field(self.view_data(), "status"@)
    }

    fn data(&self) -> (r: &JsonValue) {
        self.base.get_data()
    }

    fn success(&self) -> (r: bool) {
        self.set()
    }

    fn error(&self) -> (r: Option<String>) {
        self.base.error()
    }

    fn get(&self, key: &str) -> (r: Option<&JsonValue>) {
        self.base.get(key)
    }

    fn payload(&self) -> (r: Option<&JsonValue>) {
        self.base.payload()
    }

    fn reason(&self) -> (r: Option<String>) {
        self.base.reason()
    }

    fn status(&self) -> (r: Option<String>) {
        self.base.status()
    }

    fn to_json(&self) -> (r: JsonValue) {
        self.base.to_json()
    }

    fn query(&self) -> (r: Option<&JsonValue>) {
        self.base.query()
    }
}

/// The response to a batch query.
#[derive(Debug)]
pub struct ResponseMetaBatch {
    base: BaseResponse,
}

impl ResponseMetaBatch {
    /// A response to an answer, with its data at `data.Batch`; refused as `rejection` says.
    pub fn new(json: JsonValue, query: Option<JsonValue>) -> (r: Result<Self, KnishIOError>)
        ensures
            match r {
                Ok(t) => rejection(json@) is None && t.raw_answer() == json@
                    && t.view_data() == data_view(json@, Some("data.Batch"@)) && t.query_view() == opt_json(query),
                Err(e) => rejection(json@) == Some(e),
            },
    {
        let base = BaseResponse::with_query(json, query)?;
        Ok(ResponseMetaBatch { base: base.with_data_key("data.Batch") })
    }

    /// The batch: the data itself.
    pub fn batch(&self) -> (r: Option<&JsonValue>)
        ensures
            r matches Some(d) && d@ == self.view_data(),
    {
        Some(self.base.get_data())
    }
}

impl Response for ResponseMetaBatch {
    closed spec fn view_data(&self) -> Json {
        self.base.content()
    }

    closed spec fn raw_answer(&self) -> Json {
        self.base.raw()
    }

    closed spec fn query_view(&self) -> Option<Json> {
        self.base.query_of()
    }

    open spec fn succeeded(&self) -> bool {
        json_get(self.raw_answer(), "exception"@) is None && self.view_data() is Object
    }

    open spec fn payload_view(&self) -> Option<Json> {
        Some(self.view_data())
    }

    open spec fn reason_view(&self) -> Option<Seq<char>> {
        Some(crate::response::base::reason_of(self.view_data()))
    }

    open spec fn status_view(&self) -> Option<Seq<char>> {
        str_field(self.view_data(), "status"@)
    }

    fn data(&self) -> (r: &JsonValue) {
        self.base.get_data()
    }

    fn success(&self) -> (r: bool) {
        self.base.success()
    }

    fn error(&self) -> (r: Option<String>) {
        self.base.error()
    }

    fn get(&self, key: &str) -> (r: Option<&JsonValue>) {
        self.base.get(key)
    }

    fn payload(&self) -> (r: Option<&JsonValue>) {
        self.batch()
    }

    fn reason(&self) -> (r: Option<String>) {
        self.base.reason()
    }

    fn status(&self) -> (r: Option<String>) {
        self.base.status()
    }

    fn to_json(&self) -> (r: JsonValue) {
        self.base.to_json()
    }

    fn query(&self) -> (r: Option<&JsonValue>) {
        self.base.query()
    }
}

/// The response to a meta query through atoms.
#[derive(Debug)]
pub struct ResponseMetaTypeViaAtom {
    base: BaseResponse,
}

impl ResponseMetaTypeViaAtom {
    /// A response to an answer, with its data at `data.AtomsByMoleculeLookup`; refused as `rejection` says.
    pub fn new(json: JsonValue, query: Option<JsonValue>) -> (r: Result<Self, KnishIOError>)
        ensures
            match r {
                Ok(t) => rejection(json@) is None && t.raw_answer() == json@
                    && t.view_data() == data_view(json@, Some("data.AtomsByMoleculeLookup"@)) && t.query_view() == opt_json(query),
                Err(e) => rejection(json@) == Some(e),
            },
    {
        let base = BaseResponse::with_query(json, query)?;
        Ok(ResponseMetaTypeViaAtom { base: base.with_data_key("data.AtomsByMoleculeLookup") })
    }

    /// The atoms found; none when the data is not an array.
    pub fn atoms(&self) -> (r: Vec<JsonValue>)
        ensures
            items_view(r@) == items_or_empty(match self.view_data() {
                Json::Array(items) => Some(items),
                _ => None,
            }),
    {
        own_items(self.base.get_data())
    }
}

impl Response for ResponseMetaTypeViaAtom {
    closed spec fn view_data(&self) -> Json {
        self.base.content()
    }

    closed spec fn raw_answer(&self) -> Json {
        self.base.raw()
    }

    closed spec fn query_view(&self) -> Option<Json> {
        self.base.query_of()
    }

    open spec fn succeeded(&self) -> bool {
        json_get(self.raw_answer(), "exception"@) is None && self.view_data() is Object
    }

    open spec fn payload_view(&self) -> Option<Json> {
        Some(self.view_data())
    }

    open spec fn reason_view(&self) -> Option<Seq<char>> {
        Some(crate::response::base::reason_of(self.view_data()))
    }

    open spec fn status_view(&self) -> Option<Seq<char>> {
        str_field(self.view_data(), "status"@)
    }

    fn data(&self) -> (r: &JsonValue) {
        self.base.get_data()
    }

    fn success(&self) -> (r: bool) {
        self.base.success()
    }

    fn error(&self) -> (r: Option<String>) {
        self.base.error()
    }

    fn get(&self, key: &str) -> (r: Option<&JsonValue>) {
        self.base.get(key)
    }

    fn payload(&self) -> (r: Option<&JsonValue>) {
        self.base.payload()
    }

    fn reason(&self) -> (r: Option<String>) {
        self.base.reason()
    }

    fn status(&self) -> (r: Option<String>) {
        self.base.status()
    }

    fn to_json(&self) -> (r: JsonValue) {
        self.base.to_json()
    }

    fn query(&self) -> (r: Option<&JsonValue>) {
        self.base.query()
    }
}

/// The response to a policy query.
#[derive(Debug)]
pub struct ResponsePolicy {
    base: BaseResponse,
}

impl ResponsePolicy {
    /// A response to an answer, with its data at `data.Rule`; refused as `rejection` says.
    pub fn new(json: JsonValue, query: Option<JsonValue>) -> (r: Result<Self, KnishIOError>)
        ensures
            match r {
                Ok(t) => rejection(json@) is None && t.raw_answer() == json@
                    && t.view_data() == data_view(json@, Some("data.Rule"@)) && t.query_view() == opt_json(query),
                Err(e) => rejection(json@) == Some(e),
            },
    {
        let base = BaseResponse::with_query(json, query)?;
        Ok(ResponsePolicy { base: base.with_data_key("data.Rule") })
    }

    /// The rule: the data itself.
    pub fn rule(&self) -> (r: Option<&JsonValue>)
        ensures
            r matches Some(d) && d@ == self.view_data(),
    {
        Some(self.base.get_data())
    }
}

impl Response for ResponsePolicy {
    closed spec fn view_data(&self) -> Json {
        self.base.content()
    }

    closed spec fn raw_answer(&self) -> Json {
        self.base.raw()
    }

    closed spec fn query_view(&self) -> Option<Json> {
        self.base.query_of()
    }

    open spec fn succeeded(&self) -> bool {
        json_get(self.raw_answer(), "exception"@) is None && self.view_data() is Object
    }

    open spec fn payload_view(&self) -> Option<Json> {
        Some(self.view_data())
    }

    open spec fn reason_view(&self) -> Option<Seq<char>> {
        Some(crate::response::base::reason_of(self.view_data()))
    }

    open spec fn status_view(&self) -> Option<Seq<char>> {
        str_field(self.view_data(), "status"@)
    }

    fn data(&self) -> (r: &JsonValue) {
        self.base.get_data()
    }

    fn success(&self) -> (r: bool) {
        self.base.success()
    }

    fn error(&self) -> (r: Option<String>) {
        self.base.error()
    }

    fn get(&self, key: &str) -> (r: Option<&JsonValue>) {
        self.base.get(key)
    }

    fn payload(&self) -> (r: Option<&JsonValue>) {
        self.rule()
    }

    fn reason(&self) -> (r: Option<String>) {
        self.base.reason()
    }

    fn status(&self) -> (r: Option<String>) {
        self.base.status()
    }

    fn to_json(&self) -> (r: JsonValue) {
        self.base.to_json()
    }

    fn query(&self) -> (r: Option<&JsonValue>) {
        self.base.query()
    }
}

/// The response to an active-session query made without a query reference.
#[derive(Debug)]
pub struct ResponseQueryActiveSession {
    base: BaseResponse,
}

impl ResponseQueryActiveSession {
    /// A response to an answer that passes the checks, with its data at `data.ActiveSession`.
    pub fn new(json: JsonValue) -> (r: Self)
        requires
            rejection(json@) is None,
        ensures
            r.raw_answer() == json@,
            r.view_data() == data_view(json@, Some("data.ActiveSession"@)),
            r.query_view() is None,
    {
        ResponseQueryActiveSession { base: BaseResponse::accepted(json).with_data_key("data.ActiveSession") }
    }

    /// Whether the session is active; false when absent.
    pub fn active(&self) -> (r: bool)
        ensures
            r == (bool_field(self.view_data(), "active"@) == Some(true)),
    {
        match flag_field(self.base.get_data(), "active") {
            Some(b) => b,
            None => false,
        }
    }

    /// When the session expires.
    pub fn expires_at(&self) -> (r: Option<String>)
        ensures
            opt_view(r) == str_field(self.view_data(), "expiresAt"@),
    {
        string_field(self.base.get_data(), "expiresAt")
    }
}

impl Response for ResponseQueryActiveSession {
    closed spec fn view_data(&self) -> Json {
        self.base.content()
    }

    closed spec fn raw_answer(&self) -> Json {
        self.base.raw()
    }

    closed spec fn query_view(&self) -> Option<Json> {
        self.base.query_of()
    }

    open spec fn succeeded(&self) -> bool {
        json_get(self.raw_answer(), "exception"@) is None && self.view_data() is Object
    }

    open spec fn payload_view(&self) -> Option<Json> {
        Some(self.view_data())
    }

    open spec fn reason_view(&self) -> Option<Seq<char>> {
        Some(crate::response::base::reason_of(self.view_data()))
    }

    open spec fn status_view(&self) -> Option<Seq<char>> {
        str_field(self.view_data(), "status"@)
    }

    fn data(&self) -> (r: &JsonValue) {
        self.base.get_data()
    }

    fn success(&self) -> (r: bool) {
        self.base.success()
    }

    fn error(&self) -> (r: Option<String>) {
        self.base.error()
    }

    fn get(&self, key: &str) -> (r: Option<&JsonValue>) {
        self.base.get(key)
    }

    fn payload(&self) -> (r: Option<&JsonValue>) {
        self.base.payload()
    }

    fn reason(&self) -> (r: Option<String>) {
        self.base.reason()
    }

    fn status(&self) -> (r: Option<String>) {
        self.base.status()
    }

    fn to_json(&self) -> (r: JsonValue) {
        self.base.to_json()
    }

    fn query(&self) -> (r: Option<&JsonValue>) {
        self.base.query()
    }
}

/// The response to a user-activity query.
#[derive(Debug)]
pub struct ResponseQueryUserActivity {
    base: BaseResponse,
}

impl ResponseQueryUserActivity {
    /// A response to an answer that passes the checks, with its data at `data.UserActivity`.
    pub fn new(json: JsonValue) -> (r: Self)
        requires
            rejection(json@) is None,
        ensures
            r.raw_answer() == json@,
            r.view_data() == data_view(json@, Some("data.UserActivity"@)),
            r.query_view() is None,
    {
        ResponseQueryUserActivity { base: BaseResponse::accepted(json).with_data_key("data.UserActivity") }
    }

    /// The activities found; none when the data is not an array.
    pub fn activities(&self) -> (r: Vec<JsonValue>)
        ensures
            items_view(r@) == items_or_empty(match self.view_data() {
                Json::Array(items) => Some(items),
                _ => None,
            }),
    {
        own_items(self.base.get_data())
    }
}

impl Response for ResponseQueryUserActivity {
    closed spec fn view_data(&self) -> Json {
        self.base.content()
    }

    closed spec fn raw_answer(&self) -> Json {
        self.base.raw()
    }

    closed spec fn query_view(&self) -> Option<Json> {
        self.base.query_of()
    }

    open spec fn succeeded(&self) -> bool {
        json_get(self.raw_answer(), "exception"@) is None && self.view_data() is Object
    }

    open spec fn payload_view(&self) -> Option<Json> {
        Some(self.view_data())
    }

    open spec fn reason_view(&self) -> Option<Seq<char>> {
        Some(crate::response::base::reason_of(self.view_data()))
    }

    open spec fn status_view(&self) -> Option<Seq<char>> {
        str_field(self.view_data(), "status"@)
    }

    fn data(&self) -> (r: &JsonValue) {
        self.base.get_data()
    }

    fn success(&self) -> (r: bool) {
        self.base.success()
    }

    fn error(&self) -> (r: Option<String>) {
        self.base.error()
    }

    fn get(&self, key: &str) -> (r: Option<&JsonValue>) {
        self.base.get(key)
    }

    fn payload(&self) -> (r: Option<&JsonValue>) {
        self.base.payload()
    }

    fn reason(&self) -> (r: Option<String>) {
        self.base.reason()
    }

    fn status(&self) -> (r: Option<String>) {
        self.base.status()
    }

    fn to_json(&self) -> (r: JsonValue) {
        self.base.to_json()
    }

    fn query(&self) -> (r: Option<&JsonValue>) {
        self.base.query()
    }
}

/// The response to a wallet list query.
#[derive(Debug)]
pub struct ResponseWalletList {
    base: BaseResponse,
}

impl ResponseWalletList {
    /// A response to an answer, with its data at `data.Wallet`; refused as `rejection` says.
    pub fn new(json: JsonValue, query: Option<JsonValue>) -> (r: Result<Self, KnishIOError>)
        ensures
            match r {
                Ok(t) => rejection(json@) is None && t.raw_answer() == json@
                    && t.view_data() == data_view(json@, Some("data.Wallet"@)) && t.query_view() == opt_json(query),
                Err(e) => rejection(json@) == Some(e),
            },
    {
        let base = BaseResponse::with_query(json, query)?;
        Ok(ResponseWalletList { base: base.with_data_key("data.Wallet") })
    }

    /// The wallets found; none when the data is not an array.
    pub fn wallets(&self) -> (r: Vec<JsonValue>)
        ensures
            items_view(r@) == items_or_empty(match self.view_data() {
                Json::Array(items) => Some(items),
                _ => None,
            }),
    {
        own_items(self.base.get_data())
    }
}

impl Response for ResponseWalletList {
    closed spec fn view_data(&self) -> Json {
        self.base.content()
    }

    closed spec fn raw_answer(&self) -> Json {
        self.base.raw()
    }

    closed spec fn query_view(&self) -> Option<Json> {
        self.base.query_of()
    }

    open spec fn succeeded(&self) -> bool {
        json_get(self.raw_answer(), "exception"@) is None && self.view_data() is Object
    }

    open spec fn payload_view(&self) -> Option<Json> {
        Some(self.view_data())
    }

    open spec fn reason_view(&self) -> Option<Seq<char>> {
        Some(crate::response::base::reason_of(self.view_data()))
    }

    open spec fn status_view(&self) -> Option<Seq<char>> {
        str_field(self.view_data(), "status"@)
    }

    fn data(&self) -> (r: &JsonValue) {
        self.base.get_data()
    }

    fn success(&self) -> (r: bool) {
        self.base.success()
    }

    fn error(&self) -> (r: Option<String>) {
        self.base.error()
    }

    fn get(&self, key: &str) -> (r: Option<&JsonValue>) {
        self.base.get(key)
    }

    fn payload(&self) -> (r: Option<&JsonValue>) {
        self.base.payload()
    }

    fn reason(&self) -> (r: Option<String>) {
        self.base.reason()
    }

    fn status(&self) -> (r: Option<String>) {
        self.base.status()
    }

    fn to_json(&self) -> (r: JsonValue) {
        self.base.to_json()
    }

    fn query(&self) -> (r: Option<&JsonValue>) {
        self.base.query()
    }
}

/// A count as the node reports it; zero for anything but a number.
pub open spec fn count_of(v: Json) -> int {
    match v {
        Json::Number(n) => n,
        _ => 0,
    }
}

/// The counts of an object whose values are all numbers; none otherwise.
pub open spec fn instance_counts(v: Option<Json>) -> Seq<(Seq<char>, int)> {
    match v {
        Some(Json::Object(e)) => if forall|i: int| 0 <= i < e.len() ==> #[trigger] e[i].1 is Number {
            e.map_values(|p: (Seq<char>, Json)| (p.0, count_of(p.1)))
        } else {
            Seq::empty()
        },
        _ => Seq::empty(),
    }
}

/// The counts of a list, with keys as characters.
pub open spec fn counts_view(s: Seq<(String, i64)>) -> Seq<(Seq<char>, int)> {
    s.map_values(|p: (String, i64)| (p.0@, p.1 as int))
}

/// The response to a meta query.
#[derive(Debug)]
pub struct ResponseMetaType {
    base: BaseResponse,
}

impl ResponseMetaType {
    /// A response to an answer, with its data at `data.MetaType`; refused as `rejection` says.
    pub fn new(json: JsonValue, query: Option<JsonValue>) -> (r: Result<Self, KnishIOError>)
        ensures
            match r {
                Ok(t) => rejection(json@) is None && t.raw_answer() == json@
                    && t.view_data() == data_view(json@, Some("data.MetaType"@)) && t.query_view() == opt_json(query),
                Err(e) => rejection(json@) == Some(e),
            },
    {
        let base = BaseResponse::with_query(json, query)?;
        Ok(ResponseMetaType { base: base.with_data_key("data.MetaType") })
    }

    /// The meta instances found; none when absent.
    pub fn instances(&self) -> (r: Vec<JsonValue>)
        ensures
            items_view(r@) == items_or_empty(array_field(self.view_data(), "instances"@)),
    {
        array_items(self.base.get_data(), "instances")
    }

    /// The instance counts, by key, when every count is a number; none otherwise.
    pub fn instance_count(&self) -> (r: Vec<(String, i64)>)
        ensures
            counts_view(r@) == instance_counts(json_get(self.view_data(), "instanceCount"@)),
    {
        let none: Vec<(String, i64)> = Vec::new();
        assert(counts_view(none@) =~= Seq::<(Seq<char>, int)>::empty());
        match self.base.get_data().get("instanceCount") {
            Some(v) => match v {
                JsonValue::Object(entries) => {
                    let ghost e = entries_view(entries@);
                    let ghost want = instance_counts(json_get(self.view_data(), "instanceCount"@));
                    proof { lemma_entries_view(entries@); }
                    assert(want == instance_counts(Some(Json::Object(e))));
                    let mut r: Vec<(String, i64)> = Vec::new();
                    let mut i: usize = 0;
                    while i < entries.len()
                        invariant
                            i <= entries@.len(),
                            e == entries_view(entries@),
                            e.len() == entries@.len(),
                            forall|j: int| 0 <= j < entries@.len() ==> #[trigger] e[j] == (entries@[j].0@, entries@[j].1@),
                            r@.len() == i,
                            forall|j: int| 0 <= j < i ==> #[trigger] e[j].1 is Number,
                            forall|j: int| 0 <= j < i ==> (#[trigger] r@[j]).0@ == e[j].0 && r@[j].1 as int == count_of(e[j].1),
                            want == instance_counts(Some(Json::Object(e))),
                            want == instance_counts(json_get(self.view_data(), "instanceCount"@)),
                            counts_view(none@) == Seq::<(Seq<char>, int)>::empty(),
                        decreases entries@.len() - i,
                    {
                        match &entries[i].1 {
                            JsonValue::Number(n) => {
                                r.push((entries[i].0.clone(), *n));
                            },
                            _ => {
                                assert(!(e[i as int].1 is Number));
                                assert(instance_counts(Some(Json::Object(e))) =~= Seq::<(Seq<char>, int)>::empty());
                                return none;
                            },
                        }
                        i = i + 1;
                    }
                    assert(counts_view(r@) =~= e.map_values(|p: (Seq<char>, Json)| (p.0, count_of(p.1))));
                    r
                },
                _ => none,
            },
            None => none,
        }
    }

    /// The pagination information, when present.
    pub fn paginator_info(&self) -> (r: Option<&JsonValue>)
        ensures
            opt_json_ref(r) == json_get(self.view_data(), "paginatorInfo"@),
    {
        self.base.get_data().get("paginatorInfo")
    }
}

impl Response for ResponseMetaType {
    closed spec fn view_data(&self) -> Json {
        self.base.content()
    }

    closed spec fn raw_answer(&self) -> Json {
        self.base.raw()
    }

    closed spec fn query_view(&self) -> Option<Json> {
        self.base.query_of()
    }

    open spec fn succeeded(&self) -> bool {
        json_get(self.raw_answer(), "exception"@) is None && self.view_data() is Object
    }

    open spec fn payload_view(&self) -> Option<Json> {
        Some(self.view_data())
    }

    open spec fn reason_view(&self) -> Option<Seq<char>> {
        Some(crate::response::base::reason_of(self.view_data()))
    }

    open spec fn status_view(&self) -> Option<Seq<char>> {
        str_field(self.view_data(), "status"@)
    }

    fn data(&self) -> (r: &JsonValue) {
        self.base.get_data()
    }

    fn success(&self) -> (r: bool) {
        self.base.success()
    }

    fn error(&self) -> (r: Option<String>) {
        self.base.error()
    }

    fn get(&self, key: &str) -> (r: Option<&JsonValue>) {
        self.base.get(key)
    }

    fn payload(&self) -> (r: Option<&JsonValue>) {
        self.base.payload()
    }

    fn reason(&self) -> (r: Option<String>) {
        self.base.reason()
    }

    fn status(&self) -> (r: Option<String>) {
        self.base.status()
    }

    fn to_json(&self) -> (r: JsonValue) {
        self.base.to_json()
    }

    fn query(&self) -> (r: Option<&JsonValue>) {
        self.base.query()
    }
}

/// The wallet bundles among items, by bundle hash; a later item with the same
/// hash takes the place of an earlier one.
pub open spec fn bundle_map(items: Seq<Json>) -> Map<Seq<char>, Json>
    decreases items.len(),
{
    if items.len() == 0 {
        Map::empty()
    } else {
        let m = bundle_map(items.drop_last());
        match str_field(items.last(), "bundleHash"@) {
            Some(h) => m.insert(h, items.last()),
            None => m,
        }
    }
}

/// The response to a wallet bundle query.
#[derive(Debug)]
pub struct ResponseWalletBundle {
    base: BaseResponse,
}

impl ResponseWalletBundle {
    /// A response to an answer, with its data at `data.WalletBundle`; refused as `rejection` says.
    pub fn new(json: JsonValue, query: Option<JsonValue>) -> (r: Result<Self, KnishIOError>)
        ensures
            match r {
                Ok(t) => rejection(json@) is None && t.raw_answer() == json@
                    && t.view_data() == data_view(json@, Some("data.WalletBundle"@)) && t.query_view() == opt_json(query),
                Err(e) => rejection(json@) == Some(e),
            },
    {
        let base = BaseResponse::with_query(json, query)?;
        Ok(ResponseWalletBundle { base: base.with_data_key("data.WalletBundle") })
    }

    /// The bundles of the data, by bundle hash: each item of the data (an
    /// array) that names its bundle hash, the last one for each hash.
    pub fn bundles(&self) -> (r: Vec<(String, JsonValue)>)
        ensures
            distinct_keys(entries_view(r@)),
            keyed(entries_view(r@)) == bundle_map(items_or_empty(match self.view_data() {
                Json::Array(items) => Some(items),
                _ => None,
            })),
    {
        let items = own_items(self.base.get_data());
        let ghost all = items_or_empty(match self.view_data() {
            Json::Array(items) => Some(items),
            _ => None,
        });
        proof { lemma_items_view(items@); }
        let mut r: Vec<(String, JsonValue)> = Vec::new();
        let mut i: usize = 0;
        assert(items_view(items@).take(0) =~= Seq::<Json>::empty());
        assert(entries_view(r@) =~= Seq::<(Seq<char>, Json)>::empty());
        assert(keyed(entries_view(r@)) =~= Map::<Seq<char>, Json>::empty());
        while i < items.len()
            invariant
                i <= items@.len(),
                items_view(items@) == all,
                all.len() == items@.len(),
                forall|j: int| 0 <= j < items@.len() ==> #[trigger] all[j] == items@[j]@,
                distinct_keys(entries_view(r@)),
                keyed(entries_view(r@)) == bundle_map(all.take(i as int)),
            decreases items@.len() - i,
        {
            proof {
                assert(all.take(i + 1).drop_last() =~= all.take(i as int));
                assert(all.take(i + 1).last() == items@[i as int]@);
                lemma_entries_view(r@);
            }
            match string_field(&items[i], "bundleHash") {
                Some(h) => {
                    let ghost before = entries_view(r@);
                    let item = items[i].clone();
                    let ghost iv = item@;
                    match find_key(&r, h.as_str()) {
                        Some(k) => {
                            r.set(k, (h, item));
                            proof {
                                lemma_entries_view(r@);
                                assert(entries_view(r@) =~= before.update(k as int, (before[k as int].0, iv)));
                                lemma_keyed_update(before, k as int, iv);
                            }
                        },
                        None => {
                            let ghost hv = h@;
                            r.push((h, item));
                            proof {
                                lemma_entries_view(r@);
                                assert(entries_view(r@) =~= before.push((hv, iv)));
                                lemma_keyed_push(before, hv, iv);
                                lemma_distinct_push(before, hv, iv);
                            }
                        },
                    }
                },
                None => {},
            }
            i = i + 1;
        }
        assert(all.take(i as int) =~= all);
        r
    }
}

impl Response for ResponseWalletBundle {
    closed spec fn view_data(&self) -> Json {
        self.base.content()
    }

    closed spec fn raw_answer(&self) -> Json {
        self.base.raw()
    }

    closed spec fn query_view(&self) -> Option<Json> {
        self.base.query_of()
    }

    open spec fn succeeded(&self) -> bool {
        json_get(self.raw_answer(), "exception"@) is None && self.view_data() is Object
    }

    open spec fn payload_view(&self) -> Option<Json> {
        Some(self.view_data())
    }

    open spec fn reason_view(&self) -> Option<Seq<char>> {
        Some(crate::response::base::reason_of(self.view_data()))
    }

    open spec fn status_view(&self) -> Option<Seq<char>> {
        str_field(self.view_data(), "status"@)
    }

    fn data(&self) -> (r: &JsonValue) {
        self.base.get_data()
    }

    fn success(&self) -> (r: bool) {
        self.base.success()
    }

    fn error(&self) -> (r: Option<String>) {
        self.base.error()
    }

    fn get(&self, key: &str) -> (r: Option<&JsonValue>) {
        self.base.get(key)
    }

    fn payload(&self) -> (r: Option<&JsonValue>) {
        self.base.payload()
    }

    fn reason(&self) -> (r: Option<String>) {
        self.base.reason()
    }

    fn status(&self) -> (r: Option<String>) {
        self.base.status()
    }

    fn to_json(&self) -> (r: JsonValue) {
        self.base.to_json()
    }

    fn query(&self) -> (r: Option<&JsonValue>) {
        self.base.query()
    }
}

/// The response to a guest access token request.
#[derive(Debug)]
pub struct ResponseRequestAuthorizationGuest {
    base: BaseResponse,
}

impl ResponseRequestAuthorizationGuest {
    /// A response to an answer, with its data at `data.AccessToken`; refused as `rejection` says.
    pub fn new(json: JsonValue, query: Option<JsonValue>) -> (r: Result<Self, KnishIOError>)
        ensures
            match r {
                Ok(t) => rejection(json@) is None && t.raw_answer() == json@
                    && t.view_data() == data_view(json@, Some("data.AccessToken"@)) && t.query_view() == opt_json(query),
                Err(e) => rejection(json@) == Some(e),
            },
    {
        let base = BaseResponse::with_query(json, query)?;
        Ok(ResponseRequestAuthorizationGuest { base: base.with_data_key("data.AccessToken") })
    }

    /// The value under `key` of the payload; an invalid response when absent.
    pub fn payload_key(&self, key: &str) -> (r: Result<&JsonValue, KnishIOError>)
        ensures
            match r {
                Ok(v) => json_get(self.view_data(), key@) == Some(v@),
                Err(e) => json_get(self.view_data(), key@) is None && e == KnishIOError::InvalidResponse,
            },
    {
        match self.base.get_data().get(key) {
            Some(v) => Ok(v),
            None => Err(KnishIOError::InvalidResponse),
        }
    }

    /// The public key of the payload; an invalid response unless it is a string.
    pub fn pub_key(&self) -> (r: Result<String, KnishIOError>)
        ensures
            match r {
                Ok(k) => str_field(self.view_data(), "key"@) == Some(k@),
                Err(e) => str_field(self.view_data(), "key"@) is None && e == KnishIOError::InvalidResponse,
            },
    {
        let v = self.payload_key("key")?;
        match v.as_str() {
            Some(s) => Ok(s.to_owned()),
            None => Err(KnishIOError::InvalidResponse),
        }
    }

    /// The access token.
    pub fn token(&self) -> (r: Option<String>)
        ensures
            opt_view(r) == str_field(self.view_data(), "token"@),
    {
        string_field(self.base.get_data(), "token")
    }

    /// The public key of the node.
    pub fn pubkey(&self) -> (r: Option<String>)
        ensures
            opt_view(r) == str_field(self.view_data(), "pubkey"@),
    {
        string_field(self.base.get_data(), "pubkey")
    }

    /// When the token expires.
    pub fn expires_at(&self) -> (r: Option<String>)
        ensures
            opt_view(r) == str_field(self.view_data(), "expiresAt"@),
    {
        string_field(self.base.get_data(), "expiresAt")
    }

    /// The time of the node.
    pub fn time(&self) -> (r: Option<String>)
        ensures
            opt_view(r) == str_field(self.view_data(), "time"@),
    {
        string_field(self.base.get_data(), "time")
    }

    /// Whether the node asks for encryption, when it says.
    pub fn encrypt(&self) -> (r: Option<bool>)
        ensures
            r == bool_field(self.view_data(), "encrypt"@),
    {
        flag_field(self.base.get_data(), "encrypt")
    }

    /// Whether the payload is an object with at least one entry.
    fn has_entries(&self) -> (r: bool)
        ensures
            r == (self.view_data() matches Json::Object(e) && e.len() > 0),
    {
        match self.base.get_data() {
            JsonValue::Object(entries) => {
                proof { lemma_entries_view(entries@); }
                entries.len() > 0
            },
            _ => false,
        }
    }
}

impl Response for ResponseRequestAuthorizationGuest {
    closed spec fn view_data(&self) -> Json {
        self.base.content()
    }

    closed spec fn raw_answer(&self) -> Json {
        self.base.raw()
    }

    closed spec fn query_view(&self) -> Option<Json> {
        self.base.query_of()
    }

    open spec fn succeeded(&self) -> bool {
        self.view_data() matches Json::Object(e) && e.len() > 0
    }

    open spec fn payload_view(&self) -> Option<Json> {
        Some(self.view_data())
    }

    open spec fn reason_view(&self) -> Option<Seq<char>> {
        Some(DEFAULT_REASON@)
    }

    open spec fn status_view(&self) -> Option<Seq<char>> {
        str_field(self.view_data(), "status"@)
    }

    fn data(&self) -> (r: &JsonValue) {
        self.base.get_data()
    }

    fn success(&self) -> (r: bool) {
        self.has_entries()
    }

    fn error(&self) -> (r: Option<String>) {
        self.base.error()
    }

    fn get(&self, key: &str) -> (r: Option<&JsonValue>) {
        self.base.get(key)
    }

    fn payload(&self) -> (r: Option<&JsonValue>) {
        self.base.payload()
    }

    fn reason(&self) -> (r: Option<String>) {
        Some(DEFAULT_REASON.to_owned())
    }

    fn status(&self) -> (r: Option<String>) {
        self.base.status()
    }

    fn to_json(&self) -> (r: JsonValue) {
        self.base.to_json()
    }

    fn query(&self) -> (r: Option<&JsonValue>) {
        self.base.query()
    }
}

/// The payload of a proposal as the node sent it, when it is not JSON text:
/// a payload sent as a string is text to parse, which leaves it out here.
pub open spec fn direct_payload(data: Json) -> Option<Json> {
    match json_get(data, "payload"@) {
        Some(Json::Str(_)) => None,
        Some(p) => Some(p),
        None => None,
    }
}

/// The status of a proposal: `rejected` when the node gives none.
pub open spec fn proposal_status(data: Json) -> Seq<char> {
    match str_field(data, "status"@) {
        Some(s) => s,
        None => "rejected"@,
    }
}

/// The reason of a proposal: the default reason when the node gives none.
pub open spec fn proposal_reason(data: Json) -> Seq<char> {
    match str_field(data, "reason"@) {
        Some(s) => s,
        None => DEFAULT_REASON@,
    }
}

/// The response to a proposed molecule, with the molecule the client sent.
#[derive(Debug)]
pub struct ResponseProposeMolecule {
    base: BaseResponse,
    client_molecule: Option<Molecule>,
    parsed_payload: Option<JsonValue>,
}

impl ResponseProposeMolecule {
    /// The molecule the client sent, if given.
    pub closed spec fn client(self) -> Option<Molecule> {
        self.client_molecule
    }

    /// A response to an answer, with its data at `data.ProposeMolecule`.
    pub fn new(json: JsonValue, query: Option<JsonValue>) -> (r: Result<Self, KnishIOError>)
        ensures
            match r {
                Ok(t) => rejection(json@) is None && t.raw_answer() == json@
                    && t.view_data() == data_view(json@, Some("data.ProposeMolecule"@))
                    && t.query_view() == opt_json(query) && t.client() is None
                    && t.payload_view() == direct_payload(t.view_data()),
                Err(e) => rejection(json@) == Some(e),
            },
    {
        Self::with_molecule(json, query, None)
    }

    /// A response to an answer, remembering the molecule the client sent.
    pub fn with_molecule(json: JsonValue, query: Option<JsonValue>, client_molecule: Option<Molecule>) -> (r: Result<
        Self,
        KnishIOError,
    >)
        ensures
            match r {
                Ok(t) => rejection(json@) is None && t.raw_answer() == json@
                    && t.view_data() == data_view(json@, Some("data.ProposeMolecule"@))
                    && t.query_view() == opt_json(query) && t.client() == client_molecule
                    && t.payload_view() == direct_payload(t.view_data()),
                Err(e) => rejection(json@) == Some(e),
            },
    {
        let base = BaseResponse::with_query(json, query)?;
        let mut response = ResponseProposeMolecule {
            base: base.with_data_key("data.ProposeMolecule"),
            client_molecule,
            parsed_payload: None,
        };
        response.init();
        Ok(response)
    }

    /// Take the payload as the node sent it, unless it is JSON text.
    fn init(&mut self)
        ensures
            final(self).base == old(self).base,
            final(self).client_molecule == old(self).client_molecule,
            opt_json(final(self).parsed_payload) == direct_payload(old(self).base.content()),
    {
        let p = match self.base.get_data().get("payload") {
            Some(v) => match v {
                JsonValue::Str(_) => None,
                _ => Some(v.clone()),
            },
            None => None,
        };
        self.parsed_payload = p;
    }

    /// The payload text, when the node sent the payload as a string.
    pub fn payload_text(&self) -> (r: Option<String>)
        ensures
            opt_view(r) == str_field(self.view_data(), "payload"@),
    {
        string_field(self.base.get_data(), "payload")
    }

    /// The response with the payload read from its text.
    pub fn with_parsed_payload(self, parsed: Option<JsonValue>) -> (r: Self)
        ensures
            r.view_data() == self.view_data(),
            r.raw_answer() == self.raw_answer(),
            r.query_view() == self.query_view(),
            r.client() == self.client(),
            r.payload_view() == opt_json(parsed),
    {
        ResponseProposeMolecule { parsed_payload: parsed, ..self }
    }

    /// The molecule the client sent, if given.
    pub fn client_molecule(&self) -> (r: &Option<Molecule>)
        ensures
            *r == self.client(),
    {
        &self.client_molecule
    }

    /// A molecule created now that carries the hash, the status and the creation
    /// time the node reports.
    pub fn molecule(&self) -> (r: Option<Molecule>)
        ensures
            r matches Some(m) && opt_view(m.molecular_hash) == str_field(self.view_data(), "molecularHash"@)
                && opt_view(m.status) == str_field(self.view_data(), "status"@)
                && (str_field(self.view_data(), "createdAt"@) matches Some(c) ==> m.created_at@ == c)
                && m.bundle is None && m.cell_slug is None && m.cell_slug_origin is None && m.version is None
                && m.atoms@.len() == 0 && m.secret is None && m.source_wallet is None
                && m.remainder_wallet is None && m.parent_hashes@.len() == 0,
    {
        let d = self.base.get_data();
        let mut m = Molecule::new();
        m.molecular_hash = string_field(d, "molecularHash");
        m.status = string_field(d, "status");
        match string_field(d, "createdAt") {
            Some(c) => {
                m.created_at = c;
            },
            None => {},
        }
        Some(m)
    }

    /// The hash of the molecule.
    pub fn molecular_hash(&self) -> (r: Option<String>)
        ensures
            opt_view(r) == str_field(self.view_data(), "molecularHash"@),
    {
        string_field(self.base.get_data(), "molecularHash")
    }

    /// The status of the molecule; `rejected` when the node gives none.
    pub fn status(&self) -> (r: String)
        ensures
            r@ == proposal_status(self.view_data()),
    {
        match string_field(self.base.get_data(), "status") {
            Some(s) => s,
            None => "rejected".to_owned(),
        }
    }

    /// The reason of the node; the default reason when it gives none.
    pub fn reason(&self) -> (r: String)
        ensures
            r@ == proposal_reason(self.view_data()),
    {
        match string_field(self.base.get_data(), "reason") {
            Some(s) => s,
            None => DEFAULT_REASON.to_owned(),
        }
    }
}

impl Response for ResponseProposeMolecule {
    closed spec fn view_data(&self) -> Json {
        self.base.content()
    }

    closed spec fn raw_answer(&self) -> Json {
        self.base.raw()
    }

    closed spec fn query_view(&self) -> Option<Json> {
        self.base.query_of()
    }

    open spec fn succeeded(&self) -> bool {
        proposal_status(self.view_data()) == "accepted"@
    }

    closed spec fn payload_view(&self) -> Option<Json> {
        opt_json(self.parsed_payload)
    }

    open spec fn reason_view(&self) -> Option<Seq<char>> {
        Some(proposal_reason(self.view_data()))
    }

    open spec fn status_view(&self) -> Option<Seq<char>> {
        Some(proposal_status(self.view_data()))
    }

    fn data(&self) -> (r: &JsonValue) {
        self.base.get_data()
    }

    fn success(&self) -> (r: bool) {
        let st = ResponseProposeMolecule::status(self);
        str_eq(st.as_str(), "accepted")
    }

    fn error(&self) -> (r: Option<String>) {
        self.base.error()
    }

    fn get(&self, key: &str) -> (r: Option<&JsonValue>) {
        self.base.get(key)
    }

    fn payload(&self) -> (r: Option<&JsonValue>) {
        match &self.parsed_payload {
            Some(p) => Some(p),
            None => None,
        }
    }

    fn reason(&self) -> (r: Option<String>) {
        Some(ResponseProposeMolecule::reason(self))
    }

    fn status(&self) -> (r: Option<String>) {
        Some(ResponseProposeMolecule::status(self))
    }

    fn to_json(&self) -> (r: JsonValue) {
        self.base.to_json()
    }

    fn query(&self) -> (r: Option<&JsonValue>) {
        self.base.query()
    }
}

} // verus!
