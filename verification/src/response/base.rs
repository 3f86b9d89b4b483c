//! The base of every node response: the checks an answer must pass, dotted
//! paths into it, and the operations that every response offers.

use vstd::prelude::*;
use crate::error::KnishIOError;
use crate::json::{Json, JsonValue, json_get, opt_json, opt_json_ref, str_field, string_field};
use crate::numeric::string_push;
use crate::response::{chars_of, find_seq, find_seq_from};
use crate::text::{opt_view, strings_view};

verus! {

/// The reason given when a response carries none.
pub const DEFAULT_REASON: &'static str = "Invalid response from server";

/// The parts of a dotted path: the text between dots, in order. A path
/// without dots is one part; the empty path is one empty part.
pub open spec fn dot_parts(s: Seq<char>) -> Seq<Seq<char>>
    decreases s.len(),
{
    if s.len() == 0 {
        seq![Seq::empty()]
    } else {
        let t = dot_parts(s.drop_last());
        if s.last() == '.' {
            t.push(Seq::empty())
        } else {
            t.update(t.len() - 1, t.last().push(s.last()))
        }
    }
}

/// A path always has at least one part.
pub proof fn lemma_dot_parts_len(s: Seq<char>)
    ensures
        dot_parts(s).len() >= 1,
    decreases s.len(),
{
    if s.len() > 0 {
        lemma_dot_parts_len(s.drop_last());
    }
}

/// The value reached from `j` by following object keys in turn.
pub open spec fn walk(j: Json, keys: Seq<Seq<char>>) -> Option<Json>
    decreases keys.len(),
{
    if keys.len() == 0 {
        Some(j)
    } else {
        match json_get(j, keys[0]) {
            Some(k) => walk(k, keys.drop_first()),
            None => None,
        }
    }
}

/// The value at a dotted path, such as `data.Balance`.
pub open spec fn dot_path(j: Json, path: Seq<char>) -> Option<Json> {
    walk(j, dot_parts(path))
}

/// The data a response is about: the value at its data key, else the whole answer.
pub open spec fn data_view(raw: Json, key: Option<Seq<char>>) -> Json {
    match key {
        Some(k) => match dot_path(raw, k) {
            Some(d) => d,
            None => raw,
        },
        None => raw,
    }
}

/// A reported failure that names an unauthenticated request.
pub open spec fn mentions_unauthenticated(e: Json) -> bool {
    match e {
        Json::Str(s) => find_seq_from(s, "Unauthenticated"@, 0) is Some,
        _ => false,
    }
}

/// Why an answer is refused, if it is: a `null` answer is invalid, and so is one
/// that reports an `exception`, unless that names an unauthenticated request.
pub open spec fn rejection(j: Json) -> Option<KnishIOError> {
    if j is Null {
        Some(KnishIOError::InvalidResponse)
    } else {
        match json_get(j, "exception"@) {
            Some(e) => if mentions_unauthenticated(e) {
                Some(KnishIOError::Unauthenticated)
            } else {
                Some(KnishIOError::InvalidResponse)
            },
            None => None,
        }
    }
}

/// The reason that data gives: its `reason`, else its `message`, when that is a
/// string; the default reason otherwise.
pub open spec fn reason_of(data: Json) -> Seq<char> {
    let v = match json_get(data, "reason"@) {
        Some(r) => Some(r),
        None => json_get(data, "message"@),
    };
    match v {
        Some(Json::Str(s)) => s,
        _ => DEFAULT_REASON@,
    }
}

/// The parts of a dotted path.
fn split_dots(path: &str) -> (r: Vec<String>)
    ensures
        strings_view(r@) == dot_parts(path@),
{
    let cs = chars_of(path);
    let mut parts: Vec<String> = Vec::new();
    let mut cur = String::new();
    let mut i: usize = 0;
    assert(cs@.take(0) =~= Seq::<char>::empty());
    assert(strings_view(parts@).push(cur@) =~= dot_parts(cs@.take(0)));
    while i < cs.len()
        invariant
            i <= cs@.len(),
            cs@ == path@,
            strings_view(parts@).push(cur@) == dot_parts(cs@.take(i as int)),
        decreases cs@.len() - i,
    {
        let c = cs[i];
        proof {
            assert(cs@.take(i + 1).drop_last() =~= cs@.take(i as int));
            assert(cs@.take(i + 1).last() == c);
            lemma_dot_parts_len(cs@.take(i as int));
        }
        if c == '.' {
            let ghost old_parts = parts@;
            let ghost old_cur = cur@;
            parts.push(cur);
            cur = String::new();
            assert(strings_view(parts@) =~= strings_view(old_parts).push(old_cur));
            assert(strings_view(parts@).push(cur@) =~= dot_parts(cs@.take(i + 1)));
        } else {
            string_push(&mut cur, c);
            assert(strings_view(parts@).push(cur@) =~= dot_parts(cs@.take(i + 1)));
        }
        i = i + 1;
    }
    assert(cs@.take(i as int) =~= cs@);
    let ghost before = parts@;
    let ghost last = cur@;
    parts.push(cur);
    assert(strings_view(parts@) =~= strings_view(before).push(last));
    parts
}

/// The value reached from `root` by following the keys in turn.
fn walk_keys<'a>(root: &'a JsonValue, keys: &Vec<String>) -> (r: Option<&'a JsonValue>)
    ensures
        opt_json_ref(r) == walk(root@, strings_view(keys@)),
{
    let mut cur: &'a JsonValue = root;
    let mut i: usize = 0;
    assert(strings_view(keys@).skip(0) =~= strings_view(keys@));
    while i < keys.len()
        invariant
            i <= keys@.len(),
            walk(root@, strings_view(keys@)) == walk(cur@, strings_view(keys@).skip(i as int)),
        decreases keys@.len() - i,
    {
        proof {
            let rest = strings_view(keys@).skip(i as int);
            assert(rest[0] == keys@[i as int]@);
            assert(rest.drop_first() =~= strings_view(keys@).skip(i + 1));
        }
        match cur.get(keys[i].as_str()) {
            Some(n) => {
                cur = n;
            },
            None => {
                return None;
            },
        }
        i = i + 1;
    }
    assert(strings_view(keys@).skip(i as int) =~= Seq::<Seq<char>>::empty());
    Some(cur)
}

/// The value at a dotted path from `root`.
pub fn path_get<'a>(root: &'a JsonValue, path: &str) -> (r: Option<&'a JsonValue>)
    ensures
        opt_json_ref(r) == dot_path(root@, path@),
{
    let keys = split_dots(path);
    walk_keys(root, &keys)
}

/// Why an answer is refused, if it is.
fn check_answer(json: &JsonValue) -> (r: Option<KnishIOError>)
    ensures
        r == rejection(json@),
{
    if json.is_null() {
        return Some(KnishIOError::InvalidResponse);
    }
    match json.get("exception") {
        Some(e) => {
            let unauthenticated = match e.as_str() {
                Some(s) => {
                    let cs = chars_of(s);
                    let pat = chars_of("Unauthenticated");
                    find_seq(&cs, &pat).is_some()
                },
                None => false,
            };
            if unauthenticated {
                Some(KnishIOError::Unauthenticated)
            } else {
                Some(KnishIOError::InvalidResponse)
            }
        },
        None => None,
    }
}

/// What every node response offers.
pub trait Response {
    /// The data the response is about.
    spec fn view_data(&self) -> Json;

    /// The whole answer of the node.
    spec fn raw_answer(&self) -> Json;

    /// The query the response answers, if known.
    spec fn query_view(&self) -> Option<Json>;

    /// Whether the response reports success.
    spec fn succeeded(&self) -> bool;

    /// The payload of the response.
    spec fn payload_view(&self) -> Option<Json>;

    /// The reason the response gives.
    spec fn reason_view(&self) -> Option<Seq<char>>;

    /// The status the response reports.
    spec fn status_view(&self) -> Option<Seq<char>>;

    /// The data the response is about.
    fn data(&self) -> (r: &JsonValue)
        ensures
            r@ == self.view_data(),
    ;

    /// Whether the response reports success.
    fn success(&self) -> (r: bool)
        ensures
            r == self.succeeded(),
    ;

    /// The failure the node reported, when it is a string.
    fn error(&self) -> (r: Option<String>)
        ensures
            opt_view(r) == str_field(self.raw_answer(), "exception"@),
    ;

    /// The value under `key` of the data.
    fn get(&self, key: &str) -> (r: Option<&JsonValue>)
        ensures
            opt_json_ref(r) == json_get(self.view_data(), key@),
    ;

    /// The payload of the response.
    fn payload(&self) -> (r: Option<&JsonValue>)
        ensures
            opt_json_ref(r) == self.payload_view(),
    ;

    /// The reason the response gives.
    fn reason(&self) -> (r: Option<String>)
        ensures
            opt_view(r) == self.reason_view(),
    ;

    /// The status the response reports.
    fn status(&self) -> (r: Option<String>)
        ensures
            opt_view(r) == self.status_view(),
    ;

    /// The whole answer of the node.
    fn to_json(&self) -> (r: JsonValue)
        ensures
            r@ == self.raw_answer(),
    ;

    /// The query the response answers, if known.
    fn query(&self) -> (r: Option<&JsonValue>)
        ensures
            opt_json_ref(r) == self.query_view(),
    ;
}

/// A node answer that passed the checks, with the key of the data it is about.
#[derive(Debug)]
pub struct BaseResponse {
    data: JsonValue,
    data_key: Option<String>,
    query: Option<JsonValue>,
}

impl BaseResponse {
    /// The whole answer.
    pub closed spec fn raw(self) -> Json {
        self.data@
    }

    /// The dotted path of the data, if set.
    pub closed spec fn data_key_view(self) -> Option<Seq<char>> {
        opt_view(self.data_key)
    }

    /// The query answered, if known.
    pub closed spec fn query_of(self) -> Option<Json> {
        opt_json(self.query)
    }

    /// The data the response is about.
    pub open spec fn content(self) -> Json {
        data_view(self.raw(), self.data_key_view())
    }

    /// A response to an answer; refused as `rejection` says.
    pub fn new(json: JsonValue) -> (r: Result<Self, KnishIOError>)
        ensures
            match r {
                Ok(b) => rejection(json@) is None && b.raw() == json@ && b.data_key_view() is None
                    && b.query_of() is None,
                Err(e) => rejection(json@) == Some(e),
            },
    {
        match check_answer(&json) {
            Some(e) => Err(e),
            None => Ok(BaseResponse { data: json, data_key: None, query: None }),
        }
    }

    /// A response to an answer that the caller knows passes the checks.
    pub(crate) fn accepted(json: JsonValue) -> (r: Self)
        ensures
            r.raw() == json@,
            r.data_key_view() is None,
            r.query_of() is None,
    {
        BaseResponse { data: json, data_key: None, query: None }
    }

    /// A response to an answer, remembering the query it answers.
    pub fn with_query(json: JsonValue, query: Option<JsonValue>) -> (r: Result<Self, KnishIOError>)
        ensures
            match r {
                Ok(b) => rejection(json@) is None && b.raw() == json@ && b.data_key_view() is None
                    && b.query_of() == opt_json(query),
                Err(e) => rejection(json@) == Some(e),
            },
    {
        let mut response = Self::new(json)?;
        response.query = query;
        Ok(response)
    }

    /// The response with its data at a dotted path.
    pub fn with_data_key(self, key: &str) -> (r: Self)
        ensures
            r.raw() == self.raw(),
            r.data_key_view() == Some(key@),
            r.query_of() == self.query_of(),
    {
        BaseResponse { data_key: Some(key.to_owned()), ..self }
    }

    /// Prepare the response; a base response has nothing to prepare.
    pub fn init(&mut self)
        ensures
            *final(self) == *old(self),
    {
    }

    /// Whether the answer reports a failure.
    pub fn has_errors(&self) -> (r: bool)
        ensures
            r == (json_get(self.raw(), "exception"@) is Some),
    {
        self.data.get("exception").is_some()
    }

    /// The value at a dotted path of the answer.
    pub fn dot_get(&self, path: &str) -> (r: Option<&JsonValue>)
        ensures
            opt_json_ref(r) == dot_path(self.raw(), path@),
    {
        path_get(&self.data, path)
    }

    /// Whether a dotted path leads to a value in the answer.
    pub fn dot_has(&self, path: &str) -> (r: bool)
        ensures
            r == (dot_path(self.raw(), path@) is Some),
    {
        self.dot_get(path).is_some()
    }

    /// The data the response is about.
    pub fn get_data(&self) -> (r: &JsonValue)
        ensures
            r@ == self.content(),
    {
        match &self.data_key {
            Some(key) => match self.dot_get(key.as_str()) {
                Some(d) => d,
                None => &self.data,
            },
            None => &self.data,
        }
    }
}

impl Response for BaseResponse {
    open spec fn view_data(&self) -> Json {
        self.content()
    }

    open spec fn raw_answer(&self) -> Json {
        self.raw()
    }

    open spec fn query_view(&self) -> Option<Json> {
        self.query_of()
    }

    open spec fn succeeded(&self) -> bool {
        json_get(self.raw_answer(), "exception"@) is None && self.view_data() is Object
    }

    open spec fn payload_view(&self) -> Option<Json> {
        Some(self.view_data())
    }

    open spec fn reason_view(&self) -> Option<Seq<char>> {
        Some(reason_of(self.view_data()))
    }

    open spec fn status_view(&self) -> Option<Seq<char>> {
        str_field(self.view_data(), "status"@)
    }

    fn data(&self) -> (r: &JsonValue) {
        self.get_data()
    }

    fn success(&self) -> (r: bool) {
        !self.has_errors() && self.get_data().is_object()
    }

    fn error(&self) -> (r: Option<String>) {
        string_field(&self.data, "exception")
    }

    fn get(&self, key: &str) -> (r: Option<&JsonValue>) {
        self.get_data().get(key)
    }

    fn payload(&self) -> (r: Option<&JsonValue>) {
        Some(self.get_data())
    }

    fn reason(&self) -> (r: Option<String>) {
        let d = self.get_data();
        let v = match d.get("reason") {
            Some(x) => Some(x),
            None => d.get("message"),
        };
        match v {
            Some(x) => match x.as_str() {
                Some(s) => Some(s.to_owned()),
                None => Some(DEFAULT_REASON.to_owned()),
            },
            None => Some(DEFAULT_REASON.to_owned()),
        }
    }

    fn status(&self) -> (r: Option<String>) {
        string_field(self.get_data(), "status")
    }

    fn to_json(&self) -> (r: JsonValue) {
        self.data.clone()
    }

    fn query(&self) -> (r: Option<&JsonValue>) {
        match &self.query {
            Some(q) => Some(q),
            None => None,
        }
    }
}

} // verus!
