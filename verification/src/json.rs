//! A small JSON value model for the variables that queries and mutations send.

use vstd::prelude::*;
use crate::text::{opt_view, str_eq, strings_view};

verus! {

/// A JSON value as the library builds and reads it.
/// Objects keep their entries in insertion order.
#[derive(Debug, PartialEq)]
pub enum JsonValue {
    Null,
    Bool(bool),
    Number(i64),
    Str(String),
    Array(Vec<JsonValue>),
    Object(Vec<(String, JsonValue)>),
}

/// The mathematical form of a JSON value: strings as character sequences.
pub enum Json {
    Null,
    Bool(bool),
    Number(int),
    Str(Seq<char>),
    Array(Seq<Json>),
    Object(Seq<(Seq<char>, Json)>),
}

impl View for JsonValue {
    type V = Json;

    open spec fn view(&self) -> Json
        decreases self, 0nat,
    {
        match self {
            JsonValue::Null => Json::Null,
            JsonValue::Bool(b) => Json::Bool(*b),
            JsonValue::Number(n) => Json::Number(*n as int),
            JsonValue::Str(s) => Json::Str(s@),
            JsonValue::Array(items) => {
                proof { assert(decreases_to!(self => items@)); }
                Json::Array(items_view(items@))
            },
            JsonValue::Object(entries) => {
                proof { assert(decreases_to!(self => entries@)); }
                Json::Object(entries_view(entries@))
            },
        }
    }
}

/// The views of a list of values.
pub open spec fn items_view(s: Seq<JsonValue>) -> Seq<Json>
    decreases s, 1nat,
{
    if s.len() == 0 {
        Seq::empty()
    } else {
        seq![s[0]@] + items_view(s.drop_first())
    }
}

/// The entries of an object, by key characters and value.
pub open spec fn entries_view(e: Seq<(String, JsonValue)>) -> Seq<(Seq<char>, Json)>
    decreases e, 1nat,
{
    if e.len() == 0 {
        Seq::empty()
    } else {
        proof { assert(decreases_to!(e[0] => e[0].1)); }
        seq![(e[0].0@, e[0].1@)] + entries_view(e.drop_first())
    }
}


/// `entries_view` maps each entry to its key's characters and its value's view.
pub proof fn lemma_entries_view(e: Seq<(String, JsonValue)>)
    ensures
        entries_view(e).len() == e.len(),
        forall|i: int| 0 <= i < e.len() ==> #[trigger] entries_view(e)[i] == (e[i].0@, e[i].1@),
    decreases e.len(),
{
    if e.len() == 0 {
        assert(entries_view(e) == Seq::<(Seq<char>, Json)>::empty());
    } else {
        assert(entries_view(e) == seq![(e[0].0@, e[0].1@)] + entries_view(e.drop_first()));
        lemma_entries_view(e.drop_first());
        assert forall|i: int| 0 <= i < e.len() implies #[trigger] entries_view(e)[i] == (e[i].0@, e[i].1@) by {
            if i > 0 {
                assert(e.drop_first()[i - 1] == e[i]);
            }
        }
    }
}

/// `items_view` maps each value to its view.
pub proof fn lemma_items_view(s: Seq<JsonValue>)
    ensures
        items_view(s).len() == s.len(),
        forall|i: int| 0 <= i < s.len() ==> #[trigger] items_view(s)[i] == s[i]@,
    decreases s.len(),
{
    if s.len() == 0 {
        assert(items_view(s) == Seq::<Json>::empty());
    } else {
        assert(items_view(s) == seq![s[0]@] + items_view(s.drop_first()));
        lemma_items_view(s.drop_first());
        assert forall|i: int| 0 <= i < s.len() implies #[trigger] items_view(s)[i] == s[i]@ by {
            if i > 0 {
                assert(s.drop_first()[i - 1] == s[i]);
            }
        }
    }
}

/// One entry `key: value` when the option holds a string, none otherwise.
pub open spec fn opt_str_entry(key: Seq<char>, value: Option<String>) -> Seq<(Seq<char>, Json)> {
    match value {
        Some(s) => seq![(key, Json::Str(s@))],
        None => seq![],
    }
}

/// One entry `key: [..]` holding the strings of a non-empty list, none for an empty one.
pub open spec fn vec_str_entry(key: Seq<char>, value: Seq<String>) -> Seq<(Seq<char>, Json)> {
    if value.len() == 0 {
        seq![]
    } else {
        seq![(key, str_array(strings_view(value)))]
    }
}

/// One entry `key: n` when the option holds a number, none otherwise.
pub open spec fn opt_int_entry(key: Seq<char>, value: Option<i32>) -> Seq<(Seq<char>, Json)> {
    match value {
        Some(n) => seq![(key, Json::Number(n as int))],
        None => seq![],
    }
}

/// A JSON array of strings.
pub open spec fn str_array(v: Seq<Seq<char>>) -> Json {
    Json::Array(v.map_values(|s: Seq<char>| Json::Str(s)))
}

/// The value of the first entry under `key`, if any.
pub open spec fn lookup(entries: Seq<(Seq<char>, Json)>, key: Seq<char>) -> Option<Json>
    decreases entries.len(),
{
    if entries.len() == 0 {
        None
    } else if entries[0].0 == key {
        Some(entries[0].1)
    } else {
        lookup(entries.drop_first(), key)
    }
}

/// The value under `key` of an object; `None` for any other value.
pub open spec fn json_get(j: Json, key: Seq<char>) -> Option<Json> {
    match j {
        Json::Object(entries) => lookup(entries, key),
        _ => None,
    }
}

/// The views of an optional value.
pub open spec fn opt_json(o: Option<JsonValue>) -> Option<Json> {
    match o {
        Some(v) => Some(v@),
        None => None,
    }
}

/// The views of an optional borrowed value.
pub open spec fn opt_json_ref(o: Option<&JsonValue>) -> Option<Json> {
    match o {
        Some(v) => Some(v@),
        None => None,
    }
}

/// The items under `key` of an object, when they form an array.
pub open spec fn array_field(j: Json, key: Seq<char>) -> Option<Seq<Json>> {
    match json_get(j, key) {
        Some(Json::Array(items)) => Some(items),
        _ => None,
    }
}

/// The string under `key` of an object, when there is one.
pub open spec fn str_field(j: Json, key: Seq<char>) -> Option<Seq<char>> {
    match json_get(j, key) {
        Some(Json::Str(s)) => Some(s),
        _ => None,
    }
}

/// The flag under `key` of an object, when there is one.
pub open spec fn bool_field(j: Json, key: Seq<char>) -> Option<bool> {
    match json_get(j, key) {
        Some(Json::Bool(b)) => Some(b),
        _ => None,
    }
}

/// A copy of the string under `key` of an object, when there is one.
pub fn string_field(object: &JsonValue, key: &str) -> (r: Option<String>)
    ensures
        opt_view(r) == str_field(object@, key@),
{
    match object.get(key) {
        Some(v) => match v.as_str() {
            Some(s) => Some(s.to_owned()),
            None => None,
        },
        None => None,
    }
}

/// The flag under `key` of an object, when there is one.
pub fn flag_field(object: &JsonValue, key: &str) -> (r: Option<bool>)
    ensures
        r == bool_field(object@, key@),
{
    match object.get(key) {
        Some(v) => v.as_bool(),
        None => None,
    }
}

/// The index of the first entry under `key`.
pub open spec fn key_index(e: Seq<(Seq<char>, Json)>, key: Seq<char>) -> Option<int>
    decreases e.len(),
{
    if e.len() == 0 {
        None
    } else if e[0].0 == key {
        Some(0)
    } else {
        match key_index(e.drop_first(), key) {
            Some(i) => Some(i + 1),
            None => None,
        }
    }
}

/// The first entry under `key` is the one `key_index` finds.
pub proof fn lemma_key_index(e: Seq<(Seq<char>, Json)>, key: Seq<char>, i: int)
    requires
        0 <= i < e.len(),
        e[i].0 == key,
        forall|j: int| 0 <= j < i ==> #[trigger] e[j].0 != key,
    ensures
        key_index(e, key) == Some(i),
    decreases i,
{
    if i > 0 {
        let d = e.drop_first();
        assert forall|j: int| 0 <= j < i - 1 implies #[trigger] d[j].0 != key by {
            assert(d[j] == e[j + 1]);
        }
        lemma_key_index(d, key, i - 1);
    }
}

/// Without an entry under `key`, `key_index` finds none.
pub proof fn lemma_key_index_none(e: Seq<(Seq<char>, Json)>, key: Seq<char>)
    requires
        forall|j: int| 0 <= j < e.len() ==> #[trigger] e[j].0 != key,
    ensures
        key_index(e, key) is None,
    decreases e.len(),
{
    if e.len() > 0 {
        let d = e.drop_first();
        assert forall|j: int| 0 <= j < d.len() implies #[trigger] d[j].0 != key by {
            assert(d[j] == e[j + 1]);
        }
        lemma_key_index_none(d, key);
    }
}

/// The index of the first entry under `key` in an object's entries.
pub fn find_entry(entries: &Vec<(String, JsonValue)>, key: &str) -> (r: Option<usize>)
    ensures
        match r {
            Some(i) => i < entries@.len() && key_index(entries_view(entries@), key@) == Some(i as int),
            None => key_index(entries_view(entries@), key@) is None,
        },
{
    let ghost e = entries_view(entries@);
    proof { lemma_entries_view(entries@); }
    let mut i: usize = 0;
    while i < entries.len()
        invariant
            e == entries_view(entries@),
            e.len() == entries@.len(),
            forall|k: int| 0 <= k < entries@.len() ==> #[trigger] e[k] == (entries@[k].0@, entries@[k].1@),
            i <= entries@.len(),
            forall|j: int| 0 <= j < i ==> #[trigger] e[j].0 != key@,
        decreases entries@.len() - i,
    {
        if str_eq(entries[i].0.as_str(), key) {
            proof { lemma_key_index(e, key@, i as int); }
            return Some(i);
        }
        i = i + 1;
    }
    proof { lemma_key_index_none(e, key@); }
    None
}

/// What `key_index` finds is an entry under `key`, the first one.
pub proof fn lemma_key_index_found(e: Seq<(Seq<char>, Json)>, key: Seq<char>)
    ensures
        match key_index(e, key) {
            Some(i) => 0 <= i < e.len() && e[i].0 == key && forall|j: int| 0 <= j < i ==> #[trigger] e[j].0 != key,
            None => forall|j: int| 0 <= j < e.len() ==> #[trigger] e[j].0 != key,
        },
    decreases e.len(),
{
    if e.len() > 0 {
        let d = e.drop_first();
        lemma_key_index_found(d, key);
        match key_index(d, key) {
            Some(i) => {
                assert forall|j: int| 0 <= j < i + 1 && e[0].0 != key implies #[trigger] e[j].0 != key by {
                    if j > 0 {
                        assert(e[j] == d[j - 1]);
                    }
                }
            },
            None => {
                assert forall|j: int| 0 <= j < e.len() && e[0].0 != key implies #[trigger] e[j].0 != key by {
                    if j > 0 {
                        assert(e[j] == d[j - 1]);
                    }
                }
            },
        }
    }
}

/// The value under a key is that of the entry `key_index` finds.
pub proof fn lemma_lookup_key_index(e: Seq<(Seq<char>, Json)>, key: Seq<char>)
    ensures
        lookup(e, key) == match key_index(e, key) {
            Some(i) => Some(e[i].1),
            None => None::<Json>,
        },
    decreases e.len(),
{
    if e.len() > 0 && e[0].0 != key {
        let d = e.drop_first();
        lemma_lookup_key_index(d, key);
        lemma_key_index_found(d, key);
        match key_index(d, key) {
            Some(i) => {
                assert(e[i + 1] == d[i]);
            },
            None => {},
        }
    }
}

/// The value under a key in joined entries: that of the first part, else that of the second.
pub proof fn lemma_lookup_concat(a: Seq<(Seq<char>, Json)>, b: Seq<(Seq<char>, Json)>, key: Seq<char>)
    ensures
        lookup(a + b, key) == match lookup(a, key) {
            Some(v) => Some(v),
            None => lookup(b, key),
        },
    decreases a.len(),
{
    if a.len() > 0 {
        assert((a + b).drop_first() =~= a.drop_first() + b);
        assert((a + b)[0] == a[0]);
        lemma_lookup_concat(a.drop_first(), b, key);
    } else {
        assert(a + b =~= b);
    }
}

/// The value under a key in one entry.
pub proof fn lemma_lookup_single(key: Seq<char>, v: Json, k: Seq<char>)
    ensures
        lookup(seq![(key, v)], k) == if key == k {
            Some(v)
        } else {
            None
        },
{
    let s = seq![(key, v)];
    assert(s.len() == 1 && s[0] == (key, v));
    assert(s.drop_first() =~= Seq::<(Seq<char>, Json)>::empty());
    assert(lookup(s.drop_first(), k) is None);
}

/// The value under a key in the entry of an optional text.
pub proof fn lemma_lookup_opt_text(key: Seq<char>, value: Option<Seq<char>>, k: Seq<char>)
    ensures
        lookup(opt_text_entry(key, value), k) == if key == k {
            match value {
                Some(s) => Some(Json::Str(s)),
                None => None,
            }
        } else {
            None
        },
{
    if let Some(s) = value {
        lemma_lookup_single(key, Json::Str(s), k);
    }
}

/// The text of an option as a JSON string, when there is one.
pub open spec fn opt_json_text(o: Option<String>) -> Option<Json> {
    match o {
        Some(s) => Some(Json::Str(s@)),
        None => None,
    }
}

/// The entry of an optional string under `key` holds that string under that
/// key alone.
pub proof fn lemma_lookup_opt_str(key: Seq<char>, value: Option<String>, k: Seq<char>)
    ensures
        lookup(opt_str_entry(key, value), k) == if key == k { opt_json_text(value) } else { None },
{
    assert(opt_str_entry(key, value) == opt_text_entry(key, opt_view(value)));
    lemma_lookup_opt_text(key, opt_view(value), k);
}

/// One entry `key: text` when the option holds a text, none otherwise.
pub open spec fn opt_text_entry(key: Seq<char>, value: Option<Seq<char>>) -> Seq<(Seq<char>, Json)> {
    match value {
        Some(s) => seq![(key, Json::Str(s))],
        None => seq![],
    }
}

/// A copy of an object's entries.
pub fn clone_entries(e: &Vec<(String, JsonValue)>) -> (r: Vec<(String, JsonValue)>)
    ensures
        entries_view(r@) == entries_view(e@),
{
    let mut r: Vec<(String, JsonValue)> = Vec::new();
    let mut i: usize = 0;
    while i < e.len()
        invariant
            i <= e@.len(),
            r@.len() == i,
            forall|j: int| 0 <= j < i ==> (#[trigger] r@[j]).0@ == e@[j].0@ && r@[j].1@ == e@[j].1@,
        decreases e@.len() - i,
    {
        r.push((e[i].0.clone(), e[i].1.clone()));
        i = i + 1;
    }
    proof {
        lemma_entries_view(r@);
        lemma_entries_view(e@);
    }
    assert(entries_view(r@) =~= entries_view(e@));
    r
}

/// Append `key: value` to an object's entries.
pub fn push_entry(entries: &mut Vec<(String, JsonValue)>, key: &str, value: JsonValue)
    ensures
        entries_view(final(entries)@) == entries_view(old(entries)@).push((key@, value@)),
{
    let ghost v = value@;
    entries.push((key.to_owned(), value));
    proof {
        lemma_entries_view(entries@);
        lemma_entries_view(old(entries)@);
    }
    assert(entries_view(entries@) =~= entries_view(old(entries)@).push((key@, v)));
}

/// Append `key: value` to an object's entries when `value` holds a string.
pub fn push_opt_str(entries: &mut Vec<(String, JsonValue)>, key: &str, value: &Option<String>)
    ensures
        entries_view(final(entries)@) == entries_view(old(entries)@) + opt_str_entry(key@, *value),
{
    match value {
        Some(s) => {
            push_entry(entries, key, JsonValue::Str(s.clone()));
        },
        None => {},
    }
    assert(entries_view(entries@) =~= entries_view(old(entries)@) + opt_str_entry(key@, *value));
}

/// Append `key: [..]` to an object's entries when the list is not empty.
pub fn push_vec_str(entries: &mut Vec<(String, JsonValue)>, key: &str, value: &Vec<String>)
    ensures
        entries_view(final(entries)@) == entries_view(old(entries)@) + vec_str_entry(key@, value@),
{
    if value.len() > 0 {
        push_entry(entries, key, string_array(value));
    }
    assert(entries_view(entries@) =~= entries_view(old(entries)@) + vec_str_entry(key@, value@));
}

/// Append `key: n` to an object's entries when `value` holds a number.
pub fn push_opt_int(entries: &mut Vec<(String, JsonValue)>, key: &str, value: Option<i32>)
    ensures
        entries_view(final(entries)@) == entries_view(old(entries)@) + opt_int_entry(key@, value),
{
    match value {
        Some(n) => {
            push_entry(entries, key, JsonValue::Number(n as i64));
        },
        None => {},
    }
    assert(entries_view(entries@) =~= entries_view(old(entries)@) + opt_int_entry(key@, value));
}

/// A JSON object with the given entries.
pub fn object(entries: Vec<(String, JsonValue)>) -> (r: JsonValue)
    ensures
        r@ == Json::Object(entries_view(entries@)),
{
    JsonValue::Object(entries)
}

/// A JSON array holding each string of a list, in order.
pub fn string_array(v: &Vec<String>) -> (r: JsonValue)
    ensures
        r@ == str_array(strings_view(v@)),
{
    let mut items: Vec<JsonValue> = Vec::new();
    let mut i: usize = 0;
    while i < v.len()
        invariant
            i <= v@.len(),
            items@.len() == i,
            forall|j: int| 0 <= j < i ==> (#[trigger] items@[j])@ == Json::Str(v@[j]@),
        decreases v@.len() - i,
    {
        items.push(JsonValue::Str(v[i].clone()));
        i = i + 1;
    }
    proof {
        lemma_items_view(items@);
        assert(items_view(items@) =~= strings_view(v@).map_values(|t: Seq<char>| Json::Str(t)));
    }
    JsonValue::Array(items)
}

impl JsonValue {
    /// The value of the first entry under `key`, when this value is an object;
    /// `None` otherwise.
    pub fn get(&self, key: &str) -> (r: Option<&JsonValue>)
        ensures
            match self@ {
                Json::Object(entries) => match lookup(entries, key@) {
                    Some(v) => r matches Some(x) && x@ == v,
                    None => r is None,
                },
                _ => r is None,
            },
    {
        match self {
            JsonValue::Object(entries) => {
                let mut i: usize = 0;
                assert(self@ == Json::Object(entries_view(entries@)));
                proof { lemma_entries_view(entries@); }
                assert(entries_view(entries@).skip(0) =~= entries_view(entries@));
                while i < entries.len()
                    invariant
                        i <= entries@.len(),
                        self@ == Json::Object(entries_view(entries@)),
                        lookup(entries_view(entries@), key@) == lookup(entries_view(entries@).skip(i as int), key@),
                    decreases entries@.len() - i,
                {
                    proof {
                        lemma_entries_view(entries@);
                        let rest = entries_view(entries@).skip(i as int);
                        assert(rest.drop_first() =~= entries_view(entries@).skip(i + 1));
                        assert(rest[0] == (entries@[i as int].0@, entries@[i as int].1@));
                    }
                    if str_eq(entries[i].0.as_str(), key) {
                        proof {
                            let rest = entries_view(entries@).skip(i as int);
                            assert(rest[0].0 == key@);
                            assert(lookup(rest, key@) == Some(rest[0].1));
                        }
                        return Some(&entries[i].1);
                    }
                    i = i + 1;
                }
                assert(entries_view(entries@).skip(i as int).len() == 0);
                None
            },
            _ => None,
        }
    }

    /// This value is `null`.
    pub fn is_null(&self) -> (r: bool)
        ensures
            r == (self@ is Null),
    {
        match self {
            JsonValue::Null => true,
            _ => false,
        }
    }

    /// This value is an object.
    pub fn is_object(&self) -> (r: bool)
        ensures
            r == (self@ is Object),
    {
        match self {
            JsonValue::Object(_) => true,
            _ => false,
        }
    }

    /// The flag held by this value, when it is a boolean.
    pub fn as_bool(&self) -> (r: Option<bool>)
        ensures
            r == match self@ {
                Json::Bool(b) => Some(b),
                _ => None::<bool>,
            },
    {
        match self {
            JsonValue::Bool(b) => Some(*b),
            _ => None,
        }
    }

    /// The items held by this value, when it is an array.
    pub fn as_array(&self) -> (r: Option<&Vec<JsonValue>>)
        ensures
            match self@ {
                Json::Array(items) => r matches Some(v) && items_view(v@) == items,
                _ => r is None,
            },
    {
        match self {
            JsonValue::Array(items) => Some(items),
            _ => None,
        }
    }

    /// The string held by this value, when it is a string.
    pub fn as_str(&self) -> (r: Option<&str>)
        ensures
            match self@ {
                Json::Str(s) => r matches Some(x) && x@ == s,
                _ => r is None,
            },
    {
        match self {
            JsonValue::Str(s) => Some(s.as_str()),
            _ => None,
        }
    }
}

/// A copy of a list of JSON values.
pub fn clone_items(v: &Vec<JsonValue>) -> (r: Vec<JsonValue>)
    ensures
        items_view(r@) == items_view(v@),
{
    let mut r: Vec<JsonValue> = Vec::new();
    let mut i: usize = 0;
    while i < v.len()
        invariant
            i <= v@.len(),
            r@.len() == i,
            forall|j: int| 0 <= j < i ==> (#[trigger] r@[j])@ == v@[j]@,
        decreases v@.len() - i,
    {
        r.push(v[i].clone());
        i = i + 1;
    }
    proof {
        lemma_items_view(r@);
        lemma_items_view(v@);
    }
    assert(items_view(r@) =~= items_view(v@));
    r
}

impl Clone for JsonValue {
    fn clone(&self) -> (r: Self)
        ensures
            r@ == self@,
        decreases self,
    {
        match self {
            JsonValue::Null => JsonValue::Null,
            JsonValue::Bool(b) => JsonValue::Bool(*b),
            JsonValue::Number(n) => JsonValue::Number(*n),
            JsonValue::Str(s) => JsonValue::Str(s.clone()),
            JsonValue::Array(items) => {
                assert(decreases_to!(self => items@));
                let mut r: Vec<JsonValue> = Vec::new();
                let mut i: usize = 0;
                while i < items.len()
                    invariant
                        decreases_to!(self => items@),
                        i <= items@.len(),
                        r@.len() == i,
                        forall|j: int| 0 <= j < i ==> (#[trigger] r@[j])@ == items@[j]@,
                    decreases items@.len() - i,
                {
                    assert(decreases_to!(items@ => items@[i as int]));
                    r.push(items[i].clone());
                    i = i + 1;
                }
                proof {
                    lemma_items_view(r@);
                    lemma_items_view(items@);
                }
                assert(items_view(r@) =~= items_view(items@));
                JsonValue::Array(r)
            },
            JsonValue::Object(entries) => {
                assert(decreases_to!(self => entries@));
                let mut r: Vec<(String, JsonValue)> = Vec::new();
                let mut i: usize = 0;
                while i < entries.len()
                    invariant
                        decreases_to!(self => entries@),
                        i <= entries@.len(),
                        r@.len() == i,
                        forall|j: int| 0 <= j < i ==> (#[trigger] r@[j]).0@ == entries@[j].0@ && r@[j].1@ == entries@[j].1@,
                    decreases entries@.len() - i,
                {
                    assert(decreases_to!(entries@ => entries@[i as int]));
                    assert(decreases_to!(entries@[i as int] => entries@[i as int].1));
                    r.push((entries[i].0.clone(), entries[i].1.clone()));
                    i = i + 1;
                }
                proof {
                    lemma_entries_view(r@);
                    lemma_entries_view(entries@);
                }
                assert(entries_view(r@) =~= entries_view(entries@));
                JsonValue::Object(r)
            },
        }
    }
}

} // verus!
