//! Callbacks of rules: the action a rule takes, with the metadata it carries.

use vstd::prelude::*;
use crate::error::KnishIOError;
use crate::json::{
    Json, JsonValue, clone_entries, entries_view, find_entry, json_get, key_index, lemma_entries_view, lemma_key_index,
    lemma_key_index_found, lemma_key_index_none, lemma_lookup_concat, lemma_lookup_key_index, lemma_lookup_opt_text,
    lemma_lookup_single, lookup, object, opt_json_ref, opt_text_entry, push_entry, str_field, string_field,
};
use crate::keyed::distinct_keys;
use crate::rules::{FromJsonObject, RuleArgumentError, ToJsonObject};
use crate::text::{is_numeric, lower_case, numeric, opt_view, str_eq, strings_view, to_lower_case};

verus! {

/// The properties after setting `k` to `v`: in place when `k` is set already,
/// appended otherwise.
pub open spec fn meta_set(e: Seq<(Seq<char>, Json)>, k: Seq<char>, v: Json) -> Seq<(Seq<char>, Json)> {
    match key_index(e, k) {
        Some(i) => e.update(i, (k, v)),
        None => e.push((k, v)),
    }
}

/// The properties that setting each entry in turn gives.
pub open spec fn meta_fold(e: Seq<(Seq<char>, Json)>) -> Seq<(Seq<char>, Json)>
    decreases e.len(),
{
    if e.len() == 0 {
        Seq::empty()
    } else {
        meta_set(meta_fold(e.drop_last()), e.last().0, e.last().1)
    }
}

/// The properties read from a JSON value: those of an object, none otherwise.
pub open spec fn meta_of_json(j: Json) -> Seq<(Seq<char>, Json)> {
    match j {
        Json::Object(e) => meta_fold(e),
        _ => Seq::empty(),
    }
}

/// The legacy key of metadata: its `key` property when that is a string, else
/// the name of its first property.
pub open spec fn meta_key(e: Seq<(Seq<char>, Json)>) -> Option<Seq<char>> {
    match lookup(e, "key"@) {
        Some(Json::Str(s)) => Some(s),
        _ => if e.len() > 0 {
            Some(e[0].0)
        } else {
            None
        },
    }
}

/// The legacy value of metadata: its `value` property when that is a string,
/// else the value of its first property when that is a string.
pub open spec fn meta_value(e: Seq<(Seq<char>, Json)>) -> Option<Seq<char>> {
    match lookup(e, "value"@) {
        Some(Json::Str(s)) => Some(s),
        _ => if e.len() > 0 {
            match e[0].1 {
                Json::Str(s) => Some(s),
                _ => None,
            }
        } else {
            None
        },
    }
}

/// Setting a property keeps the keys distinct.
pub proof fn lemma_meta_set_distinct(e: Seq<(Seq<char>, Json)>, k: Seq<char>, v: Json)
    requires
        distinct_keys(e),
    ensures
        distinct_keys(meta_set(e, k, v)),
{
    lemma_key_index_found(e, k);
    let t = meta_set(e, k, v);
    match key_index(e, k) {
        Some(i) => {
            assert forall|a: int, b: int| 0 <= a < b < t.len() implies #[trigger] t[a].0 != #[trigger] t[b].0 by {
                assert(t[a].0 == e[a].0 && t[b].0 == e[b].0);
            }
        },
        None => {
            assert forall|a: int, b: int| 0 <= a < b < t.len() implies #[trigger] t[a].0 != #[trigger] t[b].0 by {
                if b < e.len() {
                    assert(t[a] == e[a] && t[b] == e[b]);
                } else {
                    assert(t[a] == e[a]);
                }
            }
        },
    }
}

/// Metadata of a callback: named properties holding any JSON value.
#[derive(Debug, PartialEq)]
pub struct Meta {
    properties: Vec<(String, JsonValue)>,
}

impl View for Meta {
    type V = Seq<(Seq<char>, Json)>;

    /// The properties, in the order they were first set.
    closed spec fn view(&self) -> Seq<(Seq<char>, Json)> {
        entries_view(self.properties@)
    }
}

impl Clone for Meta {
    fn clone(&self) -> (r: Self)
        ensures
            r@ == self@,
    {
        proof { use_type_invariant(self); }
        Meta { properties: clone_entries(&self.properties) }
    }
}

impl Meta {
    /// No two properties share a name.
    #[verifier::type_invariant]
    spec fn well_formed(self) -> bool {
        distinct_keys(entries_view(self.properties@))
    }

    /// Metadata with one string property.
    pub fn new(key: String, value: String) -> (m: Self)
        ensures
            m@ == seq![(key@, Json::Str(value@))],
    {
        let mut properties: Vec<(String, JsonValue)> = Vec::new();
        assert(entries_view(properties@) =~= Seq::<(Seq<char>, Json)>::empty());
        push_entry(&mut properties, key.as_str(), JsonValue::Str(value));
        Meta { properties }
    }

    /// Metadata without properties.
    pub fn empty() -> (m: Self)
        ensures
            m@ == Seq::<(Seq<char>, Json)>::empty(),
    {
        let properties: Vec<(String, JsonValue)> = Vec::new();
        assert(entries_view(properties@) =~= Seq::<(Seq<char>, Json)>::empty());
        Meta { properties }
    }

    /// Metadata with the properties of a JSON object, set in turn; none for any
    /// other value.
    pub fn from_object(object: &JsonValue) -> (r: Result<Self, KnishIOError>)
        ensures
            r matches Ok(m) && m@ == meta_of_json(object@),
    {
        let mut m = Self::empty();
        match object {
            JsonValue::Object(entries) => {
                let ghost e = entries_view(entries@);
                proof { lemma_entries_view(entries@); }
                let mut i: usize = 0;
                assert(e.take(0) =~= Seq::<(Seq<char>, Json)>::empty());
                while i < entries.len()
                    invariant
                        i <= entries@.len(),
                        e == entries_view(entries@),
                        e.len() == entries@.len(),
                        forall|j: int| 0 <= j < entries@.len() ==> #[trigger] e[j] == (entries@[j].0@, entries@[j].1@),
                        m@ == meta_fold(e.take(i as int)),
                    decreases entries@.len() - i,
                {
                    proof {
                        assert(e.take(i + 1).drop_last() =~= e.take(i as int));
                        assert(e.take(i + 1).last() == e[i as int]);
                    }
                    m.set_property(entries[i].0.clone(), entries[i].1.clone());
                    i = i + 1;
                }
                assert(e.take(i as int) =~= e);
                Ok(m)
            },
            _ => Ok(m),
        }
    }

    /// Set a property, in place when it is set already.
    pub fn set_property(&mut self, key: String, value: JsonValue)
        ensures
            final(self)@ == meta_set(old(self)@, key@, value@),
    {
        proof { use_type_invariant(&*self); }
        let mut props: Vec<(String, JsonValue)> = Vec::new();
        std::mem::swap(&mut props, &mut self.properties);
        let ghost e = entries_view(props@);
        let ghost k = key@;
        let ghost v = value@;
        proof {
            lemma_entries_view(props@);
            lemma_key_index_found(e, k);
            lemma_meta_set_distinct(e, k, v);
        }
        match find_entry(&props, key.as_str()) {
            Some(i) => {
                props.set(i, (key, value));
            },
            None => {
                props.push((key, value));
            },
        }
        proof { lemma_entries_view(props@); }
        assert(entries_view(props@) =~= meta_set(e, k, v));
        self.properties = props;
    }

    /// The value of a property, if set.
    pub fn get_property(&self, key: &str) -> (r: Option<&JsonValue>)
        ensures
            opt_json_ref(r) == lookup(self@, key@),
    {
        proof {
            lemma_entries_view(self.properties@);
            lemma_lookup_key_index(self@, key@);
            lemma_key_index_found(self@, key@);
        }
        match find_entry(&self.properties, key) {
            Some(i) => Some(&self.properties[i].1),
            None => None,
        }
    }

    /// Remove a property, handing back its value.
    pub fn remove_property(&mut self, key: &str) -> (r: Option<JsonValue>)
        ensures
            match key_index(old(self)@, key@) {
                Some(i) => r matches Some(v) && v@ == old(self)@[i].1 && final(self)@ == old(self)@.remove(i),
                None => r is None && final(self)@ == old(self)@,
            },
    {
        proof { use_type_invariant(&*self); }
        let mut props: Vec<(String, JsonValue)> = Vec::new();
        std::mem::swap(&mut props, &mut self.properties);
        let ghost e = entries_view(props@);
        proof {
            lemma_entries_view(props@);
            lemma_key_index_found(e, key@);
        }
        let r = match find_entry(&props, key) {
            Some(i) => {
                let (_, v) = props.remove(i);
                proof { lemma_entries_view(props@); }
                assert(entries_view(props@) =~= e.remove(i as int));
                assert forall|a: int, b: int| 0 <= a < b < e.len() - 1 implies #[trigger] entries_view(props@)[a].0
                    != #[trigger] entries_view(props@)[b].0 by {
                    let x = if a < i { a } else { a + 1 };
                    let y = if b < i { b } else { b + 1 };
                    assert(entries_view(props@)[a] == e[x] && entries_view(props@)[b] == e[y]);
                }
                Some(v)
            },
            None => None,
        };
        self.properties = props;
        r
    }

    /// Whether a property is set.
    pub fn has_property(&self, key: &str) -> (r: bool)
        ensures
            r == (lookup(self@, key@) is Some),
    {
        self.get_property(key).is_some()
    }

    /// The names of the properties, in order.
    pub fn keys(&self) -> (r: Vec<String>)
        ensures
            strings_view(r@) == self@.map_values(|p: (Seq<char>, Json)| p.0),
    {
        proof { lemma_entries_view(self.properties@); }
        let mut r: Vec<String> = Vec::new();
        let mut i: usize = 0;
        while i < self.properties.len()
            invariant
                i <= self.properties@.len(),
                self@.len() == self.properties@.len(),
                forall|j: int| 0 <= j < self.properties@.len() ==> #[trigger] self@[j] == (
                    self.properties@[j].0@,
                    self.properties@[j].1@,
                ),
                r@.len() == i,
                forall|j: int| 0 <= j < i ==> (#[trigger] r@[j])@ == self.properties@[j].0@,
            decreases self.properties@.len() - i,
        {
            r.push(self.properties[i].0.clone());
            i = i + 1;
        }
        assert(strings_view(r@) =~= self@.map_values(|p: (Seq<char>, Json)| p.0));
        r
    }

    /// Whether no property is set.
    pub fn is_empty(&self) -> (r: bool)
        ensures
            r == (self@.len() == 0),
    {
        proof { lemma_entries_view(self.properties@); }
        self.properties.len() == 0
    }

    /// Remove every property.
    pub fn clear(&mut self)
        ensures
            final(self)@ == Seq::<(Seq<char>, Json)>::empty(),
    {
        self.properties = Vec::new();
        assert(entries_view(self.properties@) =~= Seq::<(Seq<char>, Json)>::empty());
    }

    /// The JSON object of the properties.
    pub fn to_json(&self) -> (r: JsonValue)
        ensures
            r@ == Json::Object(self@),
    {
        object(clone_entries(&self.properties))
    }

    /// The legacy key: the `key` property when it is a string, else the name of
    /// the first property.
    pub fn key(&self) -> (r: Option<String>)
        ensures
            opt_view(r) == meta_key(self@),
    {
        proof { lemma_entries_view(self.properties@); }
        match self.get_property("key") {
            Some(JsonValue::Str(s)) => Some(s.clone()),
            _ => if self.properties.len() > 0 {
                Some(self.properties[0].0.clone())
            } else {
                None
            },
        }
    }

    /// The legacy value: the `value` property when it is a string, else the
    /// value of the first property when that is a string.
    pub fn value(&self) -> (r: Option<String>)
        ensures
            opt_view(r) == meta_value(self@),
    {
        proof { lemma_entries_view(self.properties@); }
        match self.get_property("value") {
            Some(JsonValue::Str(s)) => Some(s.clone()),
            _ => if self.properties.len() > 0 {
                match &self.properties[0].1 {
                    JsonValue::Str(s) => Some(s.clone()),
                    _ => None,
                }
            } else {
                None
            },
        }
    }
}

/// Reading back the JSON object of properties with distinct names gives them again.
pub proof fn law_meta_json_round_trip(m: Seq<(Seq<char>, Json)>)
    requires
        distinct_keys(m),
    ensures
        meta_of_json(Json::Object(m)) == m,
    decreases m.len(),
{
    if m.len() > 0 {
        let d = m.drop_last();
        assert(distinct_keys(d)) by {
            assert forall|a: int, b: int| 0 <= a < b < d.len() implies #[trigger] d[a].0 != #[trigger] d[b].0 by {
                assert(d[a] == m[a] && d[b] == m[b]);
            }
        }
        law_meta_json_round_trip(d);
        lemma_key_index_found(d, m.last().0);
        if let Some(i) = key_index(d, m.last().0) {
            assert(d[i] == m[i]);
            assert(m[i].0 == m[m.len() - 1].0);
        }
        assert(d.push(m.last()) =~= m);
    }
}

/// A property reads back as it was set, and setting it leaves every other
/// property as it was.
pub proof fn law_meta_get_after_set(e: Seq<(Seq<char>, Json)>, k: Seq<char>, v: Json, other: Seq<char>)
    requires
        distinct_keys(e),
        other != k,
    ensures
        lookup(meta_set(e, k, v), k) == Some(v),
        lookup(meta_set(e, k, v), other) == lookup(e, other),
{
    let t = meta_set(e, k, v);
    lemma_key_index_found(e, k);
    lemma_key_index_found(e, other);
    lemma_lookup_key_index(t, k);
    lemma_lookup_key_index(t, other);
    lemma_lookup_key_index(e, other);
    let n = e.len() as int;
    let at: int = match key_index(e, k) {
        Some(i) => i,
        None => n,
    };
    assert(t[at] == (k, v));
    assert forall|x: int| 0 <= x < t.len() && x != at implies #[trigger] t[x] == e[x] by {}
    assert forall|x: int| 0 <= x < at implies #[trigger] t[x].0 != k by {
        assert(t[x] == e[x]);
    }
    lemma_key_index(t, k, at);
    match key_index(e, other) {
        Some(j) => {
            assert(j != at);
            assert forall|x: int| 0 <= x < j implies #[trigger] t[x].0 != other by {
                if x != at {
                    assert(t[x] == e[x]);
                }
            }
            lemma_key_index(t, other, j);
        },
        None => {
            assert forall|x: int| 0 <= x < t.len() implies #[trigger] t[x].0 != other by {
                if x != at {
                    assert(t[x] == e[x]);
                }
            }
            lemma_key_index_none(t, other);
        },
    }
}

/// The message of the error for a callback without an action.
pub open spec fn missing_action_message() -> Seq<char> {
    "Callback structure violated, missing mandatory \"action\" parameter."@
}

/// The message of the error for an amount that is not a number.
pub open spec fn amount_message() -> Seq<char> {
    "Parameter amount should be a string containing numbers"@
}

/// What is wrong with a callback's action and amount, if anything: the action
/// must not be empty, and an amount must be a number.
pub open spec fn callback_problem(action: Seq<char>, amount: Option<Seq<char>>) -> Option<Seq<char>> {
    if action.len() == 0 {
        Some(missing_action_message())
    } else if amount matches Some(a) && !numeric(a) {
        Some(amount_message())
    } else {
        None
    }
}

/// A callback as values: its action, and each optional part.
pub struct CallbackView {
    pub action: Seq<char>,
    pub meta_type: Option<Seq<char>>,
    pub meta_id: Option<Seq<char>>,
    pub meta: Option<Seq<(Seq<char>, Json)>>,
    pub address: Option<Seq<char>>,
    pub token: Option<Seq<char>>,
    pub amount: Option<Seq<char>>,
    pub comparison: Option<Seq<char>>,
}

/// The metadata that a JSON object carries under `meta`, if any.
pub open spec fn meta_field(j: Json) -> Option<Seq<(Seq<char>, Json)>> {
    match json_get(j, "meta"@) {
        Some(m) => Some(meta_of_json(m)),
        None => None,
    }
}

/// A callback as read from JSON, or the message of the error that makes it
/// unreadable.
pub open spec fn callback_read(j: Json) -> Result<CallbackView, Seq<char>> {
    match str_field(j, "action"@) {
        None => Err("Missing or invalid 'action' field"@),
        Some(a) => match callback_problem(a, str_field(j, "amount"@)) {
            Some(m) => Err(m),
            None => Ok(
                CallbackView {
                    action: a,
                    meta_type: str_field(j, "metaType"@),
                    meta_id: str_field(j, "metaId"@),
                    meta: meta_field(j),
                    address: str_field(j, "address"@),
                    token: str_field(j, "token"@),
                    amount: str_field(j, "amount"@),
                    comparison: str_field(j, "comparison"@),
                },
            ),
        },
    }
}

/// The JSON form of a callback: its action, then each part that is set.
pub open spec fn callback_json(c: CallbackView) -> Json {
    Json::Object(
        seq![("action"@, Json::Str(c.action))]
            + opt_text_entry("metaType"@, c.meta_type)
            + opt_text_entry("metaId"@, c.meta_id)
            + match c.meta {
                Some(m) => seq![("meta"@, Json::Object(m))],
                None => seq![],
            }
            + opt_text_entry("address"@, c.address)
            + opt_text_entry("token"@, c.token)
            + opt_text_entry("amount"@, c.amount)
            + opt_text_entry("comparison"@, c.comparison),
    )
}

/// A callback with an action, a numeric amount if any, and metadata with
/// distinct names reads back from its JSON form.
pub proof fn law_callback_json_round_trip(c: CallbackView)
    requires
        callback_problem(c.action, c.amount) is None,
        c.meta matches Some(m) ==> distinct_keys(m),
    ensures
        callback_read(callback_json(c)) == Ok::<CallbackView, Seq<char>>(c),
{
    reveal_strlit("action");
    reveal_strlit("metaType");
    reveal_strlit("metaId");
    reveal_strlit("meta");
    reveal_strlit("address");
    reveal_strlit("token");
    reveal_strlit("amount");
    reveal_strlit("comparison");
    assert("action"@.len() == 6);
    assert("metaType"@.len() == 8);
    assert("metaId"@.len() == 6);
    assert("meta"@.len() == 4);
    assert("address"@.len() == 7);
    assert("token"@.len() == 5);
    assert("amount"@.len() == 6);
    assert("comparison"@.len() == 10);
    assert("action"@[0] != "metaId"@[0] && "action"@[1] != "amount"@[1] && "metaId"@[0] != "amount"@[0]);
    let p0: Seq<(Seq<char>, Json)> = seq![("action"@, Json::Str(c.action))];
    let p1: Seq<(Seq<char>, Json)> = opt_text_entry("metaType"@, c.meta_type);
    let p2: Seq<(Seq<char>, Json)> = opt_text_entry("metaId"@, c.meta_id);
    let p3: Seq<(Seq<char>, Json)> = match c.meta { Some(m) => seq![("meta"@, Json::Object(m))], None => seq![] };
    let p4: Seq<(Seq<char>, Json)> = opt_text_entry("address"@, c.address);
    let p5: Seq<(Seq<char>, Json)> = opt_text_entry("token"@, c.token);
    let p6: Seq<(Seq<char>, Json)> = opt_text_entry("amount"@, c.amount);
    let p7: Seq<(Seq<char>, Json)> = opt_text_entry("comparison"@, c.comparison);
    let a0 = p0;
    let a1 = a0 + p1;
    let a2 = a1 + p2;
    let a3 = a2 + p3;
    let a4 = a3 + p4;
    let a5 = a4 + p5;
    let a6 = a5 + p6;
    let a7 = a6 + p7;
    assert(callback_json(c) == Json::Object(a7));
    lemma_lookup_single("action"@, Json::Str(c.action), "action"@);
    lemma_lookup_opt_text("metaType"@, c.meta_type, "action"@);
    lemma_lookup_opt_text("metaId"@, c.meta_id, "action"@);
    lemma_lookup_opt_text("address"@, c.address, "action"@);
    lemma_lookup_opt_text("token"@, c.token, "action"@);
    lemma_lookup_opt_text("amount"@, c.amount, "action"@);
    lemma_lookup_opt_text("comparison"@, c.comparison, "action"@);
    if let Some(m) = c.meta {
        lemma_lookup_single("meta"@, Json::Object(m), "action"@);
    }
    lemma_lookup_single("action"@, Json::Str(c.action), "metaType"@);
    lemma_lookup_opt_text("metaType"@, c.meta_type, "metaType"@);
    lemma_lookup_opt_text("metaId"@, c.meta_id, "metaType"@);
    lemma_lookup_opt_text("address"@, c.address, "metaType"@);
    lemma_lookup_opt_text("token"@, c.token, "metaType"@);
    lemma_lookup_opt_text("amount"@, c.amount, "metaType"@);
    lemma_lookup_opt_text("comparison"@, c.comparison, "metaType"@);
    if let Some(m) = c.meta {
        lemma_lookup_single("meta"@, Json::Object(m), "metaType"@);
    }
    lemma_lookup_single("action"@, Json::Str(c.action), "metaId"@);
    lemma_lookup_opt_text("metaType"@, c.meta_type, "metaId"@);
    lemma_lookup_opt_text("metaId"@, c.meta_id, "metaId"@);
    lemma_lookup_opt_text("address"@, c.address, "metaId"@);
    lemma_lookup_opt_text("token"@, c.token, "metaId"@);
    lemma_lookup_opt_text("amount"@, c.amount, "metaId"@);
    lemma_lookup_opt_text("comparison"@, c.comparison, "metaId"@);
    if let Some(m) = c.meta {
        lemma_lookup_single("meta"@, Json::Object(m), "metaId"@);
    }
    lemma_lookup_single("action"@, Json::Str(c.action), "meta"@);
    lemma_lookup_opt_text("metaType"@, c.meta_type, "meta"@);
    lemma_lookup_opt_text("metaId"@, c.meta_id, "meta"@);
    lemma_lookup_opt_text("address"@, c.address, "meta"@);
    lemma_lookup_opt_text("token"@, c.token, "meta"@);
    lemma_lookup_opt_text("amount"@, c.amount, "meta"@);
    lemma_lookup_opt_text("comparison"@, c.comparison, "meta"@);
    if let Some(m) = c.meta {
        lemma_lookup_single("meta"@, Json::Object(m), "meta"@);
    }
    lemma_lookup_single("action"@, Json::Str(c.action), "address"@);
    lemma_lookup_opt_text("metaType"@, c.meta_type, "address"@);
    lemma_lookup_opt_text("metaId"@, c.meta_id, "address"@);
    lemma_lookup_opt_text("address"@, c.address, "address"@);
    lemma_lookup_opt_text("token"@, c.token, "address"@);
    lemma_lookup_opt_text("amount"@, c.amount, "address"@);
    lemma_lookup_opt_text("comparison"@, c.comparison, "address"@);
    if let Some(m) = c.meta {
        lemma_lookup_single("meta"@, Json::Object(m), "address"@);
    }
    lemma_lookup_single("action"@, Json::Str(c.action), "token"@);
    lemma_lookup_opt_text("metaType"@, c.meta_type, "token"@);
    lemma_lookup_opt_text("metaId"@, c.meta_id, "token"@);
    lemma_lookup_opt_text("address"@, c.address, "token"@);
    lemma_lookup_opt_text("token"@, c.token, "token"@);
    lemma_lookup_opt_text("amount"@, c.amount, "token"@);
    lemma_lookup_opt_text("comparison"@, c.comparison, "token"@);
    if let Some(m) = c.meta {
        lemma_lookup_single("meta"@, Json::Object(m), "token"@);
    }
    lemma_lookup_single("action"@, Json::Str(c.action), "amount"@);
    lemma_lookup_opt_text("metaType"@, c.meta_type, "amount"@);
    lemma_lookup_opt_text("metaId"@, c.meta_id, "amount"@);
    lemma_lookup_opt_text("address"@, c.address, "amount"@);
    lemma_lookup_opt_text("token"@, c.token, "amount"@);
    lemma_lookup_opt_text("amount"@, c.amount, "amount"@);
    lemma_lookup_opt_text("comparison"@, c.comparison, "amount"@);
    if let Some(m) = c.meta {
        lemma_lookup_single("meta"@, Json::Object(m), "amount"@);
    }
    lemma_lookup_single("action"@, Json::Str(c.action), "comparison"@);
    lemma_lookup_opt_text("metaType"@, c.meta_type, "comparison"@);
    lemma_lookup_opt_text("metaId"@, c.meta_id, "comparison"@);
    lemma_lookup_opt_text("address"@, c.address, "comparison"@);
    lemma_lookup_opt_text("token"@, c.token, "comparison"@);
    lemma_lookup_opt_text("amount"@, c.amount, "comparison"@);
    lemma_lookup_opt_text("comparison"@, c.comparison, "comparison"@);
    if let Some(m) = c.meta {
        lemma_lookup_single("meta"@, Json::Object(m), "comparison"@);
    }
    lemma_lookup_concat(a0, p1, "action"@);
    lemma_lookup_concat(a1, p2, "action"@);
    lemma_lookup_concat(a2, p3, "action"@);
    lemma_lookup_concat(a3, p4, "action"@);
    lemma_lookup_concat(a4, p5, "action"@);
    lemma_lookup_concat(a5, p6, "action"@);
    lemma_lookup_concat(a6, p7, "action"@);
    lemma_lookup_concat(a0, p1, "metaType"@);
    lemma_lookup_concat(a1, p2, "metaType"@);
    lemma_lookup_concat(a2, p3, "metaType"@);
    lemma_lookup_concat(a3, p4, "metaType"@);
    lemma_lookup_concat(a4, p5, "metaType"@);
    lemma_lookup_concat(a5, p6, "metaType"@);
    lemma_lookup_concat(a6, p7, "metaType"@);
    lemma_lookup_concat(a0, p1, "metaId"@);
    lemma_lookup_concat(a1, p2, "metaId"@);
    lemma_lookup_concat(a2, p3, "metaId"@);
    lemma_lookup_concat(a3, p4, "metaId"@);
    lemma_lookup_concat(a4, p5, "metaId"@);
    lemma_lookup_concat(a5, p6, "metaId"@);
    lemma_lookup_concat(a6, p7, "metaId"@);
    lemma_lookup_concat(a0, p1, "meta"@);
    lemma_lookup_concat(a1, p2, "meta"@);
    lemma_lookup_concat(a2, p3, "meta"@);
    lemma_lookup_concat(a3, p4, "meta"@);
    lemma_lookup_concat(a4, p5, "meta"@);
    lemma_lookup_concat(a5, p6, "meta"@);
    lemma_lookup_concat(a6, p7, "meta"@);
    lemma_lookup_concat(a0, p1, "address"@);
    lemma_lookup_concat(a1, p2, "address"@);
    lemma_lookup_concat(a2, p3, "address"@);
    lemma_lookup_concat(a3, p4, "address"@);
    lemma_lookup_concat(a4, p5, "address"@);
    lemma_lookup_concat(a5, p6, "address"@);
    lemma_lookup_concat(a6, p7, "address"@);
    lemma_lookup_concat(a0, p1, "token"@);
    lemma_lookup_concat(a1, p2, "token"@);
    lemma_lookup_concat(a2, p3, "token"@);
    lemma_lookup_concat(a3, p4, "token"@);
    lemma_lookup_concat(a4, p5, "token"@);
    lemma_lookup_concat(a5, p6, "token"@);
    lemma_lookup_concat(a6, p7, "token"@);
    lemma_lookup_concat(a0, p1, "amount"@);
    lemma_lookup_concat(a1, p2, "amount"@);
    lemma_lookup_concat(a2, p3, "amount"@);
    lemma_lookup_concat(a3, p4, "amount"@);
    lemma_lookup_concat(a4, p5, "amount"@);
    lemma_lookup_concat(a5, p6, "amount"@);
    lemma_lookup_concat(a6, p7, "amount"@);
    lemma_lookup_concat(a0, p1, "comparison"@);
    lemma_lookup_concat(a1, p2, "comparison"@);
    lemma_lookup_concat(a2, p3, "comparison"@);
    lemma_lookup_concat(a3, p4, "comparison"@);
    lemma_lookup_concat(a4, p5, "comparison"@);
    lemma_lookup_concat(a5, p6, "comparison"@);
    lemma_lookup_concat(a6, p7, "comparison"@);
    if let Some(m) = c.meta {
        law_meta_json_round_trip(m);
    }
    assert(str_field(callback_json(c), "action"@) == Some(c.action));
    assert(str_field(callback_json(c), "metaType"@) == c.meta_type);
    assert(str_field(callback_json(c), "metaId"@) == c.meta_id);
    assert(meta_field(callback_json(c)) == c.meta);
    assert(str_field(callback_json(c), "address"@) == c.address);
    assert(str_field(callback_json(c), "token"@) == c.token);
    assert(str_field(callback_json(c), "amount"@) == c.amount);
    assert(str_field(callback_json(c), "comparison"@) == c.comparison);
}

/// Whether an action is of a kind, by Unicode lower case.
pub open spec fn action_is(action: Seq<char>, kind: Seq<char>) -> bool {
    lower_case(action) == lower_case(kind)
}

/// The action a rule takes, with its metadata.
#[derive(Debug, Clone, PartialEq)]
pub struct Callback {
    /// The action to perform
    pub action: String,
    /// Metadata type
    pub meta_type: Option<String>,
    /// Metadata identifier
    pub meta_id: Option<String>,
    /// Metadata
    pub meta: Option<Meta>,
    /// Address
    pub address: Option<String>,
    /// Token slug
    pub token: Option<String>,
    /// Amount, as a decimal number
    pub amount: Option<String>,
    /// Comparison operator
    pub comparison: Option<String>,
}

impl View for Callback {
    type V = CallbackView;

    open spec fn view(&self) -> CallbackView {
        CallbackView {
            action: self.action@,
            meta_type: opt_view(self.meta_type),
            meta_id: opt_view(self.meta_id),
            meta: match self.meta {
                Some(m) => Some(m@),
                None => None,
            },
            address: opt_view(self.address),
            token: opt_view(self.token),
            amount: opt_view(self.amount),
            comparison: opt_view(self.comparison),
        }
    }
}

/// What is wrong with an action and an amount, if anything.
fn check_callback(action: &String, amount: &Option<String>) -> (r: Option<KnishIOError>)
    ensures
        match callback_problem(action@, opt_view(*amount)) {
            Some(m) => r matches Some(KnishIOError::Custom(t)) && t@ == m,
            None => r is None,
        },
{
    if action.as_str().is_empty() {
        return Some(KnishIOError::from(
            RuleArgumentError::new("Callback structure violated, missing mandatory \"action\" parameter."),
        ));
    }
    match amount {
        Some(a) => if !is_numeric(a.as_str()) {
            Some(KnishIOError::from(RuleArgumentError::new("Parameter amount should be a string containing numbers")))
        } else {
            None
        },
        None => None,
    }
}

/// Append `key: text` when the option holds a text.
fn push_opt_text(entries: &mut Vec<(String, JsonValue)>, key: &str, value: &Option<String>)
    ensures
        entries_view(final(entries)@) == entries_view(old(entries)@) + opt_text_entry(key@, opt_view(*value)),
{
    match value {
        Some(s) => push_entry(entries, key, JsonValue::Str(s.clone())),
        None => {},
    }
    assert(entries_view(entries@) =~= entries_view(old(entries)@) + opt_text_entry(key@, opt_view(*value)));
}

impl Callback {
    /// A callback of the given parts; the action must not be empty and an amount
    /// must be a decimal number.
    pub fn new(
        action: String,
        meta_type: Option<String>,
        meta_id: Option<String>,
        meta: Option<Meta>,
        address: Option<String>,
        token: Option<String>,
        amount: Option<String>,
        comparison: Option<String>,
    ) -> (r: Result<Self, KnishIOError>)
        ensures
            match r {
                Ok(c) => callback_problem(action@, opt_view(amount)) is None && c == (Callback {
                    action,
                    meta_type,
                    meta_id,
                    meta,
                    address,
                    token,
                    amount,
                    comparison,
                }),
                Err(e) => callback_problem(action@, opt_view(amount)) matches Some(m) && e matches KnishIOError::Custom(t)
                    && t@ == m,
            },
    {
        match check_callback(&action, &amount) {
            Some(e) => Err(e),
            None => Ok(Callback { action, meta_type, meta_id, meta, address, token, amount, comparison }),
        }
    }

    /// Set the comparison operator.
    pub fn set_comparison(&mut self, comparison: String)
        ensures
            *final(self) == (Callback { comparison: Some(comparison), ..*old(self) }),
    {
        self.comparison = Some(comparison);
    }

    /// Set the amount, which must be a decimal number; refused otherwise, with
    /// the callback unchanged.
    pub fn set_amount(&mut self, amount: String) -> (r: Result<(), KnishIOError>)
        ensures
            numeric(amount@) ==> r is Ok && *final(self) == (Callback { amount: Some(amount), ..*old(self) }),
            !numeric(amount@) ==> (r matches Err(KnishIOError::Custom(t)) && t@ == amount_message())
                && *final(self) == *old(self),
    {
        if !is_numeric(amount.as_str()) {
            return Err(KnishIOError::from(RuleArgumentError::new("Parameter amount should be a string containing numbers")));
        }
        self.amount = Some(amount);
        Ok(())
    }

    /// Set the token.
    pub fn set_token(&mut self, token: String)
        ensures
            *final(self) == (Callback { token: Some(token), ..*old(self) }),
    {
        self.token = Some(token);
    }

    /// Set the address.
    pub fn set_address(&mut self, address: String)
        ensures
            *final(self) == (Callback { address: Some(address), ..*old(self) }),
    {
        self.address = Some(address);
    }

    /// Set the metadata.
    pub fn set_meta(&mut self, meta: Meta)
        ensures
            *final(self) == (Callback { meta: Some(meta), ..*old(self) }),
    {
        self.meta = Some(meta);
    }

    /// Set the metadata type.
    pub fn set_meta_type(&mut self, meta_type: String)
        ensures
            *final(self) == (Callback { meta_type: Some(meta_type), ..*old(self) }),
    {
        self.meta_type = Some(meta_type);
    }

    /// Set the metadata identifier.
    pub fn set_meta_id(&mut self, meta_id: String)
        ensures
            *final(self) == (Callback { meta_id: Some(meta_id), ..*old(self) }),
    {
        self.meta_id = Some(meta_id);
    }

    /// A callback read from a JSON object: a string `action`, and each optional
    /// part that is a string (`meta` is any value); refused as `callback_read` says.
    pub fn from_object(object: &JsonValue) -> (r: Result<Self, KnishIOError>)
        ensures
            match r {
                Ok(c) => callback_read(object@) == Ok::<CallbackView, Seq<char>>(c@),
                Err(e) => callback_read(object@) matches Err(m) && e matches KnishIOError::Custom(t) && t@ == m,
            },
    {
        let action = match string_field(object, "action") {
            Some(a) => a,
            None => {
                return Err(KnishIOError::from(RuleArgumentError::new("Missing or invalid 'action' field")));
            },
        };
        let meta_type = string_field(object, "metaType");
        let meta_id = string_field(object, "metaId");
        let meta = match object.get("meta") {
            Some(m) => match Meta::from_object(m) {
                Ok(x) => Some(x),
                Err(e) => {
                    return Err(e);
                },
            },
            None => None,
        };
        let address = string_field(object, "address");
        let token = string_field(object, "token");
        let amount = string_field(object, "amount");
        let comparison = string_field(object, "comparison");
        Self::new(action, meta_type, meta_id, meta, address, token, amount, comparison)
    }

    /// The JSON form of the callback.
    pub fn to_json(&self) -> (r: JsonValue)
        ensures
            r@ == callback_json(self@),
    {
        let mut e: Vec<(String, JsonValue)> = Vec::new();
        assert(entries_view(e@) =~= Seq::<(Seq<char>, Json)>::empty());
        push_entry(&mut e, "action", JsonValue::Str(self.action.clone()));
        push_opt_text(&mut e, "metaType", &self.meta_type);
        push_opt_text(&mut e, "metaId", &self.meta_id);
        let ghost before_meta = entries_view(e@);
        match &self.meta {
            Some(m) => push_entry(&mut e, "meta", m.to_json()),
            None => {},
        }
        let ghost after_meta = entries_view(e@);
        push_opt_text(&mut e, "address", &self.address);
        push_opt_text(&mut e, "token", &self.token);
        push_opt_text(&mut e, "amount", &self.amount);
        push_opt_text(&mut e, "comparison", &self.comparison);
        proof {
            assert(after_meta =~= before_meta + match self@.meta {
                Some(m) => seq![("meta"@, Json::Object(m))],
                None => seq![],
            });
        }
        assert(Json::Object(entries_view(e@)) =~= callback_json(self@));
        object(e)
    }

    /// Whether the action is a rejection.
    pub fn is_reject(&self) -> (r: bool)
        ensures
            r == action_is(self.action@, "reject"@),
    {
        self.is_action("reject")
    }

    /// Whether the callback sets metadata: a `meta` action with a meta type,
    /// a meta identifier and metadata.
    pub fn is_meta(&self) -> (r: bool)
        ensures
            r == (self.meta_type is Some && self.meta_id is Some && self.meta is Some
                && action_is(self.action@, "meta"@)),
    {
        self.meta_type.is_some() && self.meta_id.is_some() && self.meta.is_some() && self.is_action("meta")
    }

    /// Whether the callback collects: a `collect` action with an address, a
    /// token, an amount and a comparison.
    pub fn is_collect(&self) -> (r: bool)
        ensures
            r == (self.address is Some && self.token is Some && self.amount is Some && self.comparison is Some
                && action_is(self.action@, "collect"@)),
    {
        self.address.is_some() && self.token.is_some() && self.amount.is_some() && self.comparison.is_some()
            && self.is_action("collect")
    }

    /// Whether the callback buffers: a `buffer` action with an address, a
    /// token, an amount and a comparison.
    pub fn is_buffer(&self) -> (r: bool)
        ensures
            r == (self.address is Some && self.token is Some && self.amount is Some && self.comparison is Some
                && action_is(self.action@, "buffer"@)),
    {
        self.address.is_some() && self.token.is_some() && self.amount.is_some() && self.comparison.is_some()
            && self.is_action("buffer")
    }

    /// Whether the callback remits: a `remit` action with a token and an amount.
    pub fn is_remit(&self) -> (r: bool)
        ensures
            r == (self.token is Some && self.amount is Some && action_is(self.action@, "remit"@)),
    {
        self.token.is_some() && self.amount.is_some() && self.is_action("remit")
    }

    /// Whether the callback burns: a `burn` action with a token, an amount and
    /// a comparison.
    pub fn is_burn(&self) -> (r: bool)
        ensures
            r == (self.token is Some && self.amount is Some && self.comparison is Some
                && action_is(self.action@, "burn"@)),
    {
        self.token.is_some() && self.amount.is_some() && self.comparison.is_some() && self.is_action("burn")
    }

    /// Whether the action is of a kind, by Unicode lower case.
    fn is_action(&self, action_type: &str) -> (r: bool)
        ensures
            r == action_is(self.action@, action_type@),
    {
        let a = to_lower_case(self.action.as_str());
        let b = to_lower_case(action_type);
        str_eq(a.as_str(), b.as_str())
    }
}

impl FromJsonObject<Callback> for Callback {
    fn from_json_object(object: &JsonValue) -> (r: Result<Callback, KnishIOError>) {
        Self::from_object(object)
    }
}

impl ToJsonObject for Callback {
    fn to_json_object(&self) -> (r: JsonValue) {
        self.to_json()
    }
}

} // verus!
