//! A condition of a rule: a key, a value and the comparison between them.

use vstd::prelude::*;
use crate::error::KnishIOError;
use crate::json::{JsonValue, Json, entries_view, lookup, object, push_entry, str_field, string_field};
use crate::rules::{RuleArgumentError, FromJsonObject, ToJsonObject};

verus! {

/// A condition under which a rule applies.
#[derive(Debug, Clone, PartialEq)]
pub struct Condition {
    /// The key to compare against
    pub key: String,
    /// The value to compare with
    pub value: String,
    /// The comparison operator, such as `==` or `>=`
    pub comparison: String,
}

/// The message of the error for a condition with an empty part.
pub open spec fn incomplete_condition_message() -> Seq<char> {
    "Condition::new() - not all class parameters are initialised!"@
}

/// A condition as read from JSON: its key, value and comparison, or the
/// message of the error that makes it unreadable.
pub open spec fn condition_read(j: Json) -> Result<(Seq<char>, Seq<char>, Seq<char>), Seq<char>> {
    match (str_field(j, "key"@), str_field(j, "value"@), str_field(j, "comparison"@)) {
        (None, _, _) => Err("Missing or invalid 'key' field"@),
        (Some(_), None, _) => Err("Missing or invalid 'value' field"@),
        (Some(_), Some(_), None) => Err("Missing or invalid 'comparison' field"@),
        (Some(k), Some(v), Some(c)) => if k.len() == 0 || v.len() == 0 || c.len() == 0 {
            Err(incomplete_condition_message())
        } else {
            Ok((k, v, c))
        },
    }
}

/// A condition whose parts are not empty reads back from its JSON form.
pub proof fn law_condition_json_round_trip(key: Seq<char>, value: Seq<char>, comparison: Seq<char>)
    requires
        key.len() > 0,
        value.len() > 0,
        comparison.len() > 0,
    ensures
        condition_read(condition_json(key, value, comparison)) == Ok::<(Seq<char>, Seq<char>, Seq<char>), Seq<char>>(
            (key, value, comparison),
        ),
{
    reveal_strlit("key");
    reveal_strlit("value");
    reveal_strlit("comparison");
    let e = seq![("key"@, Json::Str(key)), ("value"@, Json::Str(value)), ("comparison"@, Json::Str(comparison))];
    assert("key"@.len() == 3);
    assert("value"@.len() == 5);
    assert("key"@ != "value"@ && "key"@ != "comparison"@ && "value"@ != "comparison"@);
    assert(e.drop_first() =~= seq![("value"@, Json::Str(value)), ("comparison"@, Json::Str(comparison))]);
    assert(e.drop_first().drop_first() =~= seq![("comparison"@, Json::Str(comparison))]);
    assert(lookup(e, "key"@) == Some(Json::Str(key)));
    assert(lookup(e.drop_first(), "value"@) == Some(Json::Str(value)));
    assert(lookup(e, "value"@) == Some(Json::Str(value)));
    assert(lookup(e.drop_first().drop_first(), "comparison"@) == Some(Json::Str(comparison)));
    assert(lookup(e.drop_first(), "comparison"@) == Some(Json::Str(comparison)));
    assert(lookup(e, "comparison"@) == Some(Json::Str(comparison)));
}

impl View for Condition {
    type V = (Seq<char>, Seq<char>, Seq<char>);

    /// The key, the value and the comparison.
    open spec fn view(&self) -> (Seq<char>, Seq<char>, Seq<char>) {
        (self.key@, self.value@, self.comparison@)
    }
}

/// The JSON form of a condition: `{"key": .., "value": .., "comparison": ..}`.
pub open spec fn condition_json(key: Seq<char>, value: Seq<char>, comparison: Seq<char>) -> Json {
    Json::Object(
        seq![("key"@, Json::Str(key)), ("value"@, Json::Str(value)), ("comparison"@, Json::Str(comparison))],
    )
}

impl Condition {
    /// A condition of the given parts; each must be non-empty.
    pub fn new(key: String, value: String, comparison: String) -> (r: Result<Self, KnishIOError>)
        ensures
            r is Err <==> (key@.len() == 0 || value@.len() == 0 || comparison@.len() == 0),
            r matches Ok(c) ==> c.key@ == key@ && c.value@ == value@ && c.comparison@ == comparison@,
            r matches Err(e) ==> (e matches KnishIOError::Custom(m) && m@ == incomplete_condition_message()),
    {
        if key.as_str().is_empty() || value.as_str().is_empty() || comparison.as_str().is_empty() {
            let e = KnishIOError::from(
                RuleArgumentError::new("Condition::new() - not all class parameters are initialised!"),
            );
            return Err(e);
        }
        Ok(Condition { key, value, comparison })
    }

    /// A condition read from a JSON object holding the strings `key`, `value`
    /// and `comparison`; the first of them that is missing or not a string is
    /// reported, and so is an empty one.
    pub fn from_object(object: &JsonValue) -> (r: Result<Self, KnishIOError>)
        ensures
            match r {
                Ok(c) => condition_read(object@) == Ok::<(Seq<char>, Seq<char>, Seq<char>), Seq<char>>(c@),
                Err(e) => condition_read(object@) matches Err(m) && e matches KnishIOError::Custom(t) && t@ == m,
            },
    {
        let key = match string_field(object, "key") {
            Some(k) => k,
            None => {
                return Err(KnishIOError::from(RuleArgumentError::new("Missing or invalid 'key' field")));
            },
        };
        let value = match string_field(object, "value") {
            Some(v) => v,
            None => {
                return Err(KnishIOError::from(RuleArgumentError::new("Missing or invalid 'value' field")));
            },
        };
        let comparison = match string_field(object, "comparison") {
            Some(c) => c,
            None => {
                return Err(KnishIOError::from(RuleArgumentError::new("Missing or invalid 'comparison' field")));
            },
        };
        Self::new(key, value, comparison)
    }

    /// The JSON form of the condition.
    pub fn to_json(&self) -> (r: JsonValue)
        ensures
            r@ == condition_json(self.key@, self.value@, self.comparison@),
    {
        let mut entries: Vec<(String, JsonValue)> = Vec::new();
        push_entry(&mut entries, "key", JsonValue::Str(self.key.clone()));
        push_entry(&mut entries, "value", JsonValue::Str(self.value.clone()));
        push_entry(&mut entries, "comparison", JsonValue::Str(self.comparison.clone()));
        proof {
            assert(entries_view(Seq::<(String, JsonValue)>::empty()) =~= Seq::empty());
        }
        assert(entries_view(entries@) =~= seq![
            ("key"@, Json::Str(self.key@)),
            ("value"@, Json::Str(self.value@)),
            ("comparison"@, Json::Str(self.comparison@)),
        ]);
        object(entries)
    }
}

impl FromJsonObject<Condition> for Condition {
    fn from_json_object(object: &JsonValue) -> (r: Result<Condition, KnishIOError>) {
        Self::from_object(object)
    }
}

impl ToJsonObject for Condition {
    fn to_json_object(&self) -> (r: JsonValue) {
        self.to_json()
    }
}

} // verus!
