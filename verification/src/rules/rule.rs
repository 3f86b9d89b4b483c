//! Rules: conditions under which callbacks act, and their JSON form.

use vstd::prelude::*;
use crate::error::KnishIOError;
use crate::json::{Json, JsonValue, entries_view, items_view, json_get, lemma_items_view, lemma_lookup_single, object, push_entry};
use crate::keyed::distinct_keys;
use crate::rules::callback::{Callback, CallbackView, callback_json, callback_problem, callback_read, law_callback_json_round_trip};
use crate::rules::condition::{Condition, condition_json, condition_read, law_condition_json_round_trip};
use crate::rules::{FromJsonObject, RuleArgumentError, ToJsonObject};

verus! {

/// A condition as values: key, value and comparison.
pub type ConditionView = (Seq<char>, Seq<char>, Seq<char>);

/// Each condition of a list read from JSON, or the message of the first error.
pub open spec fn conditions_read(cs: Seq<Json>) -> Result<Seq<ConditionView>, Seq<char>>
    decreases cs.len(),
{
    if cs.len() == 0 {
        Ok(Seq::empty())
    } else {
        match condition_read(cs[0]) {
            Err(m) => Err(m),
            Ok(c) => match conditions_read(cs.drop_first()) {
                Err(m) => Err(m),
                Ok(rest) => Ok(seq![c] + rest),
            },
        }
    }
}

/// Each callback of a list read from JSON, or the message of the first error.
pub open spec fn callbacks_read(cs: Seq<Json>) -> Result<Seq<CallbackView>, Seq<char>>
    decreases cs.len(),
{
    if cs.len() == 0 {
        Ok(Seq::empty())
    } else {
        match callback_read(cs[0]) {
            Err(m) => Err(m),
            Ok(c) => match callbacks_read(cs.drop_first()) {
                Err(m) => Err(m),
                Ok(rest) => Ok(seq![c] + rest),
            },
        }
    }
}

/// A rule as read from JSON: its `condition` and `callback` arrays, each item
/// read in turn, or the message of the first error.
pub open spec fn rule_read(j: Json) -> Result<(Seq<ConditionView>, Seq<CallbackView>), Seq<char>> {
    match json_get(j, "condition"@) {
        None => Err("Rule::from_object() - Incorrect rule format! There is no condition field."@),
        Some(c) => match json_get(j, "callback"@) {
            None => Err("Rule::from_object() - Incorrect rule format! There is no callback field."@),
            Some(b) => match c {
                Json::Array(cs) => match conditions_read(cs) {
                    Err(m) => Err(m),
                    Ok(conditions) => match b {
                        Json::Array(bs) => match callbacks_read(bs) {
                            Err(m) => Err(m),
                            Ok(callbacks) => Ok((conditions, callbacks)),
                        },
                        _ => Err("Rule::from_object() - callback field must be an array"@),
                    },
                },
                _ => Err("Rule::from_object() - condition field must be an array"@),
            },
        },
    }
}

/// The JSON forms of conditions.
pub open spec fn conditions_json(conditions: Seq<ConditionView>) -> Seq<Json> {
    conditions.map_values(|c: ConditionView| condition_json(c.0, c.1, c.2))
}

/// The JSON forms of callbacks.
pub open spec fn callbacks_json(callbacks: Seq<CallbackView>) -> Seq<Json> {
    callbacks.map_values(|c: CallbackView| callback_json(c))
}

/// The JSON form of a rule: the array of its conditions, then that of its callbacks.
pub open spec fn rule_json(conditions: Seq<ConditionView>, callbacks: Seq<CallbackView>) -> Json {
    Json::Object(
        seq![
            ("condition"@, Json::Array(conditions_json(conditions))),
            ("callback"@, Json::Array(callbacks_json(callbacks))),
        ],
    )
}

/// Conditions whose parts are all non-empty.
pub open spec fn conditions_valid(conditions: Seq<ConditionView>) -> bool {
    forall|i: int| 0 <= i < conditions.len() ==> {
        let c = #[trigger] conditions[i];
        c.0.len() > 0 && c.1.len() > 0 && c.2.len() > 0
    }
}

/// Callbacks each with an action, a numeric amount if any, and metadata with
/// distinct names if any.
pub open spec fn callbacks_valid(callbacks: Seq<CallbackView>) -> bool {
    forall|i: int| 0 <= i < callbacks.len() ==> {
        let c = #[trigger] callbacks[i];
        callback_problem(c.action, c.amount) is None && (c.meta matches Some(m) ==> distinct_keys(m))
    }
}

/// Valid conditions read back from their JSON forms.
pub proof fn lemma_conditions_round_trip(conditions: Seq<ConditionView>)
    requires
        conditions_valid(conditions),
    ensures
        conditions_read(conditions_json(conditions)) == Ok::<Seq<ConditionView>, Seq<char>>(conditions),
    decreases conditions.len(),
{
    if conditions.len() > 0 {
        let rest = conditions.drop_first();
        assert(conditions_valid(rest)) by {
            assert forall|i: int| 0 <= i < rest.len() implies {
                let c = #[trigger] rest[i];
                c.0.len() > 0 && c.1.len() > 0 && c.2.len() > 0
            } by {
                assert(rest[i] == conditions[i + 1]);
            }
        }
        lemma_conditions_round_trip(rest);
        let c = conditions[0];
        law_condition_json_round_trip(c.0, c.1, c.2);
        let m = conditions_json(conditions);
        assert(m.len() == conditions.len());
        assert(m[0] == condition_json(c.0, c.1, c.2));
        assert(condition_read(m[0]) == Ok::<ConditionView, Seq<char>>(c));
        assert(m.drop_first() =~= conditions_json(rest));
        assert(seq![c] + rest =~= conditions);
    } else {
        assert(conditions_json(conditions) =~= Seq::<Json>::empty());
        assert(conditions =~= Seq::<ConditionView>::empty());
    }
}

/// Valid callbacks read back from their JSON forms.
pub proof fn lemma_callbacks_round_trip(callbacks: Seq<CallbackView>)
    requires
        callbacks_valid(callbacks),
    ensures
        callbacks_read(callbacks_json(callbacks)) == Ok::<Seq<CallbackView>, Seq<char>>(callbacks),
    decreases callbacks.len(),
{
    if callbacks.len() > 0 {
        let rest = callbacks.drop_first();
        assert(callbacks_valid(rest)) by {
            assert forall|i: int| 0 <= i < rest.len() implies {
                let c = #[trigger] rest[i];
                callback_problem(c.action, c.amount) is None && (c.meta matches Some(m) ==> distinct_keys(m))
            } by {
                assert(rest[i] == callbacks[i + 1]);
            }
        }
        lemma_callbacks_round_trip(rest);
        let c = callbacks[0];
        law_callback_json_round_trip(c);
        let m = callbacks_json(callbacks);
        assert(m.len() == callbacks.len());
        assert(m[0] == callback_json(c));
        assert(m.drop_first() =~= callbacks_json(rest));
        assert(seq![c] + rest =~= callbacks);
    } else {
        assert(callbacks_json(callbacks) =~= Seq::<Json>::empty());
        assert(callbacks =~= Seq::<CallbackView>::empty());
    }
}

/// A rule whose conditions have non-empty parts and whose callbacks are well
/// formed reads back from its JSON form.
pub proof fn law_rule_json_round_trip(conditions: Seq<ConditionView>, callbacks: Seq<CallbackView>)
    requires
        conditions_valid(conditions),
        callbacks_valid(callbacks),
    ensures
        rule_read(rule_json(conditions, callbacks)) == Ok::<(Seq<ConditionView>, Seq<CallbackView>), Seq<char>>(
            (conditions, callbacks),
        ),
{
    reveal_strlit("condition");
    reveal_strlit("callback");
    assert("condition"@.len() == 9);
    assert("callback"@.len() == 8);
    let cj = Json::Array(conditions_json(conditions));
    let bj = Json::Array(callbacks_json(callbacks));
    lemma_lookup_single("callback"@, bj, "condition"@);
    lemma_lookup_single("callback"@, bj, "callback"@);
    assert(seq![("condition"@, cj), ("callback"@, bj)].drop_first() =~= seq![("callback"@, bj)]);
    assert(json_get(rule_json(conditions, callbacks), "condition"@) == Some(cj));
    assert(json_get(rule_json(conditions, callbacks), "callback"@) == Some(bj));
    lemma_conditions_round_trip(conditions);
    lemma_callbacks_round_trip(callbacks);
}

/// A rule: the conditions under which its callbacks act.
#[derive(Debug, Clone, PartialEq)]
pub struct Rule {
    /// The conditions
    pub conditions: Vec<Condition>,
    /// The callbacks
    pub callbacks: Vec<Callback>,
}

impl View for Rule {
    type V = (Seq<ConditionView>, Seq<CallbackView>);

    open spec fn view(&self) -> (Seq<ConditionView>, Seq<CallbackView>) {
        (self.conditions@.map_values(|c: Condition| c@), self.callbacks@.map_values(|c: Callback| c@))
    }
}

impl Rule {
    /// A rule with the given conditions and callbacks.
    pub fn new(conditions: Vec<Condition>, callbacks: Vec<Callback>) -> (r: Self)
        ensures
            r.conditions == conditions,
            r.callbacks == callbacks,
    {
        Rule { conditions, callbacks }
    }

    /// A rule without conditions or callbacks.
    pub fn empty() -> (r: Self)
        ensures
            r.conditions@.len() == 0,
            r.callbacks@.len() == 0,
    {
        Rule { conditions: Vec::new(), callbacks: Vec::new() }
    }

    /// Add a condition.
    pub fn add_condition(&mut self, condition: Condition)
        ensures
            final(self).conditions@ == old(self).conditions@.push(condition),
            final(self).callbacks == old(self).callbacks,
    {
        self.conditions.push(condition);
    }

    /// Add a condition read from a JSON object; refused, with the rule
    /// unchanged, as `condition_read` says.
    pub fn add_condition_from_object(&mut self, condition_object: &JsonValue) -> (r: Result<(), KnishIOError>)
        ensures
            match r {
                Ok(_) => condition_read(condition_object@) matches Ok(c)
                    && final(self)@ == (old(self)@.0.push(c), old(self)@.1),
                Err(e) => condition_read(condition_object@) matches Err(m) && e matches KnishIOError::Custom(t)
                    && t@ == m && *final(self) == *old(self),
            },
    {
        let condition = Condition::from_object(condition_object)?;
        self.add_condition(condition);
        assert(self@.0 =~= old(self)@.0.push(condition@));
        Ok(())
    }

    /// Add a callback.
    pub fn add_callback(&mut self, callback: Callback)
        ensures
            final(self).callbacks@ == old(self).callbacks@.push(callback),
            final(self).conditions == old(self).conditions,
    {
        self.callbacks.push(callback);
    }

    /// Add a callback read from a JSON object; refused, with the rule
    /// unchanged, as `callback_read` says.
    pub fn add_callback_from_object(&mut self, callback_object: &JsonValue) -> (r: Result<(), KnishIOError>)
        ensures
            match r {
                Ok(_) => callback_read(callback_object@) matches Ok(c)
                    && final(self)@ == (old(self)@.0, old(self)@.1.push(c)),
                Err(e) => callback_read(callback_object@) matches Err(m) && e matches KnishIOError::Custom(t)
                    && t@ == m && *final(self) == *old(self),
            },
    {
        let callback = Callback::from_object(callback_object)?;
        self.add_callback(callback);
        assert(self@.1 =~= old(self)@.1.push(callback@));
        Ok(())
    }

    /// A rule read from a JSON object; refused as `rule_read` says.
    pub fn from_object(object: &JsonValue) -> (r: Result<Self, KnishIOError>)
        ensures
            match r {
                Ok(rule) => rule_read(object@) == Ok::<(Seq<ConditionView>, Seq<CallbackView>), Seq<char>>(rule@),
                Err(e) => rule_read(object@) matches Err(m) && e matches KnishIOError::Custom(t) && t@ == m,
            },
    {
        let condition_array = match object.get("condition") {
            Some(c) => c,
            None => {
                return Err(KnishIOError::from(RuleArgumentError::new(
                    "Rule::from_object() - Incorrect rule format! There is no condition field.",
                )));
            },
        };
        let callback_array = match object.get("callback") {
            Some(c) => c,
            None => {
                return Err(KnishIOError::from(RuleArgumentError::new(
                    "Rule::from_object() - Incorrect rule format! There is no callback field.",
                )));
            },
        };
        let mut rule = Rule::empty();
        let ghost all_conditions: Seq<Json> = match condition_array@ {
            Json::Array(items) => items,
            _ => Seq::empty(),
        };
        match condition_array.as_array() {
            Some(conditions) => {
                let ghost cs = items_view(conditions@);
                proof { lemma_items_view(conditions@); }
                let mut i: usize = 0;
                assert(cs.skip(0) =~= cs);
                assert(rule@.0 =~= Seq::<ConditionView>::empty());
                assert(conditions_read(cs) == match conditions_read(cs.skip(0)) {
                    Ok(rest) => Ok(rule@.0 + rest),
                    Err(m) => Err(m),
                }) by {
                    match conditions_read(cs) {
                        Ok(rest) => assert(rule@.0 + rest =~= rest),
                        Err(_) => {},
                    }
                }
                while i < conditions.len()
                    invariant
                        i <= conditions@.len(),
                        cs == items_view(conditions@),
                        cs.len() == conditions@.len(),
                        forall|j: int| 0 <= j < conditions@.len() ==> #[trigger] cs[j] == conditions@[j]@,
                        rule@.1 == Seq::<CallbackView>::empty(),
                        json_get(object@, "condition"@) == Some(Json::Array(cs)),
                        json_get(object@, "callback"@) == Some(callback_array@),
                        conditions_read(cs) == match conditions_read(cs.skip(i as int)) {
                            Ok(rest) => Ok(rule@.0 + rest),
                            Err(m) => Err(m),
                        },
                    decreases conditions@.len() - i,
                {
                    proof {
                        let rest = cs.skip(i as int);
                        assert(rest[0] == conditions@[i as int]@);
                        assert(rest.drop_first() =~= cs.skip(i + 1));
                    }
                    let ghost before = rule@.0;
                    match rule.add_condition_from_object(&conditions[i]) {
                        Ok(_) => {
                            proof {
                                match conditions_read(cs.skip(i + 1)) {
                                    Ok(rest) => {
                                        let c = condition_read(cs[i as int])->Ok_0;
                                        assert(before + (seq![c] + rest) =~= rule@.0 + rest);
                                    },
                                    Err(_) => {},
                                }
                            }
                        },
                        Err(e) => {
                            assert(conditions_read(cs.skip(i as int)) == Err::<Seq<ConditionView>, Seq<char>>(
                                condition_read(cs[i as int])->Err_0,
                            ));
                            return Err(e);
                        },
                    }
                    i = i + 1;
                }
                assert(cs.skip(i as int) =~= Seq::<Json>::empty());
                assert(rule@.0 + Seq::<ConditionView>::empty() =~= rule@.0);
            },
            None => {
                return Err(KnishIOError::from(RuleArgumentError::new(
                    "Rule::from_object() - condition field must be an array",
                )));
            },
        }
        let ghost conds = rule@.0;
        match callback_array.as_array() {
            Some(callbacks) => {
                let ghost bs = items_view(callbacks@);
                proof { lemma_items_view(callbacks@); }
                let mut i: usize = 0;
                assert(bs.skip(0) =~= bs);
                assert(callbacks_read(bs) == match callbacks_read(bs.skip(0)) {
                    Ok(rest) => Ok(rule@.1 + rest),
                    Err(m) => Err(m),
                }) by {
                    match callbacks_read(bs) {
                        Ok(rest) => assert(rule@.1 + rest =~= rest),
                        Err(_) => {},
                    }
                }
                while i < callbacks.len()
                    invariant
                        i <= callbacks@.len(),
                        bs == items_view(callbacks@),
                        bs.len() == callbacks@.len(),
                        forall|j: int| 0 <= j < callbacks@.len() ==> #[trigger] bs[j] == callbacks@[j]@,
                        rule@.0 == conds,
                        json_get(object@, "condition"@) == Some(Json::Array(all_conditions)),
                        conditions_read(all_conditions) == Ok::<Seq<ConditionView>, Seq<char>>(conds),
                        json_get(object@, "callback"@) == Some(Json::Array(bs)),
                        callbacks_read(bs) == match callbacks_read(bs.skip(i as int)) {
                            Ok(rest) => Ok(rule@.1 + rest),
                            Err(m) => Err(m),
                        },
                    decreases callbacks@.len() - i,
                {
                    proof {
                        let rest = bs.skip(i as int);
                        assert(rest[0] == callbacks@[i as int]@);
                        assert(rest.drop_first() =~= bs.skip(i + 1));
                    }
                    let ghost before = rule@.1;
                    match rule.add_callback_from_object(&callbacks[i]) {
                        Ok(_) => {
                            proof {
                                match callbacks_read(bs.skip(i + 1)) {
                                    Ok(rest) => {
                                        let c = callback_read(bs[i as int])->Ok_0;
                                        assert(before + (seq![c] + rest) =~= rule@.1 + rest);
                                    },
                                    Err(_) => {},
                                }
                            }
                        },
                        Err(e) => {
                            assert(callbacks_read(bs.skip(i as int)) == Err::<Seq<CallbackView>, Seq<char>>(
                                callback_read(bs[i as int])->Err_0,
                            ));
                            return Err(e);
                        },
                    }
                    i = i + 1;
                }
                assert(bs.skip(i as int) =~= Seq::<Json>::empty());
                assert(rule@.1 + Seq::<CallbackView>::empty() =~= rule@.1);
            },
            None => {
                return Err(KnishIOError::from(RuleArgumentError::new(
                    "Rule::from_object() - callback field must be an array",
                )));
            },
        }
        Ok(rule)
    }

    /// The JSON form of the rule.
    pub fn to_json(&self) -> (r: JsonValue)
        ensures
            r@ == rule_json(self@.0, self@.1),
    {
        let mut conditions: Vec<JsonValue> = Vec::new();
        let mut i: usize = 0;
        while i < self.conditions.len()
            invariant
                i <= self.conditions@.len(),
                conditions@.len() == i,
                forall|j: int| 0 <= j < i ==> (#[trigger] conditions@[j])@ == condition_json(
                    self.conditions@[j].key@,
                    self.conditions@[j].value@,
                    self.conditions@[j].comparison@,
                ),
            decreases self.conditions@.len() - i,
        {
            conditions.push(self.conditions[i].to_json());
            i = i + 1;
        }
        let mut callbacks: Vec<JsonValue> = Vec::new();
        let mut k: usize = 0;
        while k < self.callbacks.len()
            invariant
                k <= self.callbacks@.len(),
                callbacks@.len() == k,
                forall|j: int| 0 <= j < k ==> (#[trigger] callbacks@[j])@ == callback_json(self.callbacks@[j]@),
            decreases self.callbacks@.len() - k,
        {
            callbacks.push(self.callbacks[k].to_json());
            k = k + 1;
        }
        proof {
            lemma_items_view(conditions@);
            lemma_items_view(callbacks@);
            assert(items_view(conditions@) =~= conditions_json(self@.0));
            assert(items_view(callbacks@) =~= callbacks_json(self@.1));
        }
        let ghost cj = Json::Array(conditions_json(self@.0));
        let ghost bj = Json::Array(callbacks_json(self@.1));
        let cv = JsonValue::Array(conditions);
        let bv = JsonValue::Array(callbacks);
        assert(cv@ == cj);
        assert(bv@ == bj);
        let mut e: Vec<(String, JsonValue)> = Vec::new();
        assert(entries_view(e@) =~= Seq::<(Seq<char>, Json)>::empty());
        push_entry(&mut e, "condition", cv);
        push_entry(&mut e, "callback", bv);
        assert(entries_view(e@) =~= seq![("condition"@, cj), ("callback"@, bj)]);
        object(e)
    }

    /// The number of conditions.
    pub fn condition_count(&self) -> (n: usize)
        ensures
            n == self.conditions@.len(),
    {
        self.conditions.len()
    }

    /// The number of callbacks.
    pub fn callback_count(&self) -> (n: usize)
        ensures
            n == self.callbacks@.len(),
    {
        self.callbacks.len()
    }

    /// Whether the rule has neither conditions nor callbacks.
    pub fn is_empty(&self) -> (r: bool)
        ensures
            r == (self.conditions@.len() == 0 && self.callbacks@.len() == 0),
    {
        self.conditions.len() == 0 && self.callbacks.len() == 0
    }

    /// The conditions.
    pub fn get_conditions(&self) -> (r: &[Condition])
        ensures
            r@ == self.conditions@,
    {
        self.conditions.as_slice()
    }

    /// The callbacks.
    pub fn get_callbacks(&self) -> (r: &[Callback])
        ensures
            r@ == self.callbacks@,
    {
        self.callbacks.as_slice()
    }

    /// Remove every condition.
    pub fn clear_conditions(&mut self)
        ensures
            final(self).conditions@.len() == 0,
            final(self).callbacks == old(self).callbacks,
    {
        self.conditions = Vec::new();
    }

    /// Remove every callback.
    pub fn clear_callbacks(&mut self)
        ensures
            final(self).callbacks@.len() == 0,
            final(self).conditions == old(self).conditions,
    {
        self.callbacks = Vec::new();
    }

    /// Remove every condition and callback.
    pub fn clear(&mut self)
        ensures
            final(self).conditions@.len() == 0,
            final(self).callbacks@.len() == 0,
    {
        self.clear_conditions();
        self.clear_callbacks();
    }
}

impl FromJsonObject<Rule> for Rule {
    fn from_json_object(object: &JsonValue) -> (r: Result<Rule, KnishIOError>) {
        Self::from_object(object)
    }
}

impl ToJsonObject for Rule {
    fn to_json_object(&self) -> (r: JsonValue) {
        self.to_json()
    }
}

/// A rule written by `Rule::to_json` and read by `Rule::from_object` gives back
/// its conditions and callbacks, when its conditions have non-empty parts and
/// its callbacks are well formed.
pub proof fn law_rule_to_json_from_object(rule: Rule)
    requires
        conditions_valid(rule@.0),
        callbacks_valid(rule@.1),
    ensures
        rule_read(rule_json(rule@.0, rule@.1)) == Ok::<(Seq<ConditionView>, Seq<CallbackView>), Seq<char>>(rule@),
{
    law_rule_json_round_trip(rule@.0, rule@.1);
}

} // verus!
