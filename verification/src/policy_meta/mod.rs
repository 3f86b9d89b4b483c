//! Access policies for metadata: for each action (`read`, `write`), the list of
//! who may perform it on each metadata key.

use vstd::prelude::*;
use crate::error::KnishIOError;
use crate::json::{JsonValue, Json, items_view, entries_view, lemma_items_view, lemma_entries_view, lookup};
use crate::text::{str_eq, strings_view, clone_strings};
use crate::keyed::{
    keyed, distinct_keys, key_set, lemma_keyed_dom, lemma_keyed_absent, lemma_keyed_index,
    lemma_keyed_push, lemma_distinct_push, lemma_keyed_update, lemma_keyed_remove,
};

verus! {

/// The rules of one action as `(key, permissions)` character entries.
pub open spec fn rule_entries(s: Seq<(String, Vec<String>)>) -> Seq<(Seq<char>, Seq<Seq<char>>)> {
    s.map_values(|e: (String, Vec<String>)| (e.0@, strings_view(e.1@)))
}

/// The rules of one action as a map from key to permissions.
pub open spec fn rules_map(s: Seq<(String, Vec<String>)>) -> Map<Seq<char>, Seq<Seq<char>>> {
    keyed(rule_entries(s))
}

/// A whole policy as `(action, rules)` entries.
pub open spec fn action_entries(s: Seq<(String, Vec<(String, Vec<String>)>)>) -> Seq<
    (Seq<char>, Map<Seq<char>, Seq<Seq<char>>>),
> {
    s.map_values(|e: (String, Vec<(String, Vec<String>)>)| (e.0@, rules_map(e.1@)))
}

/// A whole policy as a map from action to its rules.
pub open spec fn policy_map(s: Seq<(String, Vec<(String, Vec<String>)>)>) -> Map<
    Seq<char>,
    Map<Seq<char>, Seq<Seq<char>>>,
> {
    keyed(action_entries(s))
}

/// No action occurs twice, and no key occurs twice within an action.
pub open spec fn well_formed_policy(s: Seq<(String, Vec<(String, Vec<String>)>)>) -> bool {
    &&& distinct_keys(action_entries(s))
    &&& forall|i: int| 0 <= i < s.len() ==> distinct_keys(rule_entries(#[trigger] s[i].1@))
}

/// Access-control policies for metadata keys.
#[derive(Debug)]
pub struct PolicyMeta {
    policy: Vec<(String, Vec<(String, Vec<String>)>)>,
}

impl PolicyMeta {
    #[verifier::type_invariant]
    spec fn inv(self) -> bool {
        well_formed_policy(self.policy@)
    }
}

impl View for PolicyMeta {
    type V = Map<Seq<char>, Map<Seq<char>, Seq<Seq<char>>>>;

    closed spec fn view(&self) -> Self::V {
        policy_map(self.policy@)
    }
}

/// The index of the entry under `key` in a list of keyed entries, if any.
fn find_rule(rules: &Vec<(String, Vec<String>)>, key: &str) -> (r: Option<usize>)
    ensures
        match r {
            Some(i) => i < rules@.len() && rules@[i as int].0@ == key@,
            None => forall|i: int| 0 <= i < rules@.len() ==> #[trigger] rules@[i].0@ != key@,
        },
{
    let mut i: usize = 0;
    while i < rules.len()
        invariant
            i <= rules@.len(),
            forall|j: int| 0 <= j < i ==> #[trigger] rules@[j].0@ != key@,
        decreases rules@.len() - i,
    {
        if str_eq(rules[i].0.as_str(), key) {
            return Some(i);
        }
        i = i + 1;
    }
    None
}

/// The index of the entry for `action` in a policy, if any.
fn find_action(policy: &Vec<(String, Vec<(String, Vec<String>)>)>, action: &str) -> (r: Option<usize>)
    ensures
        match r {
            Some(i) => i < policy@.len() && policy@[i as int].0@ == action@,
            None => forall|i: int| 0 <= i < policy@.len() ==> #[trigger] policy@[i].0@ != action@,
        },
{
    let mut i: usize = 0;
    while i < policy.len()
        invariant
            i <= policy@.len(),
            forall|j: int| 0 <= j < i ==> #[trigger] policy@[j].0@ != action@,
        decreases policy@.len() - i,
    {
        if str_eq(policy[i].0.as_str(), action) {
            return Some(i);
        }
        i = i + 1;
    }
    None
}

/// The permissions that `fill_default` gives a key with no rule: everyone may
/// read; everyone may write `characters` and `pubkey`, only the owner the rest.
pub open spec fn default_permissions(key: Seq<char>, write: bool) -> Seq<Seq<char>> {
    if write && key != "characters"@ && key != "pubkey"@ {
        seq!["self"@]
    } else {
        seq!["all"@]
    }
}

/// The rules `m` with a default rule added for each key of `keys` that has none.
pub open spec fn filled(m: Map<Seq<char>, Seq<Seq<char>>>, keys: Seq<Seq<char>>, write: bool) -> Map<
    Seq<char>,
    Seq<Seq<char>>,
> {
    Map::new(
        |k: Seq<char>| m.dom().contains(k) || keys.contains(k),
        |k: Seq<char>|
            if m.dom().contains(k) {
                m[k]
            } else {
                default_permissions(k, write)
            },
    )
}

/// The rules of `action` in a policy, empty when it has none.
pub open spec fn action_rules(p: Map<Seq<char>, Map<Seq<char>, Seq<Seq<char>>>>, action: Seq<char>) -> Map<
    Seq<char>,
    Seq<Seq<char>>,
> {
    if p.dom().contains(action) {
        p[action]
    } else {
        Map::empty()
    }
}

/// A policy after `fill_default(keys)`: both actions present, every key of
/// `keys` with a rule under each, the rules already there unchanged.
pub open spec fn fill_policy(p: Map<Seq<char>, Map<Seq<char>, Seq<Seq<char>>>>, keys: Seq<Seq<char>>) -> Map<
    Seq<char>,
    Map<Seq<char>, Seq<Seq<char>>>,
> {
    p.insert("read"@, filled(action_rules(p, "read"@), keys, false)).insert(
        "write"@,
        filled(action_rules(p, "write"@), keys, true),
    )
}

/// The default permissions of a key, as strings.
fn default_permission_list(key: &str, write: bool) -> (r: Vec<String>)
    ensures
        strings_view(r@) == default_permissions(key@, write),
{
    let r = if write && !str_eq(key, "characters") && !str_eq(key, "pubkey") {
        vec!["self".to_owned()]
    } else {
        vec!["all".to_owned()]
    };
    assert(strings_view(r@) =~= default_permissions(key@, write));
    r
}

/// A copy of the rules of one action.
fn clone_rules(rules: &Vec<(String, Vec<String>)>) -> (r: Vec<(String, Vec<String>)>)
    ensures
        rule_entries(r@) == rule_entries(rules@),
{
    let mut r: Vec<(String, Vec<String>)> = Vec::new();
    let mut i: usize = 0;
    while i < rules.len()
        invariant
            i <= rules@.len(),
            r@.len() == i,
            forall|j: int| 0 <= j < i ==> (#[trigger] r@[j]).0@ == rules@[j].0@ && r@[j].1@ == rules@[j].1@,
        decreases rules@.len() - i,
    {
        r.push((rules[i].0.clone(), clone_strings(&rules[i].1)));
        i = i + 1;
    }
    assert(rule_entries(r@) =~= rule_entries(rules@));
    r
}

/// Set the permissions of `key` in the rules of one action, replacing any it had.
fn set_rule(rules: &mut Vec<(String, Vec<String>)>, key: &str, permissions: Vec<String>)
    requires
        distinct_keys(rule_entries(old(rules)@)),
    ensures
        distinct_keys(rule_entries(final(rules)@)),
        rules_map(final(rules)@) == rules_map(old(rules)@).insert(key@, strings_view(permissions@)),
{
    let ghost pv = strings_view(permissions@);
    match find_rule(rules, key) {
        Some(i) => {
            proof {
                lemma_keyed_update(rule_entries(rules@), i as int, pv);
            }
            rules.set(i, (key.to_owned(), permissions));
            assert(rule_entries(rules@) =~= rule_entries(old(rules)@).update(i as int, (key@, pv)));
        },
        None => {
            proof {
                lemma_keyed_push(rule_entries(rules@), key@, pv);
                lemma_distinct_push(rule_entries(rules@), key@, pv);
            }
            rules.push((key.to_owned(), permissions));
            assert(rule_entries(rules@) =~= rule_entries(old(rules)@).push((key@, pv)));
        },
    }
}

/// Remove the rule of `key` from the rules of one action, handing back its permissions.
fn remove_rule(rules: &mut Vec<(String, Vec<String>)>, key: &str) -> (r: Option<Vec<String>>)
    requires
        distinct_keys(rule_entries(old(rules)@)),
    ensures
        distinct_keys(rule_entries(final(rules)@)),
        rules_map(final(rules)@) == rules_map(old(rules)@).remove(key@),
        match r {
            Some(v) => rules_map(old(rules)@).dom().contains(key@) && strings_view(v@) == rules_map(old(rules)@)[key@],
            None => !rules_map(old(rules)@).dom().contains(key@),
        },
{
    match find_rule(rules, key) {
        Some(i) => {
            proof {
                lemma_keyed_index(rule_entries(rules@), i as int);
                lemma_keyed_remove(rule_entries(rules@), i as int);
            }
            let (_, permissions) = rules.remove(i);
            assert(rule_entries(rules@) =~= rule_entries(old(rules)@).remove(i as int));
            Some(permissions)
        },
        None => {
            proof {
                lemma_keyed_absent(rule_entries(rules@), key@);
            }
            assert(rules_map(old(rules)@).remove(key@) =~= rules_map(old(rules)@));
            None
        },
    }
}

/// The rules of `action` in a policy, copied; empty when the action has none.
fn rules_of(policy: &Vec<(String, Vec<(String, Vec<String>)>)>, action: &str) -> (r: Vec<(String, Vec<String>)>)
    requires
        well_formed_policy(policy@),
    ensures
        distinct_keys(rule_entries(r@)),
        rules_map(r@) == action_rules(policy_map(policy@), action@),
{
    match find_action(policy, action) {
        Some(i) => {
            proof {
                lemma_keyed_index(action_entries(policy@), i as int);
            }
            clone_rules(&policy[i].1)
        },
        None => {
            proof {
                lemma_keyed_absent(action_entries(policy@), action@);
            }
            let r: Vec<(String, Vec<String>)> = Vec::new();
            assert(rule_entries(r@) =~= Seq::empty());
            r
        },
    }
}

/// Set the rules of `action` in a policy, replacing any it had.
fn set_rules(policy: &mut Vec<(String, Vec<(String, Vec<String>)>)>, action: &str, rules: Vec<(String, Vec<String>)>)
    requires
        well_formed_policy(old(policy)@),
        distinct_keys(rule_entries(rules@)),
    ensures
        well_formed_policy(final(policy)@),
        policy_map(final(policy)@) == policy_map(old(policy)@).insert(action@, rules_map(rules@)),
{
    let ghost rv = rules_map(rules@);
    let ghost rs = rules@;
    match find_action(policy, action) {
        Some(i) => {
            proof {
                lemma_keyed_update(action_entries(policy@), i as int, rv);
            }
            policy.set(i, (action.to_owned(), rules));
            assert(action_entries(policy@) =~= action_entries(old(policy)@).update(i as int, (action@, rv)));
            assert forall|j: int| 0 <= j < policy@.len() implies distinct_keys(rule_entries(#[trigger] policy@[j].1@)) by {
                if j != i {
                    assert(policy@[j] == old(policy)@[j]);
                }
            }
        },
        None => {
            proof {
                lemma_keyed_push(action_entries(policy@), action@, rv);
                lemma_distinct_push(action_entries(policy@), action@, rv);
            }
            policy.push((action.to_owned(), rules));
            assert(action_entries(policy@) =~= action_entries(old(policy)@).push((action@, rv)));
            assert forall|j: int| 0 <= j < policy@.len() implies distinct_keys(rule_entries(#[trigger] policy@[j].1@)) by {
                if j < old(policy)@.len() {
                    assert(policy@[j] == old(policy)@[j]);
                }
            }
        },
    }
}

/// The rules of one action with a default rule added for each key that has none.
fn fill_rules(rules: Vec<(String, Vec<String>)>, keys: &Vec<String>, write: bool) -> (r: Vec<(String, Vec<String>)>)
    requires
        distinct_keys(rule_entries(rules@)),
    ensures
        distinct_keys(rule_entries(r@)),
        rules_map(r@) == filled(rules_map(rules@), strings_view(keys@), write),
{
    let ghost m0 = rules_map(rules@);
    let ghost ks = strings_view(keys@);
    let mut r = rules;
    let mut i: usize = 0;
    assert(rules_map(r@) =~= filled(m0, ks.take(0), write));
    while i < keys.len()
        invariant
            i <= keys@.len(),
            ks == strings_view(keys@),
            distinct_keys(rule_entries(r@)),
            rules_map(r@) == filled(m0, ks.take(i as int), write),
        decreases keys@.len() - i,
    {
        let key = keys[i].as_str();
        assert(ks.take(i + 1) =~= ks.take(i as int).push(key@));
        match find_rule(&r, key) {
            Some(j) => {
                proof {
                    lemma_keyed_index(rule_entries(r@), j as int);
                    assert(rules_map(r@).dom().contains(key@));
                    assert(filled(m0, ks.take(i + 1), write) =~= filled(m0, ks.take(i as int), write));
                }
            },
            None => {
                proof {
                    lemma_keyed_absent(rule_entries(r@), key@);
                }
                let ghost before = rules_map(r@);
                proof {
                    let t = ks.take(i as int);
                    assert forall|k: Seq<char>| #[trigger] t.push(key@).contains(k) <==> (t.contains(k) || k == key@) by {
                        if k == key@ {
                            assert(t.push(key@)[t.len() as int] == k);
                        }
                        if t.contains(k) {
                            let j = choose|j: int| 0 <= j < t.len() && t[j] == k;
                            assert(t.push(key@)[j] == k);
                        }
                        if t.push(key@).contains(k) && k != key@ {
                            let j = choose|j: int| 0 <= j < t.len() + 1 && t.push(key@)[j] == k;
                            assert(t[j] == k);
                        }
                    }
                }
                let d = default_permission_list(key, write);
                set_rule(&mut r, key, d);
                assert(filled(m0, ks.take(i + 1), write) =~= before.insert(key@, default_permissions(key@, write)));
            },
        }
        i = i + 1;
    }
    assert(ks.take(keys@.len() as int) =~= ks);
    r
}

/// Whether a list of strings holds `s`.
fn contains_str(v: &Vec<String>, s: &str) -> (r: bool)
    ensures
        r == strings_view(v@).contains(s@),
{
    let mut i: usize = 0;
    while i < v.len()
        invariant
            i <= v@.len(),
            forall|j: int| 0 <= j < i ==> (#[trigger] v@[j])@ != s@,
        decreases v@.len() - i,
    {
        if str_eq(v[i].as_str(), s) {
            assert(strings_view(v@)[i as int] == s@);
            return true;
        }
        i = i + 1;
    }
    proof {
        if strings_view(v@).contains(s@) {
            let j = choose|j: int| 0 <= j < strings_view(v@).len() && strings_view(v@)[j] == s@;
            assert(v@[j]@ == s@);
        }
    }
    false
}

/// Whether a string is missing from `b`.
pub open spec fn not_in(b: Seq<Seq<char>>) -> spec_fn(Seq<char>) -> bool {
    |x: Seq<char>| !b.contains(x)
}

/// Whether permissions admit `bundle`: they name everyone, the bundle itself,
/// or the owner when the bundle asking is the owner (`self`).
pub open spec fn admits(permissions: Seq<Seq<char>>, bundle: Seq<char>) -> bool {
    ||| permissions.contains("all"@)
    ||| permissions.contains(bundle)
    ||| (permissions.contains("self"@) && bundle == "self"@)
}

/// The policy after setting the permissions of `key` under `action`.
pub open spec fn with_permissions(
    p: Map<Seq<char>, Map<Seq<char>, Seq<Seq<char>>>>,
    action: Seq<char>,
    key: Seq<char>,
    permissions: Seq<Seq<char>>,
) -> Map<Seq<char>, Map<Seq<char>, Seq<Seq<char>>>> {
    p.insert(action, action_rules(p, action).insert(key, permissions))
}

impl PolicyMeta {
    /// The strings of `set_a` that `set_b` does not hold, in the order of `set_a`.
    pub fn diff(set_a: &Vec<String>, set_b: &Vec<String>) -> (r: Vec<String>)
        ensures
            strings_view(r@) == strings_view(set_a@).filter(not_in(strings_view(set_b@))),
    {
        let ghost a = strings_view(set_a@);
        let ghost b = strings_view(set_b@);
        let mut r: Vec<String> = Vec::new();
        let mut i: usize = 0;
        while i < set_a.len()
            invariant
                i <= set_a@.len(),
                a == strings_view(set_a@),
                b == strings_view(set_b@),
                strings_view(r@) == a.take(i as int).filter(not_in(b)),
            decreases set_a@.len() - i,
        {
            proof {
                a.take(i as int).lemma_filter_push(a[i as int], not_in(b));
                assert(a.take(i + 1) =~= a.take(i as int).push(a[i as int]));
            }
            if !contains_str(set_b, set_a[i].as_str()) {
                r.push(set_a[i].clone());
                assert(strings_view(r@) =~= a.take(i as int).filter(not_in(b)).push(a[i as int]));
            }
            i = i + 1;
        }
        assert(a.take(set_a@.len() as int) =~= a);
        r
    }

    /// Add default permissions for each of `meta_keys` that has none: read by
    /// everyone; write by everyone for `characters` and `pubkey`, by the owner
    /// (`self`) for the other keys. Permissions already set stay as they are.
    pub fn fill_default(&mut self, meta_keys: Vec<String>)
        ensures
            final(self)@ == fill_policy(old(self)@, strings_view(meta_keys@)),
    {
        proof { use_type_invariant(&*self); }
        let mut policy: Vec<(String, Vec<(String, Vec<String>)>)> = Vec::new();
        std::mem::swap(&mut policy, &mut self.policy);
        let read = rules_of(&policy, "read");
        let read = fill_rules(read, &meta_keys, false);
        let write = rules_of(&policy, "write");
        let write = fill_rules(write, &meta_keys, true);
        set_rules(&mut policy, "read", read);
        set_rules(&mut policy, "write", write);
        self.policy = policy;
    }

    /// Set the permissions of `key` under `action`, replacing those it had.
    pub fn set_permissions(&mut self, action: &str, key: &str, permissions: Vec<String>)
        ensures
            final(self)@ == with_permissions(old(self)@, action@, key@, strings_view(permissions@)),
    {
        proof { use_type_invariant(&*self); }
        let mut policy: Vec<(String, Vec<(String, Vec<String>)>)> = Vec::new();
        std::mem::swap(&mut policy, &mut self.policy);
        let mut rules = rules_of(&policy, action);
        set_rule(&mut rules, key, permissions);
        set_rules(&mut policy, action, rules);
        self.policy = policy;
    }

    /// Remove the permissions of `key` under `action`, handing back those it had.
    /// The action keeps its other keys.
    pub fn remove_permissions(&mut self, action: &str, key: &str) -> (r: Option<Vec<String>>)
        ensures
            old(self)@.dom().contains(action@) ==> final(self)@ == old(self)@.insert(action@, old(self)@[action@].remove(key@)),
            !old(self)@.dom().contains(action@) ==> final(self)@ == old(self)@,
            match r {
                Some(v) => old(self)@.dom().contains(action@) && old(self)@[action@].dom().contains(key@)
                    && strings_view(v@) == old(self)@[action@][key@],
                None => !(old(self)@.dom().contains(action@) && old(self)@[action@].dom().contains(key@)),
            },
    {
        proof { use_type_invariant(&*self); }
        match find_action(&self.policy, action) {
            None => {
                proof { lemma_keyed_absent(action_entries(self.policy@), action@); }
                None
            },
            Some(i) => {
                proof { lemma_keyed_index(action_entries(self.policy@), i as int); }
                let mut policy: Vec<(String, Vec<(String, Vec<String>)>)> = Vec::new();
                std::mem::swap(&mut policy, &mut self.policy);
                let mut rules = rules_of(&policy, action);
                let r = remove_rule(&mut rules, key);
                set_rules(&mut policy, action, rules);
                self.policy = policy;
                r
            },
        }
    }

    /// The permissions of `key` under `action`, if any are set.
    pub fn get_permissions(&self, action: &str, key: &str) -> (r: Option<&Vec<String>>)
        ensures
            match r {
                Some(v) => self@.dom().contains(action@) && self@[action@].dom().contains(key@)
                    && strings_view(v@) == self@[action@][key@],
                None => !(self@.dom().contains(action@) && self@[action@].dom().contains(key@)),
            },
    {
        proof { use_type_invariant(self); }
        match find_action(&self.policy, action) {
            None => {
                proof { lemma_keyed_absent(action_entries(self.policy@), action@); }
                None
            },
            Some(i) => {
                proof { lemma_keyed_index(action_entries(self.policy@), i as int); }
                let rules = &self.policy[i].1;
                match find_rule(rules, key) {
                    None => {
                        proof { lemma_keyed_absent(rule_entries(rules@), key@); }
                        None
                    },
                    Some(j) => {
                        proof { lemma_keyed_index(rule_entries(rules@), j as int); }
                        Some(&rules[j].1)
                    },
                }
            },
        }
    }

    /// Whether `bundle` may perform `action` on `key`: the key has permissions
    /// under the action, and they admit the bundle.
    pub fn is_allowed(&self, action: &str, key: &str, bundle: &str) -> (r: bool)
        ensures
            r == (self@.dom().contains(action@) && self@[action@].dom().contains(key@)
                && admits(self@[action@][key@], bundle@)),
    {
        match self.get_permissions(action, key) {
            Some(permissions) => {
                contains_str(permissions, "all") || contains_str(permissions, bundle) || (contains_str(
                    permissions,
                    "self",
                ) && str_eq(bundle, "self"))
            },
            None => false,
        }
    }

    /// Whether no permission is set under any action.
    pub fn is_empty(&self) -> (r: bool)
        ensures
            r == (forall|a: Seq<char>| #[trigger] self@.dom().contains(a) ==> self@[a] == Map::<Seq<char>, Seq<Seq<char>>>::empty()),
    {
        proof { use_type_invariant(self); }
        let mut i: usize = 0;
        while i < self.policy.len()
            invariant
                i <= self.policy@.len(),
                well_formed_policy(self.policy@),
                forall|j: int| 0 <= j < i ==> (#[trigger] self.policy@[j]).1@.len() == 0,
            decreases self.policy@.len() - i,
        {
            if self.policy[i].1.len() > 0 {
                proof {
                    let rs = rule_entries(self.policy@[i as int].1@);
                    lemma_keyed_index(action_entries(self.policy@), i as int);
                    lemma_keyed_index(rs, rs.len() - 1);
                    assert(self@[self.policy@[i as int].0@].dom().contains(rs[rs.len() - 1].0));
                }
                return false;
            }
            i = i + 1;
        }
        proof {
            lemma_keyed_dom(action_entries(self.policy@));
            assert forall|a: Seq<char>| #[trigger] self@.dom().contains(a) implies self@[a] == Map::<Seq<char>, Seq<Seq<char>>>::empty() by {
                let ae = action_entries(self.policy@);
                let j = choose|j: int| 0 <= j < ae.len() && #[trigger] ae[j].0 == a;
                lemma_keyed_index(ae, j);
                assert(rule_entries(self.policy@[j].1@) =~= Seq::empty());
            }
        }
        true
    }

    /// Remove every permission.
    pub fn clear(&mut self)
        ensures
            final(self)@ == Map::<Seq<char>, Map<Seq<char>, Seq<Seq<char>>>>::empty(),
    {
        self.policy = Vec::new();
        assert(action_entries(self.policy@) =~= Seq::empty());
    }

    /// The policy as `(action, [(key, permissions)])` entries; no action and no
    /// key within an action occurs twice.
    pub fn get(&self) -> (r: &Vec<(String, Vec<(String, Vec<String>)>)>)
        ensures
            policy_map(r@) == self@,
            well_formed_policy(r@),
    {
        proof { use_type_invariant(self); }
        &self.policy
    }
}

impl Default for PolicyMeta {
    fn default() -> (r: Self)
        ensures
            r@ == Map::<Seq<char>, Map<Seq<char>, Seq<Seq<char>>>>::empty(),
    {
        let r = PolicyMeta { policy: Vec::new() };
        assert(action_entries(r.policy@) =~= Seq::empty());
        r
    }
}

/// The strings among a list of JSON values, in order; other values are skipped.
pub open spec fn json_strings(items: Seq<Json>) -> Seq<Seq<char>>
    decreases items.len(),
{
    if items.len() == 0 {
        Seq::empty()
    } else {
        let r = json_strings(items.drop_last());
        match items.last() {
            Json::Str(s) => r.push(s),
            _ => r,
        }
    }
}

/// The rules of one action read from JSON entries `key: [permissions]`: an
/// entry whose value is not an array is skipped, and a later entry wins.
pub open spec fn json_rules(e: Seq<(Seq<char>, Json)>) -> Map<Seq<char>, Seq<Seq<char>>>
    decreases e.len(),
{
    if e.len() == 0 {
        Map::empty()
    } else {
        let m = json_rules(e.drop_last());
        match e.last().1 {
            Json::Array(items) => m.insert(e.last().0, json_strings(items)),
            _ => m,
        }
    }
}

/// A policy read from JSON entries `action: {..}`: only `read` and `write`
/// holding an object are kept, and a later entry wins.
pub open spec fn json_policy(e: Seq<(Seq<char>, Json)>) -> Map<Seq<char>, Map<Seq<char>, Seq<Seq<char>>>>
    decreases e.len(),
{
    if e.len() == 0 {
        Map::empty()
    } else {
        let m = json_policy(e.drop_last());
        let action = e.last().0;
        if action == "read"@ || action == "write"@ {
            match e.last().1 {
                Json::Object(inner) => m.insert(action, json_rules(inner)),
                _ => m,
            }
        } else {
            m
        }
    }
}

/// The policy that a JSON value describes; empty unless it is an object.
pub open spec fn normalized(j: Json) -> Map<Seq<char>, Map<Seq<char>, Seq<Seq<char>>>> {
    match j {
        Json::Object(e) => json_policy(e),
        _ => Map::empty(),
    }
}

/// The policy part of a GraphQL answer: its `policy` entry, an empty object without one.
pub open spec fn graphql_policy(data: Json) -> Json {
    match data {
        Json::Object(e) => match lookup(e, "policy"@) {
            Some(v) => v,
            None => Json::Object(Seq::empty()),
        },
        _ => Json::Object(Seq::empty()),
    }
}

/// The policy part of a database row: the first element of an array (an empty
/// object for an empty array), or the value itself.
pub open spec fn db_policy(data: Json) -> Json {
    match data {
        Json::Array(items) => if items.len() > 0 {
            items[0]
        } else {
            Json::Object(Seq::empty())
        },
        _ => data,
    }
}

/// The strings among a list of JSON values.
fn strings_of(items: &Vec<JsonValue>) -> (r: Vec<String>)
    ensures
        strings_view(r@) == json_strings(items_view(items@)),
{
    proof { lemma_items_view(items@); }
    let ghost iv = items_view(items@);
    let mut r: Vec<String> = Vec::new();
    let mut i: usize = 0;
    assert(strings_view(r@) =~= json_strings(iv.take(0)));
    while i < items.len()
        invariant
            i <= items@.len(),
            iv == items_view(items@),
            iv.len() == items@.len(),
            forall|j: int| 0 <= j < items@.len() ==> #[trigger] iv[j] == items@[j]@,
            strings_view(r@) == json_strings(iv.take(i as int)),
        decreases items@.len() - i,
    {
        assert(iv.take(i + 1).drop_last() =~= iv.take(i as int));
        assert(iv.take(i + 1).last() == items@[i as int]@);
        match &items[i] {
            JsonValue::Str(t) => {
                let ghost before = r@;
                r.push(t.clone());
                assert(strings_view(r@) =~= strings_view(before).push(t@));
            },
            _ => {},
        }
        i = i + 1;
    }
    assert(iv.take(items@.len() as int) =~= iv);
    r
}

/// The rules of one action read from JSON entries.
fn rules_from_json(entries: &Vec<(String, JsonValue)>) -> (r: Vec<(String, Vec<String>)>)
    ensures
        distinct_keys(rule_entries(r@)),
        rules_map(r@) == json_rules(entries_view(entries@)),
{
    proof { lemma_entries_view(entries@); }
    let ghost ev = entries_view(entries@);
    let mut r: Vec<(String, Vec<String>)> = Vec::new();
    let mut i: usize = 0;
    assert(rule_entries(r@) =~= Seq::empty());
    assert(ev.take(0) =~= Seq::empty());
    while i < entries.len()
        invariant
            i <= entries@.len(),
            ev == entries_view(entries@),
            ev.len() == entries@.len(),
            forall|j: int| 0 <= j < entries@.len() ==> #[trigger] ev[j] == (entries@[j].0@, entries@[j].1@),
            distinct_keys(rule_entries(r@)),
            rules_map(r@) == json_rules(ev.take(i as int)),
        decreases entries@.len() - i,
    {
        assert(ev.take(i + 1).drop_last() =~= ev.take(i as int));
        assert(ev.take(i + 1).last() == (entries@[i as int].0@, entries@[i as int].1@));
        match &entries[i].1 {
            JsonValue::Array(items) => {
                let permissions = strings_of(items);
                set_rule(&mut r, entries[i].0.as_str(), permissions);
            },
            _ => {},
        }
        i = i + 1;
    }
    assert(ev.take(entries@.len() as int) =~= ev);
    r
}

/// The policy that a JSON value describes.
fn policy_from_json(policy: &JsonValue) -> (r: Vec<(String, Vec<(String, Vec<String>)>)>)
    ensures
        well_formed_policy(r@),
        policy_map(r@) == normalized(policy@),
{
    let mut r: Vec<(String, Vec<(String, Vec<String>)>)> = Vec::new();
    assert(action_entries(r@) =~= Seq::empty());
    match policy {
        JsonValue::Object(entries) => {
            proof { lemma_entries_view(entries@); }
            let ghost ev = entries_view(entries@);
            let mut i: usize = 0;
            assert(ev.take(0) =~= Seq::empty());
            while i < entries.len()
                invariant
                    i <= entries@.len(),
                    ev == entries_view(entries@),
                    ev.len() == entries@.len(),
                    forall|j: int| 0 <= j < entries@.len() ==> #[trigger] ev[j] == (entries@[j].0@, entries@[j].1@),
                    well_formed_policy(r@),
                    policy_map(r@) == json_policy(ev.take(i as int)),
                decreases entries@.len() - i,
            {
                assert(ev.take(i + 1).drop_last() =~= ev.take(i as int));
                assert(ev.take(i + 1).last() == (entries@[i as int].0@, entries@[i as int].1@));
                let action = entries[i].0.as_str();
                if str_eq(action, "read") || str_eq(action, "write") {
                    match &entries[i].1 {
                        JsonValue::Object(inner) => {
                            let rules = rules_from_json(inner);
                            set_rules(&mut r, action, rules);
                        },
                        _ => {},
                    }
                }
                i = i + 1;
            }
            assert(ev.take(entries@.len() as int) =~= ev);
        },
        _ => {},
    }
    r
}

impl PolicyMeta {
    /// A policy from JSON, with default permissions added for `meta_keys`.
    fn from_json(policy: &JsonValue, meta_keys: Vec<String>) -> (r: Self)
        ensures
            r@ == fill_policy(normalized(policy@), strings_view(meta_keys@)),
    {
        let mut r = PolicyMeta { policy: policy_from_json(policy) };
        r.fill_default(meta_keys);
        r
    }

    /// A policy from its JSON form (only `read` and `write` are kept), with
    /// default permissions added for `meta_keys`.
    pub fn new(policy: JsonValue, meta_keys: Vec<String>) -> (r: Self)
        ensures
            r@ == fill_policy(normalized(policy@), strings_view(meta_keys@)),
    {
        Self::from_json(&policy, meta_keys)
    }

    /// The `read` and `write` rules of a JSON policy, as `(action, [(key,
    /// permissions)])` entries; other actions and malformed entries are dropped.
    pub fn normalize_policy(policy: JsonValue) -> (r: Vec<(String, Vec<(String, Vec<String>)>)>)
        ensures
            well_formed_policy(r@),
            policy_map(r@) == normalized(policy@),
    {
        policy_from_json(&policy)
    }

    /// A policy from a GraphQL answer's `policy` entry.
    pub fn create_from_graphql(data: &JsonValue, meta_keys: Vec<String>) -> (r: Result<Self, KnishIOError>)
        ensures
            r matches Ok(p) && p@ == fill_policy(normalized(graphql_policy(data@)), strings_view(meta_keys@)),
    {
        match data.get("policy") {
            Some(p) => Ok(Self::from_json(p, meta_keys)),
            None => {
                let empty = JsonValue::Object(Vec::new());
                assert(empty@ == Json::Object(entries_view(Seq::empty())));
                assert(entries_view(Seq::<(String, JsonValue)>::empty()) =~= Seq::empty());
                Ok(Self::from_json(&empty, meta_keys))
            },
        }
    }

    /// A policy from a database row: the first element of an array, or the value itself.
    pub fn create_from_db(data: &JsonValue, meta_keys: Vec<String>) -> (r: Result<Self, KnishIOError>)
        ensures
            r matches Ok(p) && p@ == fill_policy(normalized(db_policy(data@)), strings_view(meta_keys@)),
    {
        match data {
            JsonValue::Array(items) => {
                proof { lemma_items_view(items@); }
                if items.len() > 0 {
                    Ok(Self::from_json(&items[0], meta_keys))
                } else {
                    let empty = JsonValue::Object(Vec::new());
                    assert(empty@ == Json::Object(entries_view(Seq::empty())));
                    assert(entries_view(Seq::<(String, JsonValue)>::empty()) =~= Seq::empty());
                    Ok(Self::from_json(&empty, meta_keys))
                }
            },
            _ => Ok(Self::from_json(data, meta_keys)),
        }
    }
}

/// Every key that has permissions under some action.
pub open spec fn policy_keys(p: Map<Seq<char>, Map<Seq<char>, Seq<Seq<char>>>>) -> Set<Seq<char>> {
    Set::new(|k: Seq<char>| exists|a: Seq<char>| #[trigger] p.dom().contains(a) && p[a].dom().contains(k))
}

/// Append to `r` each key of `rules` that it does not hold yet.
fn add_keys(r: &mut Vec<String>, rules: &Vec<(String, Vec<String>)>)
    requires
        strings_view(old(r)@).no_duplicates(),
    ensures
        strings_view(final(r)@).no_duplicates(),
        strings_view(final(r)@).to_set() == strings_view(old(r)@).to_set().union(rules_map(rules@).dom()),
{
    let ghost start = strings_view(r@).to_set();
    let mut j: usize = 0;
    while j < rules.len()
        invariant
            j <= rules@.len(),
            strings_view(r@).no_duplicates(),
            strings_view(r@).to_set() == start.union(
                Set::new(|k: Seq<char>| exists|b: int| 0 <= b < j && #[trigger] rules@[b].0@ == k),
            ),
        decreases rules@.len() - j,
    {
        let ghost before = strings_view(r@);
        let key = &rules[j].0;
        let ghost sj = Set::new(|k: Seq<char>| exists|b: int| 0 <= b < j && #[trigger] rules@[b].0@ == k);
        let ghost sj1 = Set::new(|k: Seq<char>| exists|b: int| 0 <= b < j + 1 && #[trigger] rules@[b].0@ == k);
        proof {
            assert(rules@[j as int].0@ == key@);
            assert forall|k: Seq<char>| #[trigger] sj1.contains(k) <==> (sj.contains(k) || k == key@) by {
                if sj1.contains(k) && k != key@ {
                    let b = choose|b: int| 0 <= b < j + 1 && #[trigger] rules@[b].0@ == k;
                    assert(b < j);
                    assert(sj.contains(k));
                }
                if sj.contains(k) {
                    let b = choose|b: int| 0 <= b < j && #[trigger] rules@[b].0@ == k;
                    assert(rules@[b].0@ == k);
                }
            }
            assert(sj1 =~= sj.insert(key@));
        }
        if !contains_str(r, key.as_str()) {
            r.push(key.clone());
            assert(strings_view(r@) =~= before.push(key@));
            assert forall|a: int, b: int| 0 <= a < b < strings_view(r@).len() implies strings_view(r@)[a] != strings_view(r@)[b] by {
                if b == before.len() {
                    assert(before[a] == strings_view(r@)[a]);
                }
            }
            assert forall|k: Seq<char>| #[trigger] strings_view(r@).contains(k) <==> (before.contains(k) || k == key@) by {
                if k == key@ {
                    assert(strings_view(r@)[before.len() as int] == k);
                }
                if before.contains(k) {
                    let x = choose|x: int| 0 <= x < before.len() && before[x] == k;
                    assert(strings_view(r@)[x] == k);
                }
                if strings_view(r@).contains(k) && k != key@ {
                    let x = choose|x: int| 0 <= x < strings_view(r@).len() && strings_view(r@)[x] == k;
                    assert(x < before.len());
                    assert(before[x] == k);
                }
            }
            assert(strings_view(r@).to_set() =~= before.to_set().insert(key@));
        } else {
            assert(before.to_set().contains(key@));
            assert(strings_view(r@).to_set() =~= before.to_set().insert(key@));
        }
        assert(strings_view(r@).to_set() =~= start.union(sj1));
        j = j + 1;
    }
    proof {
        let re = rule_entries(rules@);
        lemma_keyed_dom(re);
        assert forall|k: Seq<char>| key_set(re).contains(k) <==> (exists|b: int| 0 <= b < rules@.len() && #[trigger] rules@[b].0@ == k) by {
            if key_set(re).contains(k) {
                let b = choose|b: int| 0 <= b < re.len() && #[trigger] re[b].0 == k;
                assert(rules@[b].0@ == k);
            }
            if exists|b: int| 0 <= b < rules@.len() && #[trigger] rules@[b].0@ == k {
                let b = choose|b: int| 0 <= b < rules@.len() && #[trigger] rules@[b].0@ == k;
                assert(re[b].0 == k);
            }
        }
        assert(rules_map(rules@).dom() =~= Set::new(|k: Seq<char>| exists|b: int| 0 <= b < rules@.len() && #[trigger] rules@[b].0@ == k));
    }
}

impl PolicyMeta {
    /// Every metadata key that has permissions under some action, each once.
    pub fn get_policy_keys(&self) -> (r: Vec<String>)
        ensures
            strings_view(r@).no_duplicates(),
            strings_view(r@).to_set() == policy_keys(self@),
    {
        proof { use_type_invariant(self); }
        let mut r: Vec<String> = Vec::new();
        let mut i: usize = 0;
        assert(strings_view(r@).to_set() =~= Set::empty());
        while i < self.policy.len()
            invariant
                i <= self.policy@.len(),
                well_formed_policy(self.policy@),
                strings_view(r@).no_duplicates(),
                strings_view(r@).to_set() == Set::new(
                    |k: Seq<char>| exists|a: int| 0 <= a < i && #[trigger] rules_map(self.policy@[a].1@).dom().contains(k),
                ),
            decreases self.policy@.len() - i,
        {
            let ghost before = strings_view(r@).to_set();
            add_keys(&mut r, &self.policy[i].1);
            assert(strings_view(r@).to_set() =~= Set::new(
                |k: Seq<char>| exists|a: int| 0 <= a < i + 1 && #[trigger] rules_map(self.policy@[a].1@).dom().contains(k),
            ));
            i = i + 1;
        }
        proof {
            let ae = action_entries(self.policy@);
            lemma_keyed_dom(ae);
            assert forall|k: Seq<char>| #[trigger] policy_keys(self@).contains(k) <==> (exists|a: int|
                0 <= a < self.policy@.len() && #[trigger] rules_map(self.policy@[a].1@).dom().contains(k)) by {
                if policy_keys(self@).contains(k) {
                    let act = choose|act: Seq<char>| #[trigger] self@.dom().contains(act) && self@[act].dom().contains(k);
                    assert(key_set(ae).contains(act));
                    let a = choose|a: int| 0 <= a < ae.len() && #[trigger] ae[a].0 == act;
                    lemma_keyed_index(ae, a);
                    assert(rules_map(self.policy@[a].1@).dom().contains(k));
                }
                if exists|a: int| 0 <= a < self.policy@.len() && #[trigger] rules_map(self.policy@[a].1@).dom().contains(k) {
                    let a = choose|a: int| 0 <= a < self.policy@.len() && #[trigger] rules_map(self.policy@[a].1@).dom().contains(k);
                    lemma_keyed_index(ae, a);
                    assert(self@.dom().contains(ae[a].0));
                }
            }
            assert(strings_view(r@).to_set() =~= policy_keys(self@));
        }
        r
    }
}

/// Filling defaults keeps every permission that was already set.
pub proof fn law_fill_default_keeps_existing(
    p: Map<Seq<char>, Map<Seq<char>, Seq<Seq<char>>>>,
    keys: Seq<Seq<char>>,
    action: Seq<char>,
    key: Seq<char>,
)
    requires
        p.dom().contains(action),
        p[action].dom().contains(key),
    ensures
        fill_policy(p, keys).dom().contains(action),
        fill_policy(p, keys)[action].dom().contains(key),
        fill_policy(p, keys)[action][key] == p[action][key],
{
    reveal_strlit("read");
    reveal_strlit("write");
    assert("read"@.len() != "write"@.len());
}

/// After filling defaults every given key has read and write permissions; a
/// key that had none gets read by everyone, and write by everyone for
/// `characters` and `pubkey`, by the owner for the other keys.
pub proof fn law_fill_default_covers_keys(
    p: Map<Seq<char>, Map<Seq<char>, Seq<Seq<char>>>>,
    keys: Seq<Seq<char>>,
    key: Seq<char>,
)
    requires
        keys.contains(key),
    ensures
        fill_policy(p, keys)["read"@].dom().contains(key),
        fill_policy(p, keys)["write"@].dom().contains(key),
        !action_rules(p, "read"@).dom().contains(key) ==> fill_policy(p, keys)["read"@][key] == seq!["all"@],
        !action_rules(p, "write"@).dom().contains(key) ==> fill_policy(p, keys)["write"@][key] == default_permissions(key, true),
{
    reveal_strlit("read");
    reveal_strlit("write");
    assert("read"@.len() != "write"@.len());
}

/// Filling defaults a second time with the same keys changes nothing.
pub proof fn law_fill_default_idempotent(p: Map<Seq<char>, Map<Seq<char>, Seq<Seq<char>>>>, keys: Seq<Seq<char>>)
    ensures
        fill_policy(fill_policy(p, keys), keys) == fill_policy(p, keys),
{
    reveal_strlit("read");
    reveal_strlit("write");
    assert("read"@.len() != "write"@.len());
    let q = fill_policy(p, keys);
    assert(action_rules(q, "read"@) == filled(action_rules(p, "read"@), keys, false));
    assert(action_rules(q, "write"@) == filled(action_rules(p, "write"@), keys, true));
    assert(filled(action_rules(q, "read"@), keys, false) =~= action_rules(q, "read"@));
    assert(filled(action_rules(q, "write"@), keys, true) =~= action_rules(q, "write"@));
    assert(fill_policy(q, keys) =~= q);
}

/// Permissions read back after setting them are those that were set, and
/// every other key keeps its own.
pub proof fn law_set_then_get(
    p: Map<Seq<char>, Map<Seq<char>, Seq<Seq<char>>>>,
    action: Seq<char>,
    key: Seq<char>,
    permissions: Seq<Seq<char>>,
    other_action: Seq<char>,
    other_key: Seq<char>,
)
    ensures
        with_permissions(p, action, key, permissions).dom().contains(action),
        with_permissions(p, action, key, permissions)[action].dom().contains(key),
        with_permissions(p, action, key, permissions)[action][key] == permissions,
        (other_action != action || other_key != key) && p.dom().contains(other_action)
            && p[other_action].dom().contains(other_key) ==> {
            let q = with_permissions(p, action, key, permissions);
            q.dom().contains(other_action) && q[other_action].dom().contains(other_key)
                && q[other_action][other_key] == p[other_action][other_key]
        },
{
}

} // verus!
