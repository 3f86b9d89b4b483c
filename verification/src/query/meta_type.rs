//! Queries for meta assets by type, identifier, key and value, each given as
//! one string or as a list.

use vstd::prelude::*;
use crate::json::{Json, JsonValue, entries_view, lemma_entries_view, object, push_entry, push_opt_str, opt_str_entry,
    str_array, string_array, lookup, key_index, find_entry};
use crate::text::{strings_view, str_eq, clone_strings};

verus! {

/// The GraphQL text of this query.
pub const META_TYPE_QUERY: &'static str = r#"query( $metaType: String, $metaTypes: [ String! ], $metaId: String, $metaIds: [ String! ], $key: String, $keys: [ String! ], $value: String, $values: [ String! ], $count: String, $latest: Boolean, $filter: [ MetaFilter! ], $queryArgs: QueryArgs, $countBy: String, $cellSlug: String ) {
          MetaType( metaType: $metaType, metaTypes: $metaTypes, metaId: $metaId, metaIds: $metaIds, key: $key, keys: $keys, value: $value, values: $values, count: $count, filter: $filter, queryArgs: $queryArgs, countBy: $countBy, cellSlug: $cellSlug ) {
            metaType,
            instanceCount {
              key,
              value
            },
            instances {
              metaType,
              metaId,
              createdAt,
              metas(latest:$latest) {
                molecularHash,
                position,
                key,
                value,
                createdAt
              }
            },
            paginatorInfo {
              currentPage,
              total
            }
          }
        }"#;

/// One string, or a list of strings, as characters.
pub enum OneOrMany {
    /// One string
    Single(Seq<char>),
    /// A list of strings
    Multiple(Seq<Seq<char>>),
}

/// A meta type, or a list of them.
#[derive(Debug)]
pub enum MetaTypeValue {
    /// One meta type
    Single(String),
    /// Several meta types
    Multiple(Vec<String>),
}

/// A meta identifier, or a list of them.
#[derive(Debug)]
pub enum MetaIdValue {
    /// One identifier
    Single(String),
    /// Several identifiers
    Multiple(Vec<String>),
}

/// A meta key, or a list of them.
#[derive(Debug)]
pub enum KeyValue {
    /// One key
    Single(String),
    /// Several keys
    Multiple(Vec<String>),
}

/// A meta value, or a list of them.
#[derive(Debug)]
pub enum ValueValue {
    /// One value
    Single(String),
    /// Several values
    Multiple(Vec<String>),
}

impl View for MetaTypeValue {
    type V = OneOrMany;

    open spec fn view(&self) -> OneOrMany {
        match self {
            MetaTypeValue::Single(s) => OneOrMany::Single(s@),
            MetaTypeValue::Multiple(v) => OneOrMany::Multiple(strings_view(v@)),
        }
    }
}

impl View for MetaIdValue {
    type V = OneOrMany;

    open spec fn view(&self) -> OneOrMany {
        match self {
            MetaIdValue::Single(s) => OneOrMany::Single(s@),
            MetaIdValue::Multiple(v) => OneOrMany::Multiple(strings_view(v@)),
        }
    }
}

impl View for KeyValue {
    type V = OneOrMany;

    open spec fn view(&self) -> OneOrMany {
        match self {
            KeyValue::Single(s) => OneOrMany::Single(s@),
            KeyValue::Multiple(v) => OneOrMany::Multiple(strings_view(v@)),
        }
    }
}

impl View for ValueValue {
    type V = OneOrMany;

    open spec fn view(&self) -> OneOrMany {
        match self {
            ValueValue::Single(s) => OneOrMany::Single(s@),
            ValueValue::Multiple(v) => OneOrMany::Multiple(strings_view(v@)),
        }
    }
}

impl Clone for MetaTypeValue {
    fn clone(&self) -> (r: Self)
        ensures
            r@ == self@,
    {
        match self {
            MetaTypeValue::Single(s) => MetaTypeValue::Single(s.clone()),
            MetaTypeValue::Multiple(v) => MetaTypeValue::Multiple(clone_strings(v)),
        }
    }
}

impl Clone for MetaIdValue {
    fn clone(&self) -> (r: Self)
        ensures
            r@ == self@,
    {
        match self {
            MetaIdValue::Single(s) => MetaIdValue::Single(s.clone()),
            MetaIdValue::Multiple(v) => MetaIdValue::Multiple(clone_strings(v)),
        }
    }
}

impl Clone for KeyValue {
    fn clone(&self) -> (r: Self)
        ensures
            r@ == self@,
    {
        match self {
            KeyValue::Single(s) => KeyValue::Single(s.clone()),
            KeyValue::Multiple(v) => KeyValue::Multiple(clone_strings(v)),
        }
    }
}

impl Clone for ValueValue {
    fn clone(&self) -> (r: Self)
        ensures
            r@ == self@,
    {
        match self {
            ValueValue::Single(s) => ValueValue::Single(s.clone()),
            ValueValue::Multiple(v) => ValueValue::Multiple(clone_strings(v)),
        }
    }
}

/// The variable entry of a parameter given as one string or a list: under
/// `single` for one string, under `multiple` for a list; none when unset.
pub open spec fn one_or_many_entry(single: Seq<char>, multiple: Seq<char>, v: Option<OneOrMany>) -> Seq<(Seq<char>, Json)> {
    match v {
        Some(OneOrMany::Single(s)) => seq![(single, Json::Str(s))],
        Some(OneOrMany::Multiple(vs)) => seq![(multiple, str_array(vs))],
        None => seq![],
    }
}

/// The view of an optional parameter.
pub open spec fn opt_one_or_many<T: View<V = OneOrMany>>(v: Option<T>) -> Option<OneOrMany> {
    match v {
        Some(x) => Some(x@),
        None => None,
    }
}

/// Query arguments as sent: an object whose first `limit` entry is the
/// number 0 has that limit replaced by `"*"` (no limit).
pub open spec fn query_args_sent(a: Json) -> Json {
    match a {
        Json::Object(e) => match key_index(e, "limit"@) {
            Some(i) => if e[i].1 == Json::Number(0) {
                Json::Object(e.update(i, ("limit"@, Json::Str("*"@))))
            } else {
                a
            },
            None => a,
        },
        _ => a,
    }
}

/// The parameters of a meta-type query.
#[derive(Debug)]
pub struct QueryMetaTypeParams {
    /// Meta type or types
    pub meta_type: Option<MetaTypeValue>,
    /// Meta identifier or identifiers
    pub meta_id: Option<MetaIdValue>,
    /// Key or keys
    pub key: Option<KeyValue>,
    /// Value or values
    pub value: Option<ValueValue>,
    /// Whether only the latest metas are wanted
    pub latest: Option<bool>,
    /// Filter of the metas
    pub filter: Option<JsonValue>,
    /// Pagination arguments
    pub query_args: Option<JsonValue>,
    /// Count parameter
    pub count: Option<String>,
    /// Count-by parameter
    pub count_by: Option<String>,
    /// Cell slug
    pub cell_slug: Option<String>,
}

impl Default for QueryMetaTypeParams {
    fn default() -> (p: Self)
        ensures
            p.meta_type is None,
            p.meta_id is None,
            p.key is None,
            p.value is None,
            p.latest is None,
            p.filter is None,
            p.query_args is None,
            p.count is None,
            p.count_by is None,
            p.cell_slug is None,
    {
        QueryMetaTypeParams {
            meta_type: None,
            meta_id: None,
            key: None,
            value: None,
            latest: None,
            filter: None,
            query_args: None,
            count: None,
            count_by: None,
            cell_slug: None,
        }
    }
}

/// The variables of a meta-type query: each set parameter under its name
/// (the plural name for a list), `latest` always (false when unset), the
/// filter, the query arguments as sent, the count, count-by and cell slug.
pub open spec fn meta_type_variables(p: QueryMetaTypeParams) -> Seq<(Seq<char>, Json)> {
    one_or_many_entry("metaType"@, "metaTypes"@, opt_one_or_many(p.meta_type))
        + one_or_many_entry("metaId"@, "metaIds"@, opt_one_or_many(p.meta_id))
        + one_or_many_entry("key"@, "keys"@, opt_one_or_many(p.key))
        + one_or_many_entry("value"@, "values"@, opt_one_or_many(p.value))
        + seq![("latest"@, Json::Bool(match p.latest { Some(b) => b, None => false }))]
        + match p.filter { Some(f) => seq![("filter"@, f@)], None => seq![] }
        + match p.query_args { Some(a) => seq![("queryArgs"@, query_args_sent(a@))], None => seq![] }
        + opt_str_entry("count"@, p.count)
        + opt_str_entry("countBy"@, p.count_by)
        + opt_str_entry("cellSlug"@, p.cell_slug)
}

/// Append the entry of a parameter given as one string or a list.
fn push_one_or_many(
    entries: &mut Vec<(String, JsonValue)>,
    single: &str,
    multiple: &str,
    one: Option<String>,
    many: Option<Vec<String>>,
)
    requires
        one is None || many is None,
    ensures
        entries_view(final(entries)@) == entries_view(old(entries)@) + one_or_many_entry(
            single@,
            multiple@,
            match (one, many) {
                (Some(s), _) => Some(OneOrMany::Single(s@)),
                (None, Some(v)) => Some(OneOrMany::Multiple(strings_view(v@))),
                (None, None) => None,
            },
        ),
{
    match one {
        Some(s) => {
            push_entry(entries, single, JsonValue::Str(s));
        },
        None => match many {
            Some(v) => {
                push_entry(entries, multiple, string_array(&v));
            },
            None => {},
        },
    }
    assert(entries_view(entries@) =~= entries_view(old(entries)@) + one_or_many_entry(
        single@,
        multiple@,
        match (one, many) {
            (Some(s), _) => Some(OneOrMany::Single(s@)),
            (None, Some(v)) => Some(OneOrMany::Multiple(strings_view(v@))),
            (None, None) => None,
        },
    ));
}

/// The query arguments as sent.
pub(crate) fn fix_query_args(args: JsonValue) -> (r: JsonValue)
    ensures
        r@ == query_args_sent(args@),
{
    match args {
        JsonValue::Object(mut entries) => {
            let ghost e = entries_view(entries@);
            proof { lemma_entries_view(entries@); }
            match find_entry(&entries, "limit") {
                Some(i) => {
                    let is_zero = match &entries[i].1 {
                        JsonValue::Number(n) => *n == 0,
                        _ => false,
                    };
                    if is_zero {
                        entries.set(i, ("limit".to_owned(), JsonValue::Str("*".to_owned())));
                        proof { lemma_entries_view(entries@); }
                        assert(entries_view(entries@) =~= e.update(i as int, ("limit"@, Json::Str("*"@))));
                    }
                    JsonValue::Object(entries)
                },
                None => JsonValue::Object(entries),
            }
        },
        other => other,
    }
}

/// Query for meta assets.
#[derive(Debug)]
pub struct QueryMetaType {
    /// Meta type or types
    pub meta_type: Option<MetaTypeValue>,
    /// Meta identifier or identifiers
    pub meta_id: Option<MetaIdValue>,
    /// Key or keys
    pub key: Option<KeyValue>,
    /// Value or values
    pub value: Option<ValueValue>,
    /// Whether only the latest metas are wanted
    pub latest: Option<bool>,
    /// Filter of the metas
    pub filter: Option<JsonValue>,
    /// Pagination arguments
    pub query_args: Option<JsonValue>,
    /// Count parameter
    pub count: Option<String>,
    /// Count-by parameter
    pub count_by: Option<String>,
    /// Cell slug
    pub cell_slug: Option<String>,
}

/// The parameters that a query holds.
pub open spec fn params_of(q: QueryMetaType) -> QueryMetaTypeParams {
    QueryMetaTypeParams {
        meta_type: q.meta_type,
        meta_id: q.meta_id,
        key: q.key,
        value: q.value,
        latest: q.latest,
        filter: q.filter,
        query_args: q.query_args,
        count: q.count,
        count_by: q.count_by,
        cell_slug: q.cell_slug,
    }
}

/// A copy of an optional string.
fn clone_opt(o: &Option<String>) -> (r: Option<String>)
    ensures
        crate::text::opt_view(r) == crate::text::opt_view(*o),
{
    match o {
        Some(s) => Some(s.clone()),
        None => None,
    }
}

/// Two optional JSON values are both absent, or both present with one view.
pub open spec fn same_opt_json(a: Option<JsonValue>, b: Option<JsonValue>) -> bool {
    match (a, b) {
        (Some(x), Some(y)) => x@ == y@,
        (None, None) => true,
        _ => false,
    }
}

/// A copy of an optional JSON value.
fn clone_opt_json(o: &Option<JsonValue>) -> (r: Option<JsonValue>)
    ensures
        same_opt_json(r, *o),
{
    match o {
        Some(v) => Some(v.clone()),
        None => None,
    }
}

/// Two parameter sets hold the same values.
pub open spec fn same_params(a: QueryMetaTypeParams, b: QueryMetaTypeParams) -> bool {
    &&& opt_one_or_many(a.meta_type) == opt_one_or_many(b.meta_type)
    &&& opt_one_or_many(a.meta_id) == opt_one_or_many(b.meta_id)
    &&& opt_one_or_many(a.key) == opt_one_or_many(b.key)
    &&& opt_one_or_many(a.value) == opt_one_or_many(b.value)
    &&& a.latest == b.latest
    &&& same_opt_json(a.filter, b.filter)
    &&& same_opt_json(a.query_args, b.query_args)
    &&& crate::text::opt_view(a.count) == crate::text::opt_view(b.count)
    &&& crate::text::opt_view(a.count_by) == crate::text::opt_view(b.count_by)
    &&& crate::text::opt_view(a.cell_slug) == crate::text::opt_view(b.cell_slug)
}

/// Append the entry of the meta type parameter.
fn push_meta_type(e: &mut Vec<(String, JsonValue)>, v: Option<MetaTypeValue>)
    ensures
        entries_view(final(e)@) == entries_view(old(e)@) + one_or_many_entry("metaType"@, "metaTypes"@, opt_one_or_many(v)),
{
    match v {
        Some(MetaTypeValue::Single(s)) => push_one_or_many(e, "metaType", "metaTypes", Some(s), None),
        Some(MetaTypeValue::Multiple(m)) => push_one_or_many(e, "metaType", "metaTypes", None, Some(m)),
        None => push_one_or_many(e, "metaType", "metaTypes", None, None),
    }
}

/// Append the entry of the meta identifier parameter.
fn push_meta_id(e: &mut Vec<(String, JsonValue)>, v: Option<MetaIdValue>)
    ensures
        entries_view(final(e)@) == entries_view(old(e)@) + one_or_many_entry("metaId"@, "metaIds"@, opt_one_or_many(v)),
{
    match v {
        Some(MetaIdValue::Single(s)) => push_one_or_many(e, "metaId", "metaIds", Some(s), None),
        Some(MetaIdValue::Multiple(m)) => push_one_or_many(e, "metaId", "metaIds", None, Some(m)),
        None => push_one_or_many(e, "metaId", "metaIds", None, None),
    }
}

/// Append the entry of the key parameter.
fn push_key(e: &mut Vec<(String, JsonValue)>, v: Option<KeyValue>)
    ensures
        entries_view(final(e)@) == entries_view(old(e)@) + one_or_many_entry("key"@, "keys"@, opt_one_or_many(v)),
{
    match v {
        Some(KeyValue::Single(s)) => push_one_or_many(e, "key", "keys", Some(s), None),
        Some(KeyValue::Multiple(m)) => push_one_or_many(e, "key", "keys", None, Some(m)),
        None => push_one_or_many(e, "key", "keys", None, None),
    }
}

/// Append the entry of the value parameter.
fn push_value(e: &mut Vec<(String, JsonValue)>, v: Option<ValueValue>)
    ensures
        entries_view(final(e)@) == entries_view(old(e)@) + one_or_many_entry("value"@, "values"@, opt_one_or_many(v)),
{
    match v {
        Some(ValueValue::Single(s)) => push_one_or_many(e, "value", "values", Some(s), None),
        Some(ValueValue::Multiple(m)) => push_one_or_many(e, "value", "values", None, Some(m)),
        None => push_one_or_many(e, "value", "values", None, None),
    }
}

impl QueryMetaType {
    /// The variables of a meta-type query with the given parameters.
    pub fn create_variables(params: QueryMetaTypeParams) -> (r: JsonValue)
        ensures
            r@ == Json::Object(meta_type_variables(params)),
    {
        let ghost p = params;
        let mut e: Vec<(String, JsonValue)> = Vec::new();
        assert(entries_view(e@) =~= Seq::empty());
        push_meta_type(&mut e, params.meta_type);
        let ghost s1 = entries_view(e@);
        push_meta_id(&mut e, params.meta_id);
        let ghost s2 = entries_view(e@);
        push_key(&mut e, params.key);
        let ghost s3 = entries_view(e@);
        push_value(&mut e, params.value);
        let ghost s4 = entries_view(e@);
        let latest = match params.latest {
            Some(b) => b,
            None => false,
        };
        push_entry(&mut e, "latest", JsonValue::Bool(latest));
        let ghost s5 = entries_view(e@);
        match params.filter {
            Some(f) => push_entry(&mut e, "filter", f),
            None => {},
        }
        let ghost s6 = entries_view(e@);
        match params.query_args {
            Some(a) => push_entry(&mut e, "queryArgs", fix_query_args(a)),
            None => {},
        }
        let ghost s7 = entries_view(e@);
        push_opt_str(&mut e, "count", &params.count);
        push_opt_str(&mut e, "countBy", &params.count_by);
        push_opt_str(&mut e, "cellSlug", &params.cell_slug);
        proof {
            assert(s6 =~= s5 + match p.filter {
                Some(f) => seq![("filter"@, f@)],
                None => seq![],
            });
            assert(s7 =~= s6 + match p.query_args {
                Some(a) => seq![("queryArgs"@, query_args_sent(a@))],
                None => seq![],
            });
            assert(s5 =~= s4 + seq![("latest"@, Json::Bool(match p.latest { Some(b) => b, None => false }))]);
            assert(entries_view(e@) =~= meta_type_variables(p));
        }
        object(e)
    }

    /// A query with no parameter set.
    pub fn new() -> (q: Self)
        ensures
            q.meta_type is None,
            q.meta_id is None,
            q.key is None,
            q.value is None,
            q.latest is None,
            q.filter is None,
            q.query_args is None,
            q.count is None,
            q.count_by is None,
            q.cell_slug is None,
    {
        QueryMetaType {
            meta_type: None,
            meta_id: None,
            key: None,
            value: None,
            latest: None,
            filter: None,
            query_args: None,
            count: None,
            count_by: None,
            cell_slug: None,
        }
    }

    /// The query for one meta type.
    pub fn with_meta_type(self, meta_type: &str) -> (q: Self)
        ensures
            opt_one_or_many(q.meta_type) == Some(OneOrMany::Single(meta_type@)),
            q == (QueryMetaType { meta_type: q.meta_type, ..self }),
    {
        QueryMetaType { meta_type: Some(MetaTypeValue::Single(meta_type.to_owned())), ..self }
    }

    /// The query for several meta types.
    pub fn with_meta_types(self, meta_types: Vec<String>) -> (q: Self)
        ensures
            opt_one_or_many(q.meta_type) == Some(OneOrMany::Multiple(strings_view(meta_types@))),
            q == (QueryMetaType { meta_type: q.meta_type, ..self }),
    {
        QueryMetaType { meta_type: Some(MetaTypeValue::Multiple(meta_types)), ..self }
    }

    /// The query for one meta identifier.
    pub fn with_meta_id(self, meta_id: &str) -> (q: Self)
        ensures
            opt_one_or_many(q.meta_id) == Some(OneOrMany::Single(meta_id@)),
            q == (QueryMetaType { meta_id: q.meta_id, ..self }),
    {
        QueryMetaType { meta_id: Some(MetaIdValue::Single(meta_id.to_owned())), ..self }
    }

    /// The query for several meta identifiers.
    pub fn with_meta_ids(self, meta_ids: Vec<String>) -> (q: Self)
        ensures
            opt_one_or_many(q.meta_id) == Some(OneOrMany::Multiple(strings_view(meta_ids@))),
            q == (QueryMetaType { meta_id: q.meta_id, ..self }),
    {
        QueryMetaType { meta_id: Some(MetaIdValue::Multiple(meta_ids)), ..self }
    }

    /// The query for one key.
    pub fn with_key(self, key: &str) -> (q: Self)
        ensures
            opt_one_or_many(q.key) == Some(OneOrMany::Single(key@)),
            q == (QueryMetaType { key: q.key, ..self }),
    {
        QueryMetaType { key: Some(KeyValue::Single(key.to_owned())), ..self }
    }

    /// The query for several keys.
    pub fn with_keys(self, keys: Vec<String>) -> (q: Self)
        ensures
            opt_one_or_many(q.key) == Some(OneOrMany::Multiple(strings_view(keys@))),
            q == (QueryMetaType { key: q.key, ..self }),
    {
        QueryMetaType { key: Some(KeyValue::Multiple(keys)), ..self }
    }

    /// The query for one value.
    pub fn with_value(self, value: &str) -> (q: Self)
        ensures
            opt_one_or_many(q.value) == Some(OneOrMany::Single(value@)),
            q == (QueryMetaType { value: q.value, ..self }),
    {
        QueryMetaType { value: Some(ValueValue::Single(value.to_owned())), ..self }
    }

    /// The query for several values.
    pub fn with_values(self, values: Vec<String>) -> (q: Self)
        ensures
            opt_one_or_many(q.value) == Some(OneOrMany::Multiple(strings_view(values@))),
            q == (QueryMetaType { value: q.value, ..self }),
    {
        QueryMetaType { value: Some(ValueValue::Multiple(values)), ..self }
    }

    /// The query with the latest flag set.
    pub fn with_latest(self, latest: bool) -> (q: Self)
        ensures
            q == (QueryMetaType { latest: Some(latest), ..self }),
    {
        QueryMetaType { latest: Some(latest), ..self }
    }

    /// The query with a filter.
    pub fn with_filter(self, filter: JsonValue) -> (q: Self)
        ensures
            q == (QueryMetaType { filter: Some(filter), ..self }),
    {
        QueryMetaType { filter: Some(filter), ..self }
    }

    /// The query with pagination arguments.
    pub fn with_query_args(self, query_args: JsonValue) -> (q: Self)
        ensures
            q == (QueryMetaType { query_args: Some(query_args), ..self }),
    {
        QueryMetaType { query_args: Some(query_args), ..self }
    }

    /// The query with a count parameter.
    pub fn with_count(self, count: &str) -> (q: Self)
        ensures
            crate::text::opt_view(q.count) == Some(count@),
            q == (QueryMetaType { count: q.count, ..self }),
    {
        QueryMetaType { count: Some(count.to_owned()), ..self }
    }

    /// The query with a count-by parameter.
    pub fn with_count_by(self, count_by: &str) -> (q: Self)
        ensures
            crate::text::opt_view(q.count_by) == Some(count_by@),
            q == (QueryMetaType { count_by: q.count_by, ..self }),
    {
        QueryMetaType { count_by: Some(count_by.to_owned()), ..self }
    }

    /// The query with a cell slug.
    pub fn with_cell_slug(self, cell_slug: &str) -> (q: Self)
        ensures
            crate::text::opt_view(q.cell_slug) == Some(cell_slug@),
            q == (QueryMetaType { cell_slug: q.cell_slug, ..self }),
    {
        QueryMetaType { cell_slug: Some(cell_slug.to_owned()), ..self }
    }

    /// The GraphQL text of the query.
    pub fn get_query(&self) -> (s: &'static str)
        ensures
            s@ == META_TYPE_QUERY@,
    {
        META_TYPE_QUERY
    }

    /// The variables sent: those given, else those of the query's parameters.
    pub fn compiled_variables(&self, variables: Option<JsonValue>) -> (res: Option<JsonValue>)
        ensures
            variables is Some ==> res == variables,
            variables is None ==> (res matches Some(v) && v@ == Json::Object(meta_type_variables(params_of(*self)))),
    {
        match variables {
            Some(v) => Some(v),
            None => {
                let params = QueryMetaTypeParams {
                    meta_type: match &self.meta_type {
                        Some(x) => Some(x.clone()),
                        None => None,
                    },
                    meta_id: match &self.meta_id {
                        Some(x) => Some(x.clone()),
                        None => None,
                    },
                    key: match &self.key {
                        Some(x) => Some(x.clone()),
                        None => None,
                    },
                    value: match &self.value {
                        Some(x) => Some(x.clone()),
                        None => None,
                    },
                    latest: self.latest,
                    filter: clone_opt_json(&self.filter),
                    query_args: clone_opt_json(&self.query_args),
                    count: clone_opt(&self.count),
                    count_by: clone_opt(&self.count_by),
                    cell_slug: clone_opt(&self.cell_slug),
                };
                let ghost p = params;
                let r = Self::create_variables(params);
                assert(same_params(p, params_of(*self)));
                assert(meta_type_variables(p) =~= meta_type_variables(params_of(*self)));
                Some(r)
            },
        }
    }

    /// A query for one meta type.
    pub fn by_meta_type(meta_type: &str) -> (q: Self)
        ensures
            opt_one_or_many(q.meta_type) == Some(OneOrMany::Single(meta_type@)),
            q == (QueryMetaType { meta_type: q.meta_type, ..Self::new_spec() }),
    {
        Self::new().with_meta_type(meta_type)
    }

    /// A query for several meta types.
    pub fn by_meta_types(meta_types: Vec<String>) -> (q: Self)
        ensures
            opt_one_or_many(q.meta_type) == Some(OneOrMany::Multiple(strings_view(meta_types@))),
            q == (QueryMetaType { meta_type: q.meta_type, ..Self::new_spec() }),
    {
        Self::new().with_meta_types(meta_types)
    }

    /// A query for one meta identifier.
    pub fn by_meta_id(meta_id: &str) -> (q: Self)
        ensures
            opt_one_or_many(q.meta_id) == Some(OneOrMany::Single(meta_id@)),
            q == (QueryMetaType { meta_id: q.meta_id, ..Self::new_spec() }),
    {
        Self::new().with_meta_id(meta_id)
    }

    /// A query for one meta asset, by type and identifier.
    pub fn by_meta(meta_type: &str, meta_id: &str) -> (q: Self)
        ensures
            opt_one_or_many(q.meta_type) == Some(OneOrMany::Single(meta_type@)),
            opt_one_or_many(q.meta_id) == Some(OneOrMany::Single(meta_id@)),
            q == (QueryMetaType { meta_type: q.meta_type, meta_id: q.meta_id, ..Self::new_spec() }),
    {
        Self::new().with_meta_type(meta_type).with_meta_id(meta_id)
    }

    /// A query for the latest metas only.
    pub fn latest() -> (q: Self)
        ensures
            q == (QueryMetaType { latest: Some(true), ..Self::new_spec() }),
    {
        Self::new().with_latest(true)
    }

    /// A query for one page: `{"page": page, "limit": limit}` as its arguments.
    pub fn paginated(page: i32, limit: i32) -> (q: Self)
        ensures
            q.query_args matches Some(a) && a@ == Json::Object(
                seq![("page"@, Json::Number(page as int)), ("limit"@, Json::Number(limit as int))],
            ),
            q == (QueryMetaType { query_args: q.query_args, ..Self::new_spec() }),
    {
        let mut e: Vec<(String, JsonValue)> = Vec::new();
        push_entry(&mut e, "page", JsonValue::Number(page as i64));
        push_entry(&mut e, "limit", JsonValue::Number(limit as i64));
        assert(entries_view(Seq::<(String, JsonValue)>::empty()) =~= Seq::empty());
        assert(entries_view(e@) =~= seq![("page"@, Json::Number(page as int)), ("limit"@, Json::Number(limit as int))]);
        Self::new().with_query_args(object(e))
    }

    /// The query with no parameter set.
    pub open spec fn new_spec() -> Self {
        QueryMetaType {
            meta_type: None,
            meta_id: None,
            key: None,
            value: None,
            latest: None,
            filter: None,
            query_args: None,
            count: None,
            count_by: None,
            cell_slug: None,
        }
    }
}

} // verus!
