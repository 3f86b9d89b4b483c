//! Queries for meta assets reached through the atoms that carry them.

use vstd::prelude::*;
use crate::json::{
    Json, JsonValue, clone_items, entries_view, items_view, lemma_items_view, object, opt_str_entry,
    push_entry, push_opt_str, push_vec_str, str_array, string_array, vec_str_entry,
};
use crate::query::meta_type::{fix_query_args, query_args_sent, same_opt_json};
use crate::text::{clone_strings, opt_view, strings_view};

verus! {

/// The GraphQL text of this query.
pub const META_TYPE_VIA_ATOM_QUERY: &'static str = r#"query ($metaTypes: [String!], $metaIds: [String!], $values: [String!], $keys: [String!], $latest: Boolean, $filter: [MetaFilter!], $queryArgs: QueryArgs, $countBy: String, $atomValues: [String!], $cellSlugs: [String!] ) {
          MetaTypeViaAtom(
            metaTypes: $metaTypes
            metaIds: $metaIds
            atomValues: $atomValues
            cellSlugs: $cellSlugs
            filter: $filter,
            latest: $latest,
            queryArgs: $queryArgs
            countBy: $countBy
          ) {
            metaType,
            instanceCount {
              key,
              value
            },
            instances {
              metaType,
              metaId,
              createdAt,
              metas( values: $values, keys: $keys ) {
                molecularHash,
                position,
                key,
                value,
                createdAt
              }
            },
            paginatorInfo {
              currentPage,
              total
            }
          }
        }"#;

/// Query for meta assets through their atoms.
#[derive(Debug)]
pub struct QueryMetaTypeViaAtom {
    /// Meta types to filter by
    pub meta_types: Vec<String>,
    /// Meta identifiers to filter by
    pub meta_ids: Vec<String>,
    /// Atom values to filter by
    pub atom_values: Vec<String>,
    /// Cell slugs to filter by
    pub cell_slugs: Vec<String>,
    /// Keys of the metas returned
    pub keys: Vec<String>,
    /// Values of the metas returned
    pub values: Vec<String>,
    /// Whether only the latest metas are wanted
    pub latest: Option<bool>,
    /// Meta filters
    pub filter: Vec<JsonValue>,
    /// Pagination arguments
    pub query_args: Option<JsonValue>,
    /// Field to count instances by
    pub count_by: Option<String>,
}

/// Loose parameters from which the query's variables are built.
#[derive(Debug)]
pub struct QueryMetaTypeViaAtomParams {
    pub meta_type: Option<String>,
    pub meta_types: Vec<String>,
    pub meta_id: Option<String>,
    pub meta_ids: Vec<String>,
    pub key: Option<String>,
    pub value: Option<String>,
    pub keys: Vec<String>,
    pub values: Vec<String>,
    pub atom_values: Vec<String>,
    pub cell_slug: Option<String>,
    pub cell_slugs: Vec<String>,
    pub latest: Option<bool>,
    pub filter: Vec<JsonValue>,
    pub query_args: Option<JsonValue>,
    pub count_by: Option<String>,
}

impl Default for QueryMetaTypeViaAtomParams {
    fn default() -> (p: Self)
        ensures
            p.meta_type is None && p.meta_id is None && p.key is None && p.value is None,
            p.cell_slug is None && p.latest is None && p.query_args is None && p.count_by is None,
            p.meta_types@.len() == 0 && p.meta_ids@.len() == 0 && p.keys@.len() == 0,
            p.values@.len() == 0 && p.atom_values@.len() == 0 && p.cell_slugs@.len() == 0,
            p.filter@.len() == 0,
    {
        QueryMetaTypeViaAtomParams {
            meta_type: None,
            meta_types: Vec::new(),
            meta_id: None,
            meta_ids: Vec::new(),
            key: None,
            value: None,
            keys: Vec::new(),
            values: Vec::new(),
            atom_values: Vec::new(),
            cell_slug: None,
            cell_slugs: Vec::new(),
            latest: None,
            filter: Vec::new(),
            query_args: None,
            count_by: None,
        }
    }
}

/// `key: [one]` when the single value is given, else `key: [..]` for a non-empty list.
pub open spec fn one_or_list_entry(key: Seq<char>, one: Option<String>, many: Seq<String>) -> Seq<(Seq<char>, Json)> {
    match one {
        Some(s) => seq![(key, str_array(seq![s@]))],
        None => vec_str_entry(key, many),
    }
}

/// The filter `{"key": k, "value": v, "comparison": "="}` when both are given.
pub open spec fn key_value_filter(key: Option<String>, value: Option<String>) -> Seq<Json> {
    match (key, value) {
        (Some(k), Some(v)) => seq![
            Json::Object(seq![("key"@, Json::Str(k@)), ("value"@, Json::Str(v@)), ("comparison"@, Json::Str("="@))]),
        ],
        _ => seq![],
    }
}

/// `filter: [..]` for a non-empty list of filters.
pub open spec fn filter_entry(filters: Seq<Json>) -> Seq<(Seq<char>, Json)> {
    if filters.len() == 0 {
        seq![]
    } else {
        seq![("filter"@, Json::Array(filters))]
    }
}

/// The variables built from the parameters.
pub open spec fn via_atom_variables(p: QueryMetaTypeViaAtomParams) -> Seq<(Seq<char>, Json)> {
    vec_str_entry("atomValues"@, p.atom_values@)
        + vec_str_entry("keys"@, p.keys@)
        + vec_str_entry("values"@, p.values@)
        + one_or_list_entry("metaTypes"@, p.meta_type, p.meta_types@)
        + one_or_list_entry("metaIds"@, p.meta_id, p.meta_ids@)
        + one_or_list_entry("cellSlugs"@, p.cell_slug, p.cell_slugs@)
        + opt_str_entry("countBy"@, p.count_by)
        + filter_entry(items_view(p.filter@) + key_value_filter(p.key, p.value))
        + seq![("latest"@, Json::Bool(match p.latest { Some(b) => b, None => false }))]
        + match p.query_args {
            Some(a) => seq![("queryArgs"@, query_args_sent(a@))],
            None => seq![],
        }
}

/// The parameters that a query holds.
pub open spec fn via_atom_params_of(q: QueryMetaTypeViaAtom) -> QueryMetaTypeViaAtomParams {
    QueryMetaTypeViaAtomParams {
        meta_type: None,
        meta_types: q.meta_types,
        meta_id: None,
        meta_ids: q.meta_ids,
        key: None,
        value: None,
        keys: q.keys,
        values: q.values,
        atom_values: q.atom_values,
        cell_slug: None,
        cell_slugs: q.cell_slugs,
        latest: q.latest,
        filter: q.filter,
        query_args: q.query_args,
        count_by: q.count_by,
    }
}

/// Append `key: [one]` or `key: [..]`.
fn push_one_or_list(e: &mut Vec<(String, JsonValue)>, key: &str, one: Option<String>, many: &Vec<String>)
    ensures
        entries_view(final(e)@) == entries_view(old(e)@) + one_or_list_entry(key@, one, many@),
{
    match one {
        Some(s) => {
            let ghost sv = s@;
            let mut v: Vec<String> = Vec::new();
            v.push(s);
            assert(strings_view(v@) =~= seq![sv]);
            push_entry(e, key, string_array(&v));
            assert(entries_view(e@) =~= entries_view(old(e)@) + one_or_list_entry(key@, one, many@));
        },
        None => push_vec_str(e, key, many),
    }
}

/// The filter object for a key and a value.
fn key_value_object(key: String, value: String) -> (r: JsonValue)
    ensures
        r@ == Json::Object(seq![("key"@, Json::Str(key@)), ("value"@, Json::Str(value@)), ("comparison"@, Json::Str("="@))]),
{
    let ghost k = key@;
    let ghost v = value@;
    let mut e: Vec<(String, JsonValue)> = Vec::new();
    assert(entries_view(e@) =~= Seq::empty());
    push_entry(&mut e, "key", JsonValue::Str(key));
    push_entry(&mut e, "value", JsonValue::Str(value));
    push_entry(&mut e, "comparison", JsonValue::Str("=".to_owned()));
    assert(entries_view(e@) =~= seq![("key"@, Json::Str(k)), ("value"@, Json::Str(v)), ("comparison"@, Json::Str("="@))]);
    object(e)
}

/// The filters given, then the key/value filter when both are given.
fn all_filters(filter: Vec<JsonValue>, key: Option<String>, value: Option<String>) -> (r: Vec<JsonValue>)
    ensures
        items_view(r@) == items_view(filter@) + key_value_filter(key, value),
{
    let mut f = filter;
    match (key, value) {
        (Some(k), Some(v)) => {
            let ghost kv = k@;
            let ghost vv = v@;
            f.push(key_value_object(k, v));
            proof {
                lemma_items_view(f@);
                lemma_items_view(filter@);
            }
            assert(items_view(f@) =~= items_view(filter@) + key_value_filter(key, value));
        },
        _ => {
            assert(items_view(f@) =~= items_view(filter@) + key_value_filter(key, value));
        },
    }
    f
}

impl QueryMetaTypeViaAtom {
    /// A query with no filter.
    pub fn new() -> (q: Self)
        ensures
            Self::is_blank(q),
    {
        QueryMetaTypeViaAtom {
            meta_types: Vec::new(),
            meta_ids: Vec::new(),
            atom_values: Vec::new(),
            cell_slugs: Vec::new(),
            keys: Vec::new(),
            values: Vec::new(),
            latest: None,
            filter: Vec::new(),
            query_args: None,
            count_by: None,
        }
    }

    /// The query has no filter.
    pub open spec fn is_blank(q: Self) -> bool {
        &&& q.meta_types@.len() == 0
        &&& q.meta_ids@.len() == 0
        &&& q.atom_values@.len() == 0
        &&& q.cell_slugs@.len() == 0
        &&& q.keys@.len() == 0
        &&& q.values@.len() == 0
        &&& q.latest is None
        &&& q.filter@.len() == 0
        &&& q.query_args is None
        &&& q.count_by is None
    }

    /// The query with one more meta type.
    pub fn add_meta_type(self, meta_type: &str) -> (q: Self)
        ensures
            strings_view(q.meta_types@) == strings_view(self.meta_types@).push(meta_type@),
            q == (QueryMetaTypeViaAtom { meta_types: q.meta_types, ..self }),
    {
        let mut q = self;
        q.meta_types.push(meta_type.to_owned());
        assert(strings_view(q.meta_types@) =~= strings_view(self.meta_types@).push(meta_type@));
        q
    }

    /// The query with these meta types in place of any before.
    pub fn with_meta_types(self, meta_types: Vec<String>) -> (q: Self)
        ensures
            q == (QueryMetaTypeViaAtom { meta_types: meta_types, ..self }),
    {
        QueryMetaTypeViaAtom { meta_types: meta_types, ..self }
    }

    /// The query with one more meta identifier.
    pub fn add_meta_id(self, meta_id: &str) -> (q: Self)
        ensures
            strings_view(q.meta_ids@) == strings_view(self.meta_ids@).push(meta_id@),
            q == (QueryMetaTypeViaAtom { meta_ids: q.meta_ids, ..self }),
    {
        let mut q = self;
        q.meta_ids.push(meta_id.to_owned());
        assert(strings_view(q.meta_ids@) =~= strings_view(self.meta_ids@).push(meta_id@));
        q
    }

    /// The query with these meta identifiers in place of any before.
    pub fn with_meta_ids(self, meta_ids: Vec<String>) -> (q: Self)
        ensures
            q == (QueryMetaTypeViaAtom { meta_ids: meta_ids, ..self }),
    {
        QueryMetaTypeViaAtom { meta_ids: meta_ids, ..self }
    }

    /// The query with one more atom value.
    pub fn add_atom_value(self, atom_value: &str) -> (q: Self)
        ensures
            strings_view(q.atom_values@) == strings_view(self.atom_values@).push(atom_value@),
            q == (QueryMetaTypeViaAtom { atom_values: q.atom_values, ..self }),
    {
        let mut q = self;
        q.atom_values.push(atom_value.to_owned());
        assert(strings_view(q.atom_values@) =~= strings_view(self.atom_values@).push(atom_value@));
        q
    }

    /// The query with these atom values in place of any before.
    pub fn with_atom_values(self, atom_values: Vec<String>) -> (q: Self)
        ensures
            q == (QueryMetaTypeViaAtom { atom_values: atom_values, ..self }),
    {
        QueryMetaTypeViaAtom { atom_values: atom_values, ..self }
    }

    /// The query with one more cell slug.
    pub fn add_cell_slug(self, cell_slug: &str) -> (q: Self)
        ensures
            strings_view(q.cell_slugs@) == strings_view(self.cell_slugs@).push(cell_slug@),
            q == (QueryMetaTypeViaAtom { cell_slugs: q.cell_slugs, ..self }),
    {
        let mut q = self;
        q.cell_slugs.push(cell_slug.to_owned());
        assert(strings_view(q.cell_slugs@) =~= strings_view(self.cell_slugs@).push(cell_slug@));
        q
    }

    /// The query with these cell slugs in place of any before.
    pub fn with_cell_slugs(self, cell_slugs: Vec<String>) -> (q: Self)
        ensures
            q == (QueryMetaTypeViaAtom { cell_slugs: cell_slugs, ..self }),
    {
        QueryMetaTypeViaAtom { cell_slugs: cell_slugs, ..self }
    }

    /// The query with one more meta key.
    pub fn add_key(self, key: &str) -> (q: Self)
        ensures
            strings_view(q.keys@) == strings_view(self.keys@).push(key@),
            q == (QueryMetaTypeViaAtom { keys: q.keys, ..self }),
    {
        let mut q = self;
        q.keys.push(key.to_owned());
        assert(strings_view(q.keys@) =~= strings_view(self.keys@).push(key@));
        q
    }

    /// The query with these meta keys in place of any before.
    pub fn with_keys(self, keys: Vec<String>) -> (q: Self)
        ensures
            q == (QueryMetaTypeViaAtom { keys: keys, ..self }),
    {
        QueryMetaTypeViaAtom { keys: keys, ..self }
    }

    /// The query with one more meta value.
    pub fn add_value(self, value: &str) -> (q: Self)
        ensures
            strings_view(q.values@) == strings_view(self.values@).push(value@),
            q == (QueryMetaTypeViaAtom { values: q.values, ..self }),
    {
        let mut q = self;
        q.values.push(value.to_owned());
        assert(strings_view(q.values@) =~= strings_view(self.values@).push(value@));
        q
    }

    /// The query with these meta values in place of any before.
    pub fn with_values(self, values: Vec<String>) -> (q: Self)
        ensures
            q == (QueryMetaTypeViaAtom { values: values, ..self }),
    {
        QueryMetaTypeViaAtom { values: values, ..self }
    }

    /// The query with the latest flag set.
    pub fn with_latest(self, latest: bool) -> (q: Self)
        ensures
            q == (QueryMetaTypeViaAtom { latest: Some(latest), ..self }),
    {
        QueryMetaTypeViaAtom { latest: Some(latest), ..self }
    }

    /// The query with one more meta filter.
    pub fn add_filter(self, filter: JsonValue) -> (q: Self)
        ensures
            q.filter@ == self.filter@.push(filter),
            q == (QueryMetaTypeViaAtom { filter: q.filter, ..self }),
    {
        let mut q = self;
        q.filter.push(filter);
        q
    }

    /// The query with these meta filters in place of any before.
    pub fn with_filter(self, filter: Vec<JsonValue>) -> (q: Self)
        ensures
            q == (QueryMetaTypeViaAtom { filter: filter, ..self }),
    {
        QueryMetaTypeViaAtom { filter: filter, ..self }
    }

    /// The query with pagination arguments.
    pub fn with_query_args(self, query_args: JsonValue) -> (q: Self)
        ensures
            q == (QueryMetaTypeViaAtom { query_args: Some(query_args), ..self }),
    {
        QueryMetaTypeViaAtom { query_args: Some(query_args), ..self }
    }

    /// The query counting instances by a field.
    pub fn with_count_by(self, count_by: &str) -> (q: Self)
        ensures
            opt_view(q.count_by) == Some(count_by@),
            q == (QueryMetaTypeViaAtom { count_by: q.count_by, ..self }),
    {
        QueryMetaTypeViaAtom { count_by: Some(count_by.to_owned()), ..self }
    }

    /// A query for one meta type.
    pub fn by_meta_type(meta_type: &str) -> (q: Self)
        ensures
            strings_view(q.meta_types@) == seq![meta_type@],
            exists|b: Self| Self::is_blank(b) && q == (QueryMetaTypeViaAtom { meta_types: q.meta_types, ..b }),
    {
        let b = Self::new();
        let ghost blank = b;
        let q = b.add_meta_type(meta_type);
        assert(strings_view(blank.meta_types@) =~= Seq::<Seq<char>>::empty());
        assert(Self::is_blank(blank) && q == (QueryMetaTypeViaAtom { meta_types: q.meta_types, ..blank }));
        q
    }

    /// A query for several meta types.
    pub fn by_meta_types(meta_types: Vec<String>) -> (q: Self)
        ensures
            q.meta_types == meta_types,
            exists|b: Self| Self::is_blank(b) && q == (QueryMetaTypeViaAtom { meta_types: meta_types, ..b }),
    {
        let b = Self::new();
        let ghost blank = b;
        let q = b.with_meta_types(meta_types);
        assert(Self::is_blank(blank) && q == (QueryMetaTypeViaAtom { meta_types: q.meta_types, ..blank }));
        q
    }

    /// A query for several atom values.
    pub fn by_atom_values(atom_values: Vec<String>) -> (q: Self)
        ensures
            q.atom_values == atom_values,
            exists|b: Self| Self::is_blank(b) && q == (QueryMetaTypeViaAtom { atom_values: atom_values, ..b }),
    {
        let b = Self::new();
        let ghost blank = b;
        let q = b.with_atom_values(atom_values);
        assert(Self::is_blank(blank) && q == (QueryMetaTypeViaAtom { atom_values: q.atom_values, ..blank }));
        q
    }

    /// A query for the latest metas only.
    pub fn latest() -> (q: Self)
        ensures
            exists|b: Self| Self::is_blank(b) && q == (QueryMetaTypeViaAtom { latest: Some(true), ..b }),
    {
        let b = Self::new();
        let ghost blank = b;
        let q = b.with_latest(true);
        assert(Self::is_blank(blank) && q == (QueryMetaTypeViaAtom { latest: Some(true), ..blank }));
        q
    }

    /// A query for one page: `{"page": page, "limit": limit}` as its arguments.
    pub fn paginated(page: i32, limit: i32) -> (q: Self)
        ensures
            q.query_args matches Some(a) && a@ == Json::Object(
                seq![("page"@, Json::Number(page as int)), ("limit"@, Json::Number(limit as int))],
            ),
            exists|b: Self| Self::is_blank(b) && q == (QueryMetaTypeViaAtom { query_args: q.query_args, ..b }),
    {
        let mut e: Vec<(String, JsonValue)> = Vec::new();
        assert(entries_view(e@) =~= Seq::empty());
        push_entry(&mut e, "page", JsonValue::Number(page as i64));
        push_entry(&mut e, "limit", JsonValue::Number(limit as i64));
        assert(entries_view(e@) =~= seq![("page"@, Json::Number(page as int)), ("limit"@, Json::Number(limit as int))]);
        let b = Self::new();
        let ghost blank = b;
        let q = b.with_query_args(object(e));
        assert(Self::is_blank(blank) && q == (QueryMetaTypeViaAtom { query_args: q.query_args, ..blank }));
        q
    }

    /// The variables built from loose parameters. Single values are sent as one-element
    /// lists and win over lists; a key and a value together add an equality filter;
    /// `latest` is always sent, false when not given; a `limit` of 0 is sent as `"*"`.
    pub fn create_variables(params: QueryMetaTypeViaAtomParams) -> (r: JsonValue)
        ensures
            r@ == Json::Object(via_atom_variables(params)),
    {
        let ghost p = params;
        let QueryMetaTypeViaAtomParams {
            meta_type,
            meta_types,
            meta_id,
            meta_ids,
            key,
            value,
            keys,
            values,
            atom_values,
            cell_slug,
            cell_slugs,
            latest,
            filter,
            query_args,
            count_by,
        } = params;
        let mut e: Vec<(String, JsonValue)> = Vec::new();
        assert(entries_view(e@) =~= Seq::empty());
        push_vec_str(&mut e, "atomValues", &atom_values);
        push_vec_str(&mut e, "keys", &keys);
        push_vec_str(&mut e, "values", &values);
        let ghost s3 = entries_view(e@);
        push_one_or_list(&mut e, "metaTypes", meta_type, &meta_types);
        push_one_or_list(&mut e, "metaIds", meta_id, &meta_ids);
        push_one_or_list(&mut e, "cellSlugs", cell_slug, &cell_slugs);
        push_opt_str(&mut e, "countBy", &count_by);
        let ghost s7 = entries_view(e@);
        let f = all_filters(filter, key, value);
        proof { lemma_items_view(f@); }
        if f.len() > 0 {
            push_entry(&mut e, "filter", JsonValue::Array(f));
        }
        let ghost s8 = entries_view(e@);
        let l = match latest {
            Some(b) => b,
            None => false,
        };
        push_entry(&mut e, "latest", JsonValue::Bool(l));
        let ghost s9 = entries_view(e@);
        match query_args {
            Some(a) => push_entry(&mut e, "queryArgs", fix_query_args(a)),
            None => {},
        }
        proof {
            assert(s8 =~= s7 + filter_entry(items_view(p.filter@) + key_value_filter(p.key, p.value)));
            assert(entries_view(e@) =~= s9 + match p.query_args {
                Some(a) => seq![("queryArgs"@, query_args_sent(a@))],
                None => seq![],
            });
            assert(entries_view(e@) =~= via_atom_variables(p));
        }
        object(e)
    }

    /// The GraphQL text of the query.
    pub fn get_query(&self) -> (s: &'static str)
        ensures
            s@ == META_TYPE_VIA_ATOM_QUERY@,
    {
        META_TYPE_VIA_ATOM_QUERY
    }

    /// The variables sent: those given, else those built from the query's fields.
    pub fn compiled_variables(&self, variables: Option<JsonValue>) -> (res: Option<JsonValue>)
        ensures
            variables is Some ==> res == variables,
            variables is None ==> (res matches Some(v) && v@ == Json::Object(via_atom_variables(via_atom_params_of(*self)))),
    {
        match variables {
            Some(v) => Some(v),
            None => {
                let params = QueryMetaTypeViaAtomParams {
                    meta_type: None,
                    meta_types: clone_strings(&self.meta_types),
                    meta_id: None,
                    meta_ids: clone_strings(&self.meta_ids),
                    key: None,
                    value: None,
                    keys: clone_strings(&self.keys),
                    values: clone_strings(&self.values),
                    atom_values: clone_strings(&self.atom_values),
                    cell_slug: None,
                    cell_slugs: clone_strings(&self.cell_slugs),
                    latest: self.latest,
                    filter: clone_items(&self.filter),
                    query_args: match &self.query_args {
                        Some(a) => Some(a.clone()),
                        None => None,
                    },
                    count_by: match &self.count_by {
                        Some(c) => Some(c.clone()),
                        None => None,
                    },
                };
                let ghost p = params;
                let r = Self::create_variables(params);
                proof {
                    let q = via_atom_params_of(*self);
                    assert(same_opt_json(p.query_args, q.query_args));
                    assert(opt_view(p.count_by) == opt_view(q.count_by));
                    assert(opt_str_entry("countBy"@, p.count_by) =~= opt_str_entry("countBy"@, q.count_by));
                    assert(via_atom_variables(p) =~= via_atom_variables(q));
                }
                Some(r)
            },
        }
    }
}

impl Default for QueryMetaTypeViaAtom {
    fn default() -> (q: Self)
        ensures
            Self::is_blank(q),
    {
        Self::new()
    }
}

} // verus!
