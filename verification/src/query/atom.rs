//! Queries for atoms, filtered by any of their fields.

use vstd::prelude::*;
use crate::json::{Json, JsonValue, entries_view, object, push_entry, push_vec_str, vec_str_entry};
use crate::text::strings_view;

verus! {

/// The GraphQL text of this query.
pub const ATOM_QUERY: &'static str = r#"query(
          $molecularHashes: [String!],
          $bundleHashes: [String!],
          $positions:[String!],
          $walletAddresses: [String!],
          $isotopes: [String!],
          $tokenSlugs: [String!],
          $cellSlugs: [String!],
          $batchIds: [String!],
          $values: [String!],
          $metaTypes: [String!],
          $metaIds: [String!],
          $indexes: [String!],
          $filter: [ MetaFilter! ],
          $latest: Boolean,
          $queryArgs: QueryArgs,
        ) {
          Atom(
            molecularHashes: $molecularHashes,
            bundleHashes: $bundleHashes,
            positions: $positions,
            walletAddresses: $walletAddresses,
            isotopes: $isotopes,
            tokenSlugs: $tokenSlugs,
            cellSlugs: $cellSlugs,
            batchIds: $batchIds,
            values: $values,
            metaTypes: $metaTypes,
            metaIds: $metaIds,
            indexes: $indexes,
            filter: $filter,
            latest: $latest,
            queryArgs: $queryArgs,
          ) {
            instances {
              position,
              walletAddress,
              tokenSlug,
              isotope,
              index,
              molecularHash,
              metaId,
              metaType,
              metasJson,
              batchId,
              value,
              bundleHashes,
              cellSlugs,
              createdAt,
              otsFragment
            },
            paginatorInfo {
              currentPage,
              total
            }
          }
        }"#;

/// Query for atoms.
#[derive(Debug)]
pub struct QueryAtom {
    /// Filter: molecular hashes
    pub molecular_hashes: Vec<String>,
    /// Filter: bundle hashes
    pub bundle_hashes: Vec<String>,
    /// Filter: positions
    pub positions: Vec<String>,
    /// Filter: wallet addresses
    pub wallet_addresses: Vec<String>,
    /// Filter: isotopes
    pub isotopes: Vec<String>,
    /// Filter: token slugs
    pub token_slugs: Vec<String>,
    /// Filter: cell slugs
    pub cell_slugs: Vec<String>,
    /// Filter: batch IDs
    pub batch_ids: Vec<String>,
    /// Filter: values
    pub values: Vec<String>,
    /// Filter: meta types
    pub meta_types: Vec<String>,
    /// Filter: meta IDs
    pub meta_ids: Vec<String>,
    /// Filter: indexes
    pub indexes: Vec<String>,
    /// Filter of the atoms' metas
    pub filter: Option<JsonValue>,
    /// Whether only the latest atoms are wanted
    pub latest: Option<bool>,
    /// Pagination arguments
    pub query_args: Option<JsonValue>,
}

/// The JSON entry of an optional value.
pub open spec fn opt_json_entry(key: Seq<char>, v: Option<JsonValue>) -> Seq<(Seq<char>, Json)> {
    match v {
        Some(x) => seq![(key, x@)],
        None => seq![],
    }
}

/// The JSON entry of an optional flag.
pub open spec fn opt_bool_entry(key: Seq<char>, v: Option<bool>) -> Seq<(Seq<char>, Json)> {
    match v {
        Some(b) => seq![(key, Json::Bool(b))],
        None => seq![],
    }
}

/// The variables this query sends when none are given: each non-empty filter
/// list, then the filter, the latest flag and the query arguments when set.
pub open spec fn atom_variables(q: QueryAtom) -> Seq<(Seq<char>, Json)> {
    vec_str_entry("molecularHashes"@, q.molecular_hashes@)
        + vec_str_entry("bundleHashes"@, q.bundle_hashes@)
        + vec_str_entry("positions"@, q.positions@)
        + vec_str_entry("walletAddresses"@, q.wallet_addresses@)
        + vec_str_entry("isotopes"@, q.isotopes@)
        + vec_str_entry("tokenSlugs"@, q.token_slugs@)
        + vec_str_entry("cellSlugs"@, q.cell_slugs@)
        + vec_str_entry("batchIds"@, q.batch_ids@)
        + vec_str_entry("values"@, q.values@)
        + vec_str_entry("metaTypes"@, q.meta_types@)
        + vec_str_entry("metaIds"@, q.meta_ids@)
        + vec_str_entry("indexes"@, q.indexes@)
        + opt_json_entry("filter"@, q.filter)
        + opt_bool_entry("latest"@, q.latest)
        + opt_json_entry("queryArgs"@, q.query_args)
}

/// Append the entry of an optional JSON value, moving it in.
fn push_opt_json(entries: &mut Vec<(String, JsonValue)>, key: &str, v: Option<JsonValue>)
    ensures
        entries_view(final(entries)@) == entries_view(old(entries)@) + opt_json_entry(key@, v),
{
    match v {
        Some(x) => push_entry(entries, key, x),
        None => {},
    }
    assert(entries_view(entries@) =~= entries_view(old(entries)@) + opt_json_entry(key@, v));
}

/// Append the entry of an optional flag.
fn push_opt_bool(entries: &mut Vec<(String, JsonValue)>, key: &str, v: Option<bool>)
    ensures
        entries_view(final(entries)@) == entries_view(old(entries)@) + opt_bool_entry(key@, v),
{
    match v {
        Some(b) => push_entry(entries, key, JsonValue::Bool(b)),
        None => {},
    }
    assert(entries_view(entries@) =~= entries_view(old(entries)@) + opt_bool_entry(key@, v));
}

/// A copy of an optional JSON value.
fn copy_json(v: &Option<JsonValue>) -> (r: Option<JsonValue>)
    ensures
        match (r, *v) {
            (Some(a), Some(b)) => a@ == b@,
            (None, None) => true,
            _ => false,
        },
{
    match v {
        Some(x) => Some(x.clone()),
        None => None,
    }
}

impl QueryAtom {
    /// The query has no filter.
    pub open spec fn is_blank(q: QueryAtom) -> bool {
        q.molecular_hashes@.len() == 0
        && q.bundle_hashes@.len() == 0
        && q.positions@.len() == 0
        && q.wallet_addresses@.len() == 0
        && q.isotopes@.len() == 0
        && q.token_slugs@.len() == 0
        && q.cell_slugs@.len() == 0
        && q.batch_ids@.len() == 0
        && q.values@.len() == 0
        && q.meta_types@.len() == 0
        && q.meta_ids@.len() == 0
        && q.indexes@.len() == 0
        && q.filter is None
        && q.latest is None
        && q.query_args is None
    }

    /// A query with no filter.
    pub fn new() -> (q: Self)
        ensures
            Self::is_blank(q),
            q.molecular_hashes@.len() == 0,
            q.bundle_hashes@.len() == 0,
            q.positions@.len() == 0,
            q.wallet_addresses@.len() == 0,
            q.isotopes@.len() == 0,
            q.token_slugs@.len() == 0,
            q.cell_slugs@.len() == 0,
            q.batch_ids@.len() == 0,
            q.values@.len() == 0,
            q.meta_types@.len() == 0,
            q.meta_ids@.len() == 0,
            q.indexes@.len() == 0,
            q.filter is None,
            q.latest is None,
            q.query_args is None,
    {
        QueryAtom {
            molecular_hashes: Vec::new(),
            bundle_hashes: Vec::new(),
            positions: Vec::new(),
            wallet_addresses: Vec::new(),
            isotopes: Vec::new(),
            token_slugs: Vec::new(),
            cell_slugs: Vec::new(),
            batch_ids: Vec::new(),
            values: Vec::new(),
            meta_types: Vec::new(),
            meta_ids: Vec::new(),
            indexes: Vec::new(),
            filter: None,
            latest: None,
            query_args: None,
        }
    }

    /// The query with a molecular hash added to its filters.
    pub fn add_molecular_hash(self, hash: &str) -> (q: Self)
        ensures
            strings_view(q.molecular_hashes@) == strings_view(self.molecular_hashes@).push(hash@),
            q == (QueryAtom { molecular_hashes: q.molecular_hashes, ..self }),
    {
        let mut q = self;
        q.molecular_hashes.push(hash.to_owned());
        proof { assert(strings_view(q.molecular_hashes@) =~= strings_view(self.molecular_hashes@).push(hash@)); }
        q
    }

    /// The query with molecular hashes added to its filters.
    pub fn add_molecular_hashes(self, hashes: Vec<String>) -> (q: Self)
        ensures
            q.molecular_hashes@ == self.molecular_hashes@ + hashes@,
            q == (QueryAtom { molecular_hashes: q.molecular_hashes, ..self }),
    {
        let mut q = self;
        let mut more = hashes;
        q.molecular_hashes.append(&mut more);
        q
    }

    /// The query with a bundle hash added to its filters.
    pub fn add_bundle_hash(self, hash: &str) -> (q: Self)
        ensures
            strings_view(q.bundle_hashes@) == strings_view(self.bundle_hashes@).push(hash@),
            q == (QueryAtom { bundle_hashes: q.bundle_hashes, ..self }),
    {
        let mut q = self;
        q.bundle_hashes.push(hash.to_owned());
        proof { assert(strings_view(q.bundle_hashes@) =~= strings_view(self.bundle_hashes@).push(hash@)); }
        q
    }

    /// The query with bundle hashes added to its filters.
    pub fn add_bundle_hashes(self, hashes: Vec<String>) -> (q: Self)
        ensures
            q.bundle_hashes@ == self.bundle_hashes@ + hashes@,
            q == (QueryAtom { bundle_hashes: q.bundle_hashes, ..self }),
    {
        let mut q = self;
        let mut more = hashes;
        q.bundle_hashes.append(&mut more);
        q
    }

    /// The query with a position added to its filters.
    pub fn add_position(self, position: &str) -> (q: Self)
        ensures
            strings_view(q.positions@) == strings_view(self.positions@).push(position@),
            q == (QueryAtom { positions: q.positions, ..self }),
    {
        let mut q = self;
        q.positions.push(position.to_owned());
        proof { assert(strings_view(q.positions@) =~= strings_view(self.positions@).push(position@)); }
        q
    }

    /// The query with positions added to its filters.
    pub fn add_positions(self, positions: Vec<String>) -> (q: Self)
        ensures
            q.positions@ == self.positions@ + positions@,
            q == (QueryAtom { positions: q.positions, ..self }),
    {
        let mut q = self;
        let mut more = positions;
        q.positions.append(&mut more);
        q
    }

    /// The query with a wallet address added to its filters.
    pub fn add_wallet_address(self, address: &str) -> (q: Self)
        ensures
            strings_view(q.wallet_addresses@) == strings_view(self.wallet_addresses@).push(address@),
            q == (QueryAtom { wallet_addresses: q.wallet_addresses, ..self }),
    {
        let mut q = self;
        q.wallet_addresses.push(address.to_owned());
        proof { assert(strings_view(q.wallet_addresses@) =~= strings_view(self.wallet_addresses@).push(address@)); }
        q
    }

    /// The query with wallet addresses added to its filters.
    pub fn add_wallet_addresses(self, addresses: Vec<String>) -> (q: Self)
        ensures
            q.wallet_addresses@ == self.wallet_addresses@ + addresses@,
            q == (QueryAtom { wallet_addresses: q.wallet_addresses, ..self }),
    {
        let mut q = self;
        let mut more = addresses;
        q.wallet_addresses.append(&mut more);
        q
    }

    /// The query with an isotope added to its filters.
    pub fn add_isotope(self, isotope: &str) -> (q: Self)
        ensures
            strings_view(q.isotopes@) == strings_view(self.isotopes@).push(isotope@),
            q == (QueryAtom { isotopes: q.isotopes, ..self }),
    {
        let mut q = self;
        q.isotopes.push(isotope.to_owned());
        proof { assert(strings_view(q.isotopes@) =~= strings_view(self.isotopes@).push(isotope@)); }
        q
    }

    /// The query with isotopes added to its filters.
    pub fn add_isotopes(self, isotopes: Vec<String>) -> (q: Self)
        ensures
            q.isotopes@ == self.isotopes@ + isotopes@,
            q == (QueryAtom { isotopes: q.isotopes, ..self }),
    {
        let mut q = self;
        let mut more = isotopes;
        q.isotopes.append(&mut more);
        q
    }

    /// The query with a token slug added to its filters.
    pub fn add_token_slug(self, token: &str) -> (q: Self)
        ensures
            strings_view(q.token_slugs@) == strings_view(self.token_slugs@).push(token@),
            q == (QueryAtom { token_slugs: q.token_slugs, ..self }),
    {
        let mut q = self;
        q.token_slugs.push(token.to_owned());
        proof { assert(strings_view(q.token_slugs@) =~= strings_view(self.token_slugs@).push(token@)); }
        q
    }

    /// The query with token slugs added to its filters.
    pub fn add_token_slugs(self, tokens: Vec<String>) -> (q: Self)
        ensures
            q.token_slugs@ == self.token_slugs@ + tokens@,
            q == (QueryAtom { token_slugs: q.token_slugs, ..self }),
    {
        let mut q = self;
        let mut more = tokens;
        q.token_slugs.append(&mut more);
        q
    }

    /// The query with a cell slug added to its filters.
    pub fn add_cell_slug(self, cell: &str) -> (q: Self)
        ensures
            strings_view(q.cell_slugs@) == strings_view(self.cell_slugs@).push(cell@),
            q == (QueryAtom { cell_slugs: q.cell_slugs, ..self }),
    {
        let mut q = self;
        q.cell_slugs.push(cell.to_owned());
        proof { assert(strings_view(q.cell_slugs@) =~= strings_view(self.cell_slugs@).push(cell@)); }
        q
    }

    /// The query with cell slugs added to its filters.
    pub fn add_cell_slugs(self, cells: Vec<String>) -> (q: Self)
        ensures
            q.cell_slugs@ == self.cell_slugs@ + cells@,
            q == (QueryAtom { cell_slugs: q.cell_slugs, ..self }),
    {
        let mut q = self;
        let mut more = cells;
        q.cell_slugs.append(&mut more);
        q
    }

    /// The query with a batch ID added to its filters.
    pub fn add_batch_id(self, batch_id: &str) -> (q: Self)
        ensures
            strings_view(q.batch_ids@) == strings_view(self.batch_ids@).push(batch_id@),
            q == (QueryAtom { batch_ids: q.batch_ids, ..self }),
    {
        let mut q = self;
        q.batch_ids.push(batch_id.to_owned());
        proof { assert(strings_view(q.batch_ids@) =~= strings_view(self.batch_ids@).push(batch_id@)); }
        q
    }

    /// The query with batch IDs added to its filters.
    pub fn add_batch_ids(self, batch_ids: Vec<String>) -> (q: Self)
        ensures
            q.batch_ids@ == self.batch_ids@ + batch_ids@,
            q == (QueryAtom { batch_ids: q.batch_ids, ..self }),
    {
        let mut q = self;
        let mut more = batch_ids;
        q.batch_ids.append(&mut more);
        q
    }

    /// The query with a value added to its filters.
    pub fn add_value(self, value: &str) -> (q: Self)
        ensures
            strings_view(q.values@) == strings_view(self.values@).push(value@),
            q == (QueryAtom { values: q.values, ..self }),
    {
        let mut q = self;
        q.values.push(value.to_owned());
        proof { assert(strings_view(q.values@) =~= strings_view(self.values@).push(value@)); }
        q
    }

    /// The query with values added to its filters.
    pub fn add_values(self, values: Vec<String>) -> (q: Self)
        ensures
            q.values@ == self.values@ + values@,
            q == (QueryAtom { values: q.values, ..self }),
    {
        let mut q = self;
        let mut more = values;
        q.values.append(&mut more);
        q
    }

    /// The query with a meta type added to its filters.
    pub fn add_meta_type(self, meta_type: &str) -> (q: Self)
        ensures
            strings_view(q.meta_types@) == strings_view(self.meta_types@).push(meta_type@),
            q == (QueryAtom { meta_types: q.meta_types, ..self }),
    {
        let mut q = self;
        q.meta_types.push(meta_type.to_owned());
        proof { assert(strings_view(q.meta_types@) =~= strings_view(self.meta_types@).push(meta_type@)); }
        q
    }

    /// The query with meta types added to its filters.
    pub fn add_meta_types(self, meta_types: Vec<String>) -> (q: Self)
        ensures
            q.meta_types@ == self.meta_types@ + meta_types@,
            q == (QueryAtom { meta_types: q.meta_types, ..self }),
    {
        let mut q = self;
        let mut more = meta_types;
        q.meta_types.append(&mut more);
        q
    }

    /// The query with a meta ID added to its filters.
    pub fn add_meta_id(self, meta_id: &str) -> (q: Self)
        ensures
            strings_view(q.meta_ids@) == strings_view(self.meta_ids@).push(meta_id@),
            q == (QueryAtom { meta_ids: q.meta_ids, ..self }),
    {
        let mut q = self;
        q.meta_ids.push(meta_id.to_owned());
        proof { assert(strings_view(q.meta_ids@) =~= strings_view(self.meta_ids@).push(meta_id@)); }
        q
    }

    /// The query with meta IDs added to its filters.
    pub fn add_meta_ids(self, meta_ids: Vec<String>) -> (q: Self)
        ensures
            q.meta_ids@ == self.meta_ids@ + meta_ids@,
            q == (QueryAtom { meta_ids: q.meta_ids, ..self }),
    {
        let mut q = self;
        let mut more = meta_ids;
        q.meta_ids.append(&mut more);
        q
    }

    /// The query with an index added to its filters.
    pub fn add_index(self, index: &str) -> (q: Self)
        ensures
            strings_view(q.indexes@) == strings_view(self.indexes@).push(index@),
            q == (QueryAtom { indexes: q.indexes, ..self }),
    {
        let mut q = self;
        q.indexes.push(index.to_owned());
        proof { assert(strings_view(q.indexes@) =~= strings_view(self.indexes@).push(index@)); }
        q
    }

    /// The query with indexes added to its filters.
    pub fn add_indexes(self, indexes: Vec<String>) -> (q: Self)
        ensures
            q.indexes@ == self.indexes@ + indexes@,
            q == (QueryAtom { indexes: q.indexes, ..self }),
    {
        let mut q = self;
        let mut more = indexes;
        q.indexes.append(&mut more);
        q
    }

    /// The query with a filter of the atoms' metas.
    pub fn with_filter(self, filter: JsonValue) -> (q: Self)
        ensures
            q == (QueryAtom { filter: Some(filter), ..self }),
    {
        QueryAtom { filter: Some(filter), ..self }
    }

    /// The query with the latest flag set.
    pub fn with_latest(self, latest: bool) -> (q: Self)
        ensures
            q == (QueryAtom { latest: Some(latest), ..self }),
    {
        QueryAtom { latest: Some(latest), ..self }
    }

    /// The query with pagination arguments.
    pub fn with_query_args(self, query_args: JsonValue) -> (q: Self)
        ensures
            q == (QueryAtom { query_args: Some(query_args), ..self }),
    {
        QueryAtom { query_args: Some(query_args), ..self }
    }

    /// A query for the latest atoms only.
    pub fn latest() -> (q: Self)
        ensures
            exists|b: QueryAtom| Self::is_blank(b) && q == (QueryAtom { latest: Some(true), ..b }),
    {
        let b = Self::new();
        let ghost blank = b;
        let q = b.with_latest(true);
        assert(Self::is_blank(blank) && q == (QueryAtom { latest: Some(true), ..blank }));
        q
    }

    /// The GraphQL text of the query.
    pub fn get_query(&self) -> (s: &'static str)
        ensures
            s@ == ATOM_QUERY@,
    {
        ATOM_QUERY
    }

    /// The variables sent: those given, else those of the query's filters.
    pub fn compiled_variables(&self, variables: Option<JsonValue>) -> (res: Option<JsonValue>)
        ensures
            variables is Some ==> res == variables,
            variables is None ==> (res matches Some(v) && v@ == Json::Object(atom_variables(*self))),
    {
        match variables {
            Some(v) => Some(v),
            None => {
                let mut e: Vec<(String, JsonValue)> = Vec::new();
                assert(entries_view(e@) =~= Seq::empty());
                push_vec_str(&mut e, "molecularHashes", &self.molecular_hashes);
                push_vec_str(&mut e, "bundleHashes", &self.bundle_hashes);
                push_vec_str(&mut e, "positions", &self.positions);
                push_vec_str(&mut e, "walletAddresses", &self.wallet_addresses);
                push_vec_str(&mut e, "isotopes", &self.isotopes);
                push_vec_str(&mut e, "tokenSlugs", &self.token_slugs);
                push_vec_str(&mut e, "cellSlugs", &self.cell_slugs);
                push_vec_str(&mut e, "batchIds", &self.batch_ids);
                push_vec_str(&mut e, "values", &self.values);
                push_vec_str(&mut e, "metaTypes", &self.meta_types);
                push_vec_str(&mut e, "metaIds", &self.meta_ids);
                push_vec_str(&mut e, "indexes", &self.indexes);
                let ghost before_filter = entries_view(e@);
                let filter = copy_json(&self.filter);
                push_opt_json(&mut e, "filter", filter);
                let ghost after_filter = entries_view(e@);
                push_opt_bool(&mut e, "latest", self.latest);
                let ghost after_latest = entries_view(e@);
                let query_args = copy_json(&self.query_args);
                push_opt_json(&mut e, "queryArgs", query_args);
                proof {
                    assert(after_filter =~= before_filter + opt_json_entry("filter"@, self.filter));
                    assert(entries_view(e@) =~= after_latest + opt_json_entry("queryArgs"@, self.query_args));
                    assert(entries_view(e@) =~= atom_variables(*self));
                }
                Some(object(e))
            },
        }
    }

    /// A query for atoms with a molecular hash.
    pub fn by_molecular_hash(hash: &str) -> (q: Self)
        ensures
            strings_view(q.molecular_hashes@) == seq![hash@],
            exists|b: QueryAtom| Self::is_blank(b) && q == (QueryAtom { molecular_hashes: q.molecular_hashes, ..b }),
    {
        let b = Self::new();
        let ghost blank = b;
        let q = b.add_molecular_hash(hash);
        assert(strings_view(blank.molecular_hashes@) =~= Seq::<Seq<char>>::empty());
        assert(Self::is_blank(blank) && q == (QueryAtom { molecular_hashes: q.molecular_hashes, ..blank }));
        q
    }

    /// A query for atoms with a bundle hash.
    pub fn by_bundle_hash(hash: &str) -> (q: Self)
        ensures
            strings_view(q.bundle_hashes@) == seq![hash@],
            exists|b: QueryAtom| Self::is_blank(b) && q == (QueryAtom { bundle_hashes: q.bundle_hashes, ..b }),
    {
        let b = Self::new();
        let ghost blank = b;
        let q = b.add_bundle_hash(hash);
        assert(strings_view(blank.bundle_hashes@) =~= Seq::<Seq<char>>::empty());
        assert(Self::is_blank(blank) && q == (QueryAtom { bundle_hashes: q.bundle_hashes, ..blank }));
        q
    }

    /// A query for atoms with a position.
    pub fn by_position(position: &str) -> (q: Self)
        ensures
            strings_view(q.positions@) == seq![position@],
            exists|b: QueryAtom| Self::is_blank(b) && q == (QueryAtom { positions: q.positions, ..b }),
    {
        let b = Self::new();
        let ghost blank = b;
        let q = b.add_position(position);
        assert(strings_view(blank.positions@) =~= Seq::<Seq<char>>::empty());
        assert(Self::is_blank(blank) && q == (QueryAtom { positions: q.positions, ..blank }));
        q
    }

    /// A query for atoms with a wallet address.
    pub fn by_wallet_address(address: &str) -> (q: Self)
        ensures
            strings_view(q.wallet_addresses@) == seq![address@],
            exists|b: QueryAtom| Self::is_blank(b) && q == (QueryAtom { wallet_addresses: q.wallet_addresses, ..b }),
    {
        let b = Self::new();
        let ghost blank = b;
        let q = b.add_wallet_address(address);
        assert(strings_view(blank.wallet_addresses@) =~= Seq::<Seq<char>>::empty());
        assert(Self::is_blank(blank) && q == (QueryAtom { wallet_addresses: q.wallet_addresses, ..blank }));
        q
    }

    /// A query for atoms with an isotope.
    pub fn by_isotope(isotope: &str) -> (q: Self)
        ensures
            strings_view(q.isotopes@) == seq![isotope@],
            exists|b: QueryAtom| Self::is_blank(b) && q == (QueryAtom { isotopes: q.isotopes, ..b }),
    {
        let b = Self::new();
        let ghost blank = b;
        let q = b.add_isotope(isotope);
        assert(strings_view(blank.isotopes@) =~= Seq::<Seq<char>>::empty());
        assert(Self::is_blank(blank) && q == (QueryAtom { isotopes: q.isotopes, ..blank }));
        q
    }

    /// A query for atoms with a token slug.
    pub fn by_token_slug(token: &str) -> (q: Self)
        ensures
            strings_view(q.token_slugs@) == seq![token@],
            exists|b: QueryAtom| Self::is_blank(b) && q == (QueryAtom { token_slugs: q.token_slugs, ..b }),
    {
        let b = Self::new();
        let ghost blank = b;
        let q = b.add_token_slug(token);
        assert(strings_view(blank.token_slugs@) =~= Seq::<Seq<char>>::empty());
        assert(Self::is_blank(blank) && q == (QueryAtom { token_slugs: q.token_slugs, ..blank }));
        q
    }

    /// A query for atoms with a cell slug.
    pub fn by_cell_slug(cell: &str) -> (q: Self)
        ensures
            strings_view(q.cell_slugs@) == seq![cell@],
            exists|b: QueryAtom| Self::is_blank(b) && q == (QueryAtom { cell_slugs: q.cell_slugs, ..b }),
    {
        let b = Self::new();
        let ghost blank = b;
        let q = b.add_cell_slug(cell);
        assert(strings_view(blank.cell_slugs@) =~= Seq::<Seq<char>>::empty());
        assert(Self::is_blank(blank) && q == (QueryAtom { cell_slugs: q.cell_slugs, ..blank }));
        q
    }

    /// A query for atoms with a batch ID.
    pub fn by_batch_id(batch_id: &str) -> (q: Self)
        ensures
            strings_view(q.batch_ids@) == seq![batch_id@],
            exists|b: QueryAtom| Self::is_blank(b) && q == (QueryAtom { batch_ids: q.batch_ids, ..b }),
    {
        let b = Self::new();
        let ghost blank = b;
        let q = b.add_batch_id(batch_id);
        assert(strings_view(blank.batch_ids@) =~= Seq::<Seq<char>>::empty());
        assert(Self::is_blank(blank) && q == (QueryAtom { batch_ids: q.batch_ids, ..blank }));
        q
    }

    /// A query for atoms with a meta type.
    pub fn by_meta_type(meta_type: &str) -> (q: Self)
        ensures
            strings_view(q.meta_types@) == seq![meta_type@],
            exists|b: QueryAtom| Self::is_blank(b) && q == (QueryAtom { meta_types: q.meta_types, ..b }),
    {
        let b = Self::new();
        let ghost blank = b;
        let q = b.add_meta_type(meta_type);
        assert(strings_view(blank.meta_types@) =~= Seq::<Seq<char>>::empty());
        assert(Self::is_blank(blank) && q == (QueryAtom { meta_types: q.meta_types, ..blank }));
        q
    }


    /// The variables built from loose parameters: the molecular hashes (the list,
    /// then the single hash) when there are any, then the filter, the latest flag
    /// and the query arguments when given. No other parameter is sent.
    pub fn create_variables(params: QueryAtomParams) -> (r: JsonValue)
        ensures
            r@ == Json::Object(atom_param_variables(params)),
    {
        let QueryAtomParams { molecular_hashes, molecular_hash, filter, latest, query_args, .. } = params;
        let mut hashes: Vec<String> = match molecular_hashes {
            Some(l) => l,
            None => Vec::new(),
        };
        match molecular_hash {
            Some(h) => hashes.push(h),
            None => {},
        }
        assert(hashes@ == merged_hashes(params.molecular_hashes, params.molecular_hash));
        let mut e: Vec<(String, JsonValue)> = Vec::new();
        assert(entries_view(e@) =~= Seq::empty());
        push_vec_str(&mut e, "molecularHashes", &hashes);
        let ghost after_hashes = entries_view(e@);
        push_opt_json(&mut e, "filter", filter);
        let ghost after_filter = entries_view(e@);
        push_opt_bool(&mut e, "latest", latest);
        let ghost after_latest = entries_view(e@);
        push_opt_json(&mut e, "queryArgs", query_args);
        proof {
            assert(after_filter =~= after_hashes + opt_json_entry("filter"@, params.filter));
            assert(entries_view(e@) =~= after_latest + opt_json_entry("queryArgs"@, params.query_args));
            assert(entries_view(e@) =~= atom_param_variables(params));
        }
        object(e)
    }
}

/// Loose parameters from which atom query variables are built.
#[derive(Debug)]
pub struct QueryAtomParams {
    pub molecular_hashes: Option<Vec<String>>,
    pub molecular_hash: Option<String>,
    pub bundle_hashes: Option<Vec<String>>,
    pub bundle_hash: Option<String>,
    pub positions: Option<Vec<String>>,
    pub position: Option<String>,
    pub wallet_addresses: Option<Vec<String>>,
    pub wallet_address: Option<String>,
    pub isotopes: Option<Vec<String>>,
    pub isotope: Option<String>,
    pub token_slugs: Option<Vec<String>>,
    pub token_slug: Option<String>,
    pub cell_slugs: Option<Vec<String>>,
    pub cell_slug: Option<String>,
    pub batch_ids: Option<Vec<String>>,
    pub batch_id: Option<String>,
    pub values: Option<Vec<String>>,
    pub value: Option<String>,
    pub meta_types: Option<Vec<String>>,
    pub meta_type: Option<String>,
    pub meta_ids: Option<Vec<String>>,
    pub meta_id: Option<String>,
    pub indexes: Option<Vec<String>>,
    pub index: Option<String>,
    pub filter: Option<JsonValue>,
    pub latest: Option<bool>,
    pub query_args: Option<JsonValue>,
}

impl Default for QueryAtomParams {
    fn default() -> (p: Self)
        ensures
            p == (QueryAtomParams {
                molecular_hashes: None, molecular_hash: None, bundle_hashes: None, bundle_hash: None,
                positions: None, position: None, wallet_addresses: None, wallet_address: None,
                isotopes: None, isotope: None, token_slugs: None, token_slug: None,
                cell_slugs: None, cell_slug: None, batch_ids: None, batch_id: None,
                values: None, value: None, meta_types: None, meta_type: None,
                meta_ids: None, meta_id: None, indexes: None, index: None,
                filter: None, latest: None, query_args: None,
            }),
    {
        QueryAtomParams {
            molecular_hashes: None, molecular_hash: None, bundle_hashes: None, bundle_hash: None,
            positions: None, position: None, wallet_addresses: None, wallet_address: None,
            isotopes: None, isotope: None, token_slugs: None, token_slug: None,
            cell_slugs: None, cell_slug: None, batch_ids: None, batch_id: None,
            values: None, value: None, meta_types: None, meta_type: None,
            meta_ids: None, meta_id: None, indexes: None, index: None,
            filter: None, latest: None, query_args: None,
        }
    }
}

/// The molecular hashes of the parameters: the list, if given, then the single hash, if given.
pub open spec fn merged_hashes(list: Option<Vec<String>>, one: Option<String>) -> Seq<String> {
    let base = match list {
        Some(l) => l@,
        None => Seq::<String>::empty(),
    };
    match one {
        Some(h) => base.push(h),
        None => base,
    }
}

/// The variables built from loose parameters.
pub open spec fn atom_param_variables(p: QueryAtomParams) -> Seq<(Seq<char>, Json)> {
    vec_str_entry("molecularHashes"@, merged_hashes(p.molecular_hashes, p.molecular_hash))
        + opt_json_entry("filter"@, p.filter)
        + opt_bool_entry("latest"@, p.latest)
        + opt_json_entry("queryArgs"@, p.query_args)
}

} // verus!
