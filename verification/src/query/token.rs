//! Token information.

use vstd::prelude::*;
use crate::json::{Json, JsonValue, entries_view, object, opt_str_entry, push_opt_str, vec_str_entry, push_vec_str, opt_int_entry, push_opt_int};
use crate::text::{opt_view, opt_ref_view, opt_as_str, strings_view};

verus! {

/// The GraphQL text of this query.
pub const TOKEN_QUERY: &'static str = r#"query( $slug: String, $slugs: [ String! ], $limit: Int, $order: String ) {
          Token( slug: $slug, slugs: $slugs, limit: $limit, order: $order ) {
            slug,
            name,
            fungibility,
            supply,
            decimals,
            amount,
            icon
          }
        }"#;


/// Query for token information.
#[derive(Debug)]
pub struct QueryToken {
    /// Single token slug to query
    pub slug: Option<String>,
    /// Token slugs to query
    pub slugs: Vec<String>,
    /// Limit on the number of results
    pub limit: Option<i32>,
    /// Order of the results
    pub order: Option<String>,
}

/// The variables this query sends when none are provided: one entry per
/// parameter that is set, in this order.
pub open spec fn token_variables(q: QueryToken) -> Seq<(Seq<char>, Json)> {
    opt_str_entry("slug"@, q.slug)
        + vec_str_entry("slugs"@, q.slugs@)
        + opt_int_entry("limit"@, q.limit)
        + opt_str_entry("order"@, q.order)
}

impl QueryToken {
    /// A query with no parameter set.
    pub fn new() -> (q: Self)
        ensures
            q.slug is None,
            q.slugs@.len() == 0,
            q.limit is None,
            q.order is None,
    {
        QueryToken { slug: None, slugs: Vec::new(), limit: None, order: None }
    }

    /// Set the token slug parameter.
    pub fn with_slug(self, slug: &str) -> (q: Self)
        ensures
            opt_view(q.slug) == Some(slug@),
            q.slugs == self.slugs,
            q.limit == self.limit,
            q.order == self.order,
    {
        QueryToken { slug: Some(slug.to_owned()), slugs: self.slugs, limit: self.limit, order: self.order }
    }

    /// Set the token slugs, replacing those held.
    pub fn with_slugs(self, slugs: Vec<String>) -> (q: Self)
        ensures
            q.slug == self.slug,
            q.slugs == slugs,
            q.limit == self.limit,
            q.order == self.order,
    {
        QueryToken { slug: self.slug, slugs: slugs, limit: self.limit, order: self.order }
    }

    /// Set the limit parameter.
    pub fn with_limit(self, limit: i32) -> (q: Self)
        ensures
            q.slug == self.slug,
            q.slugs == self.slugs,
            q.limit == Some(limit),
            q.order == self.order,
    {
        QueryToken { slug: self.slug, slugs: self.slugs, limit: Some(limit), order: self.order }
    }

    /// Set the order parameter.
    pub fn with_order(self, order: &str) -> (q: Self)
        ensures
            q.slug == self.slug,
            q.slugs == self.slugs,
            q.limit == self.limit,
            opt_view(q.order) == Some(order@),
    {
        QueryToken { slug: self.slug, slugs: self.slugs, limit: self.limit, order: Some(order.to_owned()) }
    }

    /// Append one token slug to the slugs.
    pub fn add_slug(self, slug: &str) -> (q: Self)
        ensures
            strings_view(q.slugs@) == strings_view(self.slugs@).push(slug@),
            q.slug == self.slug,
            q.limit == self.limit,
            q.order == self.order,
    {
        let mut q = self;
        q.slugs.push(slug.to_owned());
        assert(strings_view(q.slugs@) =~= strings_view(self.slugs@).push(slug@));
        q
    }

    /// Append several token slugs to the slugs.
    pub fn add_slugs(self, slugs: Vec<String>) -> (q: Self)
        ensures
            q.slugs@ == self.slugs@ + slugs@,
            q.slug == self.slug,
            q.limit == self.limit,
            q.order == self.order,
    {
        let mut q = self;
        let mut more = slugs;
        q.slugs.append(&mut more);
        q
    }

    /// The slug parameter.
    pub fn slug(&self) -> (r: Option<&str>)
        ensures
            opt_ref_view(r) == opt_view(self.slug),
    {
        opt_as_str(&self.slug)
    }

    /// The slugs parameter.
    pub fn slugs(&self) -> (r: &[String])
        ensures
            r@ == self.slugs@,
    {
        self.slugs.as_slice()
    }

    /// The limit parameter.
    pub fn limit(&self) -> (r: Option<i32>)
        ensures
            r == self.limit,
    {
        self.limit
    }

    /// The order parameter.
    pub fn order(&self) -> (r: Option<&str>)
        ensures
            opt_ref_view(r) == opt_view(self.order),
    {
        opt_as_str(&self.order)
    }

    /// The query text.
    pub fn get_query(&self) -> (s: &'static str)
        ensures
            s@ == TOKEN_QUERY@,
    {
        TOKEN_QUERY
    }

    /// The variables to send: those provided, else one entry per parameter set.
    pub fn compiled_variables(&self, variables: Option<JsonValue>) -> (res: Option<JsonValue>)
        ensures
            variables is Some ==> res == variables,
            variables is None ==> (res matches Some(v) && v@ == Json::Object(token_variables(*self))),
    {
        match variables {
            Some(v) => Some(v),
            None => {
                let mut entries: Vec<(String, JsonValue)> = Vec::new();
                assert(entries_view(entries@) == Seq::<(Seq<char>, Json)>::empty());
                push_opt_str(&mut entries, "slug", &self.slug);
                push_vec_str(&mut entries, "slugs", &self.slugs);
                push_opt_int(&mut entries, "limit", self.limit);
                push_opt_str(&mut entries, "order", &self.order);
                assert(token_variables(*self) =~= Seq::<(Seq<char>, Json)>::empty() + opt_str_entry("slug"@, self.slug) + vec_str_entry("slugs"@, self.slugs@) + opt_int_entry("limit"@, self.limit) + opt_str_entry("order"@, self.order));
                Some(object(entries))
            },
        }
    }

    /// Query one token by slug.
    pub fn by_slug(slug: &str) -> (q: Self)
        ensures
            opt_view(q.slug) == Some(slug@),
            q.slugs@.len() == 0,
            q.limit is None,
            q.order is None,
    {
        Self::new().with_slug(slug)
    }

    /// Query several tokens by slug.
    pub fn by_slugs(slugs: Vec<String>) -> (q: Self)
        ensures
            q.slug is None,
            q.slugs == slugs,
            q.limit is None,
            q.order is None,
    {
        Self::new().with_slugs(slugs)
    }

    /// Query all tokens, at most `limit` of them.
    pub fn all_with_limit(limit: i32) -> (q: Self)
        ensures
            q.slug is None,
            q.slugs@.len() == 0,
            q.limit == Some(limit),
            q.order is None,
    {
        Self::new().with_limit(limit)
    }

    /// Query tokens in the given order.
    pub fn with_ordering(order: &str) -> (q: Self)
        ensures
            q.slug is None,
            q.slugs@.len() == 0,
            q.limit is None,
            opt_view(q.order) == Some(order@),
    {
        Self::new().with_order(order)
    }

    /// Query at most `limit` tokens in the given order.
    pub fn limited_ordered(limit: i32, order: &str) -> (q: Self)
        ensures
            q.slug is None,
            q.slugs@.len() == 0,
            q.limit == Some(limit),
            opt_view(q.order) == Some(order@),
    {
        Self::new().with_limit(limit).with_order(order)
    }


}

} // verus!
