//! Balance of a wallet or of a token slug.

use vstd::prelude::*;
use crate::json::{
    Json, JsonValue, entries_view, lemma_lookup_concat, lemma_lookup_opt_str, lookup, object, opt_json_text,
    opt_str_entry, push_opt_str,
};
use crate::text::{opt_view, opt_ref_view, opt_as_str};

verus! {

/// The GraphQL text of this query.
pub const BALANCE_QUERY: &'static str = r#"query( $address: String, $bundleHash: String, $type: String, $token: String, $position: String ) {
          Balance( address: $address, bundleHash: $bundleHash, type: $type, token: $token, position: $position ) {
            address,
            bundleHash,
            type,
            tokenSlug,
            batchId,
            position,
            amount,
            characters,
            pubkey,
            createdAt,
            tokenUnits {
              id,
              name,
              metas
            },
            tradeRates {
              tokenSlug,
              amount
            }
          }
        }"#;

/// Query for the balance of a given wallet or token slug.
#[derive(Debug)]
pub struct QueryBalance {
    /// Wallet address to query
    pub address: Option<String>,
    /// Bundle hash to query
    pub bundle_hash: Option<String>,
    /// Wallet type to filter by
    pub wallet_type: Option<String>,
    /// Token slug to filter by
    pub token: Option<String>,
    /// Position to filter by
    pub position: Option<String>,
}

/// The variables this query sends when none are provided: one entry per
/// parameter that is set.
pub open spec fn balance_variables(q: QueryBalance) -> Seq<(Seq<char>, Json)> {
    opt_str_entry("address"@, q.address)
        + opt_str_entry("bundleHash"@, q.bundle_hash)
        + opt_str_entry("type"@, q.wallet_type)
        + opt_str_entry("token"@, q.token)
        + opt_str_entry("position"@, q.position)
}

/// The variables a balance query sends give each parameter under its own key
/// exactly when it is set: the address under `address`, the bundle hash
/// under `bundleHash`, the wallet type under `type`, the token under `token`
/// and the position under `position`.
pub proof fn law_balance_variables(q: QueryBalance)
    ensures
        lookup(balance_variables(q), "address"@) == opt_json_text(q.address),
        lookup(balance_variables(q), "bundleHash"@) == opt_json_text(q.bundle_hash),
        lookup(balance_variables(q), "type"@) == opt_json_text(q.wallet_type),
        lookup(balance_variables(q), "token"@) == opt_json_text(q.token),
        lookup(balance_variables(q), "position"@) == opt_json_text(q.position),
{
    reveal_strlit("address");
    reveal_strlit("bundleHash");
    reveal_strlit("type");
    reveal_strlit("token");
    reveal_strlit("position");
    assert("address"@.len() == 7 && "bundleHash"@.len() == 10 && "type"@.len() == 4);
    assert("token"@.len() == 5 && "position"@.len() == 8);
    lemma_balance_lookup(q, "address"@);
    lemma_balance_lookup(q, "bundleHash"@);
    lemma_balance_lookup(q, "type"@);
    lemma_balance_lookup(q, "token"@);
    lemma_balance_lookup(q, "position"@);
}

/// The value under a key in a balance query's variables: that of the first
/// parameter whose key it is.
proof fn lemma_balance_lookup(q: QueryBalance, k: Seq<char>)
    ensures
        lookup(balance_variables(q), k) == if k == "address"@ {
            opt_json_text(q.address)
        } else if k == "bundleHash"@ {
            opt_json_text(q.bundle_hash)
        } else if k == "type"@ {
            opt_json_text(q.wallet_type)
        } else if k == "token"@ {
            opt_json_text(q.token)
        } else if k == "position"@ {
            opt_json_text(q.position)
        } else {
            None
        },
{
    reveal_strlit("address");
    reveal_strlit("bundleHash");
    reveal_strlit("type");
    reveal_strlit("token");
    reveal_strlit("position");
    assert("address"@.len() == 7 && "bundleHash"@.len() == 10 && "type"@.len() == 4);
    assert("token"@.len() == 5 && "position"@.len() == 8);
    let e1 = opt_str_entry("address"@, q.address);
    let e2 = opt_str_entry("bundleHash"@, q.bundle_hash);
    let e3 = opt_str_entry("type"@, q.wallet_type);
    let e4 = opt_str_entry("token"@, q.token);
    let e5 = opt_str_entry("position"@, q.position);
    assert(balance_variables(q) == e1 + e2 + e3 + e4 + e5);
    lemma_lookup_concat(e1 + e2 + e3 + e4, e5, k);
    lemma_lookup_concat(e1 + e2 + e3, e4, k);
    lemma_lookup_concat(e1 + e2, e3, k);
    lemma_lookup_concat(e1, e2, k);
    lemma_lookup_opt_str("address"@, q.address, k);
    lemma_lookup_opt_str("bundleHash"@, q.bundle_hash, k);
    lemma_lookup_opt_str("type"@, q.wallet_type, k);
    lemma_lookup_opt_str("token"@, q.token, k);
    lemma_lookup_opt_str("position"@, q.position, k);
}

impl QueryBalance {
    /// A query with no parameter set.
    pub fn new() -> (q: Self)
        ensures
            q.address is None,
            q.bundle_hash is None,
            q.wallet_type is None,
            q.token is None,
            q.position is None,
    {
        QueryBalance { address: None, bundle_hash: None, wallet_type: None, token: None, position: None }
    }

    /// Set the wallet address parameter.
    pub fn with_address(self, address: &str) -> (q: Self)
        ensures
            opt_view(q.address) == Some(address@),
            q.bundle_hash == self.bundle_hash,
            q.wallet_type == self.wallet_type,
            q.token == self.token,
            q.position == self.position,
    {
        QueryBalance { address: Some(address.to_owned()), bundle_hash: self.bundle_hash, wallet_type: self.wallet_type, token: self.token, position: self.position }
    }

    /// Set the bundle hash parameter.
    pub fn with_bundle_hash(self, bundle_hash: &str) -> (q: Self)
        ensures
            q.address == self.address,
            opt_view(q.bundle_hash) == Some(bundle_hash@),
            q.wallet_type == self.wallet_type,
            q.token == self.token,
            q.position == self.position,
    {
        QueryBalance { address: self.address, bundle_hash: Some(bundle_hash.to_owned()), wallet_type: self.wallet_type, token: self.token, position: self.position }
    }

    /// Set the wallet type parameter.
    pub fn with_type(self, wallet_type: &str) -> (q: Self)
        ensures
            q.address == self.address,
            q.bundle_hash == self.bundle_hash,
            opt_view(q.wallet_type) == Some(wallet_type@),
            q.token == self.token,
            q.position == self.position,
    {
        QueryBalance { address: self.address, bundle_hash: self.bundle_hash, wallet_type: Some(wallet_type.to_owned()), token: self.token, position: self.position }
    }

    /// Set the token slug parameter.
    pub fn with_token(self, token: &str) -> (q: Self)
        ensures
            q.address == self.address,
            q.bundle_hash == self.bundle_hash,
            q.wallet_type == self.wallet_type,
            opt_view(q.token) == Some(token@),
            q.position == self.position,
    {
        QueryBalance { address: self.address, bundle_hash: self.bundle_hash, wallet_type: self.wallet_type, token: Some(token.to_owned()), position: self.position }
    }

    /// Set the position parameter.
    pub fn with_position(self, position: &str) -> (q: Self)
        ensures
            q.address == self.address,
            q.bundle_hash == self.bundle_hash,
            q.wallet_type == self.wallet_type,
            q.token == self.token,
            opt_view(q.position) == Some(position@),
    {
        QueryBalance { address: self.address, bundle_hash: self.bundle_hash, wallet_type: self.wallet_type, token: self.token, position: Some(position.to_owned()) }
    }

    /// The query text.
    pub fn get_query(&self) -> (s: &'static str)
        ensures
            s@ == BALANCE_QUERY@,
    {
        BALANCE_QUERY
    }

    /// The variables to send: those provided, else one entry per parameter set.
    pub fn compiled_variables(&self, variables: Option<JsonValue>) -> (res: Option<JsonValue>)
        ensures
            variables is Some ==> res == variables,
            variables is None ==> (res matches Some(v) && v@ == Json::Object(balance_variables(*self))),
    {
        match variables {
            Some(v) => Some(v),
            None => {
                let mut entries: Vec<(String, JsonValue)> = Vec::new();
                assert(entries_view(entries@) == Seq::<(Seq<char>, Json)>::empty());
                push_opt_str(&mut entries, "address", &self.address);
                push_opt_str(&mut entries, "bundleHash", &self.bundle_hash);
                push_opt_str(&mut entries, "type", &self.wallet_type);
                push_opt_str(&mut entries, "token", &self.token);
                push_opt_str(&mut entries, "position", &self.position);
                assert(balance_variables(*self) =~= Seq::<(Seq<char>, Json)>::empty() + opt_str_entry("address"@, self.address) + opt_str_entry("bundleHash"@, self.bundle_hash) + opt_str_entry("type"@, self.wallet_type) + opt_str_entry("token"@, self.token) + opt_str_entry("position"@, self.position));
                Some(object(entries))
            },
        }
    }

    /// Query the balance of a token slug.
    pub fn by_token(token: &str) -> (q: Self)
        ensures
            q.address is None,
            q.bundle_hash is None,
            q.wallet_type is None,
            opt_view(q.token) == Some(token@),
            q.position is None,
    {
        Self::new().with_token(token)
    }

    /// Query the balance of a wallet address.
    pub fn by_address(address: &str) -> (q: Self)
        ensures
            opt_view(q.address) == Some(address@),
            q.bundle_hash is None,
            q.wallet_type is None,
            q.token is None,
            q.position is None,
    {
        Self::new().with_address(address)
    }

    /// Query the balance of a bundle.
    pub fn by_bundle(bundle_hash: &str) -> (q: Self)
        ensures
            q.address is None,
            opt_view(q.bundle_hash) == Some(bundle_hash@),
            q.wallet_type is None,
            q.token is None,
            q.position is None,
    {
        Self::new().with_bundle_hash(bundle_hash)
    }

    /// Query the balance of a token in a bundle.
    pub fn by_token_and_bundle(token: &str, bundle_hash: &str) -> (q: Self)
        ensures
            q.address is None,
            opt_view(q.bundle_hash) == Some(bundle_hash@),
            q.wallet_type is None,
            opt_view(q.token) == Some(token@),
            q.position is None,
    {
        Self::new().with_token(token).with_bundle_hash(bundle_hash)
    }

    /// Query the balance of a token at an address.
    pub fn by_token_and_address(token: &str, address: &str) -> (q: Self)
        ensures
            opt_view(q.address) == Some(address@),
            q.bundle_hash is None,
            q.wallet_type is None,
            opt_view(q.token) == Some(token@),
            q.position is None,
    {
        Self::new().with_token(token).with_address(address)
    }

}

} // verus!
