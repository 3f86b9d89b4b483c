//! The mutation that requests a guest authorization token.

use vstd::prelude::*;
use crate::json::JsonValue;

verus! {

/// The GraphQL text of the guest-authorization mutation.
pub const REQUEST_AUTHORIZATION_GUEST_MUTATION: &'static str = r#"mutation( $cellSlug: String, $pubkey: String, $encrypt: Boolean ) {
          AccessToken( cellSlug: $cellSlug, pubkey: $pubkey, encrypt: $encrypt ) {
            token,
            pubkey,
            expiresAt
          }
        }"#;

/// Requests a guest authorization token.
#[derive(Debug)]
pub struct MutationRequestAuthorizationGuest {}

impl MutationRequestAuthorizationGuest {
    /// The mutation.
    pub fn new() -> (m: Self) {
        MutationRequestAuthorizationGuest {}
    }

    /// The GraphQL text of the mutation.
    pub fn get_query(&self) -> (s: &'static str)
        ensures
            s@ == REQUEST_AUTHORIZATION_GUEST_MUTATION@,
    {
        REQUEST_AUTHORIZATION_GUEST_MUTATION
    }

    /// The GraphQL text of the mutation.
    pub fn get_mutation(&self) -> (s: &'static str)
        ensures
            s@ == REQUEST_AUTHORIZATION_GUEST_MUTATION@,
    {
        self.get_query()
    }

    /// The variables sent with the mutation: those given, unchanged.
    pub fn compiled_variables(&self, variables: Option<JsonValue>) -> (r: Option<JsonValue>)
        ensures
            r == variables,
    {
        variables
    }
}

impl Default for MutationRequestAuthorizationGuest {
    fn default() -> (m: Self) {
        Self::new()
    }
}

} // verus!
