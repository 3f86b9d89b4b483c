//! The mutation that links an identifier to a wallet bundle.

use vstd::prelude::*;
use crate::json::JsonValue;

verus! {

/// The GraphQL text of the link-identifier mutation.
pub const LINK_IDENTIFIER_MUTATION: &'static str = r#"mutation( $bundle: String!, $type: String!, $content: String! ) {
          LinkIdentifier( bundle: $bundle, type: $type, content: $content ) {
            type,
            bundle,
            content,
            set,
            message
          }
        }"#;

/// Links an identifier to a wallet bundle.
#[derive(Debug)]
pub struct MutationLinkIdentifier {}

impl MutationLinkIdentifier {
    /// The mutation.
    pub fn new() -> (m: Self) {
        MutationLinkIdentifier {}
    }

    /// The GraphQL text of the mutation.
    pub fn get_query(&self) -> (s: &'static str)
        ensures
            s@ == LINK_IDENTIFIER_MUTATION@,
    {
        LINK_IDENTIFIER_MUTATION
    }

    /// The GraphQL text of the mutation.
    pub fn get_mutation(&self) -> (s: &'static str)
        ensures
            s@ == LINK_IDENTIFIER_MUTATION@,
    {
        self.get_query()
    }

    /// The variables sent with the mutation: those given, unchanged.
    pub fn compiled_variables(&self, variables: Option<JsonValue>) -> (r: Option<JsonValue>)
        ensures
            r == variables,
    {
        variables
    }
}

} // verus!
