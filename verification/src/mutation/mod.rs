//! GraphQL mutations: their texts, the variables they send, and a builder.

pub mod active_session;
pub mod claim_shadow_wallet;
pub mod create_identifier;
pub mod link_identifier;
pub mod request_authorization_guest;

use vstd::prelude::*;
use crate::json::JsonValue;
use crate::text::opt_view;

pub use crate::mutation::active_session::MutationActiveSession;
pub use crate::mutation::claim_shadow_wallet::ClaimShadowWalletParams;
pub use crate::mutation::create_identifier::CreateIdentifierParams;
pub use crate::mutation::link_identifier::MutationLinkIdentifier;
pub use crate::mutation::request_authorization_guest::MutationRequestAuthorizationGuest;

verus! {

/// A mutation given by its text, with default variables.
#[derive(Debug)]
pub struct BaseMutation {
    mutation_string: String,
    variables: Option<JsonValue>,
}

impl BaseMutation {
    /// The text of the mutation.
    pub closed spec fn text(&self) -> Seq<char> {
        self.mutation_string@
    }

    /// The variables sent when none are given.
    pub closed spec fn default_variables(&self) -> Option<JsonValue> {
        self.variables
    }

    /// A mutation with the given text and no default variables.
    pub fn new(mutation_string: &str) -> (m: Self)
        ensures
            m.text() == mutation_string@,
            m.default_variables() is None,
    {
        BaseMutation { mutation_string: mutation_string.to_owned(), variables: None }
    }

    /// The mutation with `variables` as its default variables.
    pub fn with_variables(self, variables: JsonValue) -> (m: Self)
        ensures
            m.text() == self.text(),
            m.default_variables() == Some(variables),
    {
        let mut m = self;
        m.variables = Some(variables);
        m
    }

    /// The text of the mutation.
    pub fn get_query(&self) -> (s: &str)
        ensures
            s@ == self.text(),
    {
        self.mutation_string.as_str()
    }

    /// The text of the mutation.
    pub fn get_mutation(&self) -> (s: &str)
        ensures
            s@ == self.text(),
    {
        self.mutation_string.as_str()
    }

    /// The variables sent: those given, else a copy of the default ones.
    pub fn compiled_variables(&self, variables: Option<JsonValue>) -> (r: Option<JsonValue>)
        ensures
            variables is Some ==> r == variables,
            variables is None ==> match self.default_variables() {
                Some(d) => r matches Some(x) && x@ == d@,
                None => r is None,
            },
    {
        match variables {
            Some(v) => Some(v),
            None => match &self.variables {
                Some(d) => Some(d.clone()),
                None => None,
            },
        }
    }
}

/// Collects what mutations need to be signed: the secret and the bundle.
#[derive(Debug)]
pub struct MutationBuilder {
    secret: Option<String>,
    bundle: Option<String>,
}

impl MutationBuilder {
    /// The secret that signs the mutations.
    pub closed spec fn secret(&self) -> Option<Seq<char>> {
        opt_view(self.secret)
    }

    /// The bundle hash of the user.
    pub closed spec fn bundle(&self) -> Option<Seq<char>> {
        opt_view(self.bundle)
    }

    /// A builder with neither secret nor bundle.
    pub fn new() -> (b: Self)
        ensures
            b.secret() is None,
            b.bundle() is None,
    {
        MutationBuilder { secret: None, bundle: None }
    }

    /// The builder with `secret` set.
    pub fn with_secret(self, secret: &str) -> (b: Self)
        ensures
            b.secret() == Some(secret@),
            b.bundle() == self.bundle(),
    {
        let mut b = self;
        b.secret = Some(secret.to_owned());
        b
    }

    /// The builder with `bundle` set.
    pub fn with_bundle(self, bundle: &str) -> (b: Self)
        ensures
            b.bundle() == Some(bundle@),
            b.secret() == self.secret(),
    {
        let mut b = self;
        b.bundle = Some(bundle.to_owned());
        b
    }

    /// An active-session mutation.
    pub fn active_session(self) -> (m: MutationActiveSession) {
        MutationActiveSession::new()
    }
}

impl Default for MutationBuilder {
    fn default() -> (b: Self)
        ensures
            b.secret() is None,
            b.bundle() is None,
    {
        Self::new()
    }
}

} // verus!
