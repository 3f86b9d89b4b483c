//! Parameters of the mutation that creates an identifier.

use vstd::prelude::*;

verus! {

/// What an identifier creation names: the identifier's type, the contact and
/// the verification code.
#[derive(Debug)]
pub struct CreateIdentifierParams {
    /// The kind of identifier, such as `email`
    pub identifier_type: String,
    /// The contact information
    pub contact: String,
    /// The verification code
    pub code: String,
}

} // verus!
