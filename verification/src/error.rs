//! Errors of the library.

use vstd::prelude::*;
use vstd::string::StringExecFns;

verus! {

/// The errors that the library's operations report.
#[derive(Debug)]
pub enum KnishIOError {
    /// A molecule has no atoms, or an atom lacks its position or address
    AtomsMissing,
    /// A signature cannot be produced or read
    SignatureMalformed,
    /// A molecule has no molecular hash yet
    MolecularHashMissing,
    /// A wallet holds less than an operation takes from it
    BalanceInsufficient,
    /// An amount is negative where it must not be
    NegativeAmount,
    /// A failure described by a message
    Custom(String),
    /// A failure to serialise a value
    Serialization(String),
    /// A failure of a secret storage provider
    SecretStorage(String),
    /// No secret is stored under a bundle hash
    SecretNotFound(String),
    /// A stored secret cannot be decrypted
    DecryptionFailed(String),
    /// A failure reported by a query or mutation, with its message
    Code(String),
    /// A server answer that cannot be used
    InvalidResponse,
    /// A server answer that refuses an unauthenticated request
    Unauthenticated,
}

/// The text that describes an error.
pub open spec fn error_text(e: KnishIOError) -> Seq<char> {
    match e {
        KnishIOError::AtomsMissing => "The molecule does not contain atoms"@,
        KnishIOError::SignatureMalformed => "The signature is malformed"@,
        KnishIOError::MolecularHashMissing => "The molecular hash is missing"@,
        KnishIOError::BalanceInsufficient => "Insufficient balance"@,
        KnishIOError::NegativeAmount => "The amount must not be negative"@,
        KnishIOError::Custom(m) => m@,
        KnishIOError::Serialization(m) => "Serialization error: "@ + m@,
        KnishIOError::SecretStorage(m) => "Secret storage error: "@ + m@,
        KnishIOError::SecretNotFound(m) => "Secret not found: "@ + m@,
        KnishIOError::DecryptionFailed(m) => "Decryption failed: "@ + m@,
        KnishIOError::Code(m) => m@,
        KnishIOError::InvalidResponse => "Invalid response from server"@,
        KnishIOError::Unauthenticated => "Unauthenticated"@,
    }
}

impl KnishIOError {
    /// An error described by a message.
    pub fn custom(message: &str) -> (e: Self)
        ensures
            e matches KnishIOError::Custom(m) && m@ == message@,
    {
        KnishIOError::Custom(message.to_owned())
    }

    /// The text that describes this error.
    pub fn to_string(&self) -> (s: String)
        ensures
            s@ == error_text(*self),
    {
        match self {
            KnishIOError::AtomsMissing => "The molecule does not contain atoms".to_owned(),
            KnishIOError::SignatureMalformed => "The signature is malformed".to_owned(),
            KnishIOError::MolecularHashMissing => "The molecular hash is missing".to_owned(),
            KnishIOError::BalanceInsufficient => "Insufficient balance".to_owned(),
            KnishIOError::NegativeAmount => "The amount must not be negative".to_owned(),
            KnishIOError::Custom(m) => m.clone(),
            KnishIOError::Serialization(m) => "Serialization error: ".to_owned().concat(m.as_str()),
            KnishIOError::SecretStorage(m) => "Secret storage error: ".to_owned().concat(m.as_str()),
            KnishIOError::SecretNotFound(m) => "Secret not found: ".to_owned().concat(m.as_str()),
            KnishIOError::DecryptionFailed(m) => "Decryption failed: ".to_owned().concat(m.as_str()),
            KnishIOError::Code(m) => m.clone(),
            KnishIOError::InvalidResponse => "Invalid response from server".to_owned(),
            KnishIOError::Unauthenticated => "Unauthenticated".to_owned(),
        }
    }
}

} // verus!
