//! Rules: conditions under which callbacks act, and the error that reports a
//! malformed rule argument.

pub mod callback;
pub mod condition;
pub mod rule;

use vstd::prelude::*;
use vstd::std_specs::convert::FromSpecImpl;
use vstd::string::StringExecFns;
use crate::error::KnishIOError;
use crate::json::JsonValue;

pub use crate::rules::callback::{Callback, Meta};
pub use crate::rules::condition::Condition;
pub use crate::rules::rule::Rule;

verus! {

/// A rule argument that is missing or malformed.
#[derive(Debug)]
pub struct RuleArgumentError {
    /// What is wrong with the argument
    pub message: String,
}

impl RuleArgumentError {
    /// An error with the given message.
    pub fn new(message: &str) -> (r: Self)
        ensures
            r.message@ == message@,
    {
        RuleArgumentError { message: message.to_owned() }
    }

    /// The text that describes this error: `Rule argument error: ` and the message.
    pub fn to_string(&self) -> (s: String)
        ensures
            s@ == "Rule argument error: "@ + self.message@,
    {
        "Rule argument error: ".to_owned().concat(self.message.as_str())
    }
}

impl From<RuleArgumentError> for KnishIOError {
    fn from(err: RuleArgumentError) -> (r: KnishIOError) {
        KnishIOError::Custom(err.message)
    }
}

impl FromSpecImpl<RuleArgumentError> for KnishIOError {
    open spec fn obeys_from_spec() -> bool {
        true
    }

    open spec fn from_spec(err: RuleArgumentError) -> KnishIOError {
        KnishIOError::Custom(err.message)
    }
}

/// A value that can be read from a JSON object.
pub trait FromJsonObject<T>: Sized {
    /// The value that a JSON object describes, or the error that makes it unreadable.
    fn from_json_object(object: &JsonValue) -> Result<T, KnishIOError>;
}

/// A value that can be written as JSON.
pub trait ToJsonObject {
    /// The JSON form of the value.
    fn to_json_object(&self) -> JsonValue;
}

} // verus!
