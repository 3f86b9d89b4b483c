//! The standard response of an operation: success with a payload or failure
//! with a message, the operation's metadata, and helpers to build, combine
//! and convert responses.

use vstd::prelude::*;
use vstd::string::StringExecFns;
use crate::clock::current_time_millis;
use crate::error::KnishIOError;
use crate::json::JsonValue;
use crate::numeric::{nat_digits, u64_text};

verus! {

/// The current Unix time in whole seconds, as decimal text; `0` for a clock
/// set before the epoch.
fn current_timestamp() -> (r: String)
    ensures
        exists|s: nat| r@ == nat_digits(s),
{
    let ms = current_time_millis();
    let secs: u64 = if ms < 0 {
        0
    } else {
        (ms / 1000) as u64
    };
    u64_text(secs)
}

/// An error of an operation, with its details.
#[derive(Debug)]
pub struct ResponseError {
    /// What went wrong
    pub message: String,
    /// An error code
    pub code: Option<String>,
    /// Further details
    pub details: Vec<String>,
    /// Where the error arose
    pub context: Option<String>,
    /// Unix time of the error in seconds, as decimal text
    pub timestamp: String,
    /// The operation that failed
    pub operation: Option<String>,
}

impl ResponseError {
    /// An error with a message, stamped with the current time.
    pub fn new(message: &str) -> (r: Self)
        ensures
            r.message@ == message@,
            r.code is None,
            r.details@.len() == 0,
            r.context is None,
            r.operation is None,
            exists|s: nat| r.timestamp@ == nat_digits(s),
    {
        ResponseError {
            message: message.to_owned(),
            code: None,
            details: Vec::new(),
            context: None,
            timestamp: current_timestamp(),
            operation: None,
        }
    }

    /// The error with a code.
    pub fn with_code(self, code: &str) -> (r: Self)
        ensures
            r.code matches Some(c) && c@ == code@,
            r.message == self.message,
            r.details == self.details,
            r.context == self.context,
            r.timestamp == self.timestamp,
            r.operation == self.operation,
    {
        let mut r = self;
        r.code = Some(code.to_owned());
        r
    }

    /// The error with a context.
    pub fn with_context(self, context: &str) -> (r: Self)
        ensures
            r.context matches Some(c) && c@ == context@,
            r.message == self.message,
            r.code == self.code,
            r.details == self.details,
            r.timestamp == self.timestamp,
            r.operation == self.operation,
    {
        let mut r = self;
        r.context = Some(context.to_owned());
        r
    }

    /// The error with the operation that failed.
    pub fn with_operation(self, operation: &str) -> (r: Self)
        ensures
            r.operation matches Some(o) && o@ == operation@,
            r.message == self.message,
            r.code == self.code,
            r.details == self.details,
            r.context == self.context,
            r.timestamp == self.timestamp,
    {
        let mut r = self;
        r.operation = Some(operation.to_owned());
        r
    }
}

/// The result of a validation: data on success, an error on failure, and warnings.
#[derive(Debug)]
pub struct ValidationResult<T> {
    /// Whether the validation passed
    pub success: bool,
    /// The validated data
    pub data: Option<T>,
    /// Why the validation failed
    pub error: Option<ResponseError>,
    /// Warnings raised on the way
    pub warnings: Vec<String>,
}

impl<T> ValidationResult<T> {
    /// A passed validation holding `data`.
    pub fn success(data: T) -> (r: Self)
        ensures
            r.success,
            r.data == Some(data),
            r.error is None,
            r.warnings@.len() == 0,
    {
        ValidationResult { success: true, data: Some(data), error: None, warnings: Vec::new() }
    }

    /// A failed validation with the message `error`.
    pub fn failure(error: &str) -> (r: Self)
        ensures
            !r.success,
            r.data is None,
            r.error matches Some(e) && e.message@ == error@ && e.code is None && e.details@.len() == 0
                && e.context is None && e.operation is None,
            r.warnings@.len() == 0,
    {
        ValidationResult { success: false, data: None, error: Some(ResponseError::new(error)), warnings: Vec::new() }
    }

    /// The result with its warnings replaced by `warnings`.
    pub fn with_warnings(self, warnings: Vec<String>) -> (r: Self)
        ensures
            r.success == self.success,
            r.data == self.data,
            r.error == self.error,
            r.warnings == warnings,
    {
        let mut r = self;
        r.warnings = warnings;
        r
    }
}

/// What is recorded of the operation that produced a response.
#[derive(Debug)]
pub struct ResponseMetadata {
    /// Unix time in seconds, as decimal text
    pub timestamp: String,
    /// The operation
    pub operation: String,
    /// How long the operation took
    pub duration: Option<u64>,
    /// The request's identifier
    pub request_id: Option<String>,
    /// The server's version
    pub server_version: Option<String>,
    /// This client's version
    pub client_version: String,
}

/// The version of this client, as recorded in response metadata.
pub open spec fn client_version() -> Seq<char> {
    "0.1.0"@
}

impl ResponseMetadata {
    /// Metadata of `operation`, stamped with the current time.
    pub fn new(operation: &str) -> (r: Self)
        ensures
            r.operation@ == operation@,
            r.duration is None,
            r.request_id is None,
            r.server_version is None,
            r.client_version@ == client_version(),
            exists|s: nat| r.timestamp@ == nat_digits(s),
    {
        ResponseMetadata {
            timestamp: current_timestamp(),
            operation: operation.to_owned(),
            duration: None,
            request_id: None,
            server_version: None,
            client_version: "0.1.0".to_owned(),
        }
    }
}

/// The response of an operation: success with a payload, or failure with a message.
#[derive(Debug)]
pub struct StandardResponse<T> {
    successful: bool,
    payload_data: Option<T>,
    error_message: Option<String>,
    raw_data: Option<JsonValue>,
    metadata: ResponseMetadata,
}

impl<T> StandardResponse<T> {
    /// Whether the response reports success.
    pub closed spec fn is_successful(&self) -> bool {
        self.successful
    }

    /// The payload of the response.
    pub closed spec fn payload_of(&self) -> Option<T> {
        self.payload_data
    }

    /// The error message of the response.
    pub closed spec fn message_of(&self) -> Option<String> {
        self.error_message
    }

    /// The raw data the response was read from.
    pub closed spec fn raw_of(&self) -> Option<JsonValue> {
        self.raw_data
    }

    /// The metadata of the response.
    pub closed spec fn metadata_of(&self) -> ResponseMetadata {
        self.metadata
    }

    /// A successful response holding `payload`.
    pub fn success(payload: T, operation: &str) -> (r: Self)
        ensures
            r.is_successful(),
            r.payload_of() == Some(payload),
            r.message_of() is None,
            r.raw_of() is None,
            r.metadata_of().operation@ == operation@,
            r.metadata_of().duration is None,
    {
        StandardResponse {
            successful: true,
            payload_data: Some(payload),
            error_message: None,
            raw_data: None,
            metadata: ResponseMetadata::new(operation),
        }
    }

    /// A failed response with `error_message`.
    pub fn failure(error_message: &str, operation: &str) -> (r: Self)
        ensures
            !r.is_successful(),
            r.payload_of() is None,
            r.message_of() matches Some(m) && m@ == error_message@,
            r.raw_of() is None,
            r.metadata_of().operation@ == operation@,
            r.metadata_of().duration is None,
    {
        StandardResponse {
            successful: false,
            payload_data: None,
            error_message: Some(error_message.to_owned()),
            raw_data: None,
            metadata: ResponseMetadata::new(operation),
        }
    }

    /// The response with its raw data set.
    pub fn with_raw_data(self, raw_data: JsonValue) -> (r: Self)
        ensures
            r.raw_of() == Some(raw_data),
            r.is_successful() == self.is_successful(),
            r.payload_of() == self.payload_of(),
            r.message_of() == self.message_of(),
            r.metadata_of() == self.metadata_of(),
    {
        let mut r = self;
        r.raw_data = Some(raw_data);
        r
    }

    /// The response with the operation's duration recorded.
    pub fn with_duration(self, duration: u64) -> (r: Self)
        ensures
            r.metadata_of().duration == Some(duration),
            r.metadata_of().operation == self.metadata_of().operation,
            r.metadata_of().timestamp == self.metadata_of().timestamp,
            r.is_successful() == self.is_successful(),
            r.payload_of() == self.payload_of(),
            r.message_of() == self.message_of(),
            r.raw_of() == self.raw_of(),
    {
        let mut r = self;
        r.metadata.duration = Some(duration);
        r
    }

    /// The response of applying `on_success` to the payload of a successful
    /// response, or `on_failure` to the message of a failed one (or of a
    /// successful one without a payload).
    pub fn fold<R, S: FnOnce(T) -> R, F: FnOnce(String) -> R>(self, on_success: S, on_failure: F) -> (r: R)
        requires
            forall|t: T| #[trigger] on_success.requires((t,)),
            forall|m: String| #[trigger] on_failure.requires((m,)),
        ensures
            self.is_successful() && self.payload_of() is Some ==> on_success.ensures((self.payload_of()->0,), r),
            self.is_successful() && self.payload_of() is None ==> exists|m: String|
                m@ == "Successful response has no payload"@ && #[trigger] on_failure.ensures((m,), r),
            !self.is_successful() ==> exists|m: String|
                m@ == failure_message(self.message_of()) && #[trigger] on_failure.ensures((m,), r),
    {
        if self.successful {
            match self.payload_data {
                Some(p) => on_success(p),
                None => on_failure("Successful response has no payload".to_owned()),
            }
        } else {
            let m = match self.error_message {
                Some(m) => m,
                None => "Unknown error".to_owned(),
            };
            on_failure(m)
        }
    }
}

/// The message of a failure: its own, or `Unknown error` without one.
pub open spec fn failure_message(m: Option<String>) -> Seq<char> {
    match m {
        Some(s) => s@,
        None => "Unknown error"@,
    }
}

/// The raw data of a response, or JSON `null` without any.
pub open spec fn raw_or_null(d: Option<JsonValue>) -> JsonValue {
    match d {
        Some(v) => v,
        None => JsonValue::Null,
    }
}

/// What every response tells: whether it succeeded, its payload, its error
/// message and its raw data.
pub trait UniversalResponse<T> {
    /// Whether the response reports success.
    fn success(&self) -> bool;

    /// The payload, borrowed.
    fn payload(&self) -> Option<&T>;

    /// The error message.
    fn reason(&self) -> Option<&str>;

    /// The raw data the response was read from.
    fn data(&self) -> Option<&JsonValue>;
}

impl<T> UniversalResponse<T> for StandardResponse<T> {
    fn success(&self) -> (r: bool)
        ensures
            r == self.is_successful(),
    {
        self.successful
    }

    fn payload(&self) -> (r: Option<&T>)
        ensures
            match self.payload_of() {
                Some(p) => r == Some(&p),
                None => r is None,
            },
    {
        match &self.payload_data {
            Some(p) => Some(p),
            None => None,
        }
    }

    fn reason(&self) -> (r: Option<&str>)
        ensures
            match self.message_of() {
                Some(m) => r matches Some(x) && x@ == m@,
                None => r is None,
            },
    {
        match &self.error_message {
            Some(m) => Some(m.as_str()),
            None => None,
        }
    }

    fn data(&self) -> (r: Option<&JsonValue>)
        ensures
            match self.raw_of() {
                Some(d) => r == Some(&d),
                None => r is None,
            },
    {
        match &self.raw_data {
            Some(d) => Some(d),
            None => None,
        }
    }
}

impl<T> StandardResponse<T> {
    /// The response of applying `mapper` to the payload: a successful response
    /// holding the mapped payload (operation `<op>_mapped`, same raw data or
    /// `null`); for a successful response without a payload a failure `No
    /// payload to map` (operation `<op>_map_no_payload`); a failure stays a
    /// failure with its message (or `Unknown error`), operation and raw data.
    pub fn map<U, F: FnOnce(T) -> U>(self, mapper: F) -> (r: StandardResponse<U>)
        requires
            forall|t: T| #[trigger] mapper.requires((t,)),
        ensures
            self.is_successful() && self.payload_of() is Some ==> {
                &&& r.is_successful()
                &&& r.payload_of() matches Some(u) && mapper.ensures((self.payload_of()->0,), u)
                &&& r.metadata_of().operation@ == self.metadata_of().operation@ + "_mapped"@
                &&& r.raw_of() == Some(raw_or_null(self.raw_of()))
            },
            self.is_successful() && self.payload_of() is None ==> {
                &&& !r.is_successful()
                &&& r.message_of() matches Some(m) && m@ == "No payload to map"@
                &&& r.metadata_of().operation@ == self.metadata_of().operation@ + "_map_no_payload"@
                &&& r.raw_of() is None
            },
            !self.is_successful() ==> {
                &&& !r.is_successful()
                &&& r.message_of() matches Some(m) && m@ == failure_message(self.message_of())
                &&& r.metadata_of().operation@ == self.metadata_of().operation@
                &&& r.raw_of() == Some(raw_or_null(self.raw_of()))
            },
    {
        let raw = match self.raw_data {
            Some(d) => d,
            None => JsonValue::Null,
        };
        let op = self.metadata.operation;
        if self.successful {
            match self.payload_data {
                Some(p) => {
                    let u = mapper(p);
                    let name = op.concat("_mapped");
                    StandardResponse::success(u, name.as_str()).with_raw_data(raw)
                },
                None => {
                    let name = op.concat("_map_no_payload");
                    StandardResponse::failure("No payload to map", name.as_str())
                },
            }
        } else {
            let m = match self.error_message {
                Some(m) => m,
                None => "Unknown error".to_owned(),
            };
            StandardResponse::failure(m.as_str(), op.as_str()).with_raw_data(raw)
        }
    }
}

impl<T: Clone> StandardResponse<T> {
    /// The response as a validation result: passed with a copy of the payload,
    /// or failed with the message (`Successful response has no payload` for a
    /// success without one, `Unknown error` for a failure without a message).
    pub fn to_validation_result(&self) -> (r: ValidationResult<T>)
        ensures
            self.is_successful() && self.payload_of() is Some ==> r.success && r.error is None
                && (r.data matches Some(d) && cloned(self.payload_of()->0, d)),
            self.is_successful() && self.payload_of() is None ==> !r.success && r.data is None
                && (r.error matches Some(e) && e.message@ == "Successful response has no payload"@),
            !self.is_successful() ==> !r.success && r.data is None
                && (r.error matches Some(e) && e.message@ == failure_message(self.message_of())),
            r.warnings@.len() == 0,
    {
        if self.successful {
            match &self.payload_data {
                Some(p) => ValidationResult::success(p.clone()),
                None => ValidationResult::failure("Successful response has no payload"),
            }
        } else {
            match &self.error_message {
                Some(m) => ValidationResult::failure(m.as_str()),
                None => ValidationResult::failure("Unknown error"),
            }
        }
    }

    /// The payload of a successful response, copied; the message of a failure
    /// as an error (see `to_validation_result` for the messages used).
    pub fn to_result(&self) -> (r: Result<T, KnishIOError>)
        ensures
            self.is_successful() && self.payload_of() is Some ==> (r matches Ok(d) && cloned(self.payload_of()->0, d)),
            self.is_successful() && self.payload_of() is None ==> (r matches Err(KnishIOError::Custom(m))
                && m@ == "Successful response has no payload"@),
            !self.is_successful() ==> (r matches Err(KnishIOError::Custom(m)) && m@ == failure_message(self.message_of())),
    {
        if self.successful {
            match &self.payload_data {
                Some(p) => Ok(p.clone()),
                None => Err(KnishIOError::custom("Successful response has no payload")),
            }
        } else {
            match &self.error_message {
                Some(m) => Err(KnishIOError::custom(m.as_str())),
                None => Err(KnishIOError::custom("Unknown error")),
            }
        }
    }
}

/// Builders of standard responses.
#[derive(Debug)]
pub struct ResponseFactory;

impl ResponseFactory {
    /// A successful response with optional raw data and duration.
    pub fn create_success_response<T>(
        payload: T,
        operation: &str,
        raw_data: Option<JsonValue>,
        duration: Option<u64>,
    ) -> (r: StandardResponse<T>)
        ensures
            r.is_successful(),
            r.payload_of() == Some(payload),
            r.message_of() is None,
            r.raw_of() == raw_data,
            r.metadata_of().operation@ == operation@,
            r.metadata_of().duration == duration,
    {
        let mut response = StandardResponse::success(payload, operation);
        match raw_data {
            Some(d) => {
                response = response.with_raw_data(d);
            },
            None => {},
        }
        match duration {
            Some(d) => {
                response = response.with_duration(d);
            },
            None => {},
        }
        response
    }

    /// A failed response with optional raw data.
    pub fn create_error_response<T>(error_message: &str, operation: &str, raw_data: Option<JsonValue>) -> (r: StandardResponse<T>)
        ensures
            !r.is_successful(),
            r.payload_of() is None,
            r.message_of() matches Some(m) && m@ == error_message@,
            r.raw_of() == raw_data,
            r.metadata_of().operation@ == operation@,
            r.metadata_of().duration is None,
    {
        let mut response = StandardResponse::failure(error_message, operation);
        match raw_data {
            Some(d) => {
                response = response.with_raw_data(d);
            },
            None => {},
        }
        response
    }
}

/// Whether every response of a list succeeded.
pub open spec fn all_successful<T>(s: Seq<StandardResponse<T>>) -> bool {
    forall|i: int| 0 <= i < s.len() ==> (#[trigger] s[i]).is_successful()
}

/// The payloads of a list of responses, in order, skipping those without one.
pub open spec fn payloads<T>(s: Seq<StandardResponse<T>>) -> Seq<T>
    decreases s.len(),
{
    if s.len() == 0 {
        Seq::empty()
    } else {
        let p = payloads(s.drop_last());
        match s.last().payload_of() {
            Some(x) => p.push(x),
            None => p,
        }
    }
}

/// The messages of the failed responses of a list that have one, in order.
pub open spec fn failure_messages<T>(s: Seq<StandardResponse<T>>) -> Seq<Seq<char>>
    decreases s.len(),
{
    if s.len() == 0 {
        Seq::empty()
    } else {
        let m = failure_messages(s.drop_last());
        if !s.last().is_successful() && s.last().message_of() is Some {
            m.push(s.last().message_of()->0@)
        } else {
            m
        }
    }
}

/// The parts joined with `sep` between each two.
pub open spec fn joined(parts: Seq<Seq<char>>, sep: Seq<char>) -> Seq<char>
    decreases parts.len(),
{
    if parts.len() == 0 {
        Seq::empty()
    } else if parts.len() == 1 {
        parts[0]
    } else {
        joined(parts.drop_last(), sep) + sep + parts.last()
    }
}

/// Helpers that combine and convert standard responses.
#[derive(Debug)]
pub struct ResponseUtils;

impl ResponseUtils {
    /// One response for many: when all succeeded, a success holding their
    /// payloads in order (operation `combine_responses`); otherwise a failure
    /// `Combined operation failed: ` followed by the failures' messages joined
    /// with `; `.
    pub fn combine_responses<T>(responses: Vec<StandardResponse<T>>) -> (r: StandardResponse<Vec<T>>)
        ensures
            all_successful(responses@) ==> r.is_successful() && (r.payload_of() matches Some(v) && v@ == payloads(
                responses@,
            )),
            !all_successful(responses@) ==> !r.is_successful() && (r.message_of() matches Some(m) && m@
                == "Combined operation failed: "@ + joined(failure_messages(responses@), "; "@)),
            r.metadata_of().operation@ == "combine_responses"@,
    {
        let ghost rs = responses@;
        let mut all = true;
        let mut message = "Combined operation failed: ".to_owned();
        let mut count: usize = 0;
        let mut i: usize = 0;
        while i < responses.len()
            invariant
                rs == responses@,
                i <= rs.len(),
                all == all_successful(rs.take(i as int)),
                count == failure_messages(rs.take(i as int)).len(),
                count <= i,
                message@ == "Combined operation failed: "@ + joined(failure_messages(rs.take(i as int)), "; "@),
            decreases rs.len() - i,
        {
            let ghost before = rs.take(i as int);
            assert(rs.take(i + 1).drop_last() =~= before);
            assert(rs.take(i + 1).last() == rs[i as int]);
            let resp = &responses[i];
            if !resp.successful {
                all = false;
                match &resp.error_message {
                    Some(m) => {
                        if count > 0 {
                            message = message.concat("; ");
                        }
                        message = message.concat(m.as_str());
                        count = count + 1;
                        proof {
                            let fm = failure_messages(rs.take(i + 1));
                            assert(fm.drop_last() =~= failure_messages(before));
                        }
                    },
                    None => {},
                }
            }
            proof {
                let t1 = rs.take(i + 1);
                assert(t1[i as int] == rs[i as int]);
                assert forall|j: int| 0 <= j < before.len() implies #[trigger] t1[j] == before[j] by {}
                if all_successful(t1) {
                    assert(t1[i as int].is_successful());
                    assert forall|j: int| 0 <= j < before.len() implies (#[trigger] before[j]).is_successful() by {
                        assert(t1[j].is_successful());
                    }
                }
                if all_successful(before) && rs[i as int].is_successful() {
                    assert forall|j: int| 0 <= j < t1.len() implies (#[trigger] t1[j]).is_successful() by {
                        if j < i {
                            assert(before[j].is_successful());
                        }
                    }
                }
                assert(all_successful(t1) == (all_successful(before) && rs[i as int].is_successful()));
            }
            i = i + 1;
        }
        assert(rs.take(rs.len() as int) =~= rs);
        if all {
            let mut v: Vec<T> = Vec::new();
            for resp in it: responses
                invariant
                    v@ == payloads(it.seq().take(it.index())),
            {
                assert(it.seq().take(it.index() + 1).drop_last() =~= it.seq().take(it.index()));
                match resp.payload_data {
                    Some(p) => {
                        v.push(p);
                    },
                    None => {},
                }
            }
            StandardResponse::success(v, "combine_responses")
        } else {
            StandardResponse::failure(message.as_str(), "combine_responses")
        }
    }

    /// A response from a validation result: a success with its data, a failure
    /// `Validation successful but no data` for a passed result without data,
    /// or a failure with the error's message (`Validation failed` without one).
    pub fn from_validation_result<T>(validation_result: ValidationResult<T>, operation: &str) -> (r: StandardResponse<T>)
        ensures
            validation_result.success && validation_result.data is Some ==> r.is_successful()
                && r.payload_of() == validation_result.data,
            validation_result.success && validation_result.data is None ==> !r.is_successful()
                && (r.message_of() matches Some(m) && m@ == "Validation successful but no data"@),
            !validation_result.success ==> !r.is_successful() && (r.message_of() matches Some(m) && m@ == match validation_result.error {
                Some(e) => e.message@,
                None => "Validation failed"@,
            }),
            r.metadata_of().operation@ == operation@,
    {
        if validation_result.success {
            match validation_result.data {
                Some(d) => StandardResponse::success(d, operation),
                None => StandardResponse::failure("Validation successful but no data", operation),
            }
        } else {
            match validation_result.error {
                Some(e) => StandardResponse::failure(e.message.as_str(), operation),
                None => StandardResponse::failure("Validation failed", operation),
            }
        }
    }

    /// The failure that ends a run of operations in sequence at the response of
    /// position `index` (from zero), when that response failed: `Sequence
    /// failed at operation ` and the position from one, then its message.
    pub fn sequence_failure<T>(index: u64, result: &StandardResponse<T>) -> (r: Option<StandardResponse<Vec<T>>>)
        requires
            index < u64::MAX,
        ensures
            result.is_successful() ==> r is None,
            !result.is_successful() ==> (r matches Some(f) && !f.is_successful() && f.payload_of() is None
                && (f.message_of() matches Some(m) && m@ == "Sequence failed at operation "@ + nat_digits(
                (index + 1) as nat,
            ) + ": "@ + failure_message(result.message_of())) && f.metadata_of().operation@ == "sequence_responses"@),
    {
        if result.successful {
            return None;
        }
        let position = u64_text(index + 1);
        let mut message = "Sequence failed at operation ".to_owned().concat(position.as_str()).concat(": ");
        match &result.error_message {
            Some(m) => {
                message = message.concat(m.as_str());
            },
            None => {
                message = message.concat("Unknown error");
            },
        }
        Some(StandardResponse::failure(message.as_str(), "sequence_responses"))
    }

    /// The result of a run of operations in sequence that all succeeded: the
    /// payloads of their responses, in order.
    pub fn sequence_result<T>(results: Vec<StandardResponse<T>>) -> (r: StandardResponse<Vec<T>>)
        ensures
            r.is_successful(),
            r.payload_of() matches Some(v) && v@ == payloads(results@),
            r.metadata_of().operation@ == "sequence_responses"@,
    {
        let ghost rs = results@;
        let mut v: Vec<T> = Vec::new();
        for resp in it: results
            invariant
                it.seq() == rs,
                v@ == payloads(it.seq().take(it.index())),
        {
            assert(it.seq().take(it.index() + 1).drop_last() =~= it.seq().take(it.index()));
            match resp.payload_data {
                Some(p) => {
                    v.push(p);
                },
                None => {},
            }
        }
        assert(rs.take(rs.len() as int) =~= rs);
        StandardResponse::success(v, "sequence_responses")
    }
}

} // verus!
