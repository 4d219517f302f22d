//! The closed set of failure kinds and their one wire representation.

use vstd::prelude::*;
use vstd::string::StringExecFns;

use crate::models::FieldError;

verus! {

/// Exactly one of the three ways a request can fail.
#[derive(Debug)]
pub enum ApiErrorOutcome {
    /// The payload was not valid JSON or did not match the expected shape.
    MalformedRequest { detail: String },
    /// The payload parsed but violated one or more field rules.
    ValidationFailed { errors: Vec<FieldError> },
    /// The payload was valid but delivery failed after exhausting retries.
    DeliveryFailed,
}

/// The response body: a message and, for rule violations only, the field errors.
#[derive(Debug)]
pub struct ApiJsonResponse {
    pub msg: String,
    pub errors: Option<Vec<FieldError>>,
}

/// A full response: HTTP status code and body.
#[derive(Debug)]
pub struct ApiResponse {
    pub status: u16,
    pub body: ApiJsonResponse,
}

/// Maps each failure kind to its status and body: malformed payloads earn 400
/// with the decoder's detail as the message, rule violations 422 with the full
/// error list, exhausted delivery 500; `errors` is filled for rule violations
/// alone.
pub fn error_response(outcome: ApiErrorOutcome) -> (r: ApiResponse)
    ensures
        outcome matches ApiErrorOutcome::MalformedRequest { detail } ==> {
            &&& r.status == 400
            &&& r.body.msg == detail
            &&& r.body.errors is None
        },
        outcome matches ApiErrorOutcome::ValidationFailed { errors } ==> {
            &&& r.status == 422
            &&& r.body.msg@ == "Hmm-m! Failed to validate JSON"@
            &&& r.body.errors == Some(errors)
        },
        outcome is DeliveryFailed ==> {
            &&& r.status == 500
            &&& r.body.msg@ == "Uh-oh! Failed to send a message"@
            &&& r.body.errors is None
        },
{
    match outcome {
        ApiErrorOutcome::MalformedRequest { detail } => ApiResponse {
            status: 400,
            body: ApiJsonResponse { msg: detail, errors: None },
        },
        ApiErrorOutcome::ValidationFailed { errors } => ApiResponse {
            status: 422,
            body: ApiJsonResponse {
                msg: String::from_str("Hmm-m! Failed to validate JSON"),
                errors: Some(errors),
            },
        },
        ApiErrorOutcome::DeliveryFailed => ApiResponse {
            status: 500,
            body: ApiJsonResponse {
                msg: String::from_str("Uh-oh! Failed to send a message"),
                errors: None,
            },
        },
    }
}

/// The success response: 200 with no field errors.
pub fn success_response() -> (r: ApiResponse)
    ensures
        r.status == 200,
        r.body.msg@ == "ok"@,
        r.body.errors is None,
{
    ApiResponse { status: 200, body: ApiJsonResponse { msg: String::from_str("ok"), errors: None } }
}

} // verus!
