//! Decoding raw request bytes into the form, then rule-checking it.
//!
//! The bytes are expected to be UTF-8 JSON with camelCase keys. A syntax
//! error or a shape mismatch (a missing key, a non-string where a string is
//! owed, a number that is not an unsigned integer within `u16`) is a
//! malformed request — a distinct failure class from field-rule violations,
//! which are only reached once the shape decoded. What the decode yields is a
//! function of the bytes alone, so each decoded field value carries a name
//! that the contracts downstream speak of.

use vstd::prelude::*;
use vstd::string::StringExecFns;

use crate::errors::ApiErrorOutcome;
use crate::models::LetsStartForm;
use crate::models::errors_match;
use crate::models::fields_valid;
use crate::models::form_valid;
use crate::models::spec_field_errors;

verus! {

/// Whether the bytes are a single well-formed JSON text; the outcome of
/// serde_json's parser, a function of the bytes alone.
pub uninterp spec fn json_parses(bytes: Seq<u8>) -> bool;

/// For bytes that parse: whether the JSON text has the form's shape — an
/// object holding string values at `email`, `name` and `projectDescription`,
/// and unsigned integers within `u16` at `minBudget` and `maxBudget`.
pub uninterp spec fn json_form_shape_ok(bytes: Seq<u8>) -> bool;

/// The form's field values decoded from bytes of the right shape; each is a
/// function of the bytes alone, and constrained only where
/// [`json_form_shape_ok`] holds.
pub uninterp spec fn json_email_of(bytes: Seq<u8>) -> Seq<char>;

pub uninterp spec fn json_min_budget_of(bytes: Seq<u8>) -> u16;

pub uninterp spec fn json_max_budget_of(bytes: Seq<u8>) -> u16;

pub uninterp spec fn json_name_of(bytes: Seq<u8>) -> Seq<char>;

pub uninterp spec fn json_description_of(bytes: Seq<u8>) -> Seq<char>;

/// Relies on serde_json::from_slice::<Value>: parses the bytes as one JSON
/// text; on failure the parser's rendering of the error is handed back.
#[verifier::external_body]
fn parse_json_syntax(bytes: &Vec<u8>) -> (r: Result<(), String>)
    ensures
        r is Ok <==> json_parses(bytes@),
{
    match serde_json::from_slice::<serde_json::Value>(bytes.as_slice()) {
        Ok(_) => Ok(()),
        Err(e) => Err(e.to_string()),
    }
}

/// Relies on serde_json (from_slice::<Value>, Value::get, Value::as_str,
/// Value::as_u64): the structural decode of the bytes into the form's shape,
/// the one step the original took as a whole. Succeeds exactly on a parsing
/// payload of the right shape, and then yields the named field values.
#[verifier::external_body]
fn parse_form_fields(body: &Vec<u8>) -> (r: Option<(String, u16, u16, String, String)>)
    ensures
        r is Some <==> (json_parses(body@) && json_form_shape_ok(body@)),
        r matches Some(f) ==> {
            &&& f.0@ == json_email_of(body@)
            &&& f.1 == json_min_budget_of(body@)
            &&& f.2 == json_max_budget_of(body@)
            &&& f.3@ == json_name_of(body@)
            &&& f.4@ == json_description_of(body@)
        },
{
    let v: serde_json::Value = serde_json::from_slice(body.as_slice()).ok()?;
    let email = v.get("email")?.as_str()?.to_string();
    let min_budget = u16::try_from(v.get("minBudget")?.as_u64()?).ok()?;
    let max_budget = u16::try_from(v.get("maxBudget")?.as_u64()?).ok()?;
    let name = v.get("name")?.as_str()?.to_string();
    let project_description = v.get("projectDescription")?.as_str()?.to_string();
    Some((email, min_budget, max_budget, name, project_description))
}

/// The rule check a payload of the right shape is owed: every field rule of
/// the named decoded values.
pub open spec fn decoded_fields_valid(bytes: Seq<u8>) -> bool {
    fields_valid(
        json_email_of(bytes),
        json_min_budget_of(bytes),
        json_max_budget_of(bytes),
        json_name_of(bytes),
        json_description_of(bytes),
    )
}

/// The error list a payload of the right shape earns from the field rules.
pub open spec fn decoded_field_errors(bytes: Seq<u8>) -> Seq<(Seq<char>, Seq<char>)> {
    spec_field_errors(
        json_email_of(bytes),
        json_min_budget_of(bytes),
        json_max_budget_of(bytes),
        json_name_of(bytes),
        json_description_of(bytes),
    )
}

fn malformed(detail: &str) -> (r: ApiErrorOutcome)
    ensures
        r matches ApiErrorOutcome::MalformedRequest { detail: d } && d@ == detail@,
{
    ApiErrorOutcome::MalformedRequest { detail: String::from_str(detail) }
}

/// Decodes the bytes into the form's shape and then runs every field rule.
///
/// Succeeds exactly on a payload that parses, has the form's shape, and meets
/// every rule — and then the form's fields are the payload's. Bytes that do
/// not parse are a malformed request carrying the parser's detail; a parsing
/// payload of the wrong shape is a malformed request too, never a rule
/// violation. A payload of the right shape that breaks rules earns exactly
/// the rule-derived error list of its decoded field values.
pub fn decode_and_validate(body: &Vec<u8>) -> (r: Result<LetsStartForm, ApiErrorOutcome>)
    ensures
        r is Ok <==> json_parses(body@) && json_form_shape_ok(body@) && decoded_fields_valid(
            body@,
        ),
        r matches Ok(f) ==> {
            &&& form_valid(&f)
            &&& f.email@ == json_email_of(body@)
            &&& f.min_budget == json_min_budget_of(body@)
            &&& f.max_budget == json_max_budget_of(body@)
            &&& f.name@ == json_name_of(body@)
            &&& f.project_description@ == json_description_of(body@)
        },
        r matches Err(e) ==> (e is MalformedRequest <==> !(json_parses(body@)
            && json_form_shape_ok(body@))),
        r matches Err(e) ==> (e is ValidationFailed <==> json_parses(body@)
            && json_form_shape_ok(body@)),
        r matches Err(ApiErrorOutcome::ValidationFailed { errors }) ==> errors@.len() >= 1
            && errors_match(errors@, decoded_field_errors(body@)),
{
    let fields = match parse_form_fields(body) {
        Some(f) => f,
        None => {
            // not the form's shape: say whether the bytes were JSON at all
            return match parse_json_syntax(body) {
                Ok(()) => Err(malformed("the payload does not match the expected shape")),
                Err(detail) => Err(ApiErrorOutcome::MalformedRequest { detail }),
            };
        },
    };
    let (email, min_budget, max_budget, name, project_description) = fields;
    match LetsStartForm::new_validated(email, min_budget, max_budget, name, project_description) {
        Ok(form) => Ok(form),
        Err(errors) => Err(ApiErrorOutcome::ValidationFailed { errors }),
    }
}

} // verus!
