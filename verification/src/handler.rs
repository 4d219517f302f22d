//! Orchestration of one request: decode and rule-check, dispatch, respond.
//!
//! The flow is linear. A host performs the inbound read and the outbound
//! sends; the decisions — which step follows which outcome, and the exact
//! response each outcome earns — are made here.

use vstd::prelude::*;

use crate::decode::decode_and_validate;
use crate::decode::decoded_field_errors;
use crate::decode::decoded_fields_valid;
use crate::decode::json_email_of;
use crate::decode::json_description_of;
use crate::decode::json_form_shape_ok;
use crate::decode::json_max_budget_of;
use crate::decode::json_min_budget_of;
use crate::decode::json_name_of;
use crate::decode::json_parses;
use crate::dispatch::DispatchResult;
use crate::errors::ApiResponse;
use crate::errors::error_response;
use crate::errors::success_response;
use crate::models::LetsStartForm;
use crate::models::errors_match;
use crate::models::form_valid;

verus! {

/// Whether the payload deserves acceptance: it parses, has the form's shape,
/// and its decoded field values meet every rule.
pub open spec fn body_accepted(bytes: Seq<u8>) -> bool {
    &&& json_parses(bytes)
    &&& json_form_shape_ok(bytes)
    &&& decoded_fields_valid(bytes)
}

/// The first half of the handler: decode the body and run the field rules,
/// failing fast with the response the failure earns. A payload that does not
/// parse, or parses but has the wrong shape, is answered 400; one of the
/// right shape that breaks field rules is answered 422 with exactly the
/// rule-derived error list of its decoded values; what remains is the valid
/// form — the payload's own field values — handed on to the dispatch.
pub fn handle_decode(body: &Vec<u8>) -> (r: Result<LetsStartForm, ApiResponse>)
    ensures
        r is Ok <==> body_accepted(body@),
        r matches Ok(f) ==> {
            &&& form_valid(&f)
            &&& f.email@ == json_email_of(body@)
            &&& f.min_budget == json_min_budget_of(body@)
            &&& f.max_budget == json_max_budget_of(body@)
            &&& f.name@ == json_name_of(body@)
            &&& f.project_description@ == json_description_of(body@)
        },
        r matches Err(resp) ==> (resp.status == 400 <==> !(json_parses(body@)
            && json_form_shape_ok(body@))),
        r matches Err(resp) ==> (resp.status == 422 <==> json_parses(body@)
            && json_form_shape_ok(body@)),
        r matches Err(resp) ==> (resp.status == 422 ==> (resp.body.errors matches Some(errs)
            && errs@.len() >= 1 && errors_match(errs@, decoded_field_errors(body@)))),
        r matches Err(resp) ==> (resp.status == 400 ==> resp.body.errors is None),
{
    match decode_and_validate(body) {
        Ok(form) => Ok(form),
        Err(outcome) => Err(error_response(outcome)),
    }
}

/// The second half: the response a finished dispatch earns — 200 on
/// delivery, 500 once the retry budget was exhausted.
pub fn handle_dispatch_result(result: &DispatchResult) -> (r: ApiResponse)
    ensures
        result.delivered ==> r.status == 200 && r.body.msg@ == "ok"@,
        !result.delivered ==> r.status == 500 && r.body.msg@ == "Uh-oh! Failed to send a message"@,
        r.body.errors is None,
{
    if result.delivered {
        success_response()
    } else {
        error_response(crate::errors::ApiErrorOutcome::DeliveryFailed)
    }
}

} // verus!
