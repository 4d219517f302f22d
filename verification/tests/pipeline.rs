use lets_start::decode::decode_and_validate;
use lets_start::dispatch::dispatch_with_outcomes;
use lets_start::errors::ApiErrorOutcome;
use lets_start::errors::error_response;
use lets_start::errors::success_response;
use lets_start::handler::handle_decode;
use lets_start::handler::handle_dispatch_result;

fn valid_body() -> Vec<u8> {
    let description = "d".repeat(70);
    format!(
        r#"{{"email":"a@b.com","minBudget":2000,"maxBudget":3000,"name":"Ada","projectDescription":"{}"}}"#,
        description
    )
    .into_bytes()
}

#[test]
fn test_decode_valid_body() {
    // fields of the decoded form equal the input payload's
    let form = decode_and_validate(&valid_body()).unwrap();
    assert_eq!(form.email, "a@b.com");
    assert_eq!(form.min_budget, 2000);
    assert_eq!(form.max_budget, 3000);
    assert_eq!(form.name, "Ada");
    assert_eq!(form.project_description, "d".repeat(70));
}

#[test]
fn test_decode_syntax_error_is_malformed() {
    let r = decode_and_validate(&b"{not json".to_vec());
    assert!(matches!(r, Err(ApiErrorOutcome::MalformedRequest { .. })));
}

#[test]
fn test_decode_truncated_body_is_malformed() {
    let mut body = valid_body();
    body.truncate(body.len() - 5);
    let r = decode_and_validate(&body);
    assert!(matches!(r, Err(ApiErrorOutcome::MalformedRequest { .. })));
}

#[test]
fn test_decode_wrong_type_is_malformed() {
    // a numeric field given as a string is a shape error, not a rule violation
    let body =
        br#"{"email":"a@b.com","minBudget":"2000","maxBudget":3000,"name":"Ada","projectDescription":"x"}"#
            .to_vec();
    let r = decode_and_validate(&body);
    assert!(matches!(r, Err(ApiErrorOutcome::MalformedRequest { .. })));
}

#[test]
fn test_decode_missing_field_is_malformed() {
    let body = br#"{"email":"a@b.com","minBudget":2000,"maxBudget":3000,"name":"Ada"}"#.to_vec();
    let r = decode_and_validate(&body);
    assert!(matches!(r, Err(ApiErrorOutcome::MalformedRequest { .. })));
}

#[test]
fn test_decode_budget_too_large_for_u16_is_malformed() {
    let body =
        br#"{"email":"a@b.com","minBudget":2000,"maxBudget":70000,"name":"Ada","projectDescription":"x"}"#
            .to_vec();
    let r = decode_and_validate(&body);
    assert!(matches!(r, Err(ApiErrorOutcome::MalformedRequest { .. })));
}

#[test]
fn test_decode_rule_violation_is_validation_failed() {
    // well-shaped payload with a broken rule: ValidationFailed, never MalformedRequest
    let description = "d".repeat(70);
    let body = format!(
        r#"{{"email":"not-an-email","minBudget":2000,"maxBudget":3000,"name":"Ada","projectDescription":"{}"}}"#,
        description
    )
    .into_bytes();
    match decode_and_validate(&body) {
        Err(ApiErrorOutcome::ValidationFailed { errors }) => {
            assert_eq!(errors.len(), 1);
            assert_eq!(errors[0].field, "email");
            assert!(!errors[0].messages.is_empty());
        }
        other => panic!("expected ValidationFailed, got {:?}", other.is_ok()),
    }
}

#[test]
fn test_scenario_valid_input_transport_succeeds_is_200() {
    let form = handle_decode(&valid_body()).unwrap();
    assert_eq!(form.email, "a@b.com");
    let outcomes = vec![true, true, true, true];
    let result = dispatch_with_outcomes(&outcomes, 3, 10);
    assert!(result.delivered);
    assert_eq!(result.attempts, 1);
    let resp = handle_dispatch_result(&result);
    assert_eq!(resp.status, 200);
    assert_eq!(resp.body.msg, "ok");
    assert!(resp.body.errors.is_none());
}

#[test]
fn test_scenario_invalid_email_is_422() {
    let description = "d".repeat(70);
    let body = format!(
        r#"{{"email":"not-an-email","minBudget":2000,"maxBudget":3000,"name":"Ada","projectDescription":"{}"}}"#,
        description
    )
    .into_bytes();
    let resp = handle_decode(&body).unwrap_err();
    assert_eq!(resp.status, 422);
    assert_eq!(resp.body.msg, "Hmm-m! Failed to validate JSON");
    let errors = resp.body.errors.unwrap();
    assert_eq!(errors.len(), 1);
    assert_eq!(errors[0].field, "email");
    assert!(!errors[0].messages.is_empty());
}

#[test]
fn test_scenario_two_invalid_fields_is_422_with_two_errors() {
    let description = "d".repeat(70);
    let body = format!(
        r#"{{"email":"a@b.com","minBudget":500,"maxBudget":3000,"name":"A","projectDescription":"{}"}}"#,
        description
    )
    .into_bytes();
    let resp = handle_decode(&body).unwrap_err();
    assert_eq!(resp.status, 422);
    let errors = resp.body.errors.unwrap();
    assert_eq!(errors.len(), 2);
    assert_eq!(errors[0].field, "minBudget");
    assert_eq!(errors[1].field, "name");
}

#[test]
fn test_scenario_not_json_is_400() {
    let resp = handle_decode(&b"{not json".to_vec()).unwrap_err();
    assert_eq!(resp.status, 400);
    assert!(resp.body.errors.is_none());
    assert!(!resp.body.msg.is_empty());
}

#[test]
fn test_scenario_transport_always_fails_is_500_after_4_attempts() {
    let form = handle_decode(&valid_body());
    assert!(form.is_ok());
    let outcomes = vec![false, false, false, false];
    let result = dispatch_with_outcomes(&outcomes, 3, 10);
    assert!(!result.delivered);
    assert_eq!(result.attempts, 4);
    let resp = handle_dispatch_result(&result);
    assert_eq!(resp.status, 500);
    assert_eq!(resp.body.msg, "Uh-oh! Failed to send a message");
    assert!(resp.body.errors.is_none());
}

#[test]
fn test_decode_non_object_is_malformed() {
    let r = decode_and_validate(&b"[1, 2, 3]".to_vec());
    assert!(matches!(r, Err(ApiErrorOutcome::MalformedRequest { .. })));
    let r = decode_and_validate(&br#""just a string""#.to_vec());
    assert!(matches!(r, Err(ApiErrorOutcome::MalformedRequest { .. })));
}

#[test]
fn test_decode_fractional_budget_is_malformed() {
    let body =
        br#"{"email":"a@b.com","minBudget":2000.5,"maxBudget":3000,"name":"Ada","projectDescription":"x"}"#
            .to_vec();
    let r = decode_and_validate(&body);
    assert!(matches!(r, Err(ApiErrorOutcome::MalformedRequest { .. })));
}

#[test]
fn test_error_response_mapping() {
    let resp = error_response(ApiErrorOutcome::MalformedRequest {
        detail: "expected value at line 1 column 2".to_string(),
    });
    assert_eq!(resp.status, 400);
    assert_eq!(resp.body.msg, "expected value at line 1 column 2");
    assert!(resp.body.errors.is_none());

    let resp = error_response(ApiErrorOutcome::ValidationFailed { errors: vec![] });
    assert_eq!(resp.status, 422);
    assert_eq!(resp.body.msg, "Hmm-m! Failed to validate JSON");
    assert!(resp.body.errors.is_some());

    let resp = error_response(ApiErrorOutcome::DeliveryFailed);
    assert_eq!(resp.status, 500);
    assert_eq!(resp.body.msg, "Uh-oh! Failed to send a message");
    assert!(resp.body.errors.is_none());

    let resp = success_response();
    assert_eq!(resp.status, 200);
    assert_eq!(resp.body.msg, "ok");
    assert!(resp.body.errors.is_none());
}
