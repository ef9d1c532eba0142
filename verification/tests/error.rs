use tou_http::error::{ApiError, ErrorCode};

#[test]
fn internal_error_hides_details() {
    let error = ApiError::internal("секретная строка подключения".to_owned());
    assert_eq!(error.status(), 500);
    assert!(error.problem().detail.is_none());
}

#[test]
fn validation_maps_to_422() {
    assert_eq!(ApiError::Validation("email".into()).status(), 422);
}

#[test]
fn rate_limit_carries_retry_after() {
    let error = ApiError::TooManyRequests {
        retry_after_seconds: 42,
    };
    assert_eq!(error.status(), 429);
    assert_eq!(error.retry_after().as_deref(), Some("42"));
}

#[test]
fn parallel_repeat_maps_to_409_with_its_own_code() {
    assert_eq!(ApiError::IdempotencyInFlight.status(), 409);
    assert_eq!(
        ApiError::IdempotencyInFlight.code(),
        ErrorCode::IdempotencyInFlight
    );
}

#[test]
fn timeout_maps_to_504() {
    assert_eq!(ApiError::Timeout.status(), 504);
    assert_eq!(ApiError::Timeout.code(), ErrorCode::Timeout);
}

#[test]
fn problem_type_slug_is_snake_case_wire_name() {
    assert_eq!(ErrorCode::EmailTaken.slug(), "email_taken");
    assert_eq!(ErrorCode::RuleViolation.slug(), "rule_violation");
}

#[test]
fn other_errors_keep_their_detail() {
    let problem = ApiError::Validation("email не заполнен".to_owned()).problem();
    assert_eq!(problem.detail.as_deref(), Some("email не заполнен"));
}

#[test]
fn rule_violation_sends_the_rule_and_no_detail() {
    let problem = ApiError::rule(
        "bid_below_minimum".to_owned(),
        "INV-063: ставка 100 ниже минимально допустимой 105 (максимум 100 + шаг 5)".to_owned(),
    )
    .problem();
    assert_eq!(problem.status, 409);
    assert_eq!(problem.code, ErrorCode::RuleViolation);
    assert_eq!(problem.rule.as_deref(), Some("bid_below_minimum"));
    assert!(problem.detail.is_none());
    assert_eq!(problem.problem_type, "urn:tou-rent:error:rule_violation");
}

#[test]
fn errors_without_a_field_detail_repeat_their_title() {
    let problem = ApiError::NotFound.problem();
    assert_eq!(problem.status, 404);
    assert_eq!(problem.title, "объект не найден");
    assert_eq!(problem.detail.as_deref(), Some("объект не найден"));
    assert!(ApiError::NotFound.retry_after().is_none());
}

#[test]
fn every_wire_name_reads_back_as_its_code() {
    for code in [
        ErrorCode::Unauthorized,
        ErrorCode::Forbidden,
        ErrorCode::InvalidCredentials,
        ErrorCode::EmailTaken,
        ErrorCode::IdNumberTaken,
        ErrorCode::VerificationFailed,
        ErrorCode::ValidationFailed,
        ErrorCode::CsrfRejected,
        ErrorCode::NotFound,
        ErrorCode::RuleViolation,
        ErrorCode::ProviderUnavailable,
        ErrorCode::TooManyRequests,
        ErrorCode::IdempotencyInFlight,
        ErrorCode::Timeout,
        ErrorCode::Internal,
    ] {
        assert_eq!(ErrorCode::from_slug(&code.slug()), Some(code));
    }
    assert_eq!(ErrorCode::from_slug("rule_violation"), Some(ErrorCode::RuleViolation));
    assert_eq!(ErrorCode::from_slug("Rule_Violation"), None);
    assert_eq!(ErrorCode::from_slug(""), None);
}
