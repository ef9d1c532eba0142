//! API errors as RFC 9457 `application/problem+json` bodies with a machine
//! `code`. Internal details never reach the client: a 500 carries a fixed
//! text, and a rule rejection is explained by the machine name of the rule,
//! never by the internal (database) wording.
use vstd::prelude::*;

use crate::number::{decimal, decimal_digits};
use crate::text::{str_equal, string_of};

verus! {

/// Machine error codes of the contract (a closed enum).
#[derive(Debug, Clone, Copy, PartialEq, Eq, Structural)]
pub enum ErrorCode {
    Unauthorized,
    Forbidden,
    InvalidCredentials,
    EmailTaken,
    IdNumberTaken,
    VerificationFailed,
    ValidationFailed,
    CsrfRejected,
    NotFound,
    /// The operation was refused by a rule of the domain.
    RuleViolation,
    /// The external identity provider cannot be reached.
    ProviderUnavailable,
    /// Too many attempts: the rate limit was hit.
    TooManyRequests,
    /// A request with the same `Idempotency-Key` is still running.
    IdempotencyInFlight,
    /// Handling did not fit into the time allowed.
    Timeout,
    Internal,
}

/// The wire name of a code (snake_case).
pub open spec fn code_slug(code: ErrorCode) -> Seq<char> {
    match code {
        ErrorCode::Unauthorized => "unauthorized"@,
        ErrorCode::Forbidden => "forbidden"@,
        ErrorCode::InvalidCredentials => "invalid_credentials"@,
        ErrorCode::EmailTaken => "email_taken"@,
        ErrorCode::IdNumberTaken => "id_number_taken"@,
        ErrorCode::VerificationFailed => "verification_failed"@,
        ErrorCode::ValidationFailed => "validation_failed"@,
        ErrorCode::CsrfRejected => "csrf_rejected"@,
        ErrorCode::NotFound => "not_found"@,
        ErrorCode::RuleViolation => "rule_violation"@,
        ErrorCode::ProviderUnavailable => "provider_unavailable"@,
        ErrorCode::TooManyRequests => "too_many_requests"@,
        ErrorCode::IdempotencyInFlight => "idempotency_in_flight"@,
        ErrorCode::Timeout => "timeout"@,
        ErrorCode::Internal => "internal"@,
    }
}

/// The code whose wire name this is, if any.
pub open spec fn code_of_slug(slug: Seq<char>) -> Option<ErrorCode> {
    if slug == "unauthorized"@ {
        Some(ErrorCode::Unauthorized)
    } else if slug == "forbidden"@ {
        Some(ErrorCode::Forbidden)
    } else if slug == "invalid_credentials"@ {
        Some(ErrorCode::InvalidCredentials)
    } else if slug == "email_taken"@ {
        Some(ErrorCode::EmailTaken)
    } else if slug == "id_number_taken"@ {
        Some(ErrorCode::IdNumberTaken)
    } else if slug == "verification_failed"@ {
        Some(ErrorCode::VerificationFailed)
    } else if slug == "validation_failed"@ {
        Some(ErrorCode::ValidationFailed)
    } else if slug == "csrf_rejected"@ {
        Some(ErrorCode::CsrfRejected)
    } else if slug == "not_found"@ {
        Some(ErrorCode::NotFound)
    } else if slug == "rule_violation"@ {
        Some(ErrorCode::RuleViolation)
    } else if slug == "provider_unavailable"@ {
        Some(ErrorCode::ProviderUnavailable)
    } else if slug == "too_many_requests"@ {
        Some(ErrorCode::TooManyRequests)
    } else if slug == "idempotency_in_flight"@ {
        Some(ErrorCode::IdempotencyInFlight)
    } else if slug == "timeout"@ {
        Some(ErrorCode::Timeout)
    } else if slug == "internal"@ {
        Some(ErrorCode::Internal)
    } else {
        None
    }
}

/// The wire name of every code reads back as that code.
pub proof fn code_slug_reads_back(code: ErrorCode)
    ensures
        code_of_slug(code_slug(code)) == Some(code),
{
    reveal_strlit("unauthorized");
    reveal_strlit("forbidden");
    reveal_strlit("invalid_credentials");
    reveal_strlit("email_taken");
    reveal_strlit("id_number_taken");
    reveal_strlit("verification_failed");
    reveal_strlit("validation_failed");
    reveal_strlit("csrf_rejected");
    reveal_strlit("not_found");
    reveal_strlit("rule_violation");
    reveal_strlit("provider_unavailable");
    reveal_strlit("too_many_requests");
    reveal_strlit("idempotency_in_flight");
    reveal_strlit("timeout");
    reveal_strlit("internal");
    assert("unauthorized"@.len() == 12 && "unauthorized"@[0] == 'u' && "unauthorized"@[1] == 'n');
    assert("forbidden"@.len() == 9 && "forbidden"@[0] == 'f' && "forbidden"@[1] == 'o');
    assert("invalid_credentials"@.len() == 19 && "invalid_credentials"@[0] == 'i' && "invalid_credentials"@[1] == 'n');
    assert("email_taken"@.len() == 11 && "email_taken"@[0] == 'e' && "email_taken"@[1] == 'm');
    assert("id_number_taken"@.len() == 15 && "id_number_taken"@[0] == 'i' && "id_number_taken"@[1] == 'd');
    assert("verification_failed"@.len() == 19 && "verification_failed"@[0] == 'v' && "verification_failed"@[1] == 'e');
    assert("validation_failed"@.len() == 17 && "validation_failed"@[0] == 'v' && "validation_failed"@[1] == 'a');
    assert("csrf_rejected"@.len() == 13 && "csrf_rejected"@[0] == 'c' && "csrf_rejected"@[1] == 's');
    assert("not_found"@.len() == 9 && "not_found"@[0] == 'n' && "not_found"@[1] == 'o');
    assert("rule_violation"@.len() == 14 && "rule_violation"@[0] == 'r' && "rule_violation"@[1] == 'u');
    assert("provider_unavailable"@.len() == 20 && "provider_unavailable"@[0] == 'p' && "provider_unavailable"@[1] == 'r');
    assert("too_many_requests"@.len() == 17 && "too_many_requests"@[0] == 't' && "too_many_requests"@[1] == 'o');
    assert("idempotency_in_flight"@.len() == 21 && "idempotency_in_flight"@[0] == 'i' && "idempotency_in_flight"@[1] == 'd');
    assert("timeout"@.len() == 7 && "timeout"@[0] == 't' && "timeout"@[1] == 'i');
    assert("internal"@.len() == 8 && "internal"@[0] == 'i' && "internal"@[1] == 'n');
}

impl ErrorCode {
    /// The code of a wire name; `None` for a name that is no code.
    pub fn from_slug(slug: &str) -> (code: Option<ErrorCode>)
        ensures
            code == code_of_slug(slug@),
    {
        if str_equal(slug, "unauthorized") {
            Some(ErrorCode::Unauthorized)
        } else if str_equal(slug, "forbidden") {
            Some(ErrorCode::Forbidden)
        } else if str_equal(slug, "invalid_credentials") {
            Some(ErrorCode::InvalidCredentials)
        } else if str_equal(slug, "email_taken") {
            Some(ErrorCode::EmailTaken)
        } else if str_equal(slug, "id_number_taken") {
            Some(ErrorCode::IdNumberTaken)
        } else if str_equal(slug, "verification_failed") {
            Some(ErrorCode::VerificationFailed)
        } else if str_equal(slug, "validation_failed") {
            Some(ErrorCode::ValidationFailed)
        } else if str_equal(slug, "csrf_rejected") {
            Some(ErrorCode::CsrfRejected)
        } else if str_equal(slug, "not_found") {
            Some(ErrorCode::NotFound)
        } else if str_equal(slug, "rule_violation") {
            Some(ErrorCode::RuleViolation)
        } else if str_equal(slug, "provider_unavailable") {
            Some(ErrorCode::ProviderUnavailable)
        } else if str_equal(slug, "too_many_requests") {
            Some(ErrorCode::TooManyRequests)
        } else if str_equal(slug, "idempotency_in_flight") {
            Some(ErrorCode::IdempotencyInFlight)
        } else if str_equal(slug, "timeout") {
            Some(ErrorCode::Timeout)
        } else if str_equal(slug, "internal") {
            Some(ErrorCode::Internal)
        } else {
            None
        }
    }

    /// The name of the code on the wire.
    pub fn slug(self) -> (slug: String)
        ensures
            slug@ == code_slug(self),
    {
        let text = match self {
            ErrorCode::Unauthorized => "unauthorized",
            ErrorCode::Forbidden => "forbidden",
            ErrorCode::InvalidCredentials => "invalid_credentials",
            ErrorCode::EmailTaken => "email_taken",
            ErrorCode::IdNumberTaken => "id_number_taken",
            ErrorCode::VerificationFailed => "verification_failed",
            ErrorCode::ValidationFailed => "validation_failed",
            ErrorCode::CsrfRejected => "csrf_rejected",
            ErrorCode::NotFound => "not_found",
            ErrorCode::RuleViolation => "rule_violation",
            ErrorCode::ProviderUnavailable => "provider_unavailable",
            ErrorCode::TooManyRequests => "too_many_requests",
            ErrorCode::IdempotencyInFlight => "idempotency_in_flight",
            ErrorCode::Timeout => "timeout",
            ErrorCode::Internal => "internal",
        };
        text.to_owned()
    }
}

/// A refusal by a rule of the domain: the machine name of the rule, which
/// goes to the client, and the internal wording, which stays in telemetry.
#[derive(Debug, Clone)]
pub struct RuleRejection {
    pub rule: String,
    pub internal: String,
}

#[derive(Debug)]
pub enum ApiError {
    BadRequest(String),
    PayloadTooLarge(String),
    UnsupportedMediaType(String),
    Unauthorized,
    Forbidden,
    InvalidCredentials,
    EmailTaken,
    IdNumberTaken,
    VerificationFailed,
    Validation(String),
    CsrfRejected,
    NotFound,
    MethodNotAllowed,
    RuleViolation(RuleRejection),
    ProviderUnavailable(String),
    /// Rate limit; the pause goes to the client as `Retry-After`.
    TooManyRequests { retry_after_seconds: u64 },
    /// A parallel repeat of a mutation with the same `Idempotency-Key`.
    IdempotencyInFlight,
    Timeout,
    /// An internal failure; its description is for telemetry only.
    Internal(String),
}

pub open spec fn error_code(e: ApiError) -> ErrorCode {
    match e {
        ApiError::BadRequest(_) => ErrorCode::ValidationFailed,
        ApiError::PayloadTooLarge(_) => ErrorCode::ValidationFailed,
        ApiError::UnsupportedMediaType(_) => ErrorCode::ValidationFailed,
        ApiError::Unauthorized => ErrorCode::Unauthorized,
        ApiError::Forbidden => ErrorCode::Forbidden,
        ApiError::InvalidCredentials => ErrorCode::InvalidCredentials,
        ApiError::EmailTaken => ErrorCode::EmailTaken,
        ApiError::IdNumberTaken => ErrorCode::IdNumberTaken,
        ApiError::VerificationFailed => ErrorCode::VerificationFailed,
        ApiError::Validation(_) => ErrorCode::ValidationFailed,
        ApiError::CsrfRejected => ErrorCode::CsrfRejected,
        ApiError::NotFound => ErrorCode::NotFound,
        ApiError::MethodNotAllowed => ErrorCode::RuleViolation,
        ApiError::RuleViolation(_) => ErrorCode::RuleViolation,
        ApiError::ProviderUnavailable(_) => ErrorCode::ProviderUnavailable,
        ApiError::TooManyRequests { .. } => ErrorCode::TooManyRequests,
        ApiError::IdempotencyInFlight => ErrorCode::IdempotencyInFlight,
        ApiError::Timeout => ErrorCode::Timeout,
        ApiError::Internal(_) => ErrorCode::Internal,
    }
}

/// The HTTP status of an error.
pub open spec fn error_status(e: ApiError) -> u16 {
    match e {
        ApiError::BadRequest(_) => 400,
        ApiError::PayloadTooLarge(_) => 413,
        ApiError::UnsupportedMediaType(_) => 415,
        ApiError::Unauthorized => 401,
        ApiError::InvalidCredentials => 401,
        ApiError::Forbidden => 403,
        ApiError::CsrfRejected => 403,
        ApiError::EmailTaken => 409,
        ApiError::IdNumberTaken => 409,
        ApiError::IdempotencyInFlight => 409,
        ApiError::Validation(_) => 422,
        ApiError::VerificationFailed => 422,
        ApiError::NotFound => 404,
        ApiError::MethodNotAllowed => 405,
        ApiError::RuleViolation(_) => 409,
        ApiError::ProviderUnavailable(_) => 503,
        ApiError::TooManyRequests { .. } => 429,
        ApiError::Timeout => 504,
        ApiError::Internal(_) => 500,
    }
}

/// The human title of an error (its `Display` text).
/// The status of an error agrees with its code: `unauthorized` and
/// `invalid_credentials` answer 401 (sign in), `forbidden` and
/// `csrf_rejected` 403 (no right), and no other code shares those
/// statuses; `not_found` is 404, `too_many_requests` 429, `internal` 500,
/// `provider_unavailable` 503 and `timeout` 504; a code of a conflict
/// (`email_taken`, `id_number_taken`, `idempotency_in_flight`) is 409, a
/// failed validation is 400, 413, 415 or 422.
pub proof fn the_status_agrees_with_the_code(e: ApiError)
    ensures
        (error_code(e) == ErrorCode::Unauthorized || error_code(e) == ErrorCode::InvalidCredentials)
            <==> error_status(e) == 401,
        (error_code(e) == ErrorCode::Forbidden || error_code(e) == ErrorCode::CsrfRejected)
            <==> error_status(e) == 403,
        error_code(e) == ErrorCode::NotFound <==> error_status(e) == 404,
        error_code(e) == ErrorCode::TooManyRequests <==> error_status(e) == 429,
        error_code(e) == ErrorCode::Internal <==> error_status(e) == 500,
        error_code(e) == ErrorCode::ProviderUnavailable <==> error_status(e) == 503,
        error_code(e) == ErrorCode::Timeout <==> error_status(e) == 504,
        error_code(e) == ErrorCode::EmailTaken || error_code(e) == ErrorCode::IdNumberTaken
            || error_code(e) == ErrorCode::IdempotencyInFlight ==> error_status(e) == 409,
        error_code(e) == ErrorCode::ValidationFailed ==> error_status(e) == 400 || error_status(e)
            == 413 || error_status(e) == 415 || error_status(e) == 422,
{
}

pub open spec fn error_title(e: ApiError) -> Seq<char> {
    match e {
        ApiError::BadRequest(_) => "некорректный HTTP-запрос"@,
        ApiError::PayloadTooLarge(_) => "тело HTTP-запроса слишком велико"@,
        ApiError::UnsupportedMediaType(_) => "тип содержимого HTTP-запроса не поддерживается"@,
        ApiError::Unauthorized => "требуется вход в систему"@,
        ApiError::Forbidden => "недостаточно прав для действия"@,
        ApiError::InvalidCredentials => "неверный email или пароль"@,
        ApiError::EmailTaken => "email уже зарегистрирован"@,
        ApiError::IdNumberTaken => "ИИН/БИН уже зарегистрирован"@,
        ApiError::VerificationFailed => "код подтверждения неверен или истёк"@,
        ApiError::Validation(_) => "данные не прошли проверку"@,
        ApiError::CsrfRejected => "CSRF-токен отсутствует или не совпадает"@,
        ApiError::NotFound => "объект не найден"@,
        ApiError::MethodNotAllowed => "HTTP-метод не поддерживается для этого ресурса"@,
        ApiError::RuleViolation(_) => "операция отклонена правилами"@,
        ApiError::ProviderUnavailable(_) => "провайдер идентичности недоступен"@,
        ApiError::TooManyRequests { .. } => "слишком много попыток - повторите позже"@,
        ApiError::IdempotencyInFlight => "запрос с этим ключом идемпотентности еще выполняется"@,
        ApiError::Timeout => "превышено время обработки запроса"@,
        ApiError::Internal(_) => "внутренняя ошибка"@,
    }
}

/// The `detail` of the problem body: the application's own explanation where
/// there is one, the title otherwise, and nothing for an internal failure or
/// a rule rejection.
pub open spec fn error_detail(e: ApiError) -> Option<Seq<char>> {
    match e {
        ApiError::Internal(_) => None,
        ApiError::RuleViolation(_) => None,
        ApiError::BadRequest(d) => Some(d@),
        ApiError::PayloadTooLarge(d) => Some(d@),
        ApiError::UnsupportedMediaType(d) => Some(d@),
        ApiError::Validation(d) => Some(d@),
        ApiError::ProviderUnavailable(d) => Some(d@),
        _ => Some(error_title(e)),
    }
}

/// The machine name of the rule behind a rule rejection.
pub open spec fn error_rule(e: ApiError) -> Option<Seq<char>> {
    match e {
        ApiError::RuleViolation(r) => Some(r.rule@),
        _ => None,
    }
}

pub open spec fn problem_type_of(code: ErrorCode) -> Seq<char> {
    "urn:tou-rent:error:"@ + code_slug(code)
}

/// Body of an `application/problem+json` answer (RFC 9457).
#[derive(Debug, Clone)]
pub struct Problem {
    /// URN of the form `urn:tou-rent:error:<code>`
    pub problem_type: String,
    pub title: String,
    pub status: u16,
    pub detail: Option<String>,
    pub code: ErrorCode,
    /// Only for `rule_violation`: the machine name of the rule.
    pub rule: Option<String>,
}

pub open spec fn opt_view(o: Option<String>) -> Option<Seq<char>> {
    match o {
        Some(s) => Some(s@),
        None => None,
    }
}

impl ApiError {
    pub fn bad_request(detail: String) -> (e: Self)
        ensures
            e == ApiError::BadRequest(detail),
    {
        ApiError::BadRequest(detail)
    }

    /// An internal failure; `description` stays in telemetry.
    pub fn internal(description: String) -> (e: Self)
        ensures
            e == ApiError::Internal(description),
    {
        ApiError::Internal(description)
    }

    /// A rule rejection naming its rule explicitly.
    pub fn rule(rule: String, internal: String) -> (e: Self)
        ensures
            e == ApiError::RuleViolation(RuleRejection { rule, internal }),
    {
        ApiError::RuleViolation(RuleRejection { rule, internal })
    }

    pub fn code(&self) -> (code: ErrorCode)
        ensures
            code == error_code(*self),
    {
        match self {
            ApiError::BadRequest(_) | ApiError::PayloadTooLarge(_)
            | ApiError::UnsupportedMediaType(_) => ErrorCode::ValidationFailed,
            ApiError::Unauthorized => ErrorCode::Unauthorized,
            ApiError::Forbidden => ErrorCode::Forbidden,
            ApiError::InvalidCredentials => ErrorCode::InvalidCredentials,
            ApiError::EmailTaken => ErrorCode::EmailTaken,
            ApiError::IdNumberTaken => ErrorCode::IdNumberTaken,
            ApiError::VerificationFailed => ErrorCode::VerificationFailed,
            ApiError::Validation(_) => ErrorCode::ValidationFailed,
            ApiError::CsrfRejected => ErrorCode::CsrfRejected,
            ApiError::NotFound => ErrorCode::NotFound,
            ApiError::MethodNotAllowed => ErrorCode::RuleViolation,
            ApiError::RuleViolation(_) => ErrorCode::RuleViolation,
            ApiError::ProviderUnavailable(_) => ErrorCode::ProviderUnavailable,
            ApiError::TooManyRequests { .. } => ErrorCode::TooManyRequests,
            ApiError::IdempotencyInFlight => ErrorCode::IdempotencyInFlight,
            ApiError::Timeout => ErrorCode::Timeout,
            ApiError::Internal(_) => ErrorCode::Internal,
        }
    }

    /// The HTTP status code.
    pub fn status(&self) -> (status: u16)
        ensures
            status == error_status(*self),
    {
        match self {
            ApiError::BadRequest(_) => 400,
            ApiError::PayloadTooLarge(_) => 413,
            ApiError::UnsupportedMediaType(_) => 415,
            ApiError::Unauthorized | ApiError::InvalidCredentials => 401,
            ApiError::Forbidden | ApiError::CsrfRejected => 403,
            ApiError::EmailTaken | ApiError::IdNumberTaken | ApiError::IdempotencyInFlight => 409,
            ApiError::Validation(_) | ApiError::VerificationFailed => 422,
            ApiError::NotFound => 404,
            ApiError::MethodNotAllowed => 405,
            ApiError::RuleViolation(_) => 409,
            ApiError::ProviderUnavailable(_) => 503,
            ApiError::TooManyRequests { .. } => 429,
            ApiError::Timeout => 504,
            ApiError::Internal(_) => 500,
        }
    }

    /// The human title (`Display` text).
    pub fn title(&self) -> (title: String)
        ensures
            title@ == error_title(*self),
    {
        let text = match self {
            ApiError::BadRequest(_) => "некорректный HTTP-запрос",
            ApiError::PayloadTooLarge(_) => "тело HTTP-запроса слишком велико",
            ApiError::UnsupportedMediaType(_) => "тип содержимого HTTP-запроса не поддерживается",
            ApiError::Unauthorized => "требуется вход в систему",
            ApiError::Forbidden => "недостаточно прав для действия",
            ApiError::InvalidCredentials => "неверный email или пароль",
            ApiError::EmailTaken => "email уже зарегистрирован",
            ApiError::IdNumberTaken => "ИИН/БИН уже зарегистрирован",
            ApiError::VerificationFailed => "код подтверждения неверен или истёк",
            ApiError::Validation(_) => "данные не прошли проверку",
            ApiError::CsrfRejected => "CSRF-токен отсутствует или не совпадает",
            ApiError::NotFound => "объект не найден",
            ApiError::MethodNotAllowed => "HTTP-метод не поддерживается для этого ресурса",
            ApiError::RuleViolation(_) => "операция отклонена правилами",
            ApiError::ProviderUnavailable(_) => "провайдер идентичности недоступен",
            ApiError::TooManyRequests { .. } => "слишком много попыток - повторите позже",
            ApiError::IdempotencyInFlight => "запрос с этим ключом идемпотентности еще выполняется",
            ApiError::Timeout => "превышено время обработки запроса",
            ApiError::Internal(_) => "внутренняя ошибка",
        };
        text.to_owned()
    }

    /// The `detail` field of the answer.
    pub fn detail(&self) -> (detail: Option<String>)
        ensures
            opt_view(detail) == error_detail(*self),
    {
        match self {
            ApiError::Internal(_) | ApiError::RuleViolation(_) => None,
            ApiError::BadRequest(detail) | ApiError::PayloadTooLarge(detail)
            | ApiError::UnsupportedMediaType(detail) | ApiError::Validation(detail)
            | ApiError::ProviderUnavailable(detail) => Some(detail.clone()),
            _ => Some(self.title()),
        }
    }

    /// The problem body that answers this error.
    pub fn problem(&self) -> (problem: Problem)
        ensures
            problem.status == error_status(*self),
            problem.code == error_code(*self),
            problem.problem_type@ == problem_type_of(error_code(*self)),
            problem.title@ == error_title(*self),
            opt_view(problem.detail) == error_detail(*self),
            opt_view(problem.rule) == error_rule(*self),
    {
        let code = self.code();
        let mut problem_type = "urn:tou-rent:error:".to_owned();
        let slug = code.slug();
        problem_type.append(slug.as_str());
        let rule = match self {
            ApiError::RuleViolation(rejection) => Some(rejection.rule.clone()),
            _ => None,
        };
        Problem {
            problem_type,
            title: self.title(),
            status: self.status(),
            detail: self.detail(),
            code,
            rule,
        }
    }

    /// The value of the `Retry-After` header: the pause, in seconds, of a
    /// rate-limit refusal; no header for any other error.
    pub fn retry_after(&self) -> (value: Option<String>)
        ensures
            match *self {
                ApiError::TooManyRequests { retry_after_seconds } => value is Some
                    && value->0@ == decimal(retry_after_seconds as nat),
                _ => value is None,
            },
    {
        match self {
            ApiError::TooManyRequests { retry_after_seconds } => {
                let digits = decimal_digits(*retry_after_seconds as u128);
                Some(string_of(digits.as_slice()))
            },
            _ => None,
        }
    }
}

/// Neither the description of an internal failure nor the internal wording
/// of a rule rejection reaches the client: their problem body carries no
/// detail, the title is fixed by the kind of error, and a rule rejection
/// names only its rule.
pub proof fn internal_text_stays_inside(e: ApiError)
    requires
        e is Internal || e is RuleViolation,
    ensures
        error_detail(e) is None,
        e is Internal ==> error_rule(e) is None && error_title(e) == "внутренняя ошибка"@,
        e matches ApiError::RuleViolation(r) ==> error_rule(e) == Some(r.rule@) && error_title(e)
            == "операция отклонена правилами"@,
{
}

} // verus!
