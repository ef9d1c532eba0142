use tou_http::auth::{
    admitted_credentials, authorize_password_change, code_from, hash_password, known_locale,
    login_outcome, register_bounds, valid_verification_code, verification_code,
    verification_recipient, verify_password, RegisterField, RegisterRequest, UserRecord, VerificationChannel,
};
use tou_http::error::ApiError;

fn record(is_active: bool, password_hash: Option<&str>) -> UserRecord {
    UserRecord {
        id: uuid::Uuid::now_v7().as_u128(),
        email: "someone@tou.test".to_owned(),
        password_hash: password_hash.map(str::to_owned),
        full_name: "Проверочная запись".to_owned(),
        locale: "ru".to_owned(),
        applicant_kind: None,
        id_number: None,
        phone: None,
        email_confirmed_at: Some(0),
        phone_confirmed_at: None,
        is_active,
    }
}

#[test]
fn password_change_requires_the_current_password() {
    let stored = hash_password("прежний-пароль-1").expect("хеш прежнего пароля");

    assert!(
        authorize_password_change(Some(&stored), "прежний-пароль-1").is_ok(),
        "со своим текущим паролем смена обязана проходить"
    );
    assert!(
        matches!(
            authorize_password_change(Some(&stored), "не-тот-пароль-1"),
            Err(ApiError::InvalidCredentials)
        ),
        "с неверным текущим паролем смена обязана отбиваться"
    );
}

#[test]
fn account_without_local_password_is_not_given_one() {
    assert!(
        matches!(
            authorize_password_change(None, "что-угодно-12"),
            Err(ApiError::Validation(_))
        ),
        "без локального пароля менять нечего"
    );
}

#[test]
fn deactivated_account_is_denied_before_its_hash() {
    let password = "рабочий-пароль-1";
    let stored = hash_password(password).expect("хеш");

    let (found, hash) = admitted_credentials(Some(record(true, Some(&stored))));
    assert!(found.is_some() && hash.is_some(), "живая запись доходит");
    assert!(verify_password(password, hash.as_deref()));

    let (denied, hash) = admitted_credentials(Some(record(false, Some(&stored))));
    assert!(
        denied.is_none() && hash.is_none(),
        "деактивированная запись до проверки пароля не доходит"
    );
    assert!(
        !verify_password(password, hash.as_deref()),
        "верный пароль деактивированной записи вход не открывает"
    );
}

#[test]
fn unknown_account_is_indistinguishable_from_a_wrong_password() {
    let (record, hash) = admitted_credentials(None);
    assert!(record.is_none() && hash.is_none());
    assert!(!verify_password("любой-пароль-12", hash.as_deref()));
}

#[test]
fn an_unconfirmed_account_is_not_admitted() {
    let stored = hash_password("рабочий-пароль-1").expect("хеш");
    let mut unconfirmed = record(true, Some(&stored));
    unconfirmed.email_confirmed_at = None;
    let (found, hash) = admitted_credentials(Some(unconfirmed));
    assert!(found.is_none() && hash.is_none());
}

#[test]
fn login_succeeds_only_for_an_admitted_record_with_the_right_password() {
    assert!(matches!(login_outcome(None, true), Err(ApiError::InvalidCredentials)));
    assert!(matches!(
        login_outcome(Some(record(true, None)), false),
        Err(ApiError::InvalidCredentials)
    ));
    assert!(login_outcome(Some(record(true, None)), true).is_ok());
}

#[test]
fn locale_and_code_checks_follow_their_lists() {
    assert!(known_locale("kk").is_ok());
    assert_eq!(known_locale("de").unwrap_err(), "locale должен быть kk, ru или en");
    assert!(valid_verification_code("01234567").is_ok());
    assert_eq!(
        valid_verification_code("1234567").unwrap_err(),
        "код должен состоять из 8 цифр"
    );
    assert!(valid_verification_code("1234567a").is_err());
}

#[test]
fn an_issued_code_is_eight_digits_and_passes_the_check() {
    for _ in 0..32 {
        let code = verification_code();
        assert_eq!(code.len(), 8);
        assert!(code.bytes().all(|b| b.is_ascii_digit()));
        assert!(valid_verification_code(&code).is_ok());
    }
}

#[test]
fn the_code_goes_by_the_chosen_channel() {
    assert_eq!(
        verification_recipient(VerificationChannel::Email, "a@b.kz", "+77010000000"),
        "a@b.kz"
    );
    assert_eq!(
        verification_recipient(VerificationChannel::Sms, "a@b.kz", "+77010000000"),
        "+77010000000"
    );
}

#[test]
fn a_verification_code_is_the_draw_in_eight_padded_digits() {
    assert_eq!(code_from(42), "00000042");
    assert_eq!(code_from(123_456_789), "23456789");
    assert_eq!(code_from(u32::MAX), "94967295");
    assert_eq!(code_from(100_000_000), "00000000");
}

fn registration(email: &str, password: &str, full_name: &str, locale: &str) -> RegisterRequest {
    RegisterRequest {
        email: email.to_owned(),
        password: password.to_owned(),
        full_name: full_name.to_owned(),
        applicant_kind: tou_http::dto::ApplicantKindDto::Individual,
        id_number: "670124440127".to_owned(),
        phone: "+7 701 123 45 67".to_owned(),
        verification_channel: VerificationChannel::Email,
        locale: locale.to_owned(),
    }
}

#[test]
fn a_registration_keeps_its_length_bounds() {
    let ok = registration("user@example.kz", "correct-horse", "Иванов Иван", "ru");
    assert!(register_bounds(&ok).is_empty());
    // 12 characters in Cyrillic are 24 bytes and still a valid password
    assert!(register_bounds(&registration("a@b.kz", "пароль-парол", "И", "kk")).is_empty());
    assert_eq!(
        register_bounds(&registration("a@b.kz", "short", "И", "en")),
        vec![RegisterField::Password]
    );
    assert_eq!(
        register_bounds(&registration(&format!("{}@b.kz", "x".repeat(250)), &"p".repeat(129), "", "de")),
        vec![
            RegisterField::Email,
            RegisterField::Password,
            RegisterField::FullName,
            RegisterField::Locale,
        ]
    );
    assert!(register_bounds(&registration(&format!("{}@b.kz", "x".repeat(249)), &"p".repeat(128), &"Я".repeat(200), "ru")).is_empty());
    assert_eq!(
        register_bounds(&registration("a@b.kz", "p".repeat(12).as_str(), &"Я".repeat(201), "ru")),
        vec![RegisterField::FullName]
    );
}
