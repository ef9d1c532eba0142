use tou_http::admin::{
    one_time_password, otp_from, purge_permitted, purge_switch, require_purge_enabled, AdminPurgeScope, PURGE_CONFIRMATION,
};
use tou_http::admin_data::{record_kind, AdminPurgeScope as RecordScope};
use tou_http::error::ApiError;

const OTP_ALPHABET: &[u8] = b"23456789abcdefghijkmnpqrstuvwxyz";

#[test]
fn one_time_password_is_long_random_and_readable() {
    let issued: Vec<String> = (0..64).map(|_| one_time_password()).collect();

    for password in &issued {
        assert_eq!(password.len(), 23, "20 знаков и 3 дефиса: {password}");
        assert!(
            password
                .bytes()
                .all(|b| b == b'-' || OTP_ALPHABET.contains(&b)),
            "знак вне алфавита: {password}"
        );
        assert!(
            !password.bytes().any(|b| b"0O1lI".contains(&b)),
            "неразличимые знаки в пароле, который диктуют: {password}"
        );
    }

    let unique: std::collections::BTreeSet<&String> = issued.iter().collect();
    assert_eq!(unique.len(), issued.len(), "пароли повторяются");
}

#[test]
fn admin_purge_scope_defaults_to_everything_and_matches_db_names() {
    assert_eq!(AdminPurgeScope::default(), AdminPurgeScope::Everything);
    for (scope, expected) in [
        (AdminPurgeScope::Everything, "everything"),
        (AdminPurgeScope::Tenders, "tenders"),
        (AdminPurgeScope::Objects, "objects"),
        (AdminPurgeScope::SpecialRequests, "special_requests"),
        (AdminPurgeScope::LandPlots, "land_plots"),
        (AdminPurgeScope::Notifications, "notifications"),
    ] {
        assert_eq!(scope.as_db(), expected);
    }
}

#[test]
fn admin_data_purge_scope_defaults_to_everything_and_matches_db_names() {
    assert_eq!(RecordScope::default(), RecordScope::Everything);
    assert_eq!(RecordScope::LedgerEntries.as_db(), "ledger_entries");
    assert_eq!(RecordScope::InvestmentContracts.as_db(), "investment_contracts");
}

#[test]
fn everything_is_not_a_record_kind() {
    assert!(record_kind(RecordScope::Everything).is_err());
    assert!(record_kind(RecordScope::Applications).is_ok());
}

#[test]
fn purge_needs_the_switch_and_the_exact_word() {
    assert!(matches!(require_purge_enabled(false), Err(ApiError::Validation(_))));
    assert!(require_purge_enabled(true).is_ok());
    assert!(purge_permitted(true, PURGE_CONFIRMATION).is_ok());
    assert!(purge_permitted(true, "  purge ").is_ok());
    match purge_permitted(true, "Purge") {
        Err(ApiError::Validation(m)) => {
            assert_eq!(m, "подтверждение не совпало: ожидается слово «purge»")
        }
        other => panic!("unexpected {other:?}"),
    }
    match purge_permitted(false, "purge") {
        Err(ApiError::Validation(m)) => assert!(m.starts_with("очистка данных выключена")),
        other => panic!("unexpected {other:?}"),
    }
}

#[test]
fn a_reset_password_signs_in_and_provider_accounts_get_none() {
    let (password, hash) = tou_http::admin::issue_password_reset(Some("$argon2id$old")).unwrap();
    assert_eq!(password.len(), 23);
    assert!(tou_http::auth::verify_password(&password, Some(&hash)));
    assert!(!tou_http::auth::verify_password("другой-пароль-1", Some(&hash)));
    match tou_http::admin::issue_password_reset(None) {
        Err(ApiError::Validation(m)) => assert_eq!(
            m,
            "учетная запись входит через внешнего провайдера - пароль сбрасывается у него"
        ),
        other => panic!("unexpected {other:?}"),
    }
}

#[test]
fn a_one_time_password_spells_its_bytes_in_groups_of_five() {
    assert_eq!(otp_from(&[0u8; 20]), "22222-22222-22222-22222");
    let mut bytes: Vec<u8> = (0..20).collect();
    bytes[19] = 255;
    assert_eq!(otp_from(&bytes), "23456-789ab-cdefg-hijkz");
}

#[test]
fn only_the_value_one_switches_purges_on() {
    assert!(purge_switch(Some("1")));
    assert!(!purge_switch(Some("true")));
    assert!(!purge_switch(Some("")));
    assert!(!purge_switch(Some(" 1")));
    assert!(!purge_switch(None));
}
