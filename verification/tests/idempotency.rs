use tou_http::idempotency::{
    is_final, is_guarded, key_of, plan_of, IdempotencyStore, Plan,
};

#[test]
fn the_journal_key_binds_user_method_and_path() {
    let (mine, stranger) = (uuid::Uuid::now_v7(), uuid::Uuid::now_v7());
    let path = "/api/v1/tenders/0198f0d5/applications";
    let key = key_of(mine.as_u128(), "POST", path, "abc");

    assert_eq!(key, key_of(mine.as_u128(), "POST", path, "abc"));
    assert_ne!(key, key_of(stranger.as_u128(), "POST", path, "abc"));
    assert_ne!(key, key_of(mine.as_u128(), "DELETE", path, "abc"));
    assert_ne!(key, key_of(mine.as_u128(), "POST", "/api/v1/objects", "abc"));
    assert_ne!(key, key_of(mine.as_u128(), "POST", path, "abd"));
    assert!(key.starts_with("tou:idem:"));
    assert!(
        !key.contains(&mine.to_string()),
        "идентификатор пользователя не должен попадать в ключ Redis"
    );
}

#[test]
fn key_parts_cannot_be_shifted_into_each_other() {
    let user = uuid::Uuid::now_v7().as_u128();
    assert_ne!(
        key_of(user, "POST", "/api/v1/a", "bc"),
        key_of(user, "POST", "/api/v1/ab", "c")
    );
}

#[test]
fn safe_methods_are_outside_the_layer() {
    for method in ["GET", "HEAD", "OPTIONS"] {
        assert!(!is_guarded(method), "{method} не мутация");
    }
    for method in ["POST", "PUT", "PATCH", "DELETE"] {
        assert!(is_guarded(method), "{method} - мутация");
    }
}

#[test]
fn only_final_outcomes_are_stored() {
    for status in [200u16, 201, 409] {
        assert!(is_final(status), "{status} - окончательный исход");
    }
    for status in [500u16, 504, 503, 429] {
        assert!(!is_final(status), "{status} - приглашение повторить");
    }
}

use tou_http::error::ApiError;
use tou_http::idempotency::{
    admission_of, finish_plan, header_key, slot_of, step_after, Admission, Finish, JournalReply,
    Step, StoredResponse, IN_FLIGHT,
};

const URI: &str = "/api/v1/tenders/0198f0d5-0000-7000-8000-000000000000/applications";

#[test]
fn a_malformed_key_is_refused_before_anything_runs() {
    match admission_of("POST", URI, Some(b"   "), Some(7)) {
        Admission::Refuse(ApiError::BadRequest(m)) => assert_eq!(m, "Idempotency-Key: пустое значение"),
        _ => panic!("a blank key must be refused"),
    }
    match admission_of("POST", URI, Some("ключ".as_bytes()), Some(7)) {
        Admission::Refuse(ApiError::BadRequest(m)) => {
            assert_eq!(m, "Idempotency-Key: ожидается печатный ASCII")
        }
        _ => panic!("a non-ASCII key must be refused"),
    }
    let long = "k".repeat(256);
    assert!(matches!(header_key(Some(long.as_bytes())), Err(ApiError::BadRequest(_))));
    assert_eq!(header_key(Some(b"  abc ")).unwrap().as_deref(), Some("abc"));
}

#[test]
fn without_the_header_or_a_user_nothing_is_guarded() {
    assert!(matches!(admission_of("POST", URI, None, Some(7)), Admission::Bypass));
    assert!(matches!(admission_of("POST", URI, Some(b"abc"), None), Admission::Bypass));
    assert!(matches!(admission_of("GET", URI, Some(b"   "), Some(7)), Admission::Bypass));
    match admission_of("POST", URI, Some(b"abc"), Some(7)) {
        Admission::Guard(key) => assert_eq!(key, key_of(7, "POST", URI, "abc")),
        _ => panic!("a keyed mutation of a user is guarded"),
    }
}

fn stored() -> StoredResponse {
    StoredResponse {
        status: 201,
        content_type: Some("application/json".to_owned()),
        body: "{\"id\":1}".to_owned(),
    }
}

#[test]
fn a_repeat_replays_the_record_and_a_parallel_one_is_refused() {
    let held = JournalReply::Held { value: "{\"status\":201}".to_owned(), recorded: Some(stored()) };
    match step_after(slot_of(held)) {
        Step::Replay(s) => assert_eq!(s.body, "{\"id\":1}"),
        _ => panic!("a recorded answer is replayed"),
    }
    let running = JournalReply::Held { value: IN_FLIGHT.to_owned(), recorded: None };
    assert!(matches!(step_after(slot_of(running)), Step::Refuse(ApiError::IdempotencyInFlight)));
    assert!(matches!(step_after(slot_of(JournalReply::Free)), Step::RunAndFinish));
    assert!(matches!(step_after(slot_of(JournalReply::Unavailable)), Step::Run));
    let foreign = JournalReply::Held { value: "garbage".to_owned(), recorded: None };
    assert!(matches!(step_after(slot_of(foreign)), Step::Run));
}

#[test]
fn a_server_error_is_released_and_a_final_json_answer_recorded() {
    let json = Some("application/json; charset=utf-8".to_owned());
    assert!(matches!(finish_plan(500, json.clone(), Some(b"{}")), Finish::Release));
    assert!(matches!(finish_plan(201, Some("text/plain".to_owned()), Some(b"ok")), Finish::Release));
    assert!(matches!(finish_plan(201, json.clone(), None), Finish::ReleaseAndFail));
    assert!(matches!(finish_plan(201, json.clone(), Some(b"\xff")), Finish::Release));
    match finish_plan(409, Some("application/problem+json".to_owned()), Some(b"{\"code\":1}")) {
        Finish::Record(s) => {
            assert_eq!(s.status, 409);
            assert_eq!(s.body, "{\"code\":1}");
        }
        _ => panic!("a final JSON answer is recorded"),
    }
}

#[test]
fn the_journal_key_is_the_prefix_and_a_sha256_in_hex() {
    let key = key_of(1, "POST", "/api/v1/objects", "abc");
    assert_eq!(key.len(), "tou:idem:".len() + 64);
    assert!(key["tou:idem:".len()..].bytes().all(|b| b.is_ascii_hexdigit() && !b.is_ascii_uppercase()));
}

#[test]
fn the_journal_key_is_the_prefix_and_sixty_four_hex_digits() {
    let key = key_of(7, "POST", "/api/v1/a", "k");
    assert_eq!(key.len(), 73);
    assert!(key["tou:idem:".len()..].chars().all(|c| c.is_ascii_hexdigit() && !c.is_ascii_uppercase()));
}

#[test]
fn a_store_without_a_journal_runs_keyed_requests_unchanged() {
    let store = IdempotencyStore::default();
    let user = uuid::Uuid::now_v7().as_u128();
    for _ in 0..2 {
        let admission = admission_of("POST", "/api/v1/objects", Some(b"k-1"), Some(user));
        assert!(matches!(admission, Admission::Guard(_)));
        assert!(matches!(plan_of(&store, admission), Plan::Run));
    }
    let refused = admission_of("POST", "/api/v1/objects", Some(b"   "), Some(user));
    assert!(matches!(plan_of(&store, refused), Plan::Refuse(_)));
    assert!(matches!(plan_of(&store, Admission::Bypass), Plan::Run));
}
