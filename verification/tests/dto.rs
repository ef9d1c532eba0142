use tou_http::dto::cursor;
use tou_http::dto::cursor::RowCursor;
use tou_http::dto::{
    ApplicantKindDto, ApplicationStatusDto, JournalEntryKindDto, ObjectKindDto, ObjectStatusDto,
    TenderStatusDto,
};
use tou_http::error::ApiError;

#[test]
fn unknown_db_value_is_loud() {
    assert!(TenderStatusDto::from_db("nonsense").is_err());
    assert!(ObjectKindDto::from_db("hangar").is_err());
}

#[test]
fn object_kind_roundtrip() {
    for kind in [
        ObjectKindDto::Building,
        ObjectKindDto::Premises,
        ObjectKindDto::Structure,
        ObjectKindDto::LandPlot,
    ] {
        assert_eq!(ObjectKindDto::from_db(kind.as_db()).unwrap(), kind);
    }
}

#[test]
fn cursor_survives_a_round_trip() {
    let source = RowCursor::new(1_777_000_000_123_456_789, uuid::Uuid::from_u128(42).as_u128());

    let encoded = cursor::encode(source);
    assert_eq!(cursor::parse(&encoded).unwrap(), source);
    assert!(
        !encoded.contains('+') && !encoded.contains(' '),
        "курсор едет в строке запроса: {encoded}"
    );
}

#[test]
fn a_broken_cursor_is_rejected() {
    assert!(cursor::parse("").is_err());
    assert!(cursor::parse("не-курсор").is_err());
    assert!(cursor::parse("123~не-uuid").is_err());
    assert!(cursor::parse("~").is_err());
}

#[test]
fn the_next_cursor_appears_only_with_more_rows() {
    let cursor = RowCursor::new(0, uuid::Uuid::nil().as_u128());
    assert!(cursor::next(false, Some(cursor)).is_none());
    assert!(cursor::next(true, None).is_none());
    assert!(cursor::next(true, Some(cursor)).is_some());
}

#[test]
fn object_status_roundtrip() {
    for status in [
        ObjectStatusDto::Free,
        ObjectStatusDto::InTender,
        ObjectStatusDto::Leased,
    ] {
        assert_eq!(ObjectStatusDto::from_db(status.as_db()).unwrap(), status);
    }
}

#[test]
fn cursor_text_is_nanoseconds_tilde_hyphenated_uuid() {
    let id = 0x0198f0d5_0000_7000_8000_000000000001_u128;
    let encoded = cursor::encode(RowCursor::new(-5, id));
    assert_eq!(encoded, "-5~0198f0d5-0000-7000-8000-000000000001");
    assert_eq!(cursor::parse(&encoded).unwrap(), RowCursor::new(-5, id));
}

#[test]
fn a_broken_cursor_names_itself_in_the_error() {
    match cursor::parse("x~y") {
        Err(ApiError::Validation(message)) => assert_eq!(message, "курсор «x~y» не разбирается"),
        other => panic!("unexpected {other:?}"),
    }
}

#[test]
fn every_db_name_reads_back() {
    for status in [
        ApplicationStatusDto::Submitted,
        ApplicationStatusDto::Withdrawn,
        ApplicationStatusDto::FeeConfirmed,
        ApplicationStatusDto::Admitted,
        ApplicationStatusDto::Rejected,
    ] {
        assert_eq!(ApplicationStatusDto::from_db(status_name(status)).unwrap(), status);
    }
    for kind in [ApplicantKindDto::LegalEntity, ApplicantKindDto::Individual] {
        assert_eq!(ApplicantKindDto::from_db(kind.as_db()).unwrap(), kind);
    }
    assert_eq!(
        JournalEntryKindDto::from_db("application_submitted").unwrap(),
        JournalEntryKindDto::ApplicationSubmitted
    );
    assert!(JournalEntryKindDto::from_db("submitted").is_err());
    assert_eq!(TenderStatusDto::from_db("summed_up").unwrap(), TenderStatusDto::SummedUp);
}

fn status_name(status: ApplicationStatusDto) -> &'static str {
    match status {
        ApplicationStatusDto::Submitted => "submitted",
        ApplicationStatusDto::Withdrawn => "withdrawn",
        ApplicationStatusDto::FeeConfirmed => "fee_confirmed",
        ApplicationStatusDto::Admitted => "admitted",
        ApplicationStatusDto::Rejected => "rejected",
    }
}

#[test]
fn unknown_db_value_message_names_the_enum_and_the_value() {
    match ObjectKindDto::from_db("hangar") {
        Err(ApiError::Internal(message)) => assert_eq!(
            message,
            "object_kind: неизвестное значение БД 'hangar' - рассинхрон enum'ов"
        ),
        other => panic!("unexpected {other:?}"),
    }
}

#[test]
fn a_moment_out_of_range_is_rejected() {
    let raw = format!("{}~0198f0d5-0000-7000-8000-000000000001", i128::MAX);
    assert!(cursor::parse(&raw).is_err());
    let raw = "253402300799999999999~0198f0d5-0000-7000-8000-000000000001";
    assert_eq!(
        cursor::parse(raw).unwrap(),
        RowCursor::new(253_402_300_799_999_999_999, 0x0198f0d5_0000_7000_8000_000000000001)
    );
}
