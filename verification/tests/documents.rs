use tou_http::commission_documents::{
    commission_document_key, require_pdf, text, upload_metadata, CalendarDate,
    UploadCommissionDocument,
};
use tou_http::error::ApiError;

#[test]
fn metadata_rejects_blank_and_control_characters() {
    for value in ["", "  ", "line\nbreak"] {
        assert!(text(value, 200).is_err());
    }
}

#[test]
fn metadata_accepts_unicode_and_trims() {
    assert_eq!(text("  Протокол № 1  ", 200).unwrap(), "Протокол № 1");
}

#[test]
fn metadata_length_is_counted_in_characters() {
    let cyrillic = "Я".repeat(200);
    assert_eq!(text(&cyrillic, 200).unwrap(), cyrillic);
    assert!(text(&"Я".repeat(201), 200).is_err());
    match text("\u{7f}", 200) {
        Err(ApiError::Validation(m)) => assert_eq!(m, "invalid document metadata"),
        other => panic!("unexpected {other:?}"),
    }
}

fn meta(title: &str, number: &str, date: &str) -> UploadCommissionDocument {
    UploadCommissionDocument {
        application_id: None,
        title: title.to_owned(),
        number: number.to_owned(),
        document_date: date.to_owned(),
    }
}

#[test]
fn upload_metadata_checks_title_number_and_date() {
    let ok = upload_metadata(&meta(" Протокол ", "№ 7", "2026-08-20")).unwrap();
    assert_eq!(ok.title, "Протокол");
    assert_eq!(ok.number, "№ 7");
    assert_eq!(ok.document_date, CalendarDate { year: 2026, month: 8, day: 20 });

    match upload_metadata(&meta("Протокол", "№ 7", "20.08.2026")) {
        Err(ApiError::Validation(m)) => assert_eq!(m, "invalid document date"),
        other => panic!("unexpected {:?}", other.err()),
    }
    assert!(upload_metadata(&meta("Протокол", "№ 7", "2026-02-30")).is_err());
    match upload_metadata(&meta("", "№ 7", "bad")) {
        Err(ApiError::Validation(m)) => assert_eq!(m, "invalid document metadata"),
        other => panic!("unexpected {:?}", other.err()),
    }
    assert!(upload_metadata(&meta("Протокол", &"1".repeat(101), "2026-08-20")).is_err());
}

#[test]
fn only_a_pdf_is_accepted() {
    assert!(require_pdf("application/pdf").is_ok());
    match require_pdf("image/png") {
        Err(ApiError::Validation(m)) => assert_eq!(m, "PDF required"),
        other => panic!("unexpected {other:?}"),
    }
}

#[test]
fn the_storage_key_names_tender_and_document() {
    let tender = 0x0198f0d5_0000_7000_8000_000000000000_u128;
    let id = 0x0198f0d5_0000_7000_8000_00000000000a_u128;
    assert_eq!(
        commission_document_key(tender, id),
        "commission-documents/0198f0d5-0000-7000-8000-000000000000/0198f0d5-0000-7000-8000-00000000000a.pdf"
    );
}
