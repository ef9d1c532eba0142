use tou_http::admission::{
    admission_protocol_number, admission_verdict, count_files, format_almaty, member_role_ru,
    reason_label, short_number, RejectionReasonDto,
};
use tou_http::announcement::{format_decimal_ru, Amount};
use tou_http::applications::ApplicationDocumentKindDto;
use tou_http::commission::{DecisionDto, VoteValueDto};
use tou_http::error::ApiError;
use tou_http::failure::{consequence_ru, decision_ru, Consequence};

fn amount(mantissa: i128, scale: u32) -> Amount {
    Amount { mantissa, scale }
}

#[test]
fn ru_decimal_format_groups_thousands() {
    assert_eq!(format_decimal_ru(amount(5_249_500, 2)), "52\u{202f}495,00");
    assert_eq!(
        format_decimal_ru(amount(123_456_789, 2)),
        "1\u{202f}234\u{202f}567,89"
    );
    assert_eq!(format_decimal_ru(amount(500, 0)), "500,00");
    assert_eq!(format_decimal_ru(amount(5, 1)), "0,50");
}

#[test]
fn ru_decimal_format_rounds_to_even_and_signs_negatives() {
    assert_eq!(format_decimal_ru(amount(12_345, 3)), "12,34");
    assert_eq!(format_decimal_ru(amount(12_355, 3)), "12,36");
    assert_eq!(format_decimal_ru(amount(-150_000_000, 2)), "\u{2212}1\u{202f}500\u{202f}000,00");
    assert_eq!(format_decimal_ru(amount(0, 0)), "0,00");
    assert_eq!(format_decimal_ru(amount(-1, 3)), "0,00");
    assert_eq!(format_decimal_ru(amount(125, 3)), "0,12");
    assert_eq!(format_decimal_ru(amount(135, 3)), "0,14");
    assert_eq!(format_decimal_ru(amount(-5, 1)), "\u{2212}0,50");
    assert_eq!(format_decimal_ru(amount(100_000, 0)), "100\u{202f}000,00");
}

#[test]
fn consequence_text_matches_the_rules() {
    assert!(consequence_ru(Some(Consequence::BoardReferral)).contains("Правления"));
    assert!(consequence_ru(Some(Consequence::SingleSource)).contains("одного источника"));
    assert!(consequence_ru(Some(Consequence::Repeat)).contains("повторный"));
    assert!(consequence_ru(None).contains("повторный"));
}

#[test]
fn failure_protocol_lists_decisions_in_words() {
    assert_eq!(decision_ru("admitted", None), "допущена");
    assert_eq!(decision_ru("rejected", Some("52.3")), "отклонена (52.3)");
    assert_eq!(decision_ru("rejected", None), "отклонена");
    assert_eq!(decision_ru("withdrawn", Some("x")), "отозвана");
    assert_eq!(decision_ru("submitted", None), "решение не принято");
}

#[test]
fn short_number_is_the_first_eight_hex_digits_in_upper_case() {
    let id = uuid::Uuid::parse_str("0198f0d5-ab00-7000-8000-000000000000").unwrap();
    assert_eq!(short_number(id.as_u128()), "0198F0D5");
    assert_eq!(short_number(0), "00000000");
}

#[test]
fn almaty_time_is_utc_plus_five_to_the_minute() {
    // 2026-08-17 08:52 UTC
    let nanos: i128 = 1_786_956_720 * 1_000_000_000;
    assert_eq!(format_almaty(Some(nanos)), "17.08.2026 13:52");
    assert_eq!(format_almaty(None), "-");
}

#[test]
fn member_roles_read_in_russian() {
    assert_eq!(member_role_ru("chairman"), "председатель");
    assert_eq!(member_role_ru("deputy"), "заместитель председателя");
    assert_eq!(member_role_ru("reserve"), "резервный член");
    assert_eq!(member_role_ru("member"), "член комиссии");
}

#[test]
fn the_vote_decides_and_a_rejection_needs_a_ground() {
    let (verdict, reason) = admission_verdict(DecisionDto::Admitted, Some("52.1")).unwrap();
    assert_eq!((verdict, reason), ("admitted", None));
    let (verdict, reason) = admission_verdict(DecisionDto::Rejected, Some("52.1")).unwrap();
    assert_eq!((verdict, reason.as_deref()), ("rejected", Some("52.1")));
    for missing in [None, Some("")] {
        match admission_verdict(DecisionDto::Rejected, missing) {
            Err(ApiError::Validation(m)) => {
                assert_eq!(m, "отклонение требует основания из перечня п. 52 (INV-052)")
            }
            other => panic!("unexpected {other:?}"),
        }
    }
}

#[test]
fn vote_wire_names_match_db_enum() {
    for (dto, wire) in [(VoteValueDto::For, "for"), (VoteValueDto::Against, "against")] {
        assert_eq!(dto.as_db(), wire);
    }
}

#[test]
fn document_kinds_round_trip_and_legacy_is_reserved() {
    for kind in [
        ApplicationDocumentKindDto::ApplicationForm,
        ApplicationDocumentKindDto::RegistrationCertificate,
        ApplicationDocumentKindDto::TaxClearance,
        ApplicationDocumentKindDto::GuaranteePayment,
        ApplicationDocumentKindDto::QualificationDocuments,
        ApplicationDocumentKindDto::Legacy,
    ] {
        assert_eq!(ApplicationDocumentKindDto::from_db(kind.as_db()).unwrap(), kind);
    }
    assert_eq!(
        ApplicationDocumentKindDto::TaxClearance.required().unwrap(),
        "tax_clearance"
    );
    assert!(matches!(
        ApplicationDocumentKindDto::Legacy.required(),
        Err(ApiError::Validation(_))
    ));
    match ApplicationDocumentKindDto::from_db("passport") {
        Err(ApiError::Internal(m)) => assert_eq!(m, "unknown application_document_kind: passport"),
        other => panic!("unexpected {other:?}"),
    }
}

fn ground(code: &str, label: &str) -> RejectionReasonDto {
    RejectionReasonDto {
        code: code.to_owned(),
        label_ru: label.to_owned(),
        label_kk: None,
        label_en: None,
        rule_ref: "п. 52".to_owned(),
    }
}

#[test]
fn a_rejection_notice_carries_the_label_of_its_ground() {
    let reasons = vec![
        ground("fee_not_paid", "не внесен гарантийный взнос"),
        ground("documents_incomplete", "неполный пакет документов"),
        ground("fee_not_paid", "повтор"),
    ];
    assert_eq!(
        reason_label(Some("fee_not_paid"), Some(&reasons)).as_deref(),
        Some("не внесен гарантийный взнос")
    );
    assert_eq!(
        reason_label(Some("documents_incomplete"), Some(&reasons)).as_deref(),
        Some("неполный пакет документов")
    );
    assert_eq!(reason_label(Some("other"), Some(&reasons)), None);
    assert_eq!(reason_label(None, Some(&reasons)), None);
    assert_eq!(reason_label(Some("fee_not_paid"), None), None);
}

#[test]
fn the_admission_protocol_is_numbered_by_the_tender() {
    let id = uuid::Uuid::parse_str("0198f0d5-ab00-7000-8000-000000000000").unwrap();
    assert_eq!(admission_protocol_number(id.as_u128()), "Д-0198F0D5");
}

#[test]
fn files_are_counted_per_application() {
    let counts = count_files(&vec![1, 2, 1, 1]);
    assert_eq!(counts.len(), 2);
    assert_eq!(counts.get(&1), Some(&3));
    assert_eq!(counts.get(&2), Some(&1));
    assert_eq!(counts.get(&3), None);
    assert!(count_files(&vec![]).is_empty());
}
