use tou_http::acts::{act_content, act_pdf_key, parse_act_kind, ActKind};
use tou_http::admission::LotRow;
use tou_http::announcement::Amount;
use tou_http::error::ApiError;

const ACT_ID: u128 = 0x0198f0d5_1c2a_7b3e_8f00_000000000001;
const CONTRACT_ID: u128 = 0x0198f0d5_1c2a_7b3e_8f00_0000000000c1;
const GENERATED: i128 = 1_787_202_000 * 1_000_000_000; // 2026-08-20 10:00 UTC+5

fn lots() -> Vec<LotRow> {
    vec![
        LotRow { id: 7, seq: 1, purpose: "склад".to_owned() },
        LotRow { id: 8, seq: 2, purpose: "офис".to_owned() },
        LotRow { id: 8, seq: 3, purpose: "кафе".to_owned() },
    ]
}

#[test]
fn act_kinds_are_named_handover_and_return() {
    assert_eq!(parse_act_kind("handover").unwrap(), ActKind::Handover);
    assert_eq!(parse_act_kind("return").unwrap(), ActKind::Return);
    assert_eq!(ActKind::Handover.as_str(), "handover");
    assert_eq!(ActKind::Return.as_str(), "return");
    match parse_act_kind("transfer") {
        Err(ApiError::Validation(m)) => assert_eq!(m, "неизвестный вид акта: transfer"),
        other => panic!("unexpected {:?}", other),
    }
    assert_eq!(parse_act_kind("Handover").unwrap_err().status(), 422);
}

#[test]
fn a_handover_act_shows_the_contract_and_the_lot() {
    let c = act_content(
        ActKind::Handover,
        "Акт приема-передачи".to_owned(),
        "Приложение 7".to_owned(),
        ACT_ID,
        Some("Д-2026/15".to_owned()),
        "2026-08-21".to_owned(),
        "ТОО Арендатор".to_owned(),
        "Нежилое помещение".to_owned(),
        "г. Алматы, ул. Абая, 1".to_owned(),
        Amount { mantissa: 1_234_567, scale: 1 },
        &lots(),
        Some(8),
        Some("без претензий".to_owned()),
        GENERATED,
    );
    assert_eq!(c.title, "Акт приема-передачи");
    assert_eq!(c.appendix, "Приложение 7");
    assert_eq!(c.number, "0198F0D5");
    assert_eq!(c.contract_number, "Д-2026/15");
    assert_eq!(c.act_date, "2026-08-21");
    assert_eq!(c.tenant_name, "ТОО Арендатор");
    assert_eq!(c.object_name, "Нежилое помещение");
    assert_eq!(c.object_address, "г. Алматы, ул. Абая, 1");
    assert_eq!(c.object_area, "123\u{202f}456,70");
    assert_eq!(c.purpose, "офис");
    assert_eq!(c.note, "без претензий");
    assert_eq!(
        c.transfer_text,
        "Наймодатель передал, а Наниматель принял во временное владение и пользование указанный ниже объект."
    );
    assert_eq!(
        c.effect_text,
        "С даты настоящего акта начисляется арендная плата по договору (п. 122, 128–129)."
    );
    assert_eq!(c.generated_at, "20.08.2026 10:00");
}

#[test]
fn a_return_act_without_registration_lot_or_note_uses_placeholders() {
    let c = act_content(
        ActKind::Return,
        "Акт возврата".to_owned(),
        "Приложение 8".to_owned(),
        ACT_ID,
        None,
        "2027-01-10".to_owned(),
        "ТОО Арендатор".to_owned(),
        "Склад".to_owned(),
        "г. Алматы".to_owned(),
        Amount { mantissa: 50, scale: 0 },
        &lots(),
        None,
        None,
        GENERATED,
    );
    assert_eq!(c.contract_number, "б/н");
    assert_eq!(c.purpose, "-");
    assert_eq!(c.note, "");
    assert_eq!(c.object_area, "50,00");
    assert_eq!(
        c.transfer_text,
        "Наниматель возвратил, а Наймодатель принял указанный ниже объект."
    );
    assert_eq!(
        c.effect_text,
        "Договор считается исполненным, объект возвращен наймодателю; депозит возвращается в течение 5 рабочих дней при отсутствии претензий (п. 129, 136)."
    );

    let other_lot = act_content(
        ActKind::Return,
        String::new(),
        String::new(),
        ACT_ID,
        None,
        String::new(),
        String::new(),
        String::new(),
        String::new(),
        Amount { mantissa: 0, scale: 0 },
        &lots(),
        Some(99),
        None,
        GENERATED,
    );
    assert_eq!(other_lot.purpose, "-");
    let no_tender = act_content(
        ActKind::Return,
        String::new(),
        String::new(),
        ACT_ID,
        None,
        String::new(),
        String::new(),
        String::new(),
        String::new(),
        Amount { mantissa: 0, scale: 0 },
        &vec![],
        Some(7),
        None,
        GENERATED,
    );
    assert_eq!(no_tender.purpose, "-");
}

#[test]
fn the_act_form_is_stored_under_the_contract_and_kind() {
    assert_eq!(
        act_pdf_key(CONTRACT_ID, ActKind::Handover),
        "contracts/0198f0d5-1c2a-7b3e-8f00-0000000000c1/act-handover.pdf"
    );
    assert_eq!(
        act_pdf_key(CONTRACT_ID, ActKind::Return),
        "contracts/0198f0d5-1c2a-7b3e-8f00-0000000000c1/act-return.pdf"
    );
}
