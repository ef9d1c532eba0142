use tou_http::announcement::{
    announcement_data, format_almaty_opt, AnnouncedLot, AnnouncedTender, Amount,
};

const AUG_06_08_52: i128 = 1_786_006_320 * 1_000_000_000;
const AUG_17_08_52: i128 = 1_786_956_720 * 1_000_000_000;
const AUG_18_08_52: i128 = 1_787_043_120 * 1_000_000_000;

fn sample() -> (AnnouncedTender, Vec<AnnouncedLot>) {
    let tender = AnnouncedTender {
        id: 0,
        status: "announced".to_owned(),
        title: "Аренда помещений учебного корпуса - спецсимволы *#_$@«»".to_owned(),
        announced_at: Some(AUG_06_08_52),
        submission_deadline: Some(AUG_17_08_52),
        opening_at: Some(AUG_18_08_52),
        trading_at: None,
    };
    let lot = AnnouncedLot {
        seq: 1,
        purpose: "офис".to_owned(),
        lease_months: 12,
        base_rate_monthly: Amount { mantissa: 5_249_500, scale: 2 },
        guarantee_fee: Amount { mantissa: 5_249_500, scale: 2 },
        viewing_terms: Some("по будням 09:00–17:00".to_owned()),
        rate_unit_title: "в месяц".to_owned(),
        hours_total: None,
        object_name: "Аудитория 101".to_owned(),
        object_address: "г. Павлодар, ул. Демонстрационная, 1".to_owned(),
        object_area: Amount { mantissa: 4200, scale: 2 },
    };
    (tender, vec![lot])
}

#[test]
fn draft_gets_watermark_flag_and_dates_render_in_almaty() {
    let (mut tender, lots) = sample();
    tender.status = "draft".to_owned();
    let data = announcement_data(&tender, &lots);
    assert!(data.is_draft);
    assert_eq!(data.submission_deadline, "17.08.2026 13:52");
    assert_eq!(data.trading_at, "не назначено");
}

#[test]
fn announcement_lines_carry_formatted_amounts_and_viewings() {
    let (tender, lots) = sample();
    let data = announcement_data(&tender, &lots);
    assert!(!data.is_draft);
    assert_eq!(data.number, "00000000");
    assert_eq!(data.published_at, "06.08.2026 13:52");
    assert_eq!(data.lots.len(), 1);
    let line = &data.lots[0];
    assert_eq!(line.object, "Аудитория 101 (г. Павлодар, ул. Демонстрационная, 1)");
    assert_eq!(line.area, "42,00");
    assert_eq!(line.monthly, "52\u{202f}495,00");
    assert_eq!(line.fee, "52\u{202f}495,00");
    assert_eq!(data.viewings.len(), 1);
    assert_eq!(data.viewings[0].seq, 1);
    assert_eq!(data.viewings[0].text, "по будням 09:00–17:00");
    assert_eq!(format_almaty_opt(None), "не назначено");
}
