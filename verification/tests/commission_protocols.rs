use tou_http::admission::{
    protocol_content, ApplicationRow, AttendanceMark, LotRow, MeetingSummary, MemberRow,
    ProtocolInput, RecusalRow, TenderSummary, VoteRow,
};
use tou_http::announcement::Amount;
use tou_http::error::ApiError;
use tou_http::evasion::{
    require_evasion, runner_up_lots, winner2_protocol_content, EvasionRow, LotResultRow,
    RunnerUpRow,
};
use tou_http::failure::{
    failed_protocol_content, failed_protocol_ground, Consequence, FailedProtocolInput,
    FailedProtocolRefusal, FailureGround, GroundLabel,
};

const HELD: i128 = 1_787_202_000 * 1_000_000_000; // 2026-08-20 10:00 UTC+5

fn member(id: u128, name: &str, role: &str) -> MemberRow {
    MemberRow { id, full_name: name.to_owned(), member_role: role.to_owned() }
}

fn application(id: u128, lot: u128, name: Option<&str>, status: &str, reason: Option<&str>) -> ApplicationRow {
    ApplicationRow {
        id,
        lot_id: lot,
        applicant_name: name.map(str::to_owned),
        status: status.to_owned(),
        rejection_reason: reason.map(str::to_owned),
        price_amount: Some(Amount { mantissa: 3_600_000, scale: 2 }),
    }
}

fn tender() -> TenderSummary {
    TenderSummary { id: 0x0198f0d5_0000_7000_8000_000000000000, title: "Тестовый тендер".to_owned() }
}

#[test]
fn admission_protocol_lists_members_applications_and_votes() {
    let lot = LotRow { id: 9, seq: 1, purpose: "офис".to_owned() };
    let input = ProtocolInput {
        number: "Д-0198F0D5".to_owned(),
        tender: tender(),
        meeting: MeetingSummary {
            commission_name: "Тендерная комиссия".to_owned(),
            scheduled_at: HELD,
            held_at: Some(HELD),
            quorum_present: Some(5),
            quorum_required: Some(5),
        },
        members: vec![
            member(1, "Председатель П.П.", "chairman"),
            member(2, "Член М.М.", "member"),
            member(3, "Резерв Р.Р.", "reserve"),
            member(4, "Отведенный О.О.", "member"),
        ],
        attendance: vec![
            AttendanceMark { member_id: 1, present: true, chairing: true },
            AttendanceMark { member_id: 2, present: false, chairing: false },
            AttendanceMark { member_id: 2, present: true, chairing: false },
            AttendanceMark { member_id: 4, present: false, chairing: false },
        ],
        recusals: vec![RecusalRow {
            full_name: "Отведенный О.О.".to_owned(),
            lot_id: Some(9),
            reason: "аффилированность".to_owned(),
            replacement_name: None,
        }],
        lots: vec![lot],
        records: vec![
            application(0x0198f0d6_0000_7000_8000_000000000000, 9, Some("ТОО «Тест»"), "admitted", None),
            application(11, 9, None, "rejected", None),
            application(12, 10, Some("ИП"), "submitted", None),
        ],
        files_count: std::collections::HashMap::from([(0x0198f0d6_0000_7000_8000_000000000000, 5)]),
        votes: vec![VoteRow {
            application_id: 0x0198f0d6_0000_7000_8000_000000000000,
            member_name: "Член М.М.".to_owned(),
            value: "against".to_owned(),
            dissent: None,
        }],
    };
    let content = protocol_content(&input);
    assert_eq!(content.tender_number, "0198F0D5");
    assert_eq!(content.quorum, "5 из 3 (требуется 5)");
    assert_eq!(content.held_at, "20.08.2026 10:00");
    let attendance: Vec<&str> = content.members.iter().map(|m| m.attendance.as_str()).collect();
    assert_eq!(attendance, ["председательствует", "присутствует", "-", "отсутствует"]);
    assert_eq!(content.members[2].role, "резервный член");
    assert_eq!(content.recusals[0].scope, "№1 - офис");
    assert_eq!(content.recusals[0].replacement, "-");
    assert_eq!(content.applications[0].files, 5);
    assert_eq!(content.applications[0].price, "36\u{202f}000,00");
    assert_eq!(content.applications[0].decision, "допущена");
    assert_eq!(content.applications[1].applicant, "-");
    assert_eq!(content.applications[1].decision, "отклонена (-)");
    assert_eq!(content.applications[2].lot, "-");
    assert_eq!(content.applications[2].decision, "без решения (submitted)");
    assert_eq!(content.votes[0].application, "ТОО «Тест» (0198F0D6)");
    assert_eq!(content.votes[0].value, "против");
    assert_eq!(content.votes[0].dissent, "");
}

#[test]
fn failure_protocol_needs_a_declared_failure_and_its_ground() {
    assert_eq!(
        failed_protocol_ground(false, None).err(),
        Some(FailedProtocolRefusal::NotDeclared)
    );
    assert_eq!(
        failed_protocol_ground(true, None).err(),
        Some(FailedProtocolRefusal::NoGround)
    );
    let ground = FailureGround { code: "no_applications".to_owned(), rule_ref: "п. 81.1".to_owned() };
    let found = failed_protocol_ground(true, Some(ground)).unwrap();
    let content = failed_protocol_content(&FailedProtocolInput {
        tender: tender(),
        ground: found,
        commission_name: "Тендерная комиссия".to_owned(),
        scheduled_at: HELD,
        held_at: None,
        deadline: HELD,
        grounds: vec![
            GroundLabel { code: "other".to_owned(), label_ru: "Иное".to_owned() },
            GroundLabel { code: "no_applications".to_owned(), label_ru: "Не подано ни одной заявки".to_owned() },
            GroundLabel { code: "no_applications".to_owned(), label_ru: "повтор".to_owned() },
        ],
        applications: 0,
        admitted: 0,
        members: vec![member(1, "Председатель П.П.", "chairman")],
        records: vec![],
        consequence: None,
    });
    assert_eq!(content.number, "Н-0198F0D5");
    assert_eq!(content.ground_label, "Не подано ни одной заявки");
    assert_eq!(content.ground_rule, "п. 81.1");
    assert_eq!(content.held_at, "20.08.2026 10:00");
    assert_eq!(content.generated_at, content.held_at);
    assert_eq!(content.members[0].role, "председатель");
    assert_eq!(content.consequence_text, "Объявляется повторный тендер (п. 82).");
    let unlabelled = failed_protocol_content(&FailedProtocolInput {
        tender: tender(),
        ground: FailureGround { code: "x".to_owned(), rule_ref: "п. 81".to_owned() },
        commission_name: String::new(),
        scheduled_at: HELD,
        held_at: Some(HELD),
        deadline: HELD,
        grounds: vec![],
        applications: 1,
        admitted: 1,
        members: vec![],
        records: vec![application(5, 1, Some("ТОО"), "rejected", Some("52.1"))],
        consequence: Some(Consequence::SingleSource),
    });
    assert_eq!(unlabelled.ground_label, "x");
    assert_eq!(unlabelled.applications_list[0].decision, "отклонена (52.1)");
    assert!(unlabelled.consequence_text.contains("одного источника"));
}

fn evasion(lot: Option<u128>, place: &str) -> EvasionRow {
    EvasionRow {
        user_name: "ТОО «Уклонист»".to_owned(),
        place: place.to_owned(),
        place_title: if place == "winner" { "победитель" } else { "участник № 2" }.to_owned(),
        lot_id: lot,
        ground_label: "Подписанный договор не возвращен в установленный срок".to_owned(),
        declared_at: HELD,
    }
}

fn lot(id: u128, seq: i32) -> LotResultRow {
    LotResultRow { lot_id: id, seq, object_name: format!("Помещение {seq}") }
}

fn runner_up(id: u128) -> Option<RunnerUpRow> {
    Some(RunnerUpRow {
        participant_id: id,
        participant_name: "ИП Второй".to_owned(),
        amount: Amount { mantissa: 75_000, scale: 0 },
    })
}

#[test]
fn a_lot_passes_to_the_runner_up_only_after_the_winner_evaded() {
    let refused = require_evasion(&vec![], "winner2_without_evasion").unwrap_err();
    assert_eq!(refused.status(), 409);
    match refused {
        ApiError::RuleViolation(r) => {
            assert_eq!(r.rule, "winner2_without_evasion");
            assert_eq!(
                r.internal,
                "протокол о победителе № 2 оформляется после признания уклонения (п. 116–117)"
            );
        }
        other => panic!("unexpected {:?}", other),
    }
    let evasions = vec![
        evasion(Some(1), "winner"),
        evasion(Some(2), "winner"),
        evasion(Some(2), "runner_up"),
        evasion(Some(4), "winner"),
    ];
    assert!(require_evasion(&evasions, "winner2_without_evasion").is_ok());
    let lots = vec![lot(1, 1), lot(2, 2), lot(3, 3), lot(4, 4)];
    let (lines, offers) = runner_up_lots(&evasions, &lots, &vec![runner_up(10), runner_up(20), runner_up(30), None]);
    assert_eq!(lines.len(), 1);
    assert_eq!(lines[0].seq, 1);
    assert_eq!(lines[0].amount, "75\u{202f}000,00");
    assert_eq!(offers.len(), 1);
    assert_eq!(offers[0].participant_id, 10);
    assert_eq!(offers[0].lot_id, 1);

    let content = winner2_protocol_content(
        &tender(),
        &"Тендерная комиссия".to_owned(),
        HELD,
        None,
        HELD,
        &evasions,
        lines,
        &vec![member(1, "Председатель П.П.", "chairman")],
        HELD,
    );
    assert_eq!(content.number, "У-0198F0D5");
    assert_eq!(content.evasions.len(), 4);
    assert_eq!(content.evasions[0].place, "победитель");
    assert_eq!(content.evasions[0].declared_at, "20.08.2026 10:00");
    assert_eq!(content.lots.len(), 1);
    assert_eq!(content.members[0].role, "председатель");
}

#[test]
fn a_refused_failed_protocol_is_a_rule_rejection() {
    for refusal in [FailedProtocolRefusal::NotDeclared, FailedProtocolRefusal::NoGround] {
        let e = refusal.into_error();
        assert_eq!(e.status(), 409);
        match e {
            ApiError::RuleViolation(r) => assert_eq!(r.rule, "tender_failure_ground"),
            other => panic!("unexpected {:?}", other),
        }
    }
    match FailedProtocolRefusal::NotDeclared.into_error() {
        ApiError::RuleViolation(r) => assert_eq!(
            r.internal,
            "протокол оформляется после признания тендера несостоявшимся (FR-802)"
        ),
        other => panic!("unexpected {:?}", other),
    }
}
