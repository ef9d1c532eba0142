//! A failed tender: the state that the rules derive from the facts, and the
//! wording of the failure protocol.
use vstd::prelude::*;

use crate::admission::{
    almaty_or_dash, applicant_text, format_almaty, meeting_place, member_role_ru,
    member_role_text, opt_text, or_text, prices_representable, short_number, short_number_text,
    ApplicationRow, MemberRow, TenderSummary,
};
use crate::announcement::{format_decimal_ru, ru_amount};
use crate::error::{error_status, ApiError};
use crate::text::{chars_of, str_equal, string_of};

verus! {

/// The state of a tender as the failure rules see it.
pub struct FailureStateDto {
    pub applications: usize,
    pub admitted: usize,
    pub deadline_passed: bool,
    pub opened: bool,
    pub ground: Option<String>,
    pub ground_rule_ref: Option<String>,
    pub consequence: Option<String>,
    pub previous_failures: usize,
    pub failed: bool,
}

/// What follows from a failed tender.
#[derive(Debug, Clone, Copy, PartialEq, Eq, Structural)]
pub enum Consequence {
    /// A repeated tender is announced.
    Repeat,
    /// The single compliant application may get a contract from a single
    /// source.
    SingleSource,
    /// The tender failed again: the Board decides.
    BoardReferral,
}

pub open spec fn consequence_text(consequence: Option<Consequence>) -> Seq<char> {
    match consequence {
        Some(Consequence::SingleSource) => "Подана единственная соответствующая требованиям заявка: комиссия вправе принять решение о заключении договора из одного источника (п. 82)."@,
        Some(Consequence::BoardReferral) => "Тендер признан несостоявшимся повторно: вопрос передается на рассмотрение Правления (п. 83)."@,
        _ => "Объявляется повторный тендер (п. 82)."@,
    }
}

/// The wording of the consequence in the protocol; with none known, a
/// repeated tender.
pub fn consequence_ru(consequence: Option<Consequence>) -> (text: &'static str)
    ensures
        text@ == consequence_text(consequence),
{
    match consequence {
        Some(Consequence::SingleSource) => "Подана единственная соответствующая требованиям заявка: комиссия вправе принять решение о заключении договора из одного источника (п. 82).",
        Some(Consequence::BoardReferral) => "Тендер признан несостоявшимся повторно: вопрос передается на рассмотрение Правления (п. 83).",
        _ => "Объявляется повторный тендер (п. 82).",
    }
}

/// The decision on an application, as the failure protocol lists it.
pub open spec fn decision_text(status: Seq<char>, reason: Option<Seq<char>>) -> Seq<char> {
    if status == "admitted"@ {
        "допущена"@
    } else if status == "rejected"@ {
        match reason {
            Some(code) => "отклонена ("@ + code + ")"@,
            None => "отклонена"@,
        }
    } else if status == "withdrawn"@ {
        "отозвана"@
    } else {
        "решение не принято"@
    }
}

/// The decision on an application by its status, with the ground code of a
/// rejection.
pub fn decision_ru(status: &str, reason: Option<&str>) -> (text: String)
    ensures
        text@ == decision_text(
            status@,
            match reason {
                Some(r) => Some(r@),
                None => None,
            },
        ),
{
    if str_equal(status, "admitted") {
        "допущена".to_owned()
    } else if str_equal(status, "rejected") {
        match reason {
            Some(code) => {
                let mut text = chars_of("отклонена (");
                let mut part = chars_of(code);
                text.append(&mut part);
                let mut part = chars_of(")");
                text.append(&mut part);
                string_of(text.as_slice())
            },
            None => "отклонена".to_owned(),
        }
    } else if str_equal(status, "withdrawn") {
        "отозвана".to_owned()
    } else {
        "решение не принято".to_owned()
    }
}


// --------------------------------------------------------- failure protocol

/// Why the failure protocol cannot be drawn up yet.
#[derive(Debug, Clone, Copy, PartialEq, Eq, Structural)]
pub enum FailedProtocolRefusal {
    /// The tender has not been declared failed.
    NotDeclared,
    /// The ground of the failure was not recorded.
    NoGround,
}

impl FailedProtocolRefusal {
    /// The internal wording of the refusal.
    pub fn message(self) -> (text: &'static str)
        ensures
            text@ == failed_refusal_text(self),
    {
        match self {
            FailedProtocolRefusal::NotDeclared => "протокол оформляется после признания тендера несостоявшимся (FR-802)",
            FailedProtocolRefusal::NoGround => "основание п. 81 не зафиксировано",
        }
    }
}

/// The rule under which a failure protocol is refused.
pub const TENDER_FAILURE_GROUND: &'static str = "tender_failure_ground";

impl FailedProtocolRefusal {
    /// The answer to the refusal: a rejection by the rule
    /// `tender_failure_ground` (409), its wording kept for telemetry.
    pub fn into_error(self) -> (e: ApiError)
        ensures
            e matches ApiError::RuleViolation(r) && r.rule@ == TENDER_FAILURE_GROUND@
                && r.internal@ == failed_refusal_text(self),
            error_status(e) == 409,
    {
        ApiError::rule(TENDER_FAILURE_GROUND.to_owned(), self.message().to_owned())
    }
}

pub open spec fn failed_refusal_text(r: FailedProtocolRefusal) -> Seq<char> {
    match r {
        FailedProtocolRefusal::NotDeclared => "протокол оформляется после признания тендера несостоявшимся (FR-802)"@,
        FailedProtocolRefusal::NoGround => "основание п. 81 не зафиксировано"@,
    }
}

/// The recorded ground of a failure: its code and the rule it refers to.
#[derive(Debug, Clone)]
pub struct FailureGround {
    pub code: String,
    pub rule_ref: String,
}

/// The protocol is drawn up only for a tender declared failed, on the
/// ground recorded with the declaration.
pub fn failed_protocol_ground(failed: bool, ground: Option<FailureGround>) -> (result: Result<
    FailureGround,
    FailedProtocolRefusal,
>)
    ensures
        !failed ==> result == Err::<FailureGround, _>(FailedProtocolRefusal::NotDeclared),
        failed && ground is None ==> result == Err::<FailureGround, _>(FailedProtocolRefusal::NoGround),
        failed && ground is Some ==> result == Ok::<_, FailedProtocolRefusal>(ground->0),
{
    if !failed {
        return Err(FailedProtocolRefusal::NotDeclared);
    }
    match ground {
        Some(g) => Ok(g),
        None => Err(FailedProtocolRefusal::NoGround),
    }
}

/// A ground of failure from the reference list, with its Russian label.
pub struct GroundLabel {
    pub code: String,
    pub label_ru: String,
}

/// Everything the failure protocol is made of.
pub struct FailedProtocolInput {
    pub tender: TenderSummary,
    pub ground: FailureGround,
    pub commission_name: String,
    pub scheduled_at: i128,
    pub held_at: Option<i128>,
    pub deadline: i128,
    pub grounds: Vec<GroundLabel>,
    pub applications: usize,
    pub admitted: usize,
    pub members: Vec<MemberRow>,
    pub records: Vec<ApplicationRow>,
    pub consequence: Option<Consequence>,
}

pub struct FailedMemberLine {
    pub name: String,
    pub role: String,
}

pub struct FailedApplicationLine {
    pub applicant: String,
    pub price: String,
    pub decision: String,
}

/// The content of the failure protocol.
pub struct FailedProtocol {
    pub number: String,
    pub tender_number: String,
    pub tender_title: String,
    pub commission: String,
    pub held_at: String,
    pub place: String,
    pub deadline: String,
    pub ground_rule: String,
    pub ground_label: String,
    pub applications: usize,
    pub admitted: usize,
    pub members: Vec<FailedMemberLine>,
    pub applications_list: Vec<FailedApplicationLine>,
    pub consequence_text: String,
    pub generated_at: String,
}

/// The label of the first reference row with this code, if any.
pub open spec fn ground_label_of(rows: Seq<GroundLabel>, code: Seq<char>) -> Option<Seq<char>>
    decreases rows.len(),
{
    if rows.len() == 0 {
        None
    } else if rows[0].code@ == code {
        Some(rows[0].label_ru@)
    } else {
        ground_label_of(rows.drop_first(), code)
    }
}

/// The number of the failure protocol: `Н-` and the tender's short number.
pub open spec fn failed_protocol_number(tender: u128) -> Seq<char> {
    "Н-"@ + short_number_text(tender)
}

pub open spec fn failed_member_line_of(line: FailedMemberLine, m: MemberRow) -> bool {
    &&& line.name@ == m.full_name@
    &&& line.role@ == member_role_text(m.member_role@)
}

pub open spec fn failed_application_line_of(line: FailedApplicationLine, a: ApplicationRow) -> bool {
    &&& line.applicant@ == applicant_text(a)
    &&& line.price@ == match a.price_amount {
        Some(p) => ru_amount(p),
        None => "-"@,
    }
    &&& line.decision@ == decision_text(a.status@, opt_text(a.rejection_reason))
}

fn find_ground_label(rows: &Vec<GroundLabel>, code: &String) -> (label: Option<String>)
    ensures
        opt_text(label) == ground_label_of(rows@, code@),
{
    let mut i: usize = 0;
    assert(rows@.skip(0) == rows@);
    while i < rows.len()
        invariant
            i <= rows.len(),
            ground_label_of(rows@, code@) == ground_label_of(rows@.skip(i as int), code@),
        decreases rows.len() - i,
    {
        assert(rows@.skip(i as int).drop_first() == rows@.skip(i + 1));
        assert(rows@.skip(i as int)[0] == rows@[i as int]);
        if str_equal(rows[i].code.as_str(), code.as_str()) {
            return Some(rows[i].label_ru.clone());
        }
        i = i + 1;
    }
    None
}

/// The content of the failure protocol: its number, the tender, the
/// meeting, the ground with its label (the code itself when the reference
/// list has none), the counts, the members, the applications with price
/// and decision, and the consequence.
pub fn failed_protocol_content(input: &FailedProtocolInput) -> (content: FailedProtocol)
    requires
        prices_representable(input.records@),
    ensures
        content.number@ == failed_protocol_number(input.tender.id),
        content.tender_number@ == short_number_text(input.tender.id),
        content.tender_title@ == input.tender.title@,
        content.commission@ == input.commission_name@,
        content.held_at@ == almaty_or_dash(
            Some(
                match input.held_at {
                    Some(h) => h,
                    None => input.scheduled_at,
                },
            ),
        ),
        content.place@ == meeting_place(),
        content.deadline@ == almaty_or_dash(Some(input.deadline)),
        content.ground_rule@ == input.ground.rule_ref@,
        content.ground_label@ == or_text(
            ground_label_of(input.grounds@, input.ground.code@),
            input.ground.code@,
        ),
        content.applications == input.applications,
        content.admitted == input.admitted,
        content.members@.len() == input.members@.len(),
        forall|i: int|
            0 <= i < input.members@.len() ==> failed_member_line_of(
                #[trigger] content.members@[i],
                input.members@[i],
            ),
        content.applications_list@.len() == input.records@.len(),
        forall|i: int|
            0 <= i < input.records@.len() ==> failed_application_line_of(
                #[trigger] content.applications_list@[i],
                input.records@[i],
            ),
        content.consequence_text@ == consequence_text(input.consequence),
        content.generated_at@ == content.held_at@,
{
    let tender_number = short_number(input.tender.id);
    let mut number = chars_of("Н-");
    let mut part = chars_of(tender_number.as_str());
    number.append(&mut part);
    let ground_label = match find_ground_label(&input.grounds, &input.ground.code) {
        Some(label) => label,
        None => input.ground.code.clone(),
    };
    let mut members: Vec<FailedMemberLine> = Vec::new();
    let mut i: usize = 0;
    while i < input.members.len()
        invariant
            i <= input.members.len(),
            members@.len() == i,
            forall|j: int| 0 <= j < i ==> failed_member_line_of(#[trigger] members@[j], input.members@[j]),
        decreases input.members.len() - i,
    {
        let m = &input.members[i];
        members.push(FailedMemberLine {
            name: m.full_name.clone(),
            role: member_role_ru(m.member_role.as_str()).to_owned(),
        });
        i = i + 1;
    }
    let mut list: Vec<FailedApplicationLine> = Vec::new();
    let mut i: usize = 0;
    while i < input.records.len()
        invariant
            i <= input.records.len(),
            prices_representable(input.records@),
            list@.len() == i,
            forall|j: int|
                0 <= j < i ==> failed_application_line_of(#[trigger] list@[j], input.records@[j]),
        decreases input.records.len() - i,
    {
        let a = &input.records[i];
        let applicant = match &a.applicant_name {
            Some(name) => name.clone(),
            None => "-".to_owned(),
        };
        let price = match a.price_amount {
            Some(p) => {
                assert(input.records@[i as int].price_amount == Some(p));
                format_decimal_ru(p)
            },
            None => "-".to_owned(),
        };
        let reason = match &a.rejection_reason {
            Some(r) => Some(r.as_str()),
            None => None,
        };
        let decision = decision_ru(a.status.as_str(), reason);
        list.push(FailedApplicationLine { applicant, price, decision });
        i = i + 1;
    }
    let held = match input.held_at {
        Some(h) => h,
        None => input.scheduled_at,
    };
    let held_at = format_almaty(Some(held));
    let generated_at = format_almaty(Some(held));
    FailedProtocol {
        number: string_of(number.as_slice()),
        tender_number,
        tender_title: input.tender.title.clone(),
        commission: input.commission_name.clone(),
        held_at,
        place: "уточняется юридической службой".to_owned(),
        deadline: format_almaty(Some(input.deadline)),
        ground_rule: input.ground.rule_ref.clone(),
        ground_label,
        applications: input.applications,
        admitted: input.admitted,
        members,
        applications_list: list,
        consequence_text: consequence_ru(input.consequence).to_owned(),
        generated_at,
    }
}

} // verus!
