//! Admission of applications by the commission: the verdict that the vote
//! fixes, and the wording and numbering that the protocols print.
use vstd::prelude::*;

use crate::bytes::{uuid_bytes, uuid_octets};
use crate::commission::DecisionDto;
use crate::error::ApiError;
use crate::oidc::{hex_upper, hex_upper_of};
use crate::text::{chars_of, str_equal, string_of};

verus! {

/// The request that fixes the decision on an application. The reason is
/// required when the commission voted to reject: a code of the closed list
/// of rejection grounds.
pub struct DecideRequest {
    pub rejection_reason: Option<String>,
}

/// A ground of rejection from the closed list.
pub struct RejectionReasonDto {
    pub code: String,
    pub label_ru: String,
    pub label_kk: Option<String>,
    pub label_en: Option<String>,
    pub rule_ref: String,
}

/// The refusal of a rejection that names no ground.
pub open spec fn missing_ground_message() -> Seq<char> {
    "отклонение требует основания из перечня п. 52 (INV-052)"@
}

/// The verdict recorded for an application, as the database names it, with
/// the ground of a rejection. The verdict comes from the vote alone; a
/// rejection without a non-empty ground is refused.
pub fn admission_verdict(decision: DecisionDto, rejection_reason: Option<&str>) -> (result: Result<
    (&'static str, Option<String>),
    ApiError,
>)
    ensures
        decision == DecisionDto::Admitted ==> (result matches Ok((verdict, reason)) && verdict@
            == "admitted"@ && reason is None),
        decision == DecisionDto::Rejected ==> match rejection_reason {
            Some(r) if r@.len() > 0 => (result matches Ok((verdict, Some(reason))) && verdict@
                == "rejected"@ && reason@ == r@),
            _ => (result matches Err(ApiError::Validation(m)) && m@ == missing_ground_message()),
        },
{
    match decision {
        DecisionDto::Admitted => Ok(("admitted", None)),
        DecisionDto::Rejected => match rejection_reason {
            Some(r) => {
                let chars = chars_of(r);
                if chars.len() > 0 {
                    Ok(("rejected", Some(string_of(chars.as_slice()))))
                } else {
                    Err(
                        ApiError::Validation(
                            "отклонение требует основания из перечня п. 52 (INV-052)".to_owned(),
                        ),
                    )
                }
            },
            None => Err(
                ApiError::Validation(
                    "отклонение требует основания из перечня п. 52 (INV-052)".to_owned(),
                ),
            ),
        },
    }
}

/// Two uppercase hex digits per byte.
pub open spec fn hex_upper_text(bytes: Seq<u8>) -> Seq<char>
    decreases bytes.len(),
{
    if bytes.len() == 0 {
        Seq::empty()
    } else {
        hex_upper_text(bytes.drop_last()).push(hex_upper((bytes.last() / 16) as int)).push(
            hex_upper((bytes.last() % 16) as int),
        )
    }
}

/// The short number of a tender in the protocols: the first eight hex
/// digits of its id, in upper case.
pub open spec fn short_number_text(id: u128) -> Seq<char> {
    hex_upper_text(uuid_octets(id).take(4))
}

/// The short number of a tender: the first eight hex digits of its id
/// (the simple form of the UUID), in upper case.
pub fn short_number(id: u128) -> (number: String)
    ensures
        number@ == short_number_text(id),
        number@.len() == 8,
{
    let octets = uuid_bytes(id);
    proof {
        crate::bytes::lemma_be_octets_len(id as nat, 16);
    }
    let mut out: Vec<char> = Vec::new();
    let mut i: usize = 0;
    while i < 4
        invariant
            i <= 4,
            octets@ == uuid_octets(id),
            octets@.len() == 16,
            out@ == hex_upper_text(octets@.take(i as int)),
            out@.len() == 2 * i,
        decreases 4 - i,
    {
        let b = octets[i];
        out.push(hex_upper_of(b / 16));
        out.push(hex_upper_of(b % 16));
        proof {
            assert(octets@.take(i + 1).drop_last() == octets@.take(i as int));
        }
        i = i + 1;
    }
    string_of(out.as_slice())
}

/// What `time` writes for an instant (Unix nanoseconds) shifted to the UTC
/// offset of `offset_seconds` and written with the format description
/// `format`, if it can.
pub uninterp spec fn instant_text(nanos: i128, offset_seconds: i32, format: Seq<char>) -> Option<
    Seq<char>,
>;

/// `OffsetDateTime::from_unix_timestamp_nanos(nanos)` shifted to
/// `UtcOffset::from_whole_seconds(offset_seconds)` and written by
/// `OffsetDateTime::format` with the description `format`; `None` when `time`
/// refuses the offset, the instant, the description or the writing.
#[verifier::external_body]
pub(crate) fn format_instant(nanos: i128, offset_seconds: i32, format: &str) -> (text: Option<
    String,
>)
    ensures
        match text {
            Some(t) => instant_text(nanos, offset_seconds, format@) == Some(t@),
            None => instant_text(nanos, offset_seconds, format@) is None,
        },
{
    let offset = time::UtcOffset::from_whole_seconds(offset_seconds).ok()?;
    let at = time::OffsetDateTime::from_unix_timestamp_nanos(nanos).ok()?.checked_to_offset(offset)?;
    let description = time::format_description::parse_borrowed::<1>(format).ok()?;
    at.format(&description).ok()
}

/// Asia/Almaty is five hours ahead of UTC.
pub const ALMATY_OFFSET_SECONDS: i32 = 18000;

/// An instant in Asia/Almaty time to the minute, `[day].[month].[year]
/// [hour]:[minute]`, when `time` can write it.
pub open spec fn almaty_minutes(nanos: i128) -> Option<Seq<char>> {
    instant_text(nanos, ALMATY_OFFSET_SECONDS, "[day].[month].[year] [hour]:[minute]"@)
}

/// An instant in Asia/Almaty time to the minute, when it can be written.
pub(crate) fn almaty_text(nanos: i128) -> (text: Option<String>)
    ensures
        match text {
            Some(t) => almaty_minutes(nanos) == Some(t@),
            None => almaty_minutes(nanos) is None,
        },
{
    format_instant(nanos, ALMATY_OFFSET_SECONDS, "[day].[month].[year] [hour]:[minute]")
}

/// An instant as the protocols show it, in Asia/Almaty time (UTC+5) to the
/// minute; `-` when there is none or it cannot be written.
pub fn format_almaty(value: Option<i128>) -> (text: String)
    ensures
        text@ == match value {
            Some(n) => match almaty_minutes(n) {
                Some(t) => t,
                None => "-"@,
            },
            None => "-"@,
        },
{
    match value {
        Some(n) => match almaty_text(n) {
            Some(t) => t,
            None => "-".to_owned(),
        },
        None => "-".to_owned(),
    }
}

/// The Russian name of a role in the commission, as the protocols print it.
pub open spec fn member_role_text(role: Seq<char>) -> Seq<char> {
    if role == "chairman"@ {
        "председатель"@
    } else if role == "deputy"@ {
        "заместитель председателя"@
    } else if role == "reserve"@ {
        "резервный член"@
    } else {
        "член комиссии"@
    }
}

/// The Russian name of a role in the commission (`chairman`, `deputy`,
/// `reserve`; any other role is a member).
pub fn member_role_ru(role: &str) -> (text: &'static str)
    ensures
        text@ == member_role_text(role@),
{
    if str_equal(role, "chairman") {
        "председатель"
    } else if str_equal(role, "deputy") {
        "заместитель председателя"
    } else if str_equal(role, "reserve") {
        "резервный член"
    } else {
        "член комиссии"
    }
}


// ------------------------------------------------------ admission protocol

/// The tender as the protocol names it.
pub struct TenderSummary {
    pub id: u128,
    pub title: String,
}

/// The meeting of the commission: its name, when it was scheduled and held
/// (Unix nanoseconds) and the quorum the secretary recorded.
pub struct MeetingSummary {
    pub commission_name: String,
    pub scheduled_at: i128,
    pub held_at: Option<i128>,
    pub quorum_present: Option<i64>,
    pub quorum_required: Option<i64>,
}

/// A member of the commission.
pub struct MemberRow {
    pub id: u128,
    pub full_name: String,
    pub member_role: String,
}

/// The attendance of a member at the meeting.
#[derive(Debug, Clone, Copy, PartialEq, Eq, Structural)]
pub struct AttendanceMark {
    pub member_id: u128,
    pub present: bool,
    pub chairing: bool,
}

/// A recusal for a conflict of interest, for one lot or the whole tender.
pub struct RecusalRow {
    pub full_name: String,
    pub lot_id: Option<u128>,
    pub reason: String,
    pub replacement_name: Option<String>,
}

/// The Russian label of the first ground in the list with this code.
pub open spec fn reason_label_of(reasons: Seq<RejectionReasonDto>, code: Seq<char>) -> Option<
    Seq<char>,
>
    decreases reasons.len(),
{
    if reasons.len() == 0 {
        None
    } else if reasons[0].code@ == code {
        Some(reasons[0].label_ru@)
    } else {
        reason_label_of(reasons.drop_first(), code)
    }
}

/// The wording of a rejection ground for the participant's notice: the
/// Russian label of the first ground with the code in the closed list;
/// `None` without a code, when the list could not be read (`reasons` is
/// `None`), or when no ground has the code.
pub fn reason_label(code: Option<&str>, reasons: Option<&Vec<RejectionReasonDto>>) -> (label:
    Option<String>)
    ensures
        opt_text(label) == match (code, reasons) {
            (Some(c), Some(list)) => reason_label_of(list@, c@),
            _ => None,
        },
{
    let (c, list) = match (code, reasons) {
        (Some(c), Some(list)) => (c, list),
        _ => {
            return None;
        },
    };
    let mut i: usize = 0;
    assert(list@.skip(0) == list@);
    while i < list.len()
        invariant
            i <= list.len(),
            code == Some(c),
            reasons == Some(list),
            reason_label_of(list@, c@) == reason_label_of(list@.skip(i as int), c@),
        decreases list.len() - i,
    {
        assert(list@.skip(i as int).len() > 0);
        assert(list@.skip(i as int)[0] == list@[i as int]);
        if str_equal(list[i].code.as_str(), c) {
            return Some(list[i].label_ru.clone());
        }
        assert(list@.skip(i as int).drop_first() == list@.skip(i + 1));
        i = i + 1;
    }
    assert(list@.skip(i as int).len() == 0);
    None
}

/// The number of the admission protocol: `Д-` and the tender's short number.
pub open spec fn admission_protocol_number_text(tender_id: u128) -> Seq<char> {
    "Д-"@ + short_number_text(tender_id)
}

/// The number of the admission protocol of a tender.
pub fn admission_protocol_number(tender_id: u128) -> (number: String)
    ensures
        number@ == admission_protocol_number_text(tender_id),
{
    let mut text = chars_of("Д-");
    let mut part = chars_of(short_number(tender_id).as_str());
    text.append(&mut part);
    string_of(text.as_slice())
}

/// How many of the files belong to the application `id`, given the
/// application of each file.
pub open spec fn files_owned(owners: Seq<u128>, id: u128) -> nat
    decreases owners.len(),
{
    if owners.len() == 0 {
        0
    } else {
        files_owned(owners.drop_last(), id) + if owners.last() == id {
            1nat
        } else {
            0nat
        }
    }
}

proof fn lemma_files_owned_bound(owners: Seq<u128>, id: u128)
    ensures
        files_owned(owners, id) <= owners.len(),
    decreases owners.len(),
{
    if owners.len() > 0 {
        lemma_files_owned_bound(owners.drop_last(), id);
    }
}

/// The file counts of the protocol, from the application of each file.
pub fn count_files(owners: &Vec<u128>) -> (counts: std::collections::HashMap<u128, usize>)
    ensures
        forall|id: u128| #[trigger] files_of(counts@, id) == files_owned(owners@, id),
{
    broadcast use vstd::std_specs::hash::group_hash_axioms;

    let mut counts: std::collections::HashMap<u128, usize> = std::collections::HashMap::new();
    let mut i: usize = 0;
    while i < owners.len()
        invariant
            i <= owners.len(),
            forall|id: u128| #[trigger] files_of(counts@, id) == files_owned(owners@.take(i as int), id),
        decreases owners.len() - i,
    {
        let owner = owners[i];
        let so_far = find_files(&counts, owner);
        proof {
            lemma_files_owned_bound(owners@.take(i as int), owner);
            assert(owners@.take(i + 1).drop_last() == owners@.take(i as int));
        }
        let ghost before = counts@;
        counts.insert(owner, so_far + 1);
        proof {
            assert forall|id: u128| #[trigger] files_of(counts@, id) == files_owned(
                owners@.take(i + 1),
                id,
            ) by {
                assert(files_of(before, id) == files_owned(owners@.take(i as int), id));
                assert(files_owned(owners@.take(i + 1), id) == files_owned(owners@.take(i as int), id)
                    + if owner == id {
                    1nat
                } else {
                    0nat
                });
            }
        }
        i = i + 1;
    }
    assert(owners@.take(owners@.len() as int) == owners@);
    counts
}

/// A lot of the tender.
pub struct LotRow {
    pub id: u128,
    pub seq: i32,
    pub purpose: String,
}

/// An application as the protocol lists it; `applicant_name` is the `name`
/// of the applicant's details when it is a string.
pub struct ApplicationRow {
    pub id: u128,
    pub lot_id: u128,
    pub applicant_name: Option<String>,
    pub status: String,
    pub rejection_reason: Option<String>,
    pub price_amount: Option<crate::announcement::Amount>,
}

/// A personal vote on an application.
pub struct VoteRow {
    pub application_id: u128,
    pub member_name: String,
    pub value: String,
    pub dissent: Option<String>,
}

/// Everything the admission protocol is made of.
pub struct ProtocolInput {
    pub number: String,
    pub tender: TenderSummary,
    pub meeting: MeetingSummary,
    pub members: Vec<MemberRow>,
    pub attendance: Vec<AttendanceMark>,
    pub recusals: Vec<RecusalRow>,
    pub lots: Vec<LotRow>,
    pub records: Vec<ApplicationRow>,
    pub files_count: std::collections::HashMap<u128, usize>,
    pub votes: Vec<VoteRow>,
}

pub struct MemberLine {
    pub name: String,
    pub role: String,
    pub attendance: String,
}

pub struct RecusalLine {
    pub member: String,
    pub scope: String,
    pub reason: String,
    pub replacement: String,
}

pub struct ApplicationLine {
    pub applicant: String,
    pub lot: String,
    pub price: String,
    pub files: usize,
    pub decision: String,
}

pub struct VoteLine {
    pub application: String,
    pub member: String,
    pub value: String,
    pub dissent: String,
}

/// The content of the admission protocol: what is stored with it and what
/// its printed form shows.
pub struct AdmissionProtocol {
    pub number: String,
    pub tender_number: String,
    pub tender_title: String,
    pub commission: String,
    pub scheduled_at: String,
    pub held_at: String,
    pub place: String,
    pub quorum: String,
    pub members: Vec<MemberLine>,
    pub recusals: Vec<RecusalLine>,
    pub applications: Vec<ApplicationLine>,
    pub votes: Vec<VoteLine>,
    pub generated_at: String,
}

/// The place of the meeting, until a source for it exists.
pub open spec fn meeting_place() -> Seq<char> {
    "уточняется юридической службой"@
}

/// The last attendance mark of a member (a later mark overrides an earlier).
pub open spec fn attendance_of(rows: Seq<AttendanceMark>, member: u128) -> Option<AttendanceMark>
    decreases rows.len(),
{
    if rows.len() == 0 {
        None
    } else if rows.last().member_id == member {
        Some(rows.last())
    } else {
        attendance_of(rows.drop_last(), member)
    }
}

pub open spec fn attendance_text(mark: Option<AttendanceMark>) -> Seq<char> {
    match mark {
        Some(m) => if m.chairing {
            "председательствует"@
        } else if m.present {
            "присутствует"@
        } else {
            "отсутствует"@
        },
        None => "-"@,
    }
}

/// The label of a lot: `№<seq> - <purpose>`.
pub open spec fn lot_label_text(lot: LotRow) -> Seq<char> {
    "№"@ + crate::number::signed_decimal(lot.seq as int) + " - "@ + lot.purpose@
}

/// The label of the last lot with this id, if any.
pub open spec fn lot_label_of(lots: Seq<LotRow>, id: u128) -> Option<Seq<char>>
    decreases lots.len(),
{
    if lots.len() == 0 {
        None
    } else if lots.last().id == id {
        Some(lot_label_text(lots.last()))
    } else {
        lot_label_of(lots.drop_last(), id)
    }
}

pub open spec fn opt_text(o: Option<String>) -> Option<Seq<char>> {
    match o {
        Some(s) => Some(s@),
        None => None,
    }
}

pub open spec fn or_text(o: Option<Seq<char>>, default: Seq<char>) -> Seq<char> {
    match o {
        Some(s) => s,
        None => default,
    }
}

/// The applicant of an application, `-` when its details carry no name.
pub open spec fn applicant_text(a: ApplicationRow) -> Seq<char> {
    or_text(opt_text(a.applicant_name), "-"@)
}

/// The label of an application: the applicant and the short number.
pub open spec fn application_label_text(a: ApplicationRow) -> Seq<char> {
    applicant_text(a) + " ("@ + short_number_text(a.id) + ")"@
}

/// The label of the last application with this id, if any.
pub open spec fn application_label_of(records: Seq<ApplicationRow>, id: u128) -> Option<Seq<char>>
    decreases records.len(),
{
    if records.len() == 0 {
        None
    } else if records.last().id == id {
        Some(application_label_text(records.last()))
    } else {
        application_label_of(records.drop_last(), id)
    }
}

/// The file count of an application; an application missing from the
/// counts has none.
pub open spec fn files_of(counts: Map<u128, usize>, id: u128) -> usize {
    if counts.contains_key(id) {
        counts[id]
    } else {
        0
    }
}

/// The decision on an application as the admission protocol words it.
pub open spec fn admission_decision_text(status: Seq<char>, reason: Option<Seq<char>>) -> Seq<char> {
    if status == "admitted"@ {
        "допущена"@
    } else if status == "rejected"@ {
        "отклонена ("@ + or_text(reason, "-"@) + ")"@
    } else if status == "withdrawn"@ {
        "отозвана участником"@
    } else {
        "без решения ("@ + status + ")"@
    }
}

/// The members with a vote: every member but the reserve ones.
pub open spec fn voting_members(members: Seq<MemberRow>) -> nat
    decreases members.len(),
{
    if members.len() == 0 {
        0
    } else {
        voting_members(members.drop_last()) + if members.last().member_role@ == "reserve"@ {
            0nat
        } else {
            1nat
        }
    }
}

/// `<present> из <members with a vote> (требуется <required>)`.
pub open spec fn quorum_text(meeting: MeetingSummary, members: Seq<MemberRow>) -> Seq<char> {
    crate::number::signed_decimal(
        match meeting.quorum_present {
            Some(p) => p as int,
            None => 0,
        },
    ) + " из "@ + crate::number::decimal(voting_members(members)) + " (требуется "@
        + crate::number::signed_decimal(
        match meeting.quorum_required {
            Some(r) => r as int,
            None => 0,
        },
    ) + ")"@
}

pub open spec fn almaty_or_dash(value: Option<i128>) -> Seq<char> {
    match value {
        Some(n) => match almaty_minutes(n) {
            Some(t) => t,
            None => "-"@,
        },
        None => "-"@,
    }
}

pub open spec fn member_line_of(line: MemberLine, m: MemberRow, attendance: Seq<AttendanceMark>) -> bool {
    &&& line.name@ == m.full_name@
    &&& line.role@ == member_role_text(m.member_role@)
    &&& line.attendance@ == attendance_text(attendance_of(attendance, m.id))
}

pub open spec fn recusal_line_of(line: RecusalLine, r: RecusalRow, lots: Seq<LotRow>) -> bool {
    &&& line.member@ == r.full_name@
    &&& line.scope@ == match r.lot_id {
        Some(lot) => or_text(lot_label_of(lots, lot), "весь тендер"@),
        None => "весь тендер"@,
    }
    &&& line.reason@ == r.reason@
    &&& line.replacement@ == or_text(opt_text(r.replacement_name), "-"@)
}

pub open spec fn application_line_of(
    line: ApplicationLine,
    a: ApplicationRow,
    lots: Seq<LotRow>,
    counts: Map<u128, usize>,
) -> bool {
    &&& line.applicant@ == applicant_text(a)
    &&& line.lot@ == or_text(lot_label_of(lots, a.lot_id), "-"@)
    &&& line.price@ == match a.price_amount {
        Some(p) => crate::announcement::ru_amount(p),
        None => "-"@,
    }
    &&& line.files == files_of(counts, a.id)
    &&& line.decision@ == admission_decision_text(a.status@, opt_text(a.rejection_reason))
}

/// How the admission protocol words the decision on an application: an
/// admitted one is «допущена», a rejected one «отклонена (<ground>)» with its
/// ground or `-`, one withdrawn by its participant «отозвана участником».
pub proof fn the_protocol_words_each_decision(
    line: ApplicationLine,
    a: ApplicationRow,
    lots: Seq<LotRow>,
    counts: Map<u128, usize>,
)
    requires
        application_line_of(line, a, lots, counts),
    ensures
        a.status@ == "withdrawn"@ ==> line.decision@ == "отозвана участником"@,
        a.status@ == "admitted"@ ==> line.decision@ == "допущена"@,
        a.status@ == "rejected"@ ==> line.decision@ == "отклонена ("@ + or_text(
            opt_text(a.rejection_reason),
            "-"@,
        ) + ")"@,
{
    reveal_strlit("withdrawn");
    reveal_strlit("admitted");
    reveal_strlit("rejected");
    assert("withdrawn"@[0] == 'w' && "admitted"@[0] == 'a' && "rejected"@[0] == 'r');
}

pub open spec fn vote_line_of(line: VoteLine, v: VoteRow, records: Seq<ApplicationRow>) -> bool {
    &&& line.application@ == or_text(application_label_of(records, v.application_id), "-"@)
    &&& line.member@ == v.member_name@
    &&& line.value@ == if v.value@ == "for"@ {
        "за"@
    } else {
        "против"@
    }
    &&& line.dissent@ == or_text(opt_text(v.dissent), ""@)
}

/// Whether every price of the applications can be held by `rust_decimal`.
pub open spec fn prices_representable(records: Seq<ApplicationRow>) -> bool {
    forall|i: int|
        0 <= i < records.len() ==> match #[trigger] records[i].price_amount {
            Some(p) => p.representable(),
            None => true,
        }
}

fn copy_text(s: &String) -> (c: String)
    ensures
        c@ == s@,
{
    s.clone()
}

fn text_or(o: &Option<String>, default: &str) -> (t: String)
    ensures
        t@ == or_text(opt_text(*o), default@),
{
    match o {
        Some(s) => s.clone(),
        None => default.to_owned(),
    }
}

fn find_attendance(rows: &Vec<AttendanceMark>, member: u128) -> (mark: Option<AttendanceMark>)
    ensures
        mark == attendance_of(rows@, member),
{
    let mut found: Option<AttendanceMark> = None;
    let mut i: usize = 0;
    while i < rows.len()
        invariant
            i <= rows.len(),
            found == attendance_of(rows@.take(i as int), member),
        decreases rows.len() - i,
    {
        assert(rows@.take(i + 1).drop_last() == rows@.take(i as int));
        if rows[i].member_id == member {
            found = Some(rows[i]);
        }
        i = i + 1;
    }
    assert(rows@.take(rows@.len() as int) == rows@);
    found
}

fn attendance_label(mark: Option<AttendanceMark>) -> (t: String)
    ensures
        t@ == attendance_text(mark),
{
    match mark {
        Some(m) => if m.chairing {
            "председательствует".to_owned()
        } else if m.present {
            "присутствует".to_owned()
        } else {
            "отсутствует".to_owned()
        },
        None => "-".to_owned(),
    }
}

fn lot_label(lot: &LotRow) -> (t: String)
    ensures
        t@ == lot_label_text(*lot),
{
    let mut text = chars_of("№");
    let mut digits = crate::number::signed_decimal_digits(lot.seq as i128);
    text.append(&mut digits);
    let mut part = chars_of(" - ");
    text.append(&mut part);
    let mut part = chars_of(lot.purpose.as_str());
    text.append(&mut part);
    string_of(text.as_slice())
}

fn find_lot_label(lots: &Vec<LotRow>, id: u128) -> (label: Option<String>)
    ensures
        opt_text(label) == lot_label_of(lots@, id),
{
    let mut found: Option<String> = None;
    let mut i: usize = 0;
    while i < lots.len()
        invariant
            i <= lots.len(),
            opt_text(found) == lot_label_of(lots@.take(i as int), id),
        decreases lots.len() - i,
    {
        assert(lots@.take(i + 1).drop_last() == lots@.take(i as int));
        if lots[i].id == id {
            found = Some(lot_label(&lots[i]));
        }
        i = i + 1;
    }
    assert(lots@.take(lots@.len() as int) == lots@);
    found
}

fn application_label(a: &ApplicationRow) -> (t: String)
    ensures
        t@ == application_label_text(*a),
{
    let applicant = text_or(&a.applicant_name, "-");
    let mut text = chars_of(applicant.as_str());
    let mut part = chars_of(" (");
    text.append(&mut part);
    let number = short_number(a.id);
    let mut part = chars_of(number.as_str());
    text.append(&mut part);
    let mut part = chars_of(")");
    text.append(&mut part);
    string_of(text.as_slice())
}

fn find_application_label(records: &Vec<ApplicationRow>, id: u128) -> (label: Option<String>)
    ensures
        opt_text(label) == application_label_of(records@, id),
{
    let mut found: Option<String> = None;
    let mut i: usize = 0;
    while i < records.len()
        invariant
            i <= records.len(),
            opt_text(found) == application_label_of(records@.take(i as int), id),
        decreases records.len() - i,
    {
        assert(records@.take(i + 1).drop_last() == records@.take(i as int));
        if records[i].id == id {
            found = Some(application_label(&records[i]));
        }
        i = i + 1;
    }
    assert(records@.take(records@.len() as int) == records@);
    found
}

fn find_files(counts: &std::collections::HashMap<u128, usize>, id: u128) -> (n: usize)
    ensures
        n == files_of(counts@, id),
{
    broadcast use vstd::std_specs::hash::group_hash_axioms;

    match counts.get(&id) {
        Some(n) => *n,
        None => 0,
    }
}

fn admission_decision(status: &String, reason: &Option<String>) -> (t: String)
    ensures
        t@ == admission_decision_text(status@, opt_text(*reason)),
{
    if str_equal(status.as_str(), "admitted") {
        "допущена".to_owned()
    } else if str_equal(status.as_str(), "rejected") {
        let mut text = chars_of("отклонена (");
        let r = text_or(reason, "-");
        let mut part = chars_of(r.as_str());
        text.append(&mut part);
        let mut part = chars_of(")");
        text.append(&mut part);
        string_of(text.as_slice())
    } else if str_equal(status.as_str(), "withdrawn") {
        "отозвана участником".to_owned()
    } else {
        let mut text = chars_of("без решения (");
        let mut part = chars_of(status.as_str());
        text.append(&mut part);
        let mut part = chars_of(")");
        text.append(&mut part);
        string_of(text.as_slice())
    }
}

fn count_voting(members: &Vec<MemberRow>) -> (n: usize)
    ensures
        n == voting_members(members@),
{
    let mut n: usize = 0;
    let mut i: usize = 0;
    while i < members.len()
        invariant
            i <= members.len(),
            n == voting_members(members@.take(i as int)),
            n <= i,
        decreases members.len() - i,
    {
        assert(members@.take(i + 1).drop_last() == members@.take(i as int));
        if !str_equal(members[i].member_role.as_str(), "reserve") {
            n = n + 1;
        }
        i = i + 1;
    }
    assert(members@.take(members@.len() as int) == members@);
    n
}

fn quorum_line(meeting: &MeetingSummary, members: &Vec<MemberRow>) -> (t: String)
    ensures
        t@ == quorum_text(*meeting, members@),
{
    let present: i64 = match meeting.quorum_present {
        Some(p) => p,
        None => 0,
    };
    let required: i64 = match meeting.quorum_required {
        Some(r) => r,
        None => 0,
    };
    let mut text = crate::number::signed_decimal_digits(present as i128);
    let mut part = chars_of(" из ");
    text.append(&mut part);
    let mut part = crate::number::decimal_digits(count_voting(members) as u128);
    text.append(&mut part);
    let mut part = chars_of(" (требуется ");
    text.append(&mut part);
    let mut part = crate::number::signed_decimal_digits(required as i128);
    text.append(&mut part);
    let mut part = chars_of(")");
    text.append(&mut part);
    string_of(text.as_slice())
}

/// The content of the admission protocol: the tender, the meeting and its
/// quorum, each member with role and attendance, the recusals, every
/// application with its lot, price, files and decision, and every vote.
pub fn protocol_content(input: &ProtocolInput) -> (content: AdmissionProtocol)
    requires
        prices_representable(input.records@),
    ensures
        content.number@ == input.number@,
        content.tender_number@ == short_number_text(input.tender.id),
        content.tender_title@ == input.tender.title@,
        content.commission@ == input.meeting.commission_name@,
        content.scheduled_at@ == almaty_or_dash(Some(input.meeting.scheduled_at)),
        content.held_at@ == almaty_or_dash(input.meeting.held_at),
        content.place@ == meeting_place(),
        content.quorum@ == quorum_text(input.meeting, input.members@),
        content.members@.len() == input.members@.len(),
        forall|i: int|
            0 <= i < input.members@.len() ==> member_line_of(
                #[trigger] content.members@[i],
                input.members@[i],
                input.attendance@,
            ),
        content.recusals@.len() == input.recusals@.len(),
        forall|i: int|
            0 <= i < input.recusals@.len() ==> recusal_line_of(
                #[trigger] content.recusals@[i],
                input.recusals@[i],
                input.lots@,
            ),
        content.applications@.len() == input.records@.len(),
        forall|i: int|
            0 <= i < input.records@.len() ==> application_line_of(
                #[trigger] content.applications@[i],
                input.records@[i],
                input.lots@,
                input.files_count@,
            ),
        content.votes@.len() == input.votes@.len(),
        forall|i: int|
            0 <= i < input.votes@.len() ==> vote_line_of(
                #[trigger] content.votes@[i],
                input.votes@[i],
                input.records@,
            ),
        content.generated_at@ == almaty_or_dash(input.meeting.held_at),
{
    let mut members: Vec<MemberLine> = Vec::new();
    let mut i: usize = 0;
    while i < input.members.len()
        invariant
            i <= input.members.len(),
            members@.len() == i,
            forall|j: int|
                0 <= j < i ==> member_line_of(#[trigger] members@[j], input.members@[j], input.attendance@),
        decreases input.members.len() - i,
    {
        let m = &input.members[i];
        let line = MemberLine {
            name: copy_text(&m.full_name),
            role: member_role_ru(m.member_role.as_str()).to_owned(),
            attendance: attendance_label(find_attendance(&input.attendance, m.id)),
        };
        members.push(line);
        i = i + 1;
    }
    let mut recusals: Vec<RecusalLine> = Vec::new();
    let mut i: usize = 0;
    while i < input.recusals.len()
        invariant
            i <= input.recusals.len(),
            recusals@.len() == i,
            forall|j: int|
                0 <= j < i ==> recusal_line_of(#[trigger] recusals@[j], input.recusals@[j], input.lots@),
        decreases input.recusals.len() - i,
    {
        let r = &input.recusals[i];
        let scope = match r.lot_id {
            Some(lot) => match find_lot_label(&input.lots, lot) {
                Some(label) => label,
                None => "весь тендер".to_owned(),
            },
            None => "весь тендер".to_owned(),
        };
        let line = RecusalLine {
            member: copy_text(&r.full_name),
            scope,
            reason: copy_text(&r.reason),
            replacement: text_or(&r.replacement_name, "-"),
        };
        recusals.push(line);
        i = i + 1;
    }
    let mut applications: Vec<ApplicationLine> = Vec::new();
    let mut i: usize = 0;
    while i < input.records.len()
        invariant
            i <= input.records.len(),
            prices_representable(input.records@),
            applications@.len() == i,
            forall|j: int|
                0 <= j < i ==> application_line_of(
                    #[trigger] applications@[j],
                    input.records@[j],
                    input.lots@,
                    input.files_count@,
                ),
        decreases input.records.len() - i,
    {
        let a = &input.records[i];
        let lot = match find_lot_label(&input.lots, a.lot_id) {
            Some(label) => label,
            None => "-".to_owned(),
        };
        let price = match a.price_amount {
            Some(p) => {
                assert(input.records@[i as int].price_amount == Some(p));
                crate::announcement::format_decimal_ru(p)
            },
            None => "-".to_owned(),
        };
        let line = ApplicationLine {
            applicant: text_or(&a.applicant_name, "-"),
            lot,
            price,
            files: find_files(&input.files_count, a.id),
            decision: admission_decision(&a.status, &a.rejection_reason),
        };
        applications.push(line);
        i = i + 1;
    }
    let mut votes: Vec<VoteLine> = Vec::new();
    let mut i: usize = 0;
    while i < input.votes.len()
        invariant
            i <= input.votes.len(),
            votes@.len() == i,
            forall|j: int|
                0 <= j < i ==> vote_line_of(#[trigger] votes@[j], input.votes@[j], input.records@),
        decreases input.votes.len() - i,
    {
        let v = &input.votes[i];
        let application = match find_application_label(&input.records, v.application_id) {
            Some(label) => label,
            None => "-".to_owned(),
        };
        let value = if str_equal(v.value.as_str(), "for") {
            "за".to_owned()
        } else {
            "против".to_owned()
        };
        let line = VoteLine {
            application,
            member: copy_text(&v.member_name),
            value,
            dissent: text_or(&v.dissent, ""),
        };
        votes.push(line);
        i = i + 1;
    }
    AdmissionProtocol {
        number: copy_text(&input.number),
        tender_number: short_number(input.tender.id),
        tender_title: copy_text(&input.tender.title),
        commission: copy_text(&input.meeting.commission_name),
        scheduled_at: format_almaty(Some(input.meeting.scheduled_at)),
        held_at: format_almaty(input.meeting.held_at),
        place: "уточняется юридической службой".to_owned(),
        quorum: quorum_line(&input.meeting, &input.members),
        members,
        recusals,
        applications,
        votes,
        generated_at: format_almaty(input.meeting.held_at),
    }
}

} // verus!
