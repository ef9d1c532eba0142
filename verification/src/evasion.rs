//! A winner who evades signing: the grounds and their declaration.
use vstd::prelude::*;

use crate::admission::{
    almaty_or_dash, format_almaty, meeting_place, member_role_ru, member_role_text, short_number,
    short_number_text, MemberRow, TenderSummary,
};
use crate::announcement::{format_decimal_ru, ru_amount, Amount};
use crate::error::{error_status, ApiError};
use crate::text::{chars_of, str_equal, string_of};

verus! {

/// Declaration of an evasion on a ground of the closed list
/// (`signing_deadline_missed`, `documents_deadline_missed`, `refused`).
pub struct DeclareEvasionRequest {
    pub ground: String,
    pub note: Option<String>,
}

/// A ground of evasion from the closed list.
pub struct EvasionGroundDto {
    pub code: String,
    pub label_ru: String,
    pub label_kk: Option<String>,
    pub label_en: Option<String>,
    pub rule_ref: String,
}


// ------------------------------------------------- protocol on winner No 2

/// A declared evasion: who evaded, in which place (`winner` or
/// `runner_up`, with its Russian title), on which lot, on what ground and
/// when (Unix nanoseconds).
pub struct EvasionRow {
    pub user_name: String,
    pub place: String,
    pub place_title: String,
    pub lot_id: Option<u128>,
    pub ground_label: String,
    pub declared_at: i128,
}

/// A lot with its result.
pub struct LotResultRow {
    pub lot_id: u128,
    pub seq: i32,
    pub object_name: String,
}

/// The runner-up of a lot and its last bid.
pub struct RunnerUpRow {
    pub participant_id: u128,
    pub participant_name: String,
    pub amount: Amount,
}

/// Whether someone in `place` evaded on the lot.
pub open spec fn evaded_on(evasions: Seq<EvasionRow>, lot: u128, place: Seq<char>) -> bool {
    exists|i: int|
        0 <= i < evasions.len() && #[trigger] evasions[i].lot_id == Some(lot) && evasions[i].place@
            == place
}

/// A lot passes to the runner-up when its winner evaded, it has a
/// runner-up, and the runner-up did not evade as well.
pub open spec fn passes_to_runner_up(
    evasions: Seq<EvasionRow>,
    lot: LotResultRow,
    runner_up: Option<RunnerUpRow>,
) -> bool {
    &&& evaded_on(evasions, lot.lot_id, "winner"@)
    &&& runner_up is Some
    &&& !evaded_on(evasions, lot.lot_id, "runner_up"@)
}

/// The indices of the lots, in order, that pass to the runner-up among the
/// first `n`.
pub open spec fn passing_lots(
    evasions: Seq<EvasionRow>,
    lots: Seq<LotResultRow>,
    runner_ups: Seq<Option<RunnerUpRow>>,
    n: nat,
) -> Seq<int>
    decreases n,
{
    if n == 0 {
        Seq::empty()
    } else {
        let i = (n - 1) as int;
        passing_lots(evasions, lots, runner_ups, (n - 1) as nat) + if passes_to_runner_up(
            evasions,
            lots[i],
            runner_ups[i],
        ) {
            seq![i]
        } else {
            Seq::empty()
        }
    }
}

/// A lot of the protocol: its number, object, the runner-up and the amount.
pub struct Winner2LotLine {
    pub seq: i32,
    pub object: String,
    pub runner_up: String,
    pub amount: String,
}

/// Whom the runner-up offer goes to: the lot and its runner-up.
pub struct RunnerUpOffer {
    pub lot_id: u128,
    pub seq: i32,
    pub participant_id: u128,
    pub amount: Amount,
}

pub open spec fn winner2_line_of(line: Winner2LotLine, lot: LotResultRow, r: RunnerUpRow) -> bool {
    &&& line.seq == lot.seq
    &&& line.object@ == lot.object_name@
    &&& line.runner_up@ == r.participant_name@
    &&& line.amount@ == ru_amount(r.amount)
}

pub open spec fn offer_of(offer: RunnerUpOffer, lot: LotResultRow, r: RunnerUpRow) -> bool {
    &&& offer.lot_id == lot.lot_id
    &&& offer.seq == lot.seq
    &&& offer.participant_id == r.participant_id
    &&& offer.amount == r.amount
}

fn evaded(evasions: &Vec<EvasionRow>, lot: u128, place: &str) -> (found: bool)
    ensures
        found == evaded_on(evasions@, lot, place@),
{
    let mut i: usize = 0;
    while i < evasions.len()
        invariant
            i <= evasions.len(),
            forall|j: int|
                0 <= j < i ==> !(#[trigger] evasions@[j].lot_id == Some(lot) && evasions@[j].place@
                    == place@),
        decreases evasions.len() - i,
    {
        let e = &evasions[i];
        let same_lot = match e.lot_id {
            Some(l) => l == lot,
            None => false,
        };
        if same_lot && str_equal(e.place.as_str(), place) {
            return true;
        }
        i = i + 1;
    }
    false
}

/// The refusal when nobody evaded.
pub open spec fn no_evasion_message() -> Seq<char> {
    "протокол о победителе № 2 оформляется после признания уклонения (п. 116–117)"@
}

/// The protocol on winner No 2 is drawn up only after an evasion was
/// declared; otherwise the request is refused by a rule (409), under `rule`,
/// the machine name the domain's catalogue files this refusal under.
pub fn require_evasion(evasions: &Vec<EvasionRow>, rule: &str) -> (result: Result<(), ApiError>)
    ensures
        result is Ok <==> evasions@.len() > 0,
        result matches Err(e) ==> (e matches ApiError::RuleViolation(r) && r.rule@ == rule@
            && r.internal@ == no_evasion_message()),
        result matches Err(e) ==> error_status(e) == 409,
{
    if evasions.len() == 0 {
        Err(
            ApiError::rule(
                rule.to_owned(),
                "протокол о победителе № 2 оформляется после признания уклонения (п. 116–117)".to_owned(),
            ),
        )
    } else {
        Ok(())
    }
}

/// The lots that pass to their runner-ups, with the offers that go out:
/// `runner_ups[i]` is the runner-up of `lots[i]`.
pub fn runner_up_lots(
    evasions: &Vec<EvasionRow>,
    lots: &Vec<LotResultRow>,
    runner_ups: &Vec<Option<RunnerUpRow>>,
) -> (result: (Vec<Winner2LotLine>, Vec<RunnerUpOffer>))
    requires
        lots@.len() == runner_ups@.len(),
        forall|i: int|
            0 <= i < runner_ups@.len() ==> match #[trigger] runner_ups@[i] {
                Some(r) => r.amount.representable(),
                None => true,
            },
    ensures
        ({
            let picked = passing_lots(evasions@, lots@, runner_ups@, lots@.len() as nat);
            &&& result.0@.len() == picked.len()
            &&& result.1@.len() == picked.len()
            &&& forall|k: int|
                0 <= k < picked.len() ==> winner2_line_of(
                    #[trigger] result.0@[k],
                    lots@[picked[k]],
                    runner_ups@[picked[k]]->0,
                ) && offer_of(result.1@[k], lots@[picked[k]], runner_ups@[picked[k]]->0)
        }),
{
    let mut lines: Vec<Winner2LotLine> = Vec::new();
    let mut offers: Vec<RunnerUpOffer> = Vec::new();
    let mut i: usize = 0;
    while i < lots.len()
        invariant
            i <= lots.len(),
            lots@.len() == runner_ups@.len(),
            forall|j: int|
                0 <= j < runner_ups@.len() ==> match #[trigger] runner_ups@[j] {
                    Some(r) => r.amount.representable(),
                    None => true,
                },
            ({
                let picked = passing_lots(evasions@, lots@, runner_ups@, i as nat);
                &&& lines@.len() == picked.len()
                &&& offers@.len() == picked.len()
                &&& forall|k: int| 0 <= k < picked.len() ==> 0 <= #[trigger] picked[k] < i
                &&& forall|k: int|
                    0 <= k < picked.len() ==> winner2_line_of(
                        #[trigger] lines@[k],
                        lots@[picked[k]],
                        runner_ups@[picked[k]]->0,
                    ) && offer_of(offers@[k], lots@[picked[k]], runner_ups@[picked[k]]->0)
                        && runner_ups@[picked[k]] is Some
            }),
        decreases lots.len() - i,
    {
        let lot = &lots[i];
        let winner_evaded = evaded(evasions, lot.lot_id, "winner");
        let runner_up_evaded = evaded(evasions, lot.lot_id, "runner_up");
        let ghost prev = passing_lots(evasions@, lots@, runner_ups@, i as nat);
        let ghost old_lines = lines@;
        let ghost old_offers = offers@;
        let ghost passes = passes_to_runner_up(evasions@, lots@[i as int], runner_ups@[i as int]);
        proof {
            let next = passing_lots(evasions@, lots@, runner_ups@, (i + 1) as nat);
            if passes {
                assert(next =~= prev.push(i as int));
            } else {
                assert(next =~= prev);
            }
        }
        if winner_evaded && !runner_up_evaded {
            match &runner_ups[i] {
                Some(r) => {
                    assert(runner_ups@[i as int] == Some(*r));
                    assert(passes);
                    lines.push(Winner2LotLine {
                        seq: lot.seq,
                        object: lot.object_name.clone(),
                        runner_up: r.participant_name.clone(),
                        amount: format_decimal_ru(r.amount),
                    });
                    offers.push(RunnerUpOffer {
                        lot_id: lot.lot_id,
                        seq: lot.seq,
                        participant_id: r.participant_id,
                        amount: r.amount,
                    });
                    proof {
                        let next = passing_lots(evasions@, lots@, runner_ups@, (i + 1) as nat);
                        assert(next[next.len() - 1] == i as int);
                        assert forall|k: int| 0 <= k < next.len() implies winner2_line_of(
                            #[trigger] lines@[k],
                            lots@[next[k]],
                            runner_ups@[next[k]]->0,
                        ) && offer_of(offers@[k], lots@[next[k]], runner_ups@[next[k]]->0)
                            && runner_ups@[next[k]] is Some by {
                            if k < prev.len() {
                                assert(next[k] == prev[k]);
                                assert(lines@[k] == old_lines[k]);
                                assert(offers@[k] == old_offers[k]);
                                assert(winner2_line_of(old_lines[k], lots@[prev[k]], runner_ups@[prev[k]]->0));
                            } else {
                                assert(k == prev.len());
                                assert(next[k] == i as int);
                                assert(lines@[k] == lines@.last());
                            }
                        }
                    }
                },
                None => {
                    assert(!passes);
                },
            }
        } else {
            assert(!passes);
        }
        i = i + 1;
    }
    (lines, offers)
}

/// A declared evasion as the protocol lists it.
pub struct EvasionLine {
    pub name: String,
    pub place: String,
    pub ground: String,
    pub declared_at: String,
}

pub struct Winner2MemberLine {
    pub name: String,
    pub role: String,
}

/// The content of the protocol on winner No 2.
pub struct Winner2Protocol {
    pub number: String,
    pub tender_number: String,
    pub tender_title: String,
    pub commission: String,
    pub held_at: String,
    pub place: String,
    pub deadline: String,
    pub evasions: Vec<EvasionLine>,
    pub lots: Vec<Winner2LotLine>,
    pub members: Vec<Winner2MemberLine>,
    pub generated_at: String,
}

/// The number of the protocol: `У-` and the tender's short number.
pub open spec fn winner2_protocol_number(tender: u128) -> Seq<char> {
    "У-"@ + short_number_text(tender)
}

pub open spec fn evasion_line_of(line: EvasionLine, e: EvasionRow) -> bool {
    &&& line.name@ == e.user_name@
    &&& line.place@ == e.place_title@
    &&& line.ground@ == e.ground_label@
    &&& line.declared_at@ == almaty_or_dash(Some(e.declared_at))
}

pub open spec fn winner2_member_line_of(line: Winner2MemberLine, m: MemberRow) -> bool {
    &&& line.name@ == m.full_name@
    &&& line.role@ == member_role_text(m.member_role@)
}

/// The content of the protocol on winner No 2: its number, the tender, the
/// meeting, every declared evasion, the lots that passed, the members and
/// when it was generated (Unix nanoseconds, by the server's clock).
pub fn winner2_protocol_content(
    tender: &TenderSummary,
    commission_name: &String,
    scheduled_at: i128,
    held_at: Option<i128>,
    deadline: i128,
    evasions: &Vec<EvasionRow>,
    lots: Vec<Winner2LotLine>,
    members: &Vec<MemberRow>,
    generated_at: i128,
) -> (content: Winner2Protocol)
    ensures
        content.number@ == winner2_protocol_number(tender.id),
        content.tender_number@ == short_number_text(tender.id),
        content.tender_title@ == tender.title@,
        content.commission@ == commission_name@,
        content.held_at@ == almaty_or_dash(
            Some(
                match held_at {
                    Some(h) => h,
                    None => scheduled_at,
                },
            ),
        ),
        content.place@ == meeting_place(),
        content.deadline@ == almaty_or_dash(Some(deadline)),
        content.evasions@.len() == evasions@.len(),
        forall|i: int|
            0 <= i < evasions@.len() ==> evasion_line_of(#[trigger] content.evasions@[i], evasions@[i]),
        content.lots@ == lots@,
        content.members@.len() == members@.len(),
        forall|i: int|
            0 <= i < members@.len() ==> winner2_member_line_of(
                #[trigger] content.members@[i],
                members@[i],
            ),
        content.generated_at@ == almaty_or_dash(Some(generated_at)),
{
    let tender_number = short_number(tender.id);
    let mut number = chars_of("У-");
    let mut part = chars_of(tender_number.as_str());
    number.append(&mut part);
    let mut lines: Vec<EvasionLine> = Vec::new();
    let mut i: usize = 0;
    while i < evasions.len()
        invariant
            i <= evasions.len(),
            lines@.len() == i,
            forall|j: int| 0 <= j < i ==> evasion_line_of(#[trigger] lines@[j], evasions@[j]),
        decreases evasions.len() - i,
    {
        let e = &evasions[i];
        lines.push(EvasionLine {
            name: e.user_name.clone(),
            place: e.place_title.clone(),
            ground: e.ground_label.clone(),
            declared_at: format_almaty(Some(e.declared_at)),
        });
        i = i + 1;
    }
    let mut member_lines: Vec<Winner2MemberLine> = Vec::new();
    let mut i: usize = 0;
    while i < members.len()
        invariant
            i <= members.len(),
            member_lines@.len() == i,
            forall|j: int| 0 <= j < i ==> winner2_member_line_of(#[trigger] member_lines@[j], members@[j]),
        decreases members.len() - i,
    {
        let m = &members[i];
        member_lines.push(Winner2MemberLine {
            name: m.full_name.clone(),
            role: member_role_ru(m.member_role.as_str()).to_owned(),
        });
        i = i + 1;
    }
    let held = match held_at {
        Some(h) => h,
        None => scheduled_at,
    };
    Winner2Protocol {
        number: string_of(number.as_slice()),
        tender_number,
        tender_title: tender.title.clone(),
        commission: commission_name.clone(),
        held_at: format_almaty(Some(held)),
        place: "уточняется юридической службой".to_owned(),
        deadline: format_almaty(Some(deadline)),
        evasions: lines,
        lots,
        members: member_lines,
        generated_at: format_almaty(Some(generated_at)),
    }
}

} // verus!
