//! Acts of handover and return of a leased object: the kind of an act as
//! the requests name it, the printed form's content, and where the form is
//! stored.
use vstd::prelude::*;

use crate::admission::{
    almaty_or_dash, format_almaty, opt_text, or_text, short_number, short_number_text, LotRow,
};
use crate::announcement::{format_decimal_ru, ru_amount, Amount};
use crate::bytes::{uuid_chars, uuid_text};
use crate::error::ApiError;
use crate::text::{chars_of, str_equal, string_of};

verus! {

/// The kind of an act: the handover of the object to the tenant, or its
/// return to the landlord.
#[derive(Debug, Clone, Copy, PartialEq, Eq, Structural)]
pub enum ActKind {
    Handover,
    Return,
}

impl ActKind {
    /// The name of the kind in requests and in the database.
    pub open spec fn kind_text(self) -> Seq<char> {
        match self {
            ActKind::Handover => "handover"@,
            ActKind::Return => "return"@,
        }
    }

    /// `handover` or `return`.
    pub fn as_str(&self) -> (name: &'static str)
        ensures
            name@ == self.kind_text(),
    {
        match self {
            ActKind::Handover => "handover",
            ActKind::Return => "return",
        }
    }

    /// The sentence of the form that says who handed the object to whom.
    pub open spec fn transfer_text(self) -> Seq<char> {
        match self {
            ActKind::Handover =>
                "Наймодатель передал, а Наниматель принял во временное владение и пользование указанный ниже объект."@,
            ActKind::Return => "Наниматель возвратил, а Наймодатель принял указанный ниже объект."@,
        }
    }

    /// The sentence of the form that says what the act brings about.
    pub open spec fn effect_text(self) -> Seq<char> {
        match self {
            ActKind::Handover =>
                "С даты настоящего акта начисляется арендная плата по договору (п. 122, 128–129)."@,
            ActKind::Return =>
                "Договор считается исполненным, объект возвращен наймодателю; депозит возвращается в течение 5 рабочих дней при отсутствии претензий (п. 129, 136)."@,
        }
    }
}

/// The kind that a request names, if it names one.
pub open spec fn act_kind_named(name: Seq<char>) -> Option<ActKind> {
    if name == "handover"@ {
        Some(ActKind::Handover)
    } else if name == "return"@ {
        Some(ActKind::Return)
    } else {
        None
    }
}

/// The answer to a request that names no kind of act.
pub open spec fn unknown_kind_message(name: Seq<char>) -> Seq<char> {
    "неизвестный вид акта: "@ + name
}

/// The kind of act that a request names; any other name is refused as
/// invalid data, and the message repeats the name.
pub fn parse_act_kind(name: &str) -> (kind: Result<ActKind, ApiError>)
    ensures
        match act_kind_named(name@) {
            Some(k) => kind == Ok::<ActKind, ApiError>(k),
            None => kind matches Err(ApiError::Validation(m)) && m@ == unknown_kind_message(name@),
        },
{
    if str_equal(name, "handover") {
        Ok(ActKind::Handover)
    } else if str_equal(name, "return") {
        Ok(ActKind::Return)
    } else {
        let mut text = chars_of("неизвестный вид акта: ");
        let mut part = chars_of(name);
        text.append(&mut part);
        Err(ApiError::Validation(string_of(text.as_slice())))
    }
}

/// The purpose of the first lot with this id, if any.
pub open spec fn first_lot_purpose(lots: Seq<LotRow>, id: u128) -> Option<Seq<char>>
    decreases lots.len(),
{
    if lots.len() == 0 {
        None
    } else if lots[0].id == id {
        Some(lots[0].purpose@)
    } else {
        first_lot_purpose(lots.drop_first(), id)
    }
}

/// The purpose of the contract's lot among the tender's lots.
pub open spec fn contract_lot_purpose(lots: Seq<LotRow>, contract_lot: Option<u128>) -> Option<
    Seq<char>,
> {
    match contract_lot {
        Some(id) => first_lot_purpose(lots, id),
        None => None,
    }
}

fn lot_purpose(lots: &Vec<LotRow>, contract_lot: Option<u128>) -> (purpose: Option<String>)
    ensures
        opt_text(purpose) == contract_lot_purpose(lots@, contract_lot),
{
    let id = match contract_lot {
        Some(id) => id,
        None => {
            return None;
        },
    };
    let mut i: usize = 0;
    assert(lots@.skip(0) == lots@);
    while i < lots.len()
        invariant
            i <= lots.len(),
            contract_lot == Some(id),
            first_lot_purpose(lots@, id) == first_lot_purpose(lots@.skip(i as int), id),
        decreases lots.len() - i,
    {
        assert(lots@.skip(i as int).len() > 0);
        assert(lots@.skip(i as int)[0] == lots@[i as int]);
        if lots[i].id == id {
            return Some(lots[i].purpose.clone());
        }
        assert(lots@.skip(i as int).drop_first() == lots@.skip(i + 1));
        i = i + 1;
    }
    assert(lots@.skip(i as int).len() == 0);
    None
}

/// The content of the printed form of an act.
pub struct ActContent {
    pub title: String,
    pub appendix: String,
    pub number: String,
    pub contract_number: String,
    pub act_date: String,
    pub tenant_name: String,
    pub object_name: String,
    pub object_address: String,
    pub object_area: String,
    pub purpose: String,
    pub note: String,
    pub transfer_text: String,
    pub effect_text: String,
    pub generated_at: String,
}

/// What the form of an act shows. `title` and `appendix` are the names
/// that the kind of act carries in the rules; `lots` are the lots of the
/// contract's tender (none when the contract has no tender) and
/// `contract_lot` the contract's lot; `generated_at` is the server's clock
/// when the form is made, in Unix nanoseconds.
///
/// The act's number is the short number of its id; a contract that is not
/// registered yet is `б/н`; the purpose is that of the first of the lots
/// that is the contract's lot, `-` when there is none; a missing note is
/// empty; the sentences on the transfer and on its effect follow the kind.
pub fn act_content(
    kind: ActKind,
    title: String,
    appendix: String,
    act_id: u128,
    contract_reg_number: Option<String>,
    act_date: String,
    tenant_name: String,
    object_name: String,
    object_address: String,
    object_area: Amount,
    lots: &Vec<LotRow>,
    contract_lot: Option<u128>,
    note: Option<String>,
    generated_at: i128,
) -> (c: ActContent)
    requires
        object_area.representable(),
    ensures
        c.title@ == title@,
        c.appendix@ == appendix@,
        c.number@ == short_number_text(act_id),
        c.contract_number@ == or_text(opt_text(contract_reg_number), "б/н"@),
        c.act_date@ == act_date@,
        c.tenant_name@ == tenant_name@,
        c.object_name@ == object_name@,
        c.object_address@ == object_address@,
        c.object_area@ == ru_amount(object_area),
        c.purpose@ == or_text(contract_lot_purpose(lots@, contract_lot), "-"@),
        c.note@ == or_text(opt_text(note), ""@),
        c.transfer_text@ == kind.transfer_text(),
        c.effect_text@ == kind.effect_text(),
        c.generated_at@ == almaty_or_dash(Some(generated_at)),
{
    let contract_number = match contract_reg_number {
        Some(n) => n,
        None => "б/н".to_owned(),
    };
    let purpose = match lot_purpose(lots, contract_lot) {
        Some(p) => p,
        None => "-".to_owned(),
    };
    let note = match note {
        Some(n) => n,
        None => "".to_owned(),
    };
    let (transfer_text, effect_text) = match kind {
        ActKind::Handover => (
            "Наймодатель передал, а Наниматель принял во временное владение и пользование указанный ниже объект.".to_owned(),
            "С даты настоящего акта начисляется арендная плата по договору (п. 122, 128–129).".to_owned(),
        ),
        ActKind::Return => (
            "Наниматель возвратил, а Наймодатель принял указанный ниже объект.".to_owned(),
            "Договор считается исполненным, объект возвращен наймодателю; депозит возвращается в течение 5 рабочих дней при отсутствии претензий (п. 129, 136).".to_owned(),
        ),
    };
    ActContent {
        title,
        appendix,
        number: short_number(act_id),
        contract_number,
        act_date,
        tenant_name,
        object_name,
        object_address,
        object_area: format_decimal_ru(object_area),
        purpose,
        note,
        transfer_text,
        effect_text,
        generated_at: format_almaty(Some(generated_at)),
    }
}

/// Where the form of an act is stored:
/// `contracts/<contract id>/act-<kind>.pdf`.
pub open spec fn act_pdf_key_text(contract_id: u128, kind: ActKind) -> Seq<char> {
    "contracts/"@ + uuid_text(contract_id) + "/act-"@ + kind.kind_text() + ".pdf"@
}

/// The storage key of the form of an act of this kind under a contract.
pub fn act_pdf_key(contract_id: u128, kind: ActKind) -> (key: String)
    ensures
        key@ == act_pdf_key_text(contract_id, kind),
{
    let mut key = chars_of("contracts/");
    let mut part = uuid_chars(contract_id);
    key.append(&mut part);
    let mut part = chars_of("/act-");
    key.append(&mut part);
    let mut part = chars_of(kind.as_str());
    key.append(&mut part);
    let mut part = chars_of(".pdf");
    key.append(&mut part);
    string_of(key.as_slice())
}

} // verus!
