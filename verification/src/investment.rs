//! Investment contracts: their attachments and their extension.
use vstd::prelude::*;

use crate::bytes::{uuid_chars, uuid_text};
use crate::text::{chars_of, str_equal, string_of};

verus! {

/// An attachment of an investment contract, from the closed list.
pub struct InvestmentAttachmentDto {
    pub code: String,
    pub ordinal: i32,
    pub label_ru: String,
    pub label_kk: Option<String>,
    pub label_en: Option<String>,
    pub rule_ref: String,
}

/// Extension of an investment contract: `three_years` or `prolongation`,
/// with the months of a prolongation.
pub struct ExtendInvestmentRequest {
    pub extension: String,
    pub months: Option<i32>,
}

/// A document of the closed list that an investment contract needs.
#[derive(Debug, Clone, Copy, PartialEq, Eq, Structural)]
pub enum InvestmentAttachment {
    Estimate,
    Schedule,
    Appraisal,
    Guarantee,
}

pub open spec fn attachment_label_text(a: InvestmentAttachment) -> Seq<char> {
    match a {
        InvestmentAttachment::Estimate => "Смета инвестиционного проекта"@,
        InvestmentAttachment::Schedule => "График выполнения работ"@,
        InvestmentAttachment::Appraisal => "Заключение оценщика"@,
        InvestmentAttachment::Guarantee => "Гарантия исполнения обязательств"@,
    }
}

/// The Russian caption of an attachment in the printed contract.
pub fn attachment_label_ru(attachment: InvestmentAttachment) -> (label: &'static str)
    ensures
        label@ == attachment_label_text(attachment),
        label@.len() > 0,
{
    proof {
        reveal_strlit("Смета инвестиционного проекта");
        reveal_strlit("График выполнения работ");
        reveal_strlit("Заключение оценщика");
        reveal_strlit("Гарантия исполнения обязательств");
    }
    match attachment {
        InvestmentAttachment::Estimate => "Смета инвестиционного проекта",
        InvestmentAttachment::Schedule => "График выполнения работ",
        InvestmentAttachment::Appraisal => "Заключение оценщика",
        InvestmentAttachment::Guarantee => "Гарантия исполнения обязательств",
    }
}

/// The name under which an uploaded attachment is kept: the client's file
/// name, `attachment` without one, cut to 255 characters.
pub open spec fn attachment_file_name_text(raw: Option<Seq<char>>) -> Seq<char> {
    let name = match raw {
        Some(n) => n,
        None => "attachment"@,
    };
    if name.len() <= 255 {
        name
    } else {
        name.take(255)
    }
}

/// The kept name of an uploaded attachment.
pub fn attachment_file_name(raw: Option<&str>) -> (name: String)
    ensures
        name@ == attachment_file_name_text(
            match raw {
                Some(n) => Some(n@),
                None => None,
            },
        ),
{
    let chars = match raw {
        Some(n) => chars_of(n),
        None => chars_of("attachment"),
    };
    let mut kept: Vec<char> = Vec::new();
    let mut i: usize = 0;
    while i < chars.len() && i < 255
        invariant
            i <= chars@.len(),
            i <= 255,
            kept@ == chars@.take(i as int),
        decreases chars.len() - i,
    {
        kept.push(chars[i]);
        proof {
            assert(chars@.take(i + 1) == chars@.take(i as int).push(chars@[i as int]));
        }
        i = i + 1;
    }
    proof {
        if chars@.len() <= 255 {
            assert(chars@.take(chars@.len() as int) == chars@);
        }
    }
    string_of(kept.as_slice())
}

/// The storage key of an attachment: `investment-contracts/<contract>/<code>`.
pub open spec fn attachment_key_text(contract_id: u128, code: Seq<char>) -> Seq<char> {
    "investment-contracts/"@ + uuid_text(contract_id) + "/"@ + code
}

/// The storage key of an attachment.
pub fn attachment_key(contract_id: u128, code: &str) -> (key: String)
    ensures
        key@ == attachment_key_text(contract_id, code@),
{
    let mut key = chars_of("investment-contracts/");
    let mut part = uuid_chars(contract_id);
    key.append(&mut part);
    let mut part = chars_of("/");
    key.append(&mut part);
    let mut part = chars_of(code);
    key.append(&mut part);
    string_of(key.as_slice())
}

/// Whether `code` is among the attached codes.
pub open spec fn attached(codes: Seq<Seq<char>>, code: Seq<char>) -> bool {
    codes.contains(code)
}

/// The codes of the list, in its order, that are not attached yet.
pub open spec fn missing_of(list: Seq<Seq<char>>, codes: Seq<Seq<char>>, n: nat) -> Seq<Seq<char>>
    decreases n,
{
    if n == 0 {
        Seq::empty()
    } else {
        missing_of(list, codes, (n - 1) as nat) + if attached(codes, list[n - 1]) {
            Seq::empty()
        } else {
            seq![list[n - 1]]
        }
    }
}

pub open spec fn texts(v: Seq<String>) -> Seq<Seq<char>> {
    v.map_values(|s: String| s@)
}

fn is_attached(codes: &Vec<String>, code: &String) -> (found: bool)
    ensures
        found == attached(texts(codes@), code@),
{
    let mut i: usize = 0;
    while i < codes.len()
        invariant
            i <= codes@.len(),
            forall|j: int| 0 <= j < i ==> texts(codes@)[j] != code@,
        decreases codes.len() - i,
    {
        if str_equal(codes[i].as_str(), code.as_str()) {
            assert(texts(codes@)[i as int] == code@);
            return true;
        }
        i = i + 1;
    }
    false
}

/// The documents of the closed list that are still missing: without them
/// the contract is not signed.
pub fn missing_attachments(list: &Vec<String>, attached_codes: &Vec<String>) -> (missing: Vec<String>)
    ensures
        texts(missing@) == missing_of(texts(list@), texts(attached_codes@), list@.len() as nat),
{
    let mut missing: Vec<String> = Vec::new();
    let mut i: usize = 0;
    while i < list.len()
        invariant
            i <= list@.len(),
            texts(missing@) == missing_of(texts(list@), texts(attached_codes@), i as nat),
        decreases list.len() - i,
    {
        let ghost before = missing@;
        if !is_attached(attached_codes, &list[i]) {
            missing.push(list[i].clone());
            assert(texts(missing@) == texts(before).push(list[i as int]@));
        }
        i = i + 1;
    }
    missing
}

} // verus!
