//! Manual PDF documents of the commission, distinct from generated protocols
//! and electronic votes: the checks on an upload's metadata and file, and the
//! storage key of a document.
use vstd::prelude::*;

use crate::bytes::{uuid_chars, uuid_text};
use crate::error::ApiError;
use crate::text::{chars_of, is_control, is_control_char, string_of, trim_chars, trimmed};

verus! {

/// Whether some character of `s` is a control character.
pub open spec fn has_control(s: Seq<char>) -> bool {
    exists|i: int| 0 <= i < s.len() && is_control(#[trigger] s[i])
}

/// A metadata field is accepted when, trimmed, it is non-empty, at most `max`
/// characters long and free of control characters.
pub open spec fn metadata_accepted(value: Seq<char>, max: nat) -> bool {
    let t = trimmed(value);
    &&& t.len() > 0
    &&& t.len() <= max
    &&& !has_control(t)
}

/// The rejection of a metadata field.
pub open spec fn metadata_rejection() -> Seq<char> {
    "invalid document metadata"@
}

/// Whether some character of `s` is a control character.
fn any_control(s: &[char]) -> (found: bool)
    ensures
        found == has_control(s@),
{
    let mut i: usize = 0;
    while i < s.len()
        invariant
            i <= s.len(),
            forall|j: int| 0 <= j < i ==> !is_control(#[trigger] s@[j]),
        decreases s.len() - i,
    {
        if is_control_char(s[i]) {
            assert(is_control(s@[i as int]));
            return true;
        }
        i = i + 1;
    }
    false
}

/// A metadata field, trimmed; refused when blank, longer than `max`
/// characters or holding a control character.
pub fn text(value: &str, max: usize) -> (result: Result<String, ApiError>)
    ensures
        match result {
            Ok(t) => metadata_accepted(value@, max as nat) && t@ == trimmed(value@),
            Err(e) => !metadata_accepted(value@, max as nat) && (e matches ApiError::Validation(m)
                && m@ == metadata_rejection()),
        },
{
    let chars = chars_of(value);
    let t = trim_chars(chars.as_slice());
    if t.len() == 0 || t.len() > max || any_control(t.as_slice()) {
        return Err(ApiError::Validation("invalid document metadata".to_owned()));
    }
    Ok(string_of(t.as_slice()))
}

/// A calendar date: year, month (1 to 12) and day of the month.
#[derive(Debug, Clone, Copy, PartialEq, Eq, Structural)]
pub struct CalendarDate {
    pub year: i32,
    pub month: u8,
    pub day: u8,
}

/// What `time::Date::parse` reads from a text with the format description
/// `format`, as the date's parts.
pub uninterp spec fn date_parsed(raw: Seq<char>, format: Seq<char>) -> Option<CalendarDate>;

/// `time::Date::parse(raw, format)`, the date as its parts; `None` when
/// `time` refuses the description or the text.
#[verifier::external_body]
fn parse_date(raw: &str, format: &str) -> (date: Option<CalendarDate>)
    ensures
        date == date_parsed(raw@, format@),
{
    let description = time::format_description::parse_borrowed::<1>(format).ok()?;
    let date = time::Date::parse(raw, &description).ok()?;
    Some(CalendarDate { year: date.year(), month: u8::from(date.month()), day: date.day() })
}

/// A calendar date written `[year]-[month]-[day]`, as `time` reads it.
pub open spec fn calendar_date_parsed(raw: Seq<char>) -> Option<CalendarDate> {
    date_parsed(raw, "[year]-[month]-[day]"@)
}

/// A calendar date written `[year]-[month]-[day]`, if it is one.
fn parse_calendar_date(raw: &str) -> (date: Option<CalendarDate>)
    ensures
        date == calendar_date_parsed(raw@),
{
    parse_date(raw, "[year]-[month]-[day]")
}

/// The query of an upload: the document's target and its metadata.
pub struct UploadCommissionDocument {
    pub application_id: Option<u128>,
    pub title: String,
    pub number: String,
    pub document_date: String,
}

/// The metadata of an upload once checked.
pub struct DocumentMetadata {
    pub title: String,
    pub number: String,
    pub document_date: CalendarDate,
}

/// The longest title, in characters.
pub const MAX_TITLE_CHARS: usize = 200;

/// The longest document number, in characters.
pub const MAX_NUMBER_CHARS: usize = 100;

/// The rejection of a document date.
pub open spec fn date_rejection() -> Seq<char> {
    "invalid document date"@
}

/// Checks an upload's metadata in the order the handler does: title, then
/// number, then date.
pub fn upload_metadata(meta: &UploadCommissionDocument) -> (result: Result<
    DocumentMetadata,
    ApiError,
>)
    ensures
        !metadata_accepted(meta.title@, 200) ==> (result matches Err(ApiError::Validation(m))
            && m@ == metadata_rejection()),
        metadata_accepted(meta.title@, 200) && !metadata_accepted(meta.number@, 100)
            ==> (result matches Err(ApiError::Validation(m)) && m@ == metadata_rejection()),
        metadata_accepted(meta.title@, 200) && metadata_accepted(meta.number@, 100)
            && calendar_date_parsed(meta.document_date@) is None ==> (result matches Err(
            ApiError::Validation(m),
        ) && m@ == date_rejection()),
        result matches Ok(d) ==> {
            &&& metadata_accepted(meta.title@, 200)
            &&& metadata_accepted(meta.number@, 100)
            &&& d.title@ == trimmed(meta.title@)
            &&& d.number@ == trimmed(meta.number@)
            &&& calendar_date_parsed(meta.document_date@) == Some(d.document_date)
        },
        metadata_accepted(meta.title@, 200) && metadata_accepted(meta.number@, 100)
            && calendar_date_parsed(meta.document_date@) is Some ==> result is Ok,
{
    let title = text(meta.title.as_str(), MAX_TITLE_CHARS)?;
    let number = text(meta.number.as_str(), MAX_NUMBER_CHARS)?;
    match parse_calendar_date(meta.document_date.as_str()) {
        Some(document_date) => Ok(DocumentMetadata { title, number, document_date }),
        None => Err(ApiError::Validation("invalid document date".to_owned())),
    }
}

/// The rejection of a file that is not a PDF.
pub open spec fn pdf_rejection() -> Seq<char> {
    "PDF required"@
}

/// An uploaded file is accepted only with the content type `application/pdf`.
pub fn require_pdf(content_type: &str) -> (result: Result<(), ApiError>)
    ensures
        result is Ok <==> content_type@ == "application/pdf"@,
        result matches Err(e) ==> e matches ApiError::Validation(m) && m@ == pdf_rejection(),
{
    let given = chars_of(content_type);
    let pdf = chars_of("application/pdf");
    if crate::text::chars_equal(given.as_slice(), pdf.as_slice()) {
        Ok(())
    } else {
        Err(ApiError::Validation("PDF required".to_owned()))
    }
}

/// The storage key of a document: `commission-documents/{tender}/{id}.pdf`.
pub open spec fn document_key(tender_id: u128, id: u128) -> Seq<char> {
    "commission-documents/"@ + uuid_text(tender_id) + "/"@ + uuid_text(id) + ".pdf"@
}

/// The storage key of a document.
pub fn commission_document_key(tender_id: u128, id: u128) -> (key: String)
    ensures
        key@ == document_key(tender_id, id),
{
    let mut key = chars_of("commission-documents/");
    let mut part = uuid_chars(tender_id);
    key.append(&mut part);
    let mut part = chars_of("/");
    key.append(&mut part);
    let mut part = uuid_chars(id);
    key.append(&mut part);
    let mut part = chars_of(".pdf");
    key.append(&mut part);
    string_of(key.as_slice())
}

/// The request that shares a document with the participant or withdraws it.
pub struct ShareCommissionDocument {
    pub shared: bool,
}

} // verus!
