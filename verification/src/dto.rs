//! Enum DTOs of the contract, whose values mirror the database enums
//! (snake_case), and the registry cursor. An unknown database value is
//! contract drift: it answers 500 and is reported, never guessed.
use vstd::prelude::*;

pub mod cursor;

use crate::error::ApiError;
use crate::text::{chars_of, str_equal, string_of};

verus! {

/// The message of a database value that no variant names.
pub open spec fn unknown_db_message(kind: Seq<char>, raw: Seq<char>) -> Seq<char> {
    kind + ": неизвестное значение БД '"@ + raw + "' - рассинхрон enum'ов"@
}

/// The internal error of a database value that no variant names.
pub fn unknown_db_value(kind: &str, raw: &str) -> (e: ApiError)
    ensures
        e matches ApiError::Internal(m) && m@ == unknown_db_message(kind@, raw@),
{
    let mut text = chars_of(kind);
    let mut part = chars_of(": неизвестное значение БД '");
    text.append(&mut part);
    let mut part = chars_of(raw);
    text.append(&mut part);
    let mut part = chars_of("' - рассинхрон enum'ов");
    text.append(&mut part);
    ApiError::internal(string_of(text.as_slice()))
}

/// Kind of a property object (database `core.object_kind`).
#[derive(Debug, Clone, Copy, PartialEq, Eq, Structural)]
pub enum ObjectKindDto {
    Building,
    Premises,
    Structure,
    LandPlot,
}

pub open spec fn object_kind_name(kind: ObjectKindDto) -> Seq<char> {
    match kind {
        ObjectKindDto::Building => "building"@,
        ObjectKindDto::Premises => "premises"@,
        ObjectKindDto::Structure => "structure"@,
        ObjectKindDto::LandPlot => "land_plot"@,
    }
}

/// The variant whose database name is `raw`, if any.
pub open spec fn object_kind_from_name(raw: Seq<char>) -> Option<ObjectKindDto> {
    if raw == "building"@ {
        Some(ObjectKindDto::Building)
    } else if raw == "premises"@ {
        Some(ObjectKindDto::Premises)
    } else if raw == "structure"@ {
        Some(ObjectKindDto::Structure)
    } else if raw == "land_plot"@ {
        Some(ObjectKindDto::LandPlot)
    } else {
        None
    }
}


impl ObjectKindDto {
    pub fn as_db(self) -> (name: &'static str)
        ensures
            name@ == object_kind_name(self),
    {
        match self {
            ObjectKindDto::Building => "building",
            ObjectKindDto::Premises => "premises",
            ObjectKindDto::Structure => "structure",
            ObjectKindDto::LandPlot => "land_plot",
        }
    }

    pub fn from_db(raw: &str) -> (result: Result<Self, ApiError>)
        ensures
            match object_kind_from_name(raw@) {
                Some(v) => result == Ok::<_, ApiError>(v),
                None => result matches Err(ApiError::Internal(m)) && m@ == unknown_db_message(
                    "object_kind"@,
                    raw@,
                ),
            },
    {
        if str_equal(raw, "building") {
            Ok(ObjectKindDto::Building)
        } else if str_equal(raw, "premises") {
            Ok(ObjectKindDto::Premises)
        } else if str_equal(raw, "structure") {
            Ok(ObjectKindDto::Structure)
        } else if str_equal(raw, "land_plot") {
            Ok(ObjectKindDto::LandPlot)
        } else {
            Err(unknown_db_value("object_kind", raw))
        }
    }
}

/// Computed status of an object (view `core.object_statuses`).
#[derive(Debug, Clone, Copy, PartialEq, Eq, Structural)]
pub enum ObjectStatusDto {
    Free,
    InTender,
    Leased,
}

pub open spec fn object_status_name(status: ObjectStatusDto) -> Seq<char> {
    match status {
        ObjectStatusDto::Free => "free"@,
        ObjectStatusDto::InTender => "in_tender"@,
        ObjectStatusDto::Leased => "leased"@,
    }
}

/// The variant whose database name is `raw`, if any.
pub open spec fn object_status_from_name(raw: Seq<char>) -> Option<ObjectStatusDto> {
    if raw == "free"@ {
        Some(ObjectStatusDto::Free)
    } else if raw == "in_tender"@ {
        Some(ObjectStatusDto::InTender)
    } else if raw == "leased"@ {
        Some(ObjectStatusDto::Leased)
    } else {
        None
    }
}


impl ObjectStatusDto {
    pub fn as_db(self) -> (name: &'static str)
        ensures
            name@ == object_status_name(self),
    {
        match self {
            ObjectStatusDto::Free => "free",
            ObjectStatusDto::InTender => "in_tender",
            ObjectStatusDto::Leased => "leased",
        }
    }

    pub fn from_db(raw: &str) -> (result: Result<Self, ApiError>)
        ensures
            match object_status_from_name(raw@) {
                Some(v) => result == Ok::<_, ApiError>(v),
                None => result matches Err(ApiError::Internal(m)) && m@ == unknown_db_message(
                    "object_status"@,
                    raw@,
                ),
            },
    {
        if str_equal(raw, "free") {
            Ok(ObjectStatusDto::Free)
        } else if str_equal(raw, "in_tender") {
            Ok(ObjectStatusDto::InTender)
        } else if str_equal(raw, "leased") {
            Ok(ObjectStatusDto::Leased)
        } else {
            Err(unknown_db_value("object_status", raw))
        }
    }
}

/// Status of an application (database `core.application_status`).
#[derive(Debug, Clone, Copy, PartialEq, Eq, Structural)]
pub enum ApplicationStatusDto {
    Submitted,
    Withdrawn,
    FeeConfirmed,
    Admitted,
    Rejected,
}

pub open spec fn application_status_name(status: ApplicationStatusDto) -> Seq<char> {
    match status {
        ApplicationStatusDto::Submitted => "submitted"@,
        ApplicationStatusDto::Withdrawn => "withdrawn"@,
        ApplicationStatusDto::FeeConfirmed => "fee_confirmed"@,
        ApplicationStatusDto::Admitted => "admitted"@,
        ApplicationStatusDto::Rejected => "rejected"@,
    }
}

/// The variant whose database name is `raw`, if any.
pub open spec fn application_status_from_name(raw: Seq<char>) -> Option<ApplicationStatusDto> {
    if raw == "submitted"@ {
        Some(ApplicationStatusDto::Submitted)
    } else if raw == "withdrawn"@ {
        Some(ApplicationStatusDto::Withdrawn)
    } else if raw == "fee_confirmed"@ {
        Some(ApplicationStatusDto::FeeConfirmed)
    } else if raw == "admitted"@ {
        Some(ApplicationStatusDto::Admitted)
    } else if raw == "rejected"@ {
        Some(ApplicationStatusDto::Rejected)
    } else {
        None
    }
}


impl ApplicationStatusDto {
    pub fn from_db(raw: &str) -> (result: Result<Self, ApiError>)
        ensures
            match application_status_from_name(raw@) {
                Some(v) => result == Ok::<_, ApiError>(v),
                None => result matches Err(ApiError::Internal(m)) && m@ == unknown_db_message(
                    "application_status"@,
                    raw@,
                ),
            },
    {
        if str_equal(raw, "submitted") {
            Ok(ApplicationStatusDto::Submitted)
        } else if str_equal(raw, "withdrawn") {
            Ok(ApplicationStatusDto::Withdrawn)
        } else if str_equal(raw, "fee_confirmed") {
            Ok(ApplicationStatusDto::FeeConfirmed)
        } else if str_equal(raw, "admitted") {
            Ok(ApplicationStatusDto::Admitted)
        } else if str_equal(raw, "rejected") {
            Ok(ApplicationStatusDto::Rejected)
        } else {
            Err(unknown_db_value("application_status", raw))
        }
    }
}

/// Kind of applicant (database `core.applicant_kind`).
#[derive(Debug, Clone, Copy, PartialEq, Eq, Structural)]
pub enum ApplicantKindDto {
    Individual,
    LegalEntity,
}

pub open spec fn applicant_kind_name(kind: ApplicantKindDto) -> Seq<char> {
    match kind {
        ApplicantKindDto::Individual => "individual"@,
        ApplicantKindDto::LegalEntity => "legal_entity"@,
    }
}

/// The variant whose database name is `raw`, if any.
pub open spec fn applicant_kind_from_name(raw: Seq<char>) -> Option<ApplicantKindDto> {
    if raw == "individual"@ {
        Some(ApplicantKindDto::Individual)
    } else if raw == "legal_entity"@ {
        Some(ApplicantKindDto::LegalEntity)
    } else {
        None
    }
}


impl ApplicantKindDto {
    pub fn as_db(self) -> (name: &'static str)
        ensures
            name@ == applicant_kind_name(self),
    {
        match self {
            ApplicantKindDto::Individual => "individual",
            ApplicantKindDto::LegalEntity => "legal_entity",
        }
    }

    pub fn from_db(raw: &str) -> (result: Result<Self, ApiError>)
        ensures
            match applicant_kind_from_name(raw@) {
                Some(v) => result == Ok::<_, ApiError>(v),
                None => result matches Err(ApiError::Internal(m)) && m@ == unknown_db_message(
                    "applicant_kind"@,
                    raw@,
                ),
            },
    {
        if str_equal(raw, "individual") {
            Ok(ApplicantKindDto::Individual)
        } else if str_equal(raw, "legal_entity") {
            Ok(ApplicantKindDto::LegalEntity)
        } else {
            Err(unknown_db_value("applicant_kind", raw))
        }
    }
}

/// Kind of a registration journal entry (database `core.journal_entry_kind`).
#[derive(Debug, Clone, Copy, PartialEq, Eq, Structural)]
pub enum JournalEntryKindDto {
    ApplicationSubmitted,
    ApplicationWithdrawn,
}

pub open spec fn journal_entry_kind_name(kind: JournalEntryKindDto) -> Seq<char> {
    match kind {
        JournalEntryKindDto::ApplicationSubmitted => "application_submitted"@,
        JournalEntryKindDto::ApplicationWithdrawn => "application_withdrawn"@,
    }
}

/// The variant whose database name is `raw`, if any.
pub open spec fn journal_entry_kind_from_name(raw: Seq<char>) -> Option<JournalEntryKindDto> {
    if raw == "application_submitted"@ {
        Some(JournalEntryKindDto::ApplicationSubmitted)
    } else if raw == "application_withdrawn"@ {
        Some(JournalEntryKindDto::ApplicationWithdrawn)
    } else {
        None
    }
}


impl JournalEntryKindDto {
    pub fn from_db(raw: &str) -> (result: Result<Self, ApiError>)
        ensures
            match journal_entry_kind_from_name(raw@) {
                Some(v) => result == Ok::<_, ApiError>(v),
                None => result matches Err(ApiError::Internal(m)) && m@ == unknown_db_message(
                    "journal_entry_kind"@,
                    raw@,
                ),
            },
    {
        if str_equal(raw, "application_submitted") {
            Ok(JournalEntryKindDto::ApplicationSubmitted)
        } else if str_equal(raw, "application_withdrawn") {
            Ok(JournalEntryKindDto::ApplicationWithdrawn)
        } else {
            Err(unknown_db_value("journal_entry_kind", raw))
        }
    }
}

/// Status of a tender, the contract mirror of the domain's tender status.
#[derive(Debug, Clone, Copy, PartialEq, Eq, Structural)]
pub enum TenderStatusDto {
    Draft,
    Announced,
    Accepting,
    Qualification,
    Trading,
    SummedUp,
    Contracted,
    Failed,
    RepeatAnnounced,
    Cancelled,
}

pub open spec fn tender_status_name(status: TenderStatusDto) -> Seq<char> {
    match status {
        TenderStatusDto::Draft => "draft"@,
        TenderStatusDto::Announced => "announced"@,
        TenderStatusDto::Accepting => "accepting"@,
        TenderStatusDto::Qualification => "qualification"@,
        TenderStatusDto::Trading => "trading"@,
        TenderStatusDto::SummedUp => "summed_up"@,
        TenderStatusDto::Contracted => "contracted"@,
        TenderStatusDto::Failed => "failed"@,
        TenderStatusDto::RepeatAnnounced => "repeat_announced"@,
        TenderStatusDto::Cancelled => "cancelled"@,
    }
}

/// The variant whose database name is `raw`, if any.
pub open spec fn tender_status_from_name(raw: Seq<char>) -> Option<TenderStatusDto> {
    if raw == "draft"@ {
        Some(TenderStatusDto::Draft)
    } else if raw == "announced"@ {
        Some(TenderStatusDto::Announced)
    } else if raw == "accepting"@ {
        Some(TenderStatusDto::Accepting)
    } else if raw == "qualification"@ {
        Some(TenderStatusDto::Qualification)
    } else if raw == "trading"@ {
        Some(TenderStatusDto::Trading)
    } else if raw == "summed_up"@ {
        Some(TenderStatusDto::SummedUp)
    } else if raw == "contracted"@ {
        Some(TenderStatusDto::Contracted)
    } else if raw == "failed"@ {
        Some(TenderStatusDto::Failed)
    } else if raw == "repeat_announced"@ {
        Some(TenderStatusDto::RepeatAnnounced)
    } else if raw == "cancelled"@ {
        Some(TenderStatusDto::Cancelled)
    } else {
        None
    }
}

impl TenderStatusDto {
    pub fn from_db(raw: &str) -> (result: Result<Self, ApiError>)
        ensures
            match tender_status_from_name(raw@) {
                Some(v) => result == Ok::<_, ApiError>(v),
                None => result matches Err(ApiError::Internal(m)) && m@ == unknown_db_message(
                    "tender_status"@,
                    raw@,
                ),
            },
    {
        if str_equal(raw, "draft") {
            Ok(TenderStatusDto::Draft)
        } else if str_equal(raw, "announced") {
            Ok(TenderStatusDto::Announced)
        } else if str_equal(raw, "accepting") {
            Ok(TenderStatusDto::Accepting)
        } else if str_equal(raw, "qualification") {
            Ok(TenderStatusDto::Qualification)
        } else if str_equal(raw, "trading") {
            Ok(TenderStatusDto::Trading)
        } else if str_equal(raw, "summed_up") {
            Ok(TenderStatusDto::SummedUp)
        } else if str_equal(raw, "contracted") {
            Ok(TenderStatusDto::Contracted)
        } else if str_equal(raw, "failed") {
            Ok(TenderStatusDto::Failed)
        } else if str_equal(raw, "repeat_announced") {
            Ok(TenderStatusDto::RepeatAnnounced)
        } else if str_equal(raw, "cancelled") {
            Ok(TenderStatusDto::Cancelled)
        } else {
            Err(unknown_db_value("tender_status", raw))
        }
    }
}

/// A database name written by `as_db` reads back as the same variant.
pub proof fn object_kind_round_trip(v: ObjectKindDto)
    ensures
        object_kind_from_name(object_kind_name(v)) == Some(v),
{
    reveal_strlit("building");
    reveal_strlit("premises");
    reveal_strlit("structure");
    reveal_strlit("land_plot");
    assert("building"@[0] == 'b');
    assert("building"@[1] == 'u');
    assert("premises"@[0] == 'p');
    assert("premises"@[1] == 'r');
    assert("structure"@[0] == 's');
    assert("structure"@[1] == 't');
    assert("land_plot"@[0] == 'l');
    assert("land_plot"@[1] == 'a');
}

/// A database name written by `as_db` reads back as the same variant.
pub proof fn object_status_round_trip(v: ObjectStatusDto)
    ensures
        object_status_from_name(object_status_name(v)) == Some(v),
{
    reveal_strlit("free");
    reveal_strlit("in_tender");
    reveal_strlit("leased");
    assert("free"@[0] == 'f');
    assert("free"@[1] == 'r');
    assert("in_tender"@[0] == 'i');
    assert("in_tender"@[1] == 'n');
    assert("leased"@[0] == 'l');
    assert("leased"@[1] == 'e');
}

/// The database name of each application status reads back through
/// `from_db` as that status.
pub proof fn application_status_round_trip(v: ApplicationStatusDto)
    ensures
        application_status_from_name(application_status_name(v)) == Some(v),
{
    reveal_strlit("submitted");
    reveal_strlit("withdrawn");
    reveal_strlit("fee_confirmed");
    reveal_strlit("admitted");
    reveal_strlit("rejected");
    assert("submitted"@[0] == 's');
    assert("submitted"@[1] == 'u');
    assert("withdrawn"@[0] == 'w');
    assert("withdrawn"@[1] == 'i');
    assert("fee_confirmed"@[0] == 'f');
    assert("fee_confirmed"@[1] == 'e');
    assert("admitted"@[0] == 'a');
    assert("admitted"@[1] == 'd');
    assert("rejected"@[0] == 'r');
    assert("rejected"@[1] == 'e');
}

/// A database name written by `as_db` reads back as the same variant.
pub proof fn applicant_kind_round_trip(v: ApplicantKindDto)
    ensures
        applicant_kind_from_name(applicant_kind_name(v)) == Some(v),
{
    reveal_strlit("individual");
    reveal_strlit("legal_entity");
    assert("individual"@[0] == 'i');
    assert("individual"@[1] == 'n');
    assert("legal_entity"@[0] == 'l');
    assert("legal_entity"@[1] == 'e');
}

/// The database name of each journal entry kind reads back through
/// `from_db` as that kind.
pub proof fn journal_entry_kind_round_trip(v: JournalEntryKindDto)
    ensures
        journal_entry_kind_from_name(journal_entry_kind_name(v)) == Some(v),
{
    reveal_strlit("application_submitted");
    reveal_strlit("application_withdrawn");
    assert("application_submitted"@[0] == 'a');
    assert("application_submitted"@[1] == 'p');
    assert("application_submitted"@[12] == 's');
    assert("application_withdrawn"@[0] == 'a');
    assert("application_withdrawn"@[1] == 'p');
    assert("application_withdrawn"@[12] == 'w');
}

/// The database name of each tender status reads back through `from_db` as
/// that status.
pub proof fn tender_status_round_trip(v: TenderStatusDto)
    ensures
        tender_status_from_name(tender_status_name(v)) == Some(v),
{
    reveal_strlit("draft");
    reveal_strlit("announced");
    reveal_strlit("accepting");
    reveal_strlit("qualification");
    reveal_strlit("trading");
    reveal_strlit("summed_up");
    reveal_strlit("contracted");
    reveal_strlit("failed");
    reveal_strlit("repeat_announced");
    reveal_strlit("cancelled");
    assert("draft"@[0] == 'd');
    assert("draft"@[1] == 'r');
    assert("announced"@[0] == 'a');
    assert("announced"@[1] == 'n');
    assert("accepting"@[0] == 'a');
    assert("accepting"@[1] == 'c');
    assert("qualification"@[0] == 'q');
    assert("qualification"@[1] == 'u');
    assert("trading"@[0] == 't');
    assert("trading"@[1] == 'r');
    assert("summed_up"@[0] == 's');
    assert("summed_up"@[1] == 'u');
    assert("contracted"@[0] == 'c');
    assert("contracted"@[1] == 'o');
    assert("failed"@[0] == 'f');
    assert("failed"@[1] == 'a');
    assert("repeat_announced"@[0] == 'r');
    assert("repeat_announced"@[1] == 'e');
    assert("cancelled"@[0] == 'c');
    assert("cancelled"@[1] == 'a');
}

} // verus!
