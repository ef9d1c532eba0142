//! Contracts after the auction: the signing checklist and the pipeline.
use vstd::prelude::*;

verus! {

/// One item of the signing checklist.
pub struct ChecklistItemDto {
    pub item_code: String,
    pub label_ru: String,
    pub rule_ref: String,
    pub checked: bool,
    pub checked_by_name: Option<String>,
}

/// Marks or clears an item of the checklist.
pub struct CheckItemRequest {
    pub item_code: String,
    pub checked: bool,
}

/// The next stage of the contract pipeline (`handed_to_tenant`,
/// `tenant_signed`, ...).
pub struct AdvanceRequest {
    pub stage: String,
}

/// Registration of a signed contract under its journal number.
pub struct RegisterContractRequest {
    pub reg_number: String,
}

} // verus!
