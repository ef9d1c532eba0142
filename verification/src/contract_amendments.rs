//! Supplementary agreements to a signed contract: the fields that may change.
use vstd::prelude::*;

verus! {

/// One changed field of an agreement.
pub struct AmendmentChangeDto {
    pub field_code: String,
    pub field_label: String,
    pub old_value: String,
    pub new_value: String,
}

/// One change requested: a field from the closed list, its old and new
/// values.
pub struct AmendmentChangeRequest {
    pub field_code: String,
    pub old_value: String,
    pub new_value: String,
}

/// A new supplementary agreement: its ground, the date it takes effect and
/// at least one change.
pub struct CreateAmendmentRequest {
    pub ground: String,
    pub effective_on: String,
    pub changes: Vec<AmendmentChangeRequest>,
}

/// A field that an agreement may change, from the closed list.
pub struct AmendableFieldDto {
    pub code: String,
    pub label_ru: String,
    pub label_kk: Option<String>,
    pub label_en: Option<String>,
    pub rule_ref: String,
}

} // verus!
