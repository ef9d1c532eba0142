//! Land plots: the Board's decision and the reference lists.
use vstd::prelude::*;

verus! {

/// The Board's decision on a land application: `grant` or `refuse`, with
/// its rationale.
pub struct LandDecisionRequest {
    pub decision: String,
    pub rationale: String,
}

/// An entry of a land reference list.
pub struct LandRefdataDto {
    pub code: String,
    pub label_ru: String,
    pub label_kk: Option<String>,
    pub label_en: Option<String>,
    pub rule_ref: String,
}

/// The land reference lists: designations of plots and special covenants.
pub struct LandRefdataResponse {
    pub designations: Vec<LandRefdataDto>,
    pub covenants: Vec<LandRefdataDto>,
}

} // verus!
