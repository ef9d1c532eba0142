//! The ledger of guarantee payments and refunds.
use vstd::prelude::*;

verus! {

/// The filter of the account list by kind.
pub struct AccountsParams {
    pub kind: Option<String>,
}

/// A page of ledger entries: the cursor of the previous page and a limit.
pub struct EntriesPageParams {
    pub after: Option<String>,
    pub limit: Option<i64>,
}

/// A refund on a ground of the closed list.
pub struct RefundRequest {
    pub reason: String,
    pub note: Option<String>,
}

/// A ground of refund from the closed list.
pub struct RefundReasonDto {
    pub code: String,
    pub label_ru: String,
    pub label_kk: Option<String>,
    pub label_en: Option<String>,
    pub rule_ref: String,
}

/// A note attached to a refund.
pub struct RefundNote {
    pub note: Option<String>,
}

} // verus!
