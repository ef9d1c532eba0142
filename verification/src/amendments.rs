//! Amendments of a published tender.
use vstd::prelude::*;

verus! {

/// Cancellation of a tender: only for a breach, never at discretion.
pub struct CancelRequest {
    pub reason: String,
}

} // verus!
