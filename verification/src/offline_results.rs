//! Import of a decision signed offline.
use vstd::prelude::*;

verus! {

/// What the signed offline protocol resolved for a lot.
#[derive(Debug, Clone, Copy, PartialEq, Eq, Structural)]
pub enum OfflineResolution {
    NoApplications,
    Rejected,
    SingleSource,
}

} // verus!
