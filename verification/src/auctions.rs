//! The auction room: requests that steer it and read its bid feed.
use vstd::prelude::*;

verus! {

/// The end of an auction; `early` when all participants agreed to finish.
pub struct FinishRequest {
    pub early: bool,
}

/// The reconnect cursor of the bid feed: bids with a greater number.
pub struct BidsParams {
    pub after_seq: Option<i64>,
}

} // verus!
