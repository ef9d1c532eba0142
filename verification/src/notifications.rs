//! The notifications of a user.
use vstd::prelude::*;

verus! {

/// How many notifications are unread.
pub struct UnreadCountDto {
    pub count: i64,
}

/// How many notifications were marked read.
pub struct MarkReadResponse {
    pub updated: u64,
}

} // verus!
