//! The tender commission: roles in its composition, personal votes on
//! applications and the decision that the vote gives.
use vstd::prelude::*;

verus! {

/// A role in the commission (database `core.commission_member_role`).
#[derive(Debug, Clone, Copy, PartialEq, Eq, Structural)]
pub enum MemberRoleDto {
    Chairman,
    Deputy,
    Member,
    Reserve,
}

/// A member's declaration on a conflict of interest before the meeting.
pub struct CoiRequest {
    pub has_conflict: bool,
    pub details: Option<String>,
}

/// A personal vote; abstention does not exist as a value.
#[derive(Debug, Clone, Copy, PartialEq, Eq, Structural)]
pub enum VoteValueDto {
    For,
    Against,
}

pub open spec fn vote_value_name(value: VoteValueDto) -> Seq<char> {
    match value {
        VoteValueDto::For => "for"@,
        VoteValueDto::Against => "against"@,
    }
}

impl VoteValueDto {
    /// The database name of the vote (`core.vote_value`).
    pub fn as_db(self) -> (name: &'static str)
        ensures
            name@ == vote_value_name(self),
    {
        match self {
            VoteValueDto::For => "for",
            VoteValueDto::Against => "against",
        }
    }
}

/// A vote with an optional dissenting opinion, attached to the protocol.
pub struct CastVoteRequest {
    pub value: VoteValueDto,
    pub dissent: Option<String>,
}

/// The decision that a completed vote gives.
#[derive(Debug, Clone, Copy, PartialEq, Eq, Structural)]
pub enum DecisionDto {
    Admitted,
    Rejected,
}

/// The count of the votes on an application.
pub struct TallyDto {
    pub eligible: usize,
    pub votes_for: usize,
    pub votes_against: usize,
    pub chair_vote: Option<VoteValueDto>,
    pub outcome: Option<DecisionDto>,
    pub pending: Option<String>,
}

} // verus!
