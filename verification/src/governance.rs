//! The governance contract's decision kernel and vocabulary types: the
//! quorum-and-majority rule that decides an ended proposal's fate.

use vstd::prelude::*;

verus! {

/// Lifecycle state of a proposal.
#[derive(Clone, Copy, Debug, PartialEq, Eq, Structural)]
pub enum ProposalStatus {
    Pending,
    Active,
    Defeated,
    Succeeded,
    Executed,
    Canceled,
}

/// The three ways to cast a ballot.
#[derive(Clone, Copy, Debug, PartialEq, Eq, Structural)]
pub enum VoteType {
    For,
    Against,
    Abstain,
}

pub struct GovernanceContract;

impl GovernanceContract {
    /// Decides an ended proposal from its tallies: it is defeated when
    /// the total turnout misses the quorum or the for-votes do not
    /// strictly exceed the against-votes, and succeeds otherwise.
    /// Abstentions count toward the quorum but not toward the majority.
    pub fn tally_outcome(
        for_votes: i128,
        against_votes: i128,
        abstain_votes: i128,
        quorum: i128,
    ) -> (r: ProposalStatus)
        requires
            0 <= for_votes,
            0 <= against_votes,
            0 <= abstain_votes,
            for_votes + against_votes + abstain_votes <= i128::MAX,
        ensures
            r == (if for_votes + against_votes + abstain_votes < quorum {
                ProposalStatus::Defeated
            } else if for_votes <= against_votes {
                ProposalStatus::Defeated
            } else {
                ProposalStatus::Succeeded
            }),
    {
        let total = for_votes + against_votes + abstain_votes;
        if total < quorum {
            ProposalStatus::Defeated
        } else if for_votes <= against_votes {
            ProposalStatus::Defeated
        } else {
            ProposalStatus::Succeeded
        }
    }
}

} // verus!
