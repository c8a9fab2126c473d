//! The reputation contract's vocabulary types.

use vstd::prelude::*;

verus! {

/// A principal's reputation record.
#[derive(Clone, Copy, Debug, PartialEq, Eq, Structural)]
pub struct ReputationScore {
    pub total_score: u32,
    pub positive_feedback: u32,
    pub negative_feedback: u32,
    pub quests_completed: u32,
    pub contributions: u32,
    pub last_activity: u64,
    pub created_at: u64,
}

/// A reputation level a principal can reach, with what it unlocks.
#[derive(Clone, Copy, Debug, PartialEq, Eq, Structural)]
pub struct Milestone {
    pub level: u32,
    pub score_required: u32,
    pub badge_id: u32,
    pub features_unlocked: u32,
}

} // verus!
