use crate::errors::ErrorCode;
use crate::limits::{fits, MAX_DESCRIPTION_LEN, MAX_NAME_LEN};
use crate::pubkey::Pubkey;
use vstd::prelude::*;

verus! {

/// How an organization weighs its members.
#[derive(Clone, Copy, Debug, PartialEq, Eq, Hash)]
pub enum GovernanceModel {
    TokenBased,
    ReputationBased,
    Hybrid,
}

/// How an organization counts votes.
#[derive(Clone, Copy, Debug, PartialEq, Eq, Hash)]
pub enum VotingModel {
    OneTokenOneVote,
    Quadratic,
    WeightedToken,
    HolderBased,
}

/// How an organization rewards participation.
#[derive(Clone, Copy, Debug, PartialEq, Eq, Hash)]
pub enum RewardModel {
    ProportionalDistribution,
    ContributionBased,
    MilestoneBasedVesting,
    NoRewards,
}

/// The thresholds a vote of an organization is held to.
#[derive(Clone, Copy, Debug, PartialEq, Eq, Hash)]
pub struct VotingThreshold {
    pub quorum_percentage: u8,
    pub approval_percentage: u8,
    pub min_voting_period: u64,
    pub max_voting_period: u64,
}

impl VotingThreshold {
    /// Both percentages are at most 100, and the shortest voting period is
    /// no longer than the longest.
    pub open spec fn valid(self) -> bool {
        &&& self.quorum_percentage <= 100
        &&& self.approval_percentage <= 100
        &&& self.min_voting_period <= self.max_voting_period
    }

    /// Why the thresholds are rejected, if they are: a percentage over 100
    /// comes before a reversed voting period.
    pub open spec fn defect(self) -> Option<ErrorCode> {
        if self.quorum_percentage > 100 || self.approval_percentage > 100 {
            Some(ErrorCode::InvalidThreshold)
        } else if self.min_voting_period > self.max_voting_period {
            Some(ErrorCode::InvalidVotingPeriod)
        } else {
            None
        }
    }

    /// Checks the thresholds.
    pub fn validate(&self) -> (res: Result<(), ErrorCode>)
        ensures
            self.defect() matches Some(e) ==> res == Err::<(), ErrorCode>(e),
            self.defect() is None ==> res is Ok,
            res is Ok <==> self.valid(),
    {
        if self.quorum_percentage > 100 {
            return Err(ErrorCode::InvalidThreshold);
        }
        if self.approval_percentage > 100 {
            return Err(ErrorCode::InvalidThreshold);
        }
        if self.min_voting_period > self.max_voting_period {
            return Err(ErrorCode::InvalidVotingPeriod);
        }
        Ok(())
    }
}

/// An organization: who made it, which asset governs it, what its treasury
/// is known to hold, and its policy.
#[derive(Clone, Debug, PartialEq, Eq)]
pub struct DaoConfig {
    pub dao_seed: u64,
    pub dao_creator: Pubkey,
    pub dao_mint: Pubkey,
    pub bump: u8,
    pub dao_treasury_balance: u64,
    pub dao_name: String,
    pub dao_description: String,
    pub total_proposals: u64,
    pub approved_proposals: u64,
    pub member_count: u64,
    pub governance_model: GovernanceModel,
    pub voting_model: VotingModel,
    pub reward_model: RewardModel,
    pub voting_threshold: VotingThreshold,
}

impl DaoConfig {
    /// The name and the description are within their bounds and the
    /// thresholds are valid.
    pub open spec fn well_formed(self) -> bool {
        &&& fits(self.dao_name@, MAX_NAME_LEN)
        &&& fits(self.dao_description@, MAX_DESCRIPTION_LEN)
        &&& self.voting_threshold.valid()
    }
}

} // verus!
