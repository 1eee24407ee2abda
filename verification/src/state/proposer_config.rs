use crate::limits::{fits, MAX_DESCRIPTION_LEN, MAX_NAME_LEN};
use crate::pubkey::Pubkey;
use vstd::prelude::*;

verus! {

/// A proposal with its tallies, its deadline and what its staking pool is
/// known to hold.
#[derive(Clone, Debug, PartialEq, Eq)]
pub struct ProposalState {
    pub proposal_seed: u64,
    pub proposal_owner: Pubkey,
    pub bump: u8,
    pub proposal_title: String,
    pub proposal_details: String,
    pub proposal_cost: u64,
    pub min_token_stake: u64,
    pub vote_count_yes: u64,
    pub vote_count_no: u64,
    /// The time at which voting ends; 0 once the proposal is finalized.
    pub voting_end_time: i64,
    pub staking_vault_balance: u64,
}

impl ProposalState {
    /// The title and the details are within their bounds.
    pub open spec fn well_formed(self) -> bool {
        &&& fits(self.proposal_title@, MAX_NAME_LEN)
        &&& fits(self.proposal_details@, MAX_DESCRIPTION_LEN)
    }

    /// The proposal has been finalized.
    pub open spec fn finalized(self) -> bool {
        self.voting_end_time == 0
    }

    /// Votes can be cast at time `now`: the proposal is not finalized and
    /// its deadline lies ahead.
    pub open spec fn open_at(self, now: i64) -> bool {
        self.voting_end_time != 0 && now < self.voting_end_time
    }
}

} // verus!
