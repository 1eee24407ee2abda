use crate::pubkey::Pubkey;
use vstd::prelude::*;

verus! {

/// The direction of a vote.
#[derive(Clone, Copy, Debug, PartialEq, Eq, Hash)]
pub enum VoteType {
    Yes,
    No,
}

/// The receipt of one voter's vote on one proposal.
#[derive(Clone, Copy, Debug, PartialEq, Eq, Hash)]
pub struct VoteState {
    pub voter: Pubkey,
    pub proposal_id: Pubkey,
    pub vote_seed: u64,
    pub bump: u8,
    pub vote_type: VoteType,
    pub tokens_staked: u64,
    pub claimed: bool,
}

} // verus!
