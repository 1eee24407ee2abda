use crate::pubkey::Pubkey;
use vstd::prelude::*;

verus! {

/// The membership of one user in one organization.
#[derive(Clone, Copy, Debug, PartialEq, Eq, Hash)]
pub struct DaoMemberState {
    pub member_seed: u64,
    pub dao_member: Pubkey,
    pub bump: u8,
    pub created_proposals: u64,
    pub approved_proposals: u64,
    pub total_rewards: u64,
    pub total_votes: u64,
    /// What the member held of the organization's asset when the balance
    /// was last read.
    pub dao_member_balance: u64,
    pub dao_joined: Pubkey,
}

} // verus!
