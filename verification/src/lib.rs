//! A governance engine for token-holder organizations on a platform: the
//! platform's record, organizations, memberships, proposals, staked votes
//! and the rewards on them.
//!
//! The engine keeps records and decides; it holds no tokens and stores
//! nothing. An operation is given the records and the ledger sub-accounts
//! that it touches, as they were read, and the place of each record that it
//! is to create, empty or not. It checks, updates the records, books the
//! transfers on the sub-accounts and returns the instructions for the
//! ledger. A rejected operation changes nothing.
//!
//! Which record stands at which address, and who signed, is for the caller
//! to settle: the engine compares the identities it is given.
//!
//! The operations are the functions of [`processor`]: setting up and
//! updating the platform, creating and updating an organization, joining
//! one and updating a membership, making a proposal, voting on it, and
//! finalizing it and settling a vote. Their steps are methods of the
//! values in [`instructions`], the records are in [`state`], what stands
//! for the ledger is in [`token`], and [`accounting`] shows what the
//! balances add up to.

pub mod accounting;
pub mod errors;
pub mod instructions;
pub mod limits;
pub mod processor;
pub mod pubkey;
pub mod state;
pub mod token;

pub use errors::{Error, ErrorCode, TokenError};
pub use instructions::{
    ClaimRewards, CreateDao, CreateDaoBumps, InitializeDaoverse, InitializeDaoverseBumps,
    InitializeMember, InitializeMemberBumps, Proposer, ProposerBumps, UpdateDao, UpdateDaoverse,
    UpdateMember, Voter, VoterBumps,
};
pub use processor::{
    claim_stake_rewards, initialize_dao, initialize_daoverse, initialize_member, proposal,
    update_dao, update_daoverse, update_member, vote_on_proposal,
};
pub use pubkey::Pubkey;
pub use state::{
    DaoConfig, DaoMemberState, DaoverseConfig, GovernanceModel, ProposalState, RewardModel,
    VoteState, VoteType, VotingModel, VotingThreshold,
};
pub use token::{TokenAccount, TokenInstruction};
