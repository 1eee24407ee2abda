//! The records that the governance engine keeps.

pub mod dao_config;
pub mod dao_member;
pub mod daoverse_config;
pub mod proposer_config;
pub mod vote_config;

pub use dao_config::{DaoConfig, GovernanceModel, RewardModel, VotingModel, VotingThreshold};
pub use dao_member::DaoMemberState;
pub use daoverse_config::DaoverseConfig;
pub use proposer_config::ProposalState;
pub use vote_config::{VoteState, VoteType};
