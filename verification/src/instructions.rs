//! The operations of the engine, each on the records and sub-accounts it
//! touches.

pub mod config;
pub mod dao;
pub mod member;
pub mod proposal;
pub mod vote;

pub use config::initialize_config::{InitializeDaoverse, InitializeDaoverseBumps};
pub use config::update_config::UpdateDaoverse;
pub use dao::dao_creation::{CreateDao, CreateDaoBumps};
pub use dao::dao_update::UpdateDao;
pub use member::initialize_member::{InitializeMember, InitializeMemberBumps};
pub use member::update_member::UpdateMember;
pub use proposal::proposer::{Proposer, ProposerBumps};
pub use vote::rewards::ClaimRewards;
pub use vote::voter::{Voter, VoterBumps};
