use daoverse::instructions::vote::rewards::compute_reward;
use daoverse::processor::claim_stake_rewards;
use daoverse::{
    ClaimRewards, DaoConfig, Error, ErrorCode, GovernanceModel, ProposalState, Pubkey, RewardModel,
    TokenAccount, TokenError, TokenInstruction, VoteState, VoteType, VotingModel, VotingThreshold,
};

fn key(n: u8) -> Pubkey {
    Pubkey::new_from_array([n; 32])
}

const VOTER: u8 = 5;
const DAO: u8 = 60;
const PROPOSAL: u8 = 70;
const DAO_MINT: u8 = 101;

fn organization(treasury: u64) -> DaoConfig {
    DaoConfig {
        dao_seed: 7,
        dao_creator: key(2),
        dao_mint: key(DAO_MINT),
        bump: 253,
        dao_treasury_balance: treasury,
        dao_name: "guild".to_string(),
        dao_description: "a guild of builders".to_string(),
        total_proposals: 0,
        approved_proposals: 0,
        member_count: 0,
        governance_model: GovernanceModel::TokenBased,
        voting_model: VotingModel::OneTokenOneVote,
        reward_model: RewardModel::ProportionalDistribution,
        voting_threshold: VotingThreshold {
            quorum_percentage: 30,
            approval_percentage: 60,
            min_voting_period: 3_600,
            max_voting_period: 86_400,
        },
    }
}

fn proposal(pool: u64, voting_end_time: i64) -> ProposalState {
    ProposalState {
        proposal_seed: 3,
        proposal_owner: key(4),
        bump: 251,
        proposal_title: "a bridge".to_string(),
        proposal_details: "build a bridge over the river".to_string(),
        proposal_cost: 9_000,
        min_token_stake: 50,
        vote_count_yes: 1,
        vote_count_no: 0,
        voting_end_time,
        staking_vault_balance: pool,
    }
}

fn token(id: u8, owner: u8, amount: u64) -> TokenAccount {
    TokenAccount { key: key(id), mint: key(DAO_MINT), owner: key(owner), amount }
}

fn receipt(stake: u64, claimed: bool) -> VoteState {
    VoteState {
        voter: key(VOTER),
        proposal_id: key(PROPOSAL),
        vote_seed: 13,
        bump: 250,
        vote_type: VoteType::Yes,
        tokens_staked: stake,
        claimed,
    }
}

/// A proposal whose pool holds `pool`, an organization whose treasury holds
/// `treasury`, and a voter who holds `wallet` and has `stake` at stake.
fn context(pool: u64, treasury: u64, wallet: u64, stake: u64) -> ClaimRewards {
    ClaimRewards {
        voter: key(VOTER),
        dao_mint: key(DAO_MINT),
        proposal_key: key(PROPOSAL),
        proposal: proposal(pool, 1_700_000_000),
        voter_dao_ata: token(52, VOTER, wallet),
        staking_vault: Some(token(71, PROPOSAL, pool)),
        dao_key: key(DAO),
        dao: organization(treasury),
        dao_treasury: token(61, DAO, treasury),
        vote_record: receipt(stake, false),
    }
}

/// The same, with the proposal finalized.
fn finalized(pool: u64, treasury: u64, wallet: u64, stake: u64) -> ClaimRewards {
    ClaimRewards { proposal: proposal(pool, 0), ..context(pool, treasury, wallet, stake) }
}

fn pays(from: u8, to: u8, authority: u8, amount: u64) -> TokenInstruction {
    TokenInstruction::TransferChecked {
        from: key(from),
        mint: key(DAO_MINT),
        to: key(to),
        authority: key(authority),
        amount,
    }
}

#[test]
fn reward_is_a_fifth_rounded_down() {
    assert_eq!(compute_reward(60), Ok(12));
    assert_eq!(compute_reward(0), Ok(0));
    assert_eq!(compute_reward(1), Ok(0));
    assert_eq!(compute_reward(4), Ok(0));
    assert_eq!(compute_reward(5), Ok(1));
    assert_eq!(compute_reward(9), Ok(1));
    assert_eq!(compute_reward(10), Ok(2));
    assert_eq!(compute_reward(99), Ok(19));
    assert_eq!(compute_reward(100), Ok(20));
    assert_eq!(compute_reward(123_456_789), Ok(24_691_357));
}

#[test]
fn reward_that_cannot_be_computed_is_a_calculation_error() {
    let largest = u64::MAX / 20;
    assert_eq!(largest, 922_337_203_685_477_580);
    assert_eq!(compute_reward(largest), Ok(184_467_440_737_095_516));
    assert_eq!(compute_reward(largest + 1), Err(ErrorCode::CalculationError));
    assert_eq!(compute_reward(u64::MAX), Err(ErrorCode::CalculationError));
}

#[test]
fn finalizing_deposits_the_reward_and_closes_the_vote() {
    let mut ctx = context(60, 300, 140, 60);
    let res = ctx.finalize_proposal();
    assert_eq!(res, Ok(pays(61, 71, DAO, 12)));
    assert_eq!(ctx.proposal, proposal(72, 0));
    assert_eq!(ctx.staking_vault, Some(token(71, PROPOSAL, 72)));
    assert_eq!(ctx.dao_treasury, token(61, DAO, 288));
    // The organization's record is not touched, nor the voter or the vote.
    assert_eq!(ctx.dao, organization(300));
    assert_eq!(ctx.voter_dao_ata, token(52, VOTER, 140));
    assert_eq!(ctx.vote_record, receipt(60, false));
}

#[test]
fn finalizing_asks_for_no_deadline_and_can_be_repeated() {
    let mut ctx = context(100, 300, 0, 100);
    ctx.proposal.voting_end_time = i64::MAX;
    assert_eq!(ctx.finalize_proposal(), Ok(pays(61, 71, DAO, 20)));
    assert_eq!(ctx.proposal, proposal(120, 0));
    assert_eq!(ctx.finalize_proposal(), Ok(pays(61, 71, DAO, 24)));
    assert_eq!(ctx.proposal, proposal(144, 0));
    assert_eq!(ctx.dao_treasury.amount, 256);
    assert_eq!(ctx.staking_vault, Some(token(71, PROPOSAL, 144)));
}

#[test]
fn finalizing_an_empty_pool_moves_nothing() {
    let mut ctx = context(0, 0, 0, 0);
    assert_eq!(ctx.finalize_proposal(), Ok(pays(61, 71, DAO, 0)));
    assert_eq!(ctx.proposal, proposal(0, 0));
    assert_eq!(ctx.dao_treasury.amount, 0);
}

#[test]
fn finalizing_needs_the_reward_in_the_treasury() {
    let mut ctx = context(60, 11, 140, 60);
    let before = ctx.clone();
    assert_eq!(ctx.finalize_proposal(), Err(Error::Token(TokenError::InsufficientFunds)));
    assert_eq!(ctx, before);
    ctx.dao_treasury.amount = 12;
    assert!(ctx.finalize_proposal().is_ok());
    assert_eq!(ctx.dao_treasury.amount, 0);
}

#[test]
fn finalizing_a_pool_too_large_is_a_calculation_error() {
    let mut ctx = context(u64::MAX / 20 + 1, 300, 140, 60);
    let before = ctx.clone();
    assert_eq!(ctx.finalize_proposal(), Err(Error::Code(ErrorCode::CalculationError)));
    assert_eq!(ctx, before);
}

#[test]
fn finalizing_needs_the_pool() {
    let mut ctx = context(60, 300, 140, 60);
    ctx.staking_vault = None;
    let before = ctx.clone();
    assert_eq!(ctx.finalize_proposal(), Err(Error::AccountNotInitialized));
    assert_eq!(ctx, before);
}

#[test]
fn finalizing_in_another_asset_is_refused() {
    let mut ctx = context(60, 300, 140, 60);
    ctx.dao_treasury.mint = key(100);
    let before = ctx.clone();
    assert_eq!(ctx.finalize_proposal(), Err(Error::Token(TokenError::MintMismatch)));
    assert_eq!(ctx, before);
}

#[test]
fn settling_returns_the_stake_with_interest() {
    let mut ctx = finalized(72, 288, 140, 60);
    let res = ctx.claim_rewards();
    assert_eq!(res, Ok(vec![pays(71, 52, PROPOSAL, 60), pays(61, 52, DAO, 12)]));
    assert_eq!(ctx.voter_dao_ata, token(52, VOTER, 212));
    assert_eq!(ctx.staking_vault, Some(token(71, PROPOSAL, 12)));
    assert_eq!(ctx.dao_treasury, token(61, DAO, 276));
    assert_eq!(ctx.proposal, proposal(12, 0));
    assert_eq!(ctx.vote_record, receipt(60, true));
    assert_eq!(ctx.dao, organization(288));
}

#[test]
fn settled_vote_is_not_settled_again() {
    let mut ctx = finalized(72, 288, 140, 60);
    assert!(ctx.claim_rewards().is_ok());
    let settled = ctx.clone();
    assert_eq!(ctx.claim_rewards(), Err(Error::Code(ErrorCode::RewardsAlreadyClaimed)));
    assert_eq!(ctx, settled);
    assert_eq!(claim_stake_rewards(&mut ctx), Err(Error::Code(ErrorCode::RewardsAlreadyClaimed)));
    assert_eq!(ctx, settled);
    // The settled receipt is found before anything else that is amiss.
    ctx.staking_vault = None;
    ctx.dao_treasury.amount = 0;
    assert_eq!(ctx.claim_rewards(), Err(Error::Code(ErrorCode::RewardsAlreadyClaimed)));
}

#[test]
fn settling_needs_the_interest_in_the_treasury() {
    let mut ctx = finalized(72, 11, 140, 60);
    let before = ctx.clone();
    assert_eq!(ctx.claim_rewards(), Err(Error::Code(ErrorCode::InsufficientFunds)));
    assert_eq!(ctx, before);
    ctx.dao_treasury.amount = 12;
    assert!(ctx.claim_rewards().is_ok());
    assert_eq!(ctx.dao_treasury.amount, 0);
    assert_eq!(ctx.voter_dao_ata.amount, 212);
}

#[test]
fn settling_needs_the_stake_in_the_pool() {
    let mut ctx = finalized(59, 300, 140, 60);
    let before = ctx.clone();
    assert_eq!(ctx.claim_rewards(), Err(Error::Token(TokenError::InsufficientFunds)));
    assert_eq!(ctx, before);
    // The ledger holds the stake, and the pool is known to hold less.
    ctx.staking_vault = Some(token(71, PROPOSAL, 60));
    let before = ctx.clone();
    assert_eq!(ctx.claim_rewards(), Err(Error::Code(ErrorCode::CalculationError)));
    assert_eq!(ctx, before);
}

#[test]
fn settling_a_stake_too_large_is_a_calculation_error() {
    let stake = u64::MAX / 20 + 1;
    let mut ctx = finalized(stake, 300, 0, stake);
    let before = ctx.clone();
    assert_eq!(ctx.claim_rewards(), Err(Error::Code(ErrorCode::CalculationError)));
    assert_eq!(ctx, before);
}

#[test]
fn settling_needs_the_pool() {
    let mut ctx = finalized(72, 288, 140, 60);
    ctx.staking_vault = None;
    let before = ctx.clone();
    assert_eq!(ctx.claim_rewards(), Err(Error::AccountNotInitialized));
    assert_eq!(ctx, before);
}

#[test]
fn settling_the_ledger_refuses_changes_nothing() {
    let mut ctx = finalized(72, 288, 140, 60);
    ctx.voter_dao_ata.mint = key(100);
    let before = ctx.clone();
    assert_eq!(ctx.claim_rewards(), Err(Error::Token(TokenError::MintMismatch)));
    assert_eq!(ctx, before);

    let mut ctx = finalized(72, 288, u64::MAX - 60, 60);
    let before = ctx.clone();
    // The stake fits, the interest on top of it does not.
    assert_eq!(ctx.claim_rewards(), Err(Error::Token(TokenError::Overflow)));
    assert_eq!(ctx, before);

    let mut ctx = finalized(72, 288, 140, 60);
    ctx.dao_treasury.mint = key(100);
    let before = ctx.clone();
    assert_eq!(ctx.claim_rewards(), Err(Error::Token(TokenError::MintMismatch)));
    assert_eq!(ctx, before);
}

#[test]
fn emptied_pool_is_closed() {
    // A stake too small to earn a reward: finalizing deposits nothing, and
    // settling the only vote empties the pool.
    let mut ctx = context(4, 300, 146, 4);
    assert_eq!(ctx.finalize_proposal(), Ok(pays(61, 71, DAO, 0)));
    let res = ctx.claim_rewards();
    assert_eq!(
        res,
        Ok(vec![
            pays(71, 52, PROPOSAL, 4),
            pays(61, 52, DAO, 0),
            TokenInstruction::CloseAccount {
                account: key(71),
                destination: key(52),
                authority: key(PROPOSAL),
            },
        ])
    );
    assert_eq!(ctx.staking_vault, None);
    assert_eq!(ctx.proposal, proposal(0, 0));
    assert_eq!(ctx.voter_dao_ata.amount, 150);
    assert_eq!(ctx.dao_treasury.amount, 300);
    assert_eq!(ctx.vote_record, receipt(4, true));
    // Nothing more can be done on the closed pool.
    assert_eq!(ctx.finalize_proposal(), Err(Error::AccountNotInitialized));
}

#[test]
fn finalizing_and_settling_in_one() {
    let mut ctx = context(60, 300, 140, 60);
    let res = claim_stake_rewards(&mut ctx);
    assert_eq!(
        res,
        Ok(vec![pays(61, 71, DAO, 12), pays(71, 52, PROPOSAL, 60), pays(61, 52, DAO, 12)])
    );
    assert_eq!(ctx.voter_dao_ata.amount, 212);
    assert_eq!(ctx.staking_vault, Some(token(71, PROPOSAL, 12)));
    assert_eq!(ctx.dao_treasury.amount, 276);
    assert_eq!(ctx.proposal, proposal(12, 0));
    assert_eq!(ctx.vote_record, receipt(60, true));
}

#[test]
fn finalizing_is_undone_where_settling_fails() {
    // The treasury covers the reward of 12 and not the interest of 12 after
    // it.
    let mut ctx = context(60, 23, 140, 60);
    let before = ctx.clone();
    assert_eq!(claim_stake_rewards(&mut ctx), Err(Error::Code(ErrorCode::InsufficientFunds)));
    assert_eq!(ctx, before);
    assert_eq!(ctx.proposal.voting_end_time, 1_700_000_000);
    ctx.dao_treasury.amount = 24;
    assert!(claim_stake_rewards(&mut ctx).is_ok());
    assert_eq!(ctx.dao_treasury.amount, 0);

    let mut ctx = context(60, 300, 140, 60);
    ctx.vote_record.claimed = true;
    let before = ctx.clone();
    assert_eq!(claim_stake_rewards(&mut ctx), Err(Error::Code(ErrorCode::RewardsAlreadyClaimed)));
    assert_eq!(ctx, before);

    // Where the proposal cannot be finalized, that is the error.
    let mut ctx = context(60, 11, 140, 60);
    ctx.vote_record.claimed = true;
    let before = ctx.clone();
    assert_eq!(claim_stake_rewards(&mut ctx), Err(Error::Token(TokenError::InsufficientFunds)));
    assert_eq!(ctx, before);
}

#[test]
fn settling_asks_for_no_owner() {
    // The receipt is another voter's on another proposal: the stake and the
    // interest are paid all the same.
    let mut ctx = finalized(60, 300, 140, 60);
    ctx.vote_record.voter = key(6);
    ctx.vote_record.proposal_id = key(72);
    let res = ctx.claim_rewards();
    assert_eq!(
        res,
        Ok(vec![
            pays(71, 52, PROPOSAL, 60),
            pays(61, 52, DAO, 12),
            TokenInstruction::CloseAccount {
                account: key(71),
                destination: key(52),
                authority: key(PROPOSAL),
            },
        ])
    );
    assert_eq!(ctx.proposal, proposal(0, 0));
    assert_eq!(ctx.staking_vault, None);
    assert_eq!(ctx.voter_dao_ata.amount, 212);
    assert!(ctx.vote_record.claimed);
    assert_eq!(ctx.vote_record.voter, key(6));
}
