use daoverse::processor::proposal;
use daoverse::{Error, ErrorCode, ProposalState, Proposer, ProposerBumps, Pubkey, TokenAccount};

fn key(n: u8) -> Pubkey {
    Pubkey::new_from_array([n; 32])
}

const PROPOSER: u8 = 4;
const DAO_MINT: u8 = 101;

fn fresh(balance: u64) -> Proposer {
    Proposer {
        proposer: key(PROPOSER),
        dao_mint: key(DAO_MINT),
        proposer_dao_ata: TokenAccount {
            key: key(41),
            mint: key(DAO_MINT),
            owner: key(PROPOSER),
            amount: balance,
        },
        proposal: None,
    }
}

fn written(voting_end_time: i64) -> ProposalState {
    ProposalState {
        proposal_seed: 3,
        proposal_owner: key(PROPOSER),
        bump: 251,
        proposal_title: "a bridge".to_string(),
        proposal_details: "build a bridge over the river".to_string(),
        proposal_cost: 9_000,
        min_token_stake: 50,
        vote_count_yes: 0,
        vote_count_no: 0,
        voting_end_time,
        staking_vault_balance: 0,
    }
}

fn propose(ctx: &mut Proposer, voting_end_time: i64) -> Result<(), Error> {
    proposal(
        ctx,
        ProposerBumps { proposal: 251 },
        3,
        "a bridge".to_string(),
        "build a bridge over the river".to_string(),
        9_000,
        50,
        voting_end_time,
    )
}

#[test]
fn proposal_starts_with_no_votes_and_an_empty_pool() {
    let mut ctx = fresh(200);
    assert_eq!(propose(&mut ctx, 1_700_000_000), Ok(()));
    assert_eq!(ctx.proposal, Some(written(1_700_000_000)));
    assert_eq!(ctx.proposer_dao_ata.amount, 200);
}

#[test]
fn proposer_needs_two_hundred_tokens() {
    let mut ctx = fresh(199);
    let before = ctx.clone();
    assert_eq!(ctx.validate_proposer(), Err(Error::Code(ErrorCode::InsufficientDaoTokens)));
    assert_eq!(propose(&mut ctx, 10), Err(Error::Code(ErrorCode::InsufficientDaoTokens)));
    assert_eq!(ctx, before);
    let ctx = fresh(200);
    assert_eq!(ctx.validate_proposer(), Ok(()));
}

#[test]
fn proposer_holds_the_asset_of_the_organization() {
    let mut ctx = fresh(500);
    ctx.proposer_dao_ata.mint = key(100);
    let before = ctx.clone();
    assert_eq!(ctx.validate_proposer(), Err(Error::Code(ErrorCode::InvalidDaoMint)));
    assert_eq!(propose(&mut ctx, 10), Err(Error::Code(ErrorCode::InvalidDaoMint)));
    assert_eq!(ctx, before);
    // Another asset is found before a low balance.
    ctx.proposer_dao_ata.amount = 0;
    assert_eq!(ctx.validate_proposer(), Err(Error::Code(ErrorCode::InvalidDaoMint)));
}

#[test]
fn proposal_is_made_once() {
    let mut ctx = fresh(200);
    ctx.proposal = Some(ProposalState { vote_count_yes: 5, ..written(99) });
    let before = ctx.clone();
    assert_eq!(propose(&mut ctx, 10), Err(Error::AccountInUse));
    assert_eq!(ctx, before);
}

#[test]
fn proposal_bounds_its_strings() {
    let bumps = ProposerBumps { proposal: 251 };
    let mut ctx = fresh(200);
    let res = ctx.create_proposal(bumps, 3, "t".repeat(33), "d".to_string(), 1, 1, 10);
    assert_eq!(res, Err(Error::Code(ErrorCode::StringTooLong)));
    assert_eq!(ctx, fresh(200));
    let res = proposal(&mut ctx, bumps, 3, "t".to_string(), "d".repeat(201), 1, 1, 10);
    assert_eq!(res, Err(Error::Code(ErrorCode::StringTooLong)));
    assert_eq!(ctx, fresh(200));
    let res = ctx.create_proposal(bumps, 3, "t".repeat(32), "d".repeat(200), 1, 1, 10);
    assert_eq!(res, Ok(()));
}

#[test]
fn deadline_is_taken_as_given() {
    // Neither a deadline in the past nor the sentinel of a finalized
    // proposal is turned away.
    for deadline in [0, -5, 1, i64::MAX, i64::MIN] {
        let mut ctx = fresh(200);
        assert_eq!(propose(&mut ctx, deadline), Ok(()));
        assert_eq!(ctx.proposal, Some(written(deadline)));
    }
}
