use daoverse::processor::{initialize_dao, update_dao};
use daoverse::{
    CreateDao, CreateDaoBumps, DaoConfig, DaoverseConfig, Error, ErrorCode, GovernanceModel,
    Pubkey, RewardModel, TokenAccount, TokenError, TokenInstruction, UpdateDao, VotingModel,
    VotingThreshold,
};

fn key(n: u8) -> Pubkey {
    Pubkey::new_from_array([n; 32])
}

const CREATOR: u8 = 2;
const PLATFORM: u8 = 50;
const DAO: u8 = 60;
const PLATFORM_MINT: u8 = 100;
const DAO_MINT: u8 = 101;

fn thresholds() -> VotingThreshold {
    VotingThreshold {
        quorum_percentage: 30,
        approval_percentage: 60,
        min_voting_period: 3_600,
        max_voting_period: 86_400,
    }
}

fn platform(balance: u64) -> DaoverseConfig {
    DaoverseConfig {
        admin: key(1),
        daoverse_mint: key(PLATFORM_MINT),
        dao_creation_fee: 500,
        bump: 254,
        daoverse_treasury_balance: balance,
        admin_name: "root".to_string(),
        daoverse_description: "the platform".to_string(),
    }
}

fn fresh(platform_tokens: u64, dao_tokens: u64) -> CreateDao {
    CreateDao {
        creator: key(CREATOR),
        daoverse_mint: key(PLATFORM_MINT),
        dao_mint: key(DAO_MINT),
        dao: None,
        dao_treasury: TokenAccount {
            key: key(61),
            mint: key(DAO_MINT),
            owner: key(DAO),
            amount: 0,
        },
        creator_dao_ata: TokenAccount {
            key: key(22),
            mint: key(DAO_MINT),
            owner: key(CREATOR),
            amount: dao_tokens,
        },
        daoverse: platform(0),
        daoverse_treasury: TokenAccount {
            key: key(51),
            mint: key(PLATFORM_MINT),
            owner: key(PLATFORM),
            amount: 0,
        },
        creator_daoverse_ata: TokenAccount {
            key: key(21),
            mint: key(PLATFORM_MINT),
            owner: key(CREATOR),
            amount: platform_tokens,
        },
    }
}

fn organization(treasury: u64) -> DaoConfig {
    DaoConfig {
        dao_seed: 7,
        dao_creator: key(CREATOR),
        dao_mint: key(DAO_MINT),
        bump: 253,
        dao_treasury_balance: treasury,
        dao_name: "guild".to_string(),
        dao_description: "a guild of builders".to_string(),
        total_proposals: 0,
        approved_proposals: 0,
        member_count: 0,
        governance_model: GovernanceModel::TokenBased,
        voting_model: VotingModel::Quadratic,
        reward_model: RewardModel::NoRewards,
        voting_threshold: thresholds(),
    }
}

fn create(ctx: &mut CreateDao, amount: u64) -> Result<Vec<TokenInstruction>, Error> {
    initialize_dao(
        ctx,
        CreateDaoBumps { dao: 253 },
        7,
        amount,
        "guild".to_string(),
        "a guild of builders".to_string(),
        GovernanceModel::TokenBased,
        VotingModel::Quadratic,
        RewardModel::NoRewards,
        thresholds(),
    )
}

#[test]
fn organization_is_created_for_the_fee() {
    let mut ctx = fresh(1200, 1000);
    let res = create(&mut ctx, 300);
    assert_eq!(
        res,
        Ok(vec![
            TokenInstruction::TransferChecked {
                from: key(21),
                mint: key(PLATFORM_MINT),
                to: key(51),
                authority: key(CREATOR),
                amount: 500,
            },
            TokenInstruction::TransferChecked {
                from: key(22),
                mint: key(DAO_MINT),
                to: key(61),
                authority: key(CREATOR),
                amount: 300,
            },
        ])
    );
    assert_eq!(ctx.creator_daoverse_ata.amount, 700);
    assert_eq!(ctx.daoverse_treasury.amount, 500);
    assert_eq!(ctx.daoverse, platform(500));
    assert_eq!(ctx.dao, Some(organization(300)));
    assert_eq!(ctx.dao_treasury.amount, 300);
    assert_eq!(ctx.creator_dao_ata.amount, 700);
}

#[test]
fn creator_needs_a_thousand_platform_tokens() {
    let mut ctx = fresh(999, 1000);
    let before = ctx.clone();
    assert_eq!(
        ctx.validate_creator(),
        Err(Error::Code(ErrorCode::InsufficientDaoverseTokens))
    );
    assert_eq!(create(&mut ctx, 300), Err(Error::Code(ErrorCode::InsufficientDaoverseTokens)));
    assert_eq!(ctx, before);

    let mut ctx = fresh(1000, 1000);
    assert_eq!(ctx.validate_creator(), Ok(()));
    assert!(create(&mut ctx, 300).is_ok());
    assert_eq!(ctx.creator_daoverse_ata.amount, 500);
}

#[test]
fn creator_pays_in_the_platform_asset() {
    let mut ctx = fresh(1200, 1000);
    ctx.creator_daoverse_ata.mint = key(DAO_MINT);
    let before = ctx.clone();
    assert_eq!(ctx.validate_creator(), Err(Error::Code(ErrorCode::InvalidDaoverseMint)));
    assert_eq!(create(&mut ctx, 300), Err(Error::Code(ErrorCode::InvalidDaoverseMint)));
    assert_eq!(ctx, before);

    let mut ctx = fresh(1200, 1000);
    ctx.daoverse.daoverse_mint = key(99);
    assert_eq!(ctx.validate_creator(), Err(Error::Code(ErrorCode::InvalidDaoverseMint)));

    let mut ctx = fresh(10, 1000);
    ctx.daoverse_mint = key(99);
    assert_eq!(ctx.validate_creator(), Err(Error::Code(ErrorCode::InvalidDaoverseMint)));
}

#[test]
fn fee_is_five_hundred_whatever_the_record_says() {
    let mut ctx = fresh(1200, 1000);
    ctx.daoverse.dao_creation_fee = 1;
    let res = ctx.pay_daoverse_fee();
    assert_eq!(
        res,
        Ok(TokenInstruction::TransferChecked {
            from: key(21),
            mint: key(PLATFORM_MINT),
            to: key(51),
            authority: key(CREATOR),
            amount: 500,
        })
    );
    assert_eq!(ctx.creator_daoverse_ata.amount, 700);
    assert_eq!(ctx.daoverse_treasury.amount, 500);
    assert_eq!(ctx.daoverse.daoverse_treasury_balance, 500);
}

#[test]
fn fee_overflowing_the_known_balance_is_rejected() {
    let mut ctx = fresh(1200, 1000);
    ctx.daoverse.daoverse_treasury_balance = u64::MAX - 499;
    let before = ctx.clone();
    assert_eq!(ctx.pay_daoverse_fee(), Err(Error::Code(ErrorCode::Overflow)));
    assert_eq!(ctx, before);
    assert_eq!(create(&mut ctx, 300), Err(Error::Code(ErrorCode::Overflow)));
    assert_eq!(ctx, before);
    ctx.daoverse.daoverse_treasury_balance = u64::MAX - 500;
    assert!(ctx.pay_daoverse_fee().is_ok());
    assert_eq!(ctx.daoverse.daoverse_treasury_balance, u64::MAX);
}

#[test]
fn fee_overflowing_the_treasury_is_refused() {
    let mut ctx = fresh(1200, 1000);
    ctx.daoverse_treasury.amount = u64::MAX - 499;
    let before = ctx.clone();
    assert_eq!(ctx.pay_daoverse_fee(), Err(Error::Token(TokenError::Overflow)));
    assert_eq!(ctx, before);
}

#[test]
fn fee_needs_five_hundred_tokens() {
    let mut ctx = fresh(499, 1000);
    let before = ctx.clone();
    assert_eq!(ctx.pay_daoverse_fee(), Err(Error::Token(TokenError::InsufficientFunds)));
    assert_eq!(ctx, before);
    ctx.creator_daoverse_ata.amount = 500;
    assert!(ctx.pay_daoverse_fee().is_ok());
    assert_eq!(ctx.creator_daoverse_ata.amount, 0);
}

#[test]
fn organization_is_created_once() {
    let mut ctx = fresh(1200, 1000);
    ctx.dao = Some(organization(40));
    let before = ctx.clone();
    assert_eq!(create(&mut ctx, 300), Err(Error::AccountInUse));
    assert_eq!(ctx, before);
}

#[test]
fn creation_checks_the_thresholds() {
    let cases = [
        (VotingThreshold { quorum_percentage: 101, ..thresholds() }, ErrorCode::InvalidThreshold),
        (VotingThreshold { approval_percentage: 101, ..thresholds() }, ErrorCode::InvalidThreshold),
        (
            VotingThreshold { min_voting_period: 86_401, ..thresholds() },
            ErrorCode::InvalidVotingPeriod,
        ),
        (
            VotingThreshold { quorum_percentage: 255, min_voting_period: 86_401, ..thresholds() },
            ErrorCode::InvalidThreshold,
        ),
    ];
    for (threshold, code) in cases {
        assert_eq!(threshold.validate(), Err(code));
        let mut ctx = fresh(1200, 1000);
        let before = ctx.clone();
        let res = initialize_dao(
            &mut ctx,
            CreateDaoBumps { dao: 253 },
            7,
            300,
            "guild".to_string(),
            "a guild of builders".to_string(),
            GovernanceModel::TokenBased,
            VotingModel::Quadratic,
            RewardModel::NoRewards,
            threshold,
        );
        assert_eq!(res, Err(Error::Code(code)));
        assert_eq!(ctx, before);
    }
}

#[test]
fn thresholds_at_their_bounds_are_valid() {
    let edge = VotingThreshold {
        quorum_percentage: 100,
        approval_percentage: 100,
        min_voting_period: 5,
        max_voting_period: 5,
    };
    assert_eq!(edge.validate(), Ok(()));
    let zero = VotingThreshold {
        quorum_percentage: 0,
        approval_percentage: 0,
        min_voting_period: 0,
        max_voting_period: 0,
    };
    assert_eq!(zero.validate(), Ok(()));
}

#[test]
fn creation_bounds_the_strings() {
    let bumps = CreateDaoBumps { dao: 253 };
    let mut ctx = fresh(1200, 1000);
    let before = ctx.clone();
    let res = ctx.create_dao(
        bumps,
        7,
        "n".repeat(33),
        "d".to_string(),
        GovernanceModel::Hybrid,
        VotingModel::HolderBased,
        RewardModel::ContributionBased,
        thresholds(),
    );
    assert_eq!(res, Err(Error::Code(ErrorCode::StringTooLong)));
    assert_eq!(ctx, before);
    let res = ctx.create_dao(
        bumps,
        7,
        "n".to_string(),
        "d".repeat(201),
        GovernanceModel::Hybrid,
        VotingModel::HolderBased,
        RewardModel::ContributionBased,
        thresholds(),
    );
    assert_eq!(res, Err(Error::Code(ErrorCode::StringTooLong)));
    assert_eq!(ctx, before);
    let res = ctx.create_dao(
        bumps,
        7,
        "n".repeat(32),
        "d".repeat(200),
        GovernanceModel::Hybrid,
        VotingModel::HolderBased,
        RewardModel::ContributionBased,
        thresholds(),
    );
    assert_eq!(res, Ok(()));
    let dao = ctx.dao.unwrap();
    assert_eq!(dao.dao_name.len(), 32);
    assert_eq!(dao.governance_model, GovernanceModel::Hybrid);
    assert_eq!(dao.voting_model, VotingModel::HolderBased);
    assert_eq!(dao.reward_model, RewardModel::ContributionBased);
    assert_eq!(
        (dao.dao_treasury_balance, dao.total_proposals, dao.approved_proposals, dao.member_count),
        (0, 0, 0, 0)
    );
}

#[test]
fn creation_is_undone_where_a_later_step_fails() {
    // The fee is charged before the organization is written: a long name
    // undoes the charge.
    let mut ctx = fresh(1200, 1000);
    let before = ctx.clone();
    let res = initialize_dao(
        &mut ctx,
        CreateDaoBumps { dao: 253 },
        7,
        300,
        "n".repeat(40),
        "d".to_string(),
        GovernanceModel::TokenBased,
        VotingModel::Quadratic,
        RewardModel::NoRewards,
        thresholds(),
    );
    assert_eq!(res, Err(Error::Code(ErrorCode::StringTooLong)));
    assert_eq!(ctx, before);

    // The deposit comes last: where the creator cannot cover it, the fee and
    // the organization are undone.
    let mut ctx = fresh(1200, 299);
    let before = ctx.clone();
    assert_eq!(create(&mut ctx, 300), Err(Error::Token(TokenError::InsufficientFunds)));
    assert_eq!(ctx, before);
    assert_eq!(ctx.dao, None);
    assert_eq!(ctx.creator_daoverse_ata.amount, 1200);
    assert_eq!(ctx.daoverse.daoverse_treasury_balance, 0);

    let mut ctx = fresh(1200, 1000);
    ctx.dao_treasury.mint = key(PLATFORM_MINT);
    let before = ctx.clone();
    assert_eq!(create(&mut ctx, 0), Err(Error::Token(TokenError::MintMismatch)));
    assert_eq!(ctx, before);
}

#[test]
fn creator_deposit_needs_the_organization() {
    let mut ctx = fresh(1200, 1000);
    let before = ctx.clone();
    assert_eq!(ctx.dao_creator_deposit(10), Err(Error::AccountNotInitialized));
    assert_eq!(ctx, before);
}

#[test]
fn creator_deposit_adds_to_the_known_balance() {
    let mut ctx = fresh(1200, 1000);
    ctx.dao = Some(organization(40));
    ctx.dao_treasury.amount = 40;
    assert!(ctx.dao_creator_deposit(60).is_ok());
    assert_eq!(ctx.dao, Some(organization(100)));
    assert_eq!(ctx.dao_treasury.amount, 100);
    assert_eq!(ctx.creator_dao_ata.amount, 940);

    ctx.dao = Some(organization(u64::MAX));
    let before = ctx.clone();
    assert_eq!(ctx.dao_creator_deposit(1), Err(Error::Code(ErrorCode::Overflow)));
    assert_eq!(ctx, before);
}

fn update_context() -> UpdateDao {
    UpdateDao { creator: key(CREATOR), dao: organization(300) }
}

#[test]
fn organization_update_replaces_what_is_given() {
    let mut ctx = update_context();
    let new_thresholds = VotingThreshold {
        quorum_percentage: 100,
        approval_percentage: 0,
        min_voting_period: 9,
        max_voting_period: 9,
    };
    let res = update_dao(
        &mut ctx,
        Some("league".to_string()),
        None,
        Some(GovernanceModel::ReputationBased),
        None,
        Some(RewardModel::MilestoneBasedVesting),
        Some(new_thresholds),
    );
    assert_eq!(res, Ok(()));
    let expected = DaoConfig {
        dao_name: "league".to_string(),
        governance_model: GovernanceModel::ReputationBased,
        reward_model: RewardModel::MilestoneBasedVesting,
        voting_threshold: new_thresholds,
        ..organization(300)
    };
    assert_eq!(ctx.dao, expected);

    let res = ctx.update_dao(
        None,
        Some("words".to_string()),
        None,
        Some(VotingModel::WeightedToken),
        None,
        None,
    );
    assert_eq!(res, Ok(()));
    let expected = DaoConfig {
        dao_description: "words".to_string(),
        voting_model: VotingModel::WeightedToken,
        ..expected
    };
    assert_eq!(ctx.dao, expected);

    assert_eq!(ctx.update_dao(None, None, None, None, None, None), Ok(()));
    assert_eq!(ctx.dao, expected);
}

#[test]
fn organization_update_is_for_the_creator_only() {
    let mut ctx = update_context();
    ctx.creator = key(3);
    let before = ctx.clone();
    let res = update_dao(&mut ctx, Some("league".to_string()), None, None, None, None, None);
    assert_eq!(res, Err(Error::Code(ErrorCode::Unauthorized)));
    assert_eq!(ctx, before);
    let res = update_dao(&mut ctx, None, None, None, None, None, None);
    assert_eq!(res, Err(Error::Code(ErrorCode::Unauthorized)));
}

#[test]
fn threshold_update_is_all_or_nothing() {
    let bad = [
        (VotingThreshold { quorum_percentage: 101, ..thresholds() }, ErrorCode::InvalidThreshold),
        (VotingThreshold { approval_percentage: 200, ..thresholds() }, ErrorCode::InvalidThreshold),
        (
            VotingThreshold { min_voting_period: 2, max_voting_period: 1, ..thresholds() },
            ErrorCode::InvalidVotingPeriod,
        ),
    ];
    for (threshold, code) in bad {
        let mut ctx = update_context();
        let before = ctx.clone();
        // The other fields are in order, and still none of them is applied.
        let res = update_dao(
            &mut ctx,
            Some("league".to_string()),
            Some("words".to_string()),
            Some(GovernanceModel::Hybrid),
            Some(VotingModel::OneTokenOneVote),
            Some(RewardModel::ProportionalDistribution),
            Some(threshold),
        );
        assert_eq!(res, Err(Error::Code(code)));
        assert_eq!(ctx, before);
    }
    let good = VotingThreshold {
        quorum_percentage: 100,
        approval_percentage: 100,
        min_voting_period: 1,
        max_voting_period: 1,
    };
    let mut ctx = update_context();
    assert_eq!(update_dao(&mut ctx, None, None, None, None, None, Some(good)), Ok(()));
    assert_eq!(ctx.dao, DaoConfig { voting_threshold: good, ..organization(300) });
}

#[test]
fn organization_update_with_a_long_string_changes_nothing() {
    let mut ctx = update_context();
    let before = ctx.clone();
    let res = update_dao(
        &mut ctx,
        Some("n".repeat(33)),
        None,
        Some(GovernanceModel::Hybrid),
        None,
        None,
        None,
    );
    assert_eq!(res, Err(Error::Code(ErrorCode::StringTooLong)));
    assert_eq!(ctx, before);
    let res = update_dao(
        &mut ctx,
        Some("ok".to_string()),
        Some("d".repeat(201)),
        None,
        None,
        None,
        None,
    );
    assert_eq!(res, Err(Error::Code(ErrorCode::StringTooLong)));
    assert_eq!(ctx, before);
    // A long string is found before bad thresholds.
    let res = update_dao(
        &mut ctx,
        Some("n".repeat(33)),
        None,
        None,
        None,
        None,
        Some(VotingThreshold { quorum_percentage: 101, ..thresholds() }),
    );
    assert_eq!(res, Err(Error::Code(ErrorCode::StringTooLong)));
}
