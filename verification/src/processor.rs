//! The operations of the engine, whole. Each one is applied whole or not at
//! all: where it is rejected, whatever it had done up to then is undone.

use crate::errors::{Error, ErrorCode};
use crate::instructions::{
    ClaimRewards, CreateDao, CreateDaoBumps, InitializeDaoverse, InitializeDaoverseBumps,
    InitializeMember, InitializeMemberBumps, Proposer, ProposerBumps, UpdateDao, UpdateDaoverse,
    UpdateMember, Voter, VoterBumps,
};
use crate::limits::{DAO_CREATION_FEE, MIN_CREATOR_BALANCE};
use crate::state::{GovernanceModel, RewardModel, VoteType, VotingModel, VotingThreshold};
use crate::token::{transfer_refusal, TokenAccount, TokenInstruction};
use vstd::prelude::*;

verus! {

/// Why `initialize_daoverse` is rejected, if it is: for what the record
/// cannot be written, or else for what the first deposit cannot be made.
pub open spec fn initialize_daoverse_rejection(
    ctx: InitializeDaoverse,
    admin_name: String,
    daoverse_description: String,
    amount: u64,
) -> Option<Error> {
    if let Some(e) = ctx.initialize_rejection(admin_name, daoverse_description) {
        Some(e)
    } else if let Some(e) = transfer_refusal(
        ctx.admin_ata,
        ctx.daoverse_treasury,
        ctx.daoverse_mint,
        amount,
    ) {
        Some(Error::Token(e))
    } else {
        None
    }
}

/// Sets up the platform and moves the admin's first deposit into its
/// treasury.
pub fn initialize_daoverse(
    ctx: &mut InitializeDaoverse,
    bumps: InitializeDaoverseBumps,
    dao_creation_fee: u64,
    admin_name: String,
    daoverse_description: String,
    amount: u64,
) -> (res: Result<Vec<TokenInstruction>, Error>)
    ensures
        match initialize_daoverse_rejection(*old(ctx), admin_name, daoverse_description, amount) {
            Some(e) => res == Err::<Vec<TokenInstruction>, Error>(e) && *final(ctx) == *old(ctx),
            None => res matches Ok(instructions) && instructions@ == seq![
                old(ctx).deposit_instruction(amount),
            ] && *final(ctx) == old(ctx).after_initialize(
                bumps,
                dao_creation_fee,
                admin_name,
                daoverse_description,
            ).after_deposit(amount),
        },
{
    ctx.initialize_daoverse(bumps, dao_creation_fee, admin_name, daoverse_description)?;
    match ctx.admin_deposit(amount) {
        Ok(deposit) => {
            let mut instructions: Vec<TokenInstruction> = Vec::new();
            instructions.push(deposit);
            Ok(instructions)
        },
        Err(e) => {
            ctx.daoverse = None;
            Err(e)
        },
    }
}

/// Updates the platform's record on behalf of its admin.
pub fn update_daoverse(
    ctx: &mut UpdateDaoverse,
    dao_creation_fee: Option<u64>,
    admin_name: Option<String>,
    daoverse_description: Option<String>,
) -> (res: Result<(), Error>)
    ensures
        match old(ctx).update_rejection(admin_name, daoverse_description) {
            Some(code) => res == Err::<(), Error>(Error::Code(code)) && *final(ctx) == *old(ctx),
            None => res is Ok && *final(ctx) == old(ctx).after_update(
                dao_creation_fee,
                admin_name,
                daoverse_description,
            ),
        },
        old(ctx).daoverse.well_formed() ==> final(ctx).daoverse.well_formed(),
{
    ctx.update_daoverse(dao_creation_fee, admin_name, daoverse_description)
}

/// Why `initialize_dao` is rejected, if it is. In this order: for what the
/// creator may not create an organization; for what the fee cannot be
/// charged; for what the organization cannot be written; for what the first
/// deposit cannot be made.
pub open spec fn initialize_dao_rejection(
    ctx: CreateDao,
    amount: u64,
    dao_name: String,
    dao_description: String,
    voting_threshold: VotingThreshold,
) -> Option<Error> {
    if let Some(code) = ctx.creator_defect() {
        Some(Error::Code(code))
    } else if let Some(e) = ctx.fee_rejection() {
        Some(e)
    } else if let Some(e) = ctx.create_rejection(dao_name, dao_description, voting_threshold) {
        Some(e)
    } else if let Some(e) = transfer_refusal(
        ctx.creator_dao_ata,
        ctx.dao_treasury,
        ctx.dao_mint,
        amount,
    ) {
        Some(Error::Token(e))
    } else {
        None
    }
}

/// The state that an accepted `initialize_dao` leaves: the fee is charged,
/// the organization is written, and the first deposit is in its treasury.
pub open spec fn after_initialize_dao(
    ctx: CreateDao,
    bumps: CreateDaoBumps,
    dao_seed: u64,
    amount: u64,
    dao_name: String,
    dao_description: String,
    governance_model: GovernanceModel,
    voting_model: VotingModel,
    reward_model: RewardModel,
    voting_threshold: VotingThreshold,
) -> CreateDao {
    ctx.after_fee().after_create(
        bumps,
        dao_seed,
        dao_name,
        dao_description,
        governance_model,
        voting_model,
        reward_model,
        voting_threshold,
    ).after_deposit(amount)
}

/// Creates an organization: checks the creator, charges the fee, writes the
/// organization and moves the creator's first deposit into its treasury.
pub fn initialize_dao(
    ctx: &mut CreateDao,
    bumps: CreateDaoBumps,
    dao_seed: u64,
    amount: u64,
    dao_name: String,
    dao_description: String,
    governance_model: GovernanceModel,
    voting_model: VotingModel,
    reward_model: RewardModel,
    voting_threshold: VotingThreshold,
) -> (res: Result<Vec<TokenInstruction>, Error>)
    ensures
        match initialize_dao_rejection(
            *old(ctx),
            amount,
            dao_name,
            dao_description,
            voting_threshold,
        ) {
            Some(e) => res == Err::<Vec<TokenInstruction>, Error>(e) && *final(ctx) == *old(ctx),
            None => res matches Ok(instructions) && instructions@ == seq![
                old(ctx).fee_instruction(),
                old(ctx).deposit_instruction(amount),
            ] && *final(ctx) == after_initialize_dao(
                *old(ctx),
                bumps,
                dao_seed,
                amount,
                dao_name,
                dao_description,
                governance_model,
                voting_model,
                reward_model,
                voting_threshold,
            ) && final(ctx).dao->0.well_formed(),
        },
{
    ctx.validate_creator()?;
    let payer = ctx.creator_daoverse_ata;
    let treasury = ctx.daoverse_treasury;
    let known = ctx.daoverse.daoverse_treasury_balance;
    let fee = ctx.pay_daoverse_fee()?;
    if let Err(e) = ctx.create_dao(
        bumps,
        dao_seed,
        dao_name,
        dao_description,
        governance_model,
        voting_model,
        reward_model,
        voting_threshold,
    ) {
        ctx.creator_daoverse_ata = payer;
        ctx.daoverse_treasury = treasury;
        ctx.daoverse.daoverse_treasury_balance = known;
        return Err(e);
    }
    match ctx.dao_creator_deposit(amount) {
        Ok(deposit) => {
            let mut instructions: Vec<TokenInstruction> = Vec::new();
            instructions.push(fee);
            instructions.push(deposit);
            Ok(instructions)
        },
        Err(e) => {
            ctx.creator_daoverse_ata = payer;
            ctx.daoverse_treasury = treasury;
            ctx.daoverse.daoverse_treasury_balance = known;
            ctx.dao = None;
            Err(e)
        },
    }
}

/// Updates an organization on behalf of its creator.
pub fn update_dao(
    ctx: &mut UpdateDao,
    dao_name: Option<String>,
    dao_description: Option<String>,
    governance_model: Option<GovernanceModel>,
    voting_model: Option<VotingModel>,
    reward_model: Option<RewardModel>,
    voting_threshold: Option<VotingThreshold>,
) -> (res: Result<(), Error>)
    ensures
        match old(ctx).update_rejection(dao_name, dao_description, voting_threshold) {
            Some(code) => res == Err::<(), Error>(Error::Code(code)) && *final(ctx) == *old(ctx),
            None => res is Ok && *final(ctx) == old(ctx).after_update(
                dao_name,
                dao_description,
                governance_model,
                voting_model,
                reward_model,
                voting_threshold,
            ),
        },
        old(ctx).dao.well_formed() ==> final(ctx).dao.well_formed(),
{
    ctx.update_dao(
        dao_name,
        dao_description,
        governance_model,
        voting_model,
        reward_model,
        voting_threshold,
    )
}

/// Why `initialize_member` is rejected, if it is: for what the user may not
/// join, or else because the membership exists already.
pub open spec fn initialize_member_rejection(ctx: InitializeMember) -> Option<Error> {
    if let Some(code) = ctx.member_defect() {
        Some(Error::Code(code))
    } else if ctx.member is Some {
        Some(Error::AccountInUse)
    } else {
        None
    }
}

/// Lets a user join an organization: checks the holding and writes the
/// membership with the balance as it is now.
pub fn initialize_member(
    ctx: &mut InitializeMember,
    bumps: InitializeMemberBumps,
    member_seed: u64,
) -> (res: Result<(), Error>)
    ensures
        match initialize_member_rejection(*old(ctx)) {
            Some(e) => res == Err::<(), Error>(e) && *final(ctx) == *old(ctx),
            None => res is Ok && *final(ctx) == old(ctx).after_initialize(bumps, member_seed),
        },
{
    ctx.validate_member()?;
    ctx.initialize_member(bumps, member_seed)?;
    ctx.update_member_balance()
}

/// Overwrites the counters of a membership on behalf of its owner.
pub fn update_member(
    ctx: &mut UpdateMember,
    created_proposals: Option<u64>,
    approved_proposals: Option<u64>,
    total_rewards: Option<u64>,
    total_votes: Option<u64>,
) -> (res: Result<(), Error>)
    ensures
        old(ctx).user != old(ctx).member.dao_member ==> res == Err::<(), Error>(
            Error::Code(ErrorCode::Unauthorized),
        ) && *final(ctx) == *old(ctx),
        old(ctx).user == old(ctx).member.dao_member ==> res is Ok && *final(ctx) == old(
            ctx,
        ).after_update(created_proposals, approved_proposals, total_rewards, total_votes),
{
    ctx.update_member(created_proposals, approved_proposals, total_rewards, total_votes)
}

/// Why `proposal` is rejected, if it is: for what the proposer may not make
/// a proposal, or else for what the proposal cannot be written.
pub open spec fn proposal_rejection(
    ctx: Proposer,
    proposal_title: String,
    proposal_details: String,
) -> Option<Error> {
    if let Some(code) = ctx.proposer_defect() {
        Some(Error::Code(code))
    } else {
        ctx.create_rejection(proposal_title, proposal_details)
    }
}

/// Makes a proposal: checks the proposer's holding and writes the proposal.
pub fn proposal(
    ctx: &mut Proposer,
    bumps: ProposerBumps,
    proposal_seed: u64,
    proposal_title: String,
    proposal_details: String,
    proposal_cost: u64,
    min_token_stake: u64,
    voting_end_time: i64,
) -> (res: Result<(), Error>)
    ensures
        match proposal_rejection(*old(ctx), proposal_title, proposal_details) {
            Some(e) => res == Err::<(), Error>(e) && *final(ctx) == *old(ctx),
            None => res is Ok && *final(ctx) == old(ctx).after_create(
                bumps,
                proposal_seed,
                proposal_title,
                proposal_details,
                proposal_cost,
                min_token_stake,
                voting_end_time,
            ) && final(ctx).proposal->0.well_formed(),
        },
{
    ctx.validate_proposer()?;
    ctx.create_proposal(
        bumps,
        proposal_seed,
        proposal_title,
        proposal_details,
        proposal_cost,
        min_token_stake,
        voting_end_time,
    )
}

/// Why `vote_on_proposal` is rejected, if it is: for what the voter may not
/// stake the amount at that time, or else for what the vote cannot be cast.
pub open spec fn vote_rejection(
    ctx: Voter,
    vote_type: VoteType,
    tokens_to_stake: u64,
    current_time: i64,
) -> Option<Error> {
    if let Some(code) = ctx.voter_defect(tokens_to_stake, current_time) {
        Some(Error::Code(code))
    } else {
        ctx.cast_rejection(vote_type, tokens_to_stake)
    }
}

/// Votes on a proposal at the time `current_time`: checks the voter and
/// the stake, and casts the vote.
pub fn vote_on_proposal(
    ctx: &mut Voter,
    bumps: VoterBumps,
    vote_type: VoteType,
    tokens_to_stake: u64,
    vote_seed: u64,
    current_time: i64,
) -> (res: Result<Vec<TokenInstruction>, Error>)
    ensures
        match vote_rejection(*old(ctx), vote_type, tokens_to_stake, current_time) {
            Some(e) => res == Err::<Vec<TokenInstruction>, Error>(e) && *final(ctx) == *old(ctx),
            None => res matches Ok(instructions) && instructions@ == seq![
                old(ctx).cast_instruction(tokens_to_stake),
            ] && *final(ctx) == old(ctx).after_cast(bumps, vote_type, tokens_to_stake, vote_seed),
        },
{
    ctx.validate_voter(tokens_to_stake, current_time)?;
    let stake = ctx.cast_vote(bumps, vote_type, tokens_to_stake, vote_seed)?;
    let mut instructions: Vec<TokenInstruction> = Vec::new();
    instructions.push(stake);
    Ok(instructions)
}

/// Why `claim_stake_rewards` is rejected, if it is: for what the proposal
/// cannot be finalized, or else for what the vote cannot be settled on the
/// finalized proposal.
pub open spec fn claim_stake_rewards_rejection(ctx: ClaimRewards) -> Option<Error> {
    if let Some(e) = ctx.finalize_rejection() {
        Some(e)
    } else {
        ctx.after_finalize().claim_rejection()
    }
}

/// Finalizes the proposal and settles the vote on it, in one.
pub fn claim_stake_rewards(ctx: &mut ClaimRewards) -> (res: Result<Vec<TokenInstruction>, Error>)
    ensures
        match claim_stake_rewards_rejection(*old(ctx)) {
            Some(e) => res == Err::<Vec<TokenInstruction>, Error>(e) && *final(ctx) == *old(ctx),
            None => res matches Ok(instructions) && instructions@ == seq![
                old(ctx).finalize_instruction(),
            ] + old(ctx).after_finalize().claim_instructions() && *final(ctx) == old(
                ctx,
            ).after_finalize().after_claim(),
        },
{
    let pool = ctx.proposal.staking_vault_balance;
    let deadline = ctx.proposal.voting_end_time;
    let treasury = ctx.dao_treasury;
    let vault = ctx.staking_vault;
    let reward = ctx.finalize_proposal()?;
    match ctx.claim_rewards() {
        Ok(settlement) => {
            let mut instructions: Vec<TokenInstruction> = Vec::new();
            instructions.push(reward);
            let mut settlement = settlement;
            instructions.append(&mut settlement);
            Ok(instructions)
        },
        Err(e) => {
            ctx.proposal.staking_vault_balance = pool;
            ctx.proposal.voting_end_time = deadline;
            ctx.dao_treasury = treasury;
            ctx.staking_vault = vault;
            Err(e)
        },
    }
}

/// Nobody who holds less than the floor for creators creates an
/// organization. For whoever holds the floor or more, the holding decides
/// nothing further: with any other such holding the outcome is the same.
/// And whoever creates an organization pays exactly the fee, which the
/// platform treasury receives.
pub proof fn lemma_creation_fee(
    ctx: CreateDao,
    bumps: CreateDaoBumps,
    dao_seed: u64,
    amount: u64,
    dao_name: String,
    dao_description: String,
    governance_model: GovernanceModel,
    voting_model: VotingModel,
    reward_model: RewardModel,
    voting_threshold: VotingThreshold,
    other_holding: u64,
)
    ensures
        ({
            let rejection = initialize_dao_rejection(
                ctx,
                amount,
                dao_name,
                dao_description,
                voting_threshold,
            );
            let after = after_initialize_dao(
                ctx,
                bumps,
                dao_seed,
                amount,
                dao_name,
                dao_description,
                governance_model,
                voting_model,
                reward_model,
                voting_threshold,
            );
            let other = CreateDao {
                creator_daoverse_ata: TokenAccount {
                    amount: other_holding,
                    ..ctx.creator_daoverse_ata
                },
                ..ctx
            };
            &&& ctx.creator_daoverse_ata.amount < MIN_CREATOR_BALANCE ==> rejection is Some
            &&& ctx.creator_daoverse_ata.amount >= MIN_CREATOR_BALANCE && other_holding
                >= MIN_CREATOR_BALANCE ==> rejection == initialize_dao_rejection(
                other,
                amount,
                dao_name,
                dao_description,
                voting_threshold,
            )
            &&& rejection is None ==> {
                &&& after.creator_daoverse_ata.amount + DAO_CREATION_FEE
                    == ctx.creator_daoverse_ata.amount
                &&& after.daoverse_treasury.amount == ctx.daoverse_treasury.amount
                    + DAO_CREATION_FEE
                &&& after.daoverse.daoverse_treasury_balance
                    == ctx.daoverse.daoverse_treasury_balance + DAO_CREATION_FEE
            }
        }),
{
}

} // verus!
