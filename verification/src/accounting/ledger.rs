//! The ledger: what an operation books on the sub-accounts is what the
//! ledger holds once it has performed the operation's instructions, in
//! order.

use crate::instructions::{
    ClaimRewards, CreateDao, CreateDaoBumps, InitializeDaoverse, Voter, VoterBumps,
};
use crate::limits::DAO_CREATION_FEE;
use crate::processor::{
    after_initialize_dao, claim_stake_rewards_rejection, initialize_dao_rejection,
};
use crate::pubkey::Pubkey;
use crate::state::{GovernanceModel, RewardModel, VoteType, VotingModel, VotingThreshold};
use crate::token::{
    credited, lemma_performed_all, lemma_performed_all_after, lemma_performed_all_push,
    lemma_transfer_performed, performed, performed_all, transfer_instruction, TokenInstruction,
};
use vstd::prelude::*;

verus! {

/// The admin's deposit, performed, leaves the ledger as it is booked.
pub proof fn lemma_admin_deposit_performed(
    ctx: InitializeDaoverse,
    amount: u64,
    balances: Map<Pubkey, nat>,
)
    requires
        ctx.deposit_rejection(amount) is None,
        ctx.booked(balances),
    ensures
        ctx.after_deposit(amount).booked(performed(balances, ctx.deposit_instruction(amount))),
{
    lemma_transfer_performed(
        balances,
        ctx.admin_ata,
        ctx.daoverse_treasury,
        ctx.daoverse_mint,
        ctx.admin,
        amount,
    );
}

/// The fee and the creator's deposit, performed in this order, leave the
/// ledger as creating the organization has booked it.
pub proof fn lemma_initialize_dao_performed(
    ctx: CreateDao,
    bumps: CreateDaoBumps,
    dao_seed: u64,
    amount: u64,
    dao_name: String,
    dao_description: String,
    governance_model: GovernanceModel,
    voting_model: VotingModel,
    reward_model: RewardModel,
    voting_threshold: VotingThreshold,
    balances: Map<Pubkey, nat>,
)
    requires
        initialize_dao_rejection(ctx, amount, dao_name, dao_description, voting_threshold) is None,
        ctx.booked(balances),
    ensures
        after_initialize_dao(
            ctx,
            bumps,
            dao_seed,
            amount,
            dao_name,
            dao_description,
            governance_model,
            voting_model,
            reward_model,
            voting_threshold,
        ).booked(
            performed_all(
                balances,
                seq![ctx.fee_instruction(), ctx.deposit_instruction(amount)],
            ),
        ),
{
    lemma_performed_all(balances, ctx.fee_instruction(), ctx.deposit_instruction(amount));
    lemma_transfer_performed(
        balances,
        ctx.creator_daoverse_ata,
        ctx.daoverse_treasury,
        ctx.daoverse_mint,
        ctx.creator,
        DAO_CREATION_FEE,
    );
    lemma_transfer_performed(
        performed(balances, ctx.fee_instruction()),
        ctx.creator_dao_ata,
        ctx.dao_treasury,
        ctx.dao_mint,
        ctx.creator,
        amount,
    );
}

/// The stake, moved, leaves the ledger as casting the vote has booked it.
pub proof fn lemma_cast_vote_performed(
    ctx: Voter,
    bumps: VoterBumps,
    vote_type: VoteType,
    tokens_to_stake: u64,
    vote_seed: u64,
    balances: Map<Pubkey, nat>,
)
    requires
        ctx.cast_rejection(vote_type, tokens_to_stake) is None,
        ctx.booked(balances),
    ensures
        ctx.after_cast(bumps, vote_type, tokens_to_stake, vote_seed).booked(
            performed(balances, ctx.cast_instruction(tokens_to_stake)),
        ),
{
    lemma_transfer_performed(
        balances,
        ctx.voter_dao_ata,
        ctx.staking_vault,
        ctx.dao_mint,
        ctx.voter,
        tokens_to_stake,
    );
}

/// The reward, moved, leaves the ledger as finalizing has booked it.
pub proof fn lemma_finalize_performed(ctx: ClaimRewards, balances: Map<Pubkey, nat>)
    requires
        ctx.finalize_rejection() is None,
        ctx.booked(balances),
    ensures
        ctx.after_finalize().booked(performed(balances, ctx.finalize_instruction())),
{
    lemma_transfer_performed(
        balances,
        ctx.dao_treasury,
        ctx.staking_vault->0,
        ctx.dao_mint,
        ctx.dao_key,
        ctx.pool_reward(),
    );
}

/// The instructions of a settlement, performed in order, leave the ledger
/// as settling has booked it; and a pool that settling closed, the ledger
/// holds no more.
pub proof fn lemma_claim_performed(ctx: ClaimRewards, balances: Map<Pubkey, nat>)
    requires
        ctx.claim_rejection() is None,
        ctx.booked(balances),
    ensures
        ({
            let after = performed_all(balances, ctx.claim_instructions());
            &&& ctx.after_claim().booked(after)
            &&& ctx.claim_empties_pool() ==> !after.contains_key(ctx.staking_vault->0.key)
        }),
{
    let staked = ctx.vote_record.tokens_staked;
    let vault = ctx.staking_vault->0;
    let principal = transfer_instruction(
        vault,
        ctx.voter_dao_ata,
        ctx.dao_mint,
        ctx.proposal_key,
        staked,
    );
    let interest = transfer_instruction(
        ctx.dao_treasury,
        ctx.voter_dao_ata,
        ctx.dao_mint,
        ctx.dao_key,
        ctx.interest(),
    );
    lemma_performed_all(balances, principal, interest);
    lemma_transfer_performed(
        balances,
        vault,
        ctx.voter_dao_ata,
        ctx.dao_mint,
        ctx.proposal_key,
        staked,
    );
    lemma_transfer_performed(
        performed(balances, principal),
        ctx.dao_treasury,
        credited(ctx.voter_dao_ata, staked),
        ctx.dao_mint,
        ctx.dao_key,
        ctx.interest(),
    );
    if ctx.claim_empties_pool() {
        lemma_performed_all_push(
            balances,
            seq![principal, interest],
            TokenInstruction::CloseAccount {
                account: vault.key,
                destination: ctx.voter_dao_ata.key,
                authority: ctx.proposal_key,
            },
        );
    }
}

/// The instructions of finalizing and settling in one, performed in order,
/// leave the ledger as it is booked.
pub proof fn lemma_claim_stake_rewards_performed(ctx: ClaimRewards, balances: Map<Pubkey, nat>)
    requires
        claim_stake_rewards_rejection(ctx) is None,
        ctx.booked(balances),
    ensures
        ctx.after_finalize().after_claim().booked(
            performed_all(
                balances,
                seq![ctx.finalize_instruction()] + ctx.after_finalize().claim_instructions(),
            ),
        ),
{
    lemma_claim_performed(ctx.after_finalize(), performed(balances, ctx.finalize_instruction()));
    lemma_performed_all_after(
        balances,
        ctx.finalize_instruction(),
        ctx.after_finalize().claim_instructions(),
    );
}

} // verus!
