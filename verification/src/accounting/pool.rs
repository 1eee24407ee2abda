//! The staking pool of a proposal: its known balance is what the votes on
//! the proposal still have at stake, together with the rewards deposited
//! in it, and it is what the ledger holds in the pool.

use crate::instructions::{ClaimRewards, Proposer, ProposerBumps, Voter, VoterBumps};
use crate::pubkey::Pubkey;
use crate::state::{ProposalState, VoteState, VoteType};
use crate::token::TokenAccount;
use vstd::prelude::*;

verus! {

/// What a vote still has at stake: its stake, until it is settled.
pub open spec fn at_stake(vote: VoteState) -> nat {
    if vote.claimed {
        0
    } else {
        vote.tokens_staked as nat
    }
}

/// What the votes still have at stake, added up.
pub open spec fn unclaimed_stake(votes: Seq<VoteState>) -> nat
    decreases votes.len(),
{
    if votes.len() == 0 {
        0
    } else {
        unclaimed_stake(votes.drop_last()) + at_stake(votes.last())
    }
}

/// The receipts are those of votes on the proposal at `proposal_key`, one
/// for each voter at most.
pub open spec fn receipts_of(votes: Seq<VoteState>, proposal_key: Pubkey) -> bool {
    &&& forall|i: int| 0 <= i < votes.len() ==> (#[trigger] votes[i]).proposal_id == proposal_key
    &&& forall|i: int, j: int|
        0 <= i < j < votes.len() ==> (#[trigger] votes[i]).voter != (#[trigger] votes[j]).voter
}

/// The pool's known balance is what the votes on the proposal still have
/// at stake, and the rewards deposited in it.
pub open spec fn pool_accounted(
    proposal: ProposalState,
    votes: Seq<VoteState>,
    rewards: nat,
) -> bool {
    proposal.staking_vault_balance == unclaimed_stake(votes) + rewards
}

/// The pool's known balance is what the ledger holds in it; a closed pool
/// is known to hold nothing.
pub open spec fn pool_agrees(proposal: ProposalState, vault: Option<TokenAccount>) -> bool {
    match vault {
        Some(vault) => proposal.staking_vault_balance == vault.amount,
        None => proposal.staking_vault_balance == 0,
    }
}

/// One more vote adds what it has at stake.
pub proof fn lemma_unclaimed_stake_push(votes: Seq<VoteState>, vote: VoteState)
    ensures
        unclaimed_stake(votes.push(vote)) == unclaimed_stake(votes) + at_stake(vote),
{
    assert(votes.push(vote).drop_last() =~= votes);
}

/// Replacing a vote replaces what it has at stake.
pub proof fn lemma_unclaimed_stake_update(votes: Seq<VoteState>, i: int, vote: VoteState)
    requires
        0 <= i < votes.len(),
    ensures
        unclaimed_stake(votes.update(i, vote)) + at_stake(votes[i]) == unclaimed_stake(votes)
            + at_stake(vote),
    decreases votes.len(),
{
    if i == votes.len() - 1 {
        assert(votes.update(i, vote).drop_last() =~= votes.drop_last());
    } else {
        lemma_unclaimed_stake_update(votes.drop_last(), i, vote);
        assert(votes.update(i, vote).drop_last() =~= votes.drop_last().update(i, vote));
    }
}

/// What is known of a proposal's pool at one time: the proposal, the
/// receipts of the votes on it, the rewards that finalizing has deposited
/// in the pool so far, and the pool as the ledger holds it.
pub struct PoolBook {
    pub proposal: ProposalState,
    pub votes: Seq<VoteState>,
    pub rewards: nat,
    pub vault: Option<TokenAccount>,
}

impl PoolBook {
    /// The pool is accounted for: the receipts are the proposal's, its
    /// known balance is what they still have at stake and the rewards
    /// deposited, and that is what the ledger holds in the pool.
    pub open spec fn accounted(self, proposal_key: Pubkey) -> bool {
        &&& receipts_of(self.votes, proposal_key)
        &&& pool_accounted(self.proposal, self.votes, self.rewards)
        &&& pool_agrees(self.proposal, self.vault)
    }
}

/// An accepted operation on a proposal's pool, with what it was given.
pub enum PoolStep {
    /// A vote is cast.
    Cast {
        voting: Voter,
        bumps: VoterBumps,
        vote_type: VoteType,
        tokens_to_stake: u64,
        vote_seed: u64,
    },
    /// The proposal is finalized.
    Finalize { settling: ClaimRewards },
    /// The vote with the receipt at `index` is settled.
    Settle { settling: ClaimRewards, index: int },
}

/// Whether the voter has a receipt among the votes.
pub open spec fn has_voted(votes: Seq<VoteState>, voter: Pubkey) -> bool {
    exists|i: int| 0 <= i < votes.len() && (#[trigger] votes[i]).voter == voter
}

/// The step leads from one book of the proposal at `proposal_key` to the
/// next: the operation was given the proposal and the pool as the book has
/// them, it was accepted, and the next book has what it left. Where a vote
/// is cast, the place of its receipt was empty if and only if the voter
/// had no receipt in the book; a vote is settled on its receipt in the
/// book.
pub open spec fn pool_step(
    proposal_key: Pubkey,
    before: PoolBook,
    step: PoolStep,
    after: PoolBook,
) -> bool {
    match step {
        PoolStep::Cast { voting: ctx, bumps, vote_type, tokens_to_stake, vote_seed } => {
            &&& ctx.proposal_key == proposal_key
            &&& ctx.proposal == before.proposal
            &&& before.vault == Some(ctx.staking_vault)
            &&& ctx.vote_record is Some <==> has_voted(before.votes, ctx.voter)
            &&& ctx.cast_rejection(vote_type, tokens_to_stake) is None
            &&& after == (PoolBook {
                proposal: ctx.after_cast(bumps, vote_type, tokens_to_stake, vote_seed).proposal,
                votes: before.votes.push(
                    ctx.receipt(bumps, vote_type, tokens_to_stake, vote_seed),
                ),
                rewards: before.rewards,
                vault: Some(
                    ctx.after_cast(bumps, vote_type, tokens_to_stake, vote_seed).staking_vault,
                ),
            })
        },
        PoolStep::Finalize { settling: ctx } => {
            &&& ctx.proposal_key == proposal_key
            &&& ctx.proposal == before.proposal
            &&& ctx.staking_vault == before.vault
            &&& ctx.finalize_rejection() is None
            &&& after == (PoolBook {
                proposal: ctx.after_finalize().proposal,
                votes: before.votes,
                rewards: before.rewards + ctx.pool_reward() as nat,
                vault: ctx.after_finalize().staking_vault,
            })
        },
        PoolStep::Settle { settling: ctx, index } => {
            &&& ctx.proposal_key == proposal_key
            &&& ctx.proposal == before.proposal
            &&& ctx.staking_vault == before.vault
            &&& 0 <= index < before.votes.len()
            &&& ctx.vote_record == before.votes[index]
            &&& ctx.proposal.finalized()
            &&& ctx.claim_rejection() is None
            &&& after == (PoolBook {
                proposal: ctx.after_claim().proposal,
                votes: before.votes.update(index, ctx.after_claim().vote_record),
                rewards: before.rewards,
                vault: ctx.after_claim().staking_vault,
            })
        },
    }
}

/// The books of a proposal in the course of the steps: each step leads
/// from one book to the next.
pub open spec fn pool_history(
    proposal_key: Pubkey,
    books: Seq<PoolBook>,
    steps: Seq<PoolStep>,
) -> bool {
    &&& books.len() == steps.len() + 1
    &&& forall|i: int|
        0 <= i < steps.len() ==> pool_step(
            proposal_key,
            books[i],
            #[trigger] steps[i],
            books[i + 1],
        )
}

/// A new proposal's pool is accounted for by no votes and no rewards,
/// where the ledger holds nothing in it.
pub proof fn lemma_new_pool_accounted(
    ctx: Proposer,
    bumps: ProposerBumps,
    proposal_seed: u64,
    proposal_title: String,
    proposal_details: String,
    proposal_cost: u64,
    min_token_stake: u64,
    voting_end_time: i64,
    proposal_key: Pubkey,
    vault: TokenAccount,
)
    requires
        vault.amount == 0,
    ensures
        (PoolBook {
            proposal: ctx.new_proposal(
                bumps,
                proposal_seed,
                proposal_title,
                proposal_details,
                proposal_cost,
                min_token_stake,
                voting_end_time,
            ),
            votes: Seq::empty(),
            rewards: 0,
            vault: Some(vault),
        }).accounted(proposal_key),
{
}

/// Every step keeps the pool accounted for: what a vote stakes is added to
/// the known balance and to the pool alike, what finalizing deposits is
/// added to both and to the rewards, and what settling returns is taken
/// from both. While nothing has been finalized, the known balance is what
/// the votes have at stake, exactly.
pub proof fn lemma_pool_step_accounted(
    proposal_key: Pubkey,
    before: PoolBook,
    step: PoolStep,
    after: PoolBook,
)
    requires
        pool_step(proposal_key, before, step, after),
        before.accounted(proposal_key),
    ensures
        after.accounted(proposal_key),
        step is Finalize || after.rewards == before.rewards,
{
    match step {
        PoolStep::Cast { voting: ctx, bumps, vote_type, tokens_to_stake, vote_seed } => {
            lemma_unclaimed_stake_push(
                before.votes,
                ctx.receipt(bumps, vote_type, tokens_to_stake, vote_seed),
            );
        },
        PoolStep::Finalize { .. } => {},
        PoolStep::Settle { settling: ctx, index } => {
            lemma_unclaimed_stake_update(before.votes, index, ctx.after_claim().vote_record);
        },
    }
}

/// Who has a receipt in the book does not vote again: given the place of
/// that receipt, casting a vote is rejected.
pub proof fn lemma_one_vote_each(
    before: PoolBook,
    ctx: Voter,
    vote_type: VoteType,
    tokens_to_stake: u64,
)
    requires
        ctx.vote_record is Some <==> has_voted(before.votes, ctx.voter),
        has_voted(before.votes, ctx.voter),
    ensures
        ctx.cast_rejection(vote_type, tokens_to_stake) == Some(crate::errors::Error::AccountInUse),
{
}

/// After any number of steps from a pool that is accounted for, the pool
/// is accounted for; and no voter has two receipts.
pub proof fn lemma_pool_history_accounted(
    proposal_key: Pubkey,
    books: Seq<PoolBook>,
    steps: Seq<PoolStep>,
    n: int,
)
    requires
        pool_history(proposal_key, books, steps),
        books[0].accounted(proposal_key),
        0 <= n < books.len(),
    ensures
        books[n].accounted(proposal_key),
    decreases n,
{
    if n > 0 {
        lemma_pool_history_accounted(proposal_key, books, steps, n - 1);
        lemma_pool_step_accounted(proposal_key, books[n - 1], steps[n - 1], books[n]);
    }
}

} // verus!
