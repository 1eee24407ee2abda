use crate::errors::{Error, ErrorCode};
use crate::limits::REWARD_PERCENT;
use crate::pubkey::Pubkey;
use crate::state::{DaoConfig, ProposalState, VoteState};
use crate::token::{
    credited, debited, held, transfer, transfer_instruction, transfer_refusal, TokenAccount,
    TokenInstruction,
};
use vstd::prelude::*;

verus! {

/// The reward on an amount: a fixed share of it, rounded down.
pub open spec fn reward_for(amount: nat) -> nat {
    amount * (REWARD_PERCENT as nat) / 100
}

/// Whether the reward on an amount can be computed in `u64`: the amount
/// times the share in percent must fit.
pub open spec fn reward_computable(amount: nat) -> bool {
    amount * (REWARD_PERCENT as nat) <= u64::MAX
}

/// The reward never rounds up: it is the largest number whose hundredfold
/// does not exceed the amount times the share in percent. So it is never
/// more than the amount.
pub proof fn lemma_reward_rounds_down(amount: nat)
    ensures
        100 * reward_for(amount) <= amount * REWARD_PERCENT,
        amount * REWARD_PERCENT < 100 * (reward_for(amount) + 1),
        reward_for(amount) <= amount,
{
}

/// Computes the reward on an amount, with a checked multiplication.
pub fn compute_reward(amount: u64) -> (res: Result<u64, ErrorCode>)
    ensures
        reward_computable(amount as nat) ==> res == Ok::<u64, ErrorCode>(
            reward_for(amount as nat) as u64,
        ),
        !reward_computable(amount as nat) ==> res == Err::<u64, ErrorCode>(
            ErrorCode::CalculationError,
        ),
{
    match amount.checked_mul(REWARD_PERCENT) {
        None => Err(ErrorCode::CalculationError),
        Some(product) => match product.checked_div(100) {
            None => Err(ErrorCode::CalculationError),
            Some(reward) => Ok(reward),
        },
    }
}

/// What finalizing a proposal and settling one vote on it touch: the
/// proposal with its staking pool, the organization with its treasury, the
/// vote's receipt, and the voter with the sub-account that is paid.
#[derive(Clone, Debug, PartialEq, Eq)]
pub struct ClaimRewards {
    pub voter: Pubkey,
    pub dao_mint: Pubkey,
    pub proposal_key: Pubkey,
    pub proposal: ProposalState,
    pub voter_dao_ata: TokenAccount,
    /// The proposal's staking pool; `None` once it has been closed.
    pub staking_vault: Option<TokenAccount>,
    pub dao_key: Pubkey,
    pub dao: DaoConfig,
    pub dao_treasury: TokenAccount,
    pub vote_record: VoteState,
}

impl ClaimRewards {
    /// The sub-accounts are different ones, and the ledger holds each with
    /// the balance that is booked on it. Of a closed pool nothing is said.
    pub open spec fn booked(self, balances: Map<Pubkey, nat>) -> bool {
        &&& self.voter_dao_ata.key != self.dao_treasury.key
        &&& held(balances, self.voter_dao_ata)
        &&& held(balances, self.dao_treasury)
        &&& self.staking_vault matches Some(vault) ==> {
            &&& vault.key != self.voter_dao_ata.key
            &&& vault.key != self.dao_treasury.key
            &&& held(balances, vault)
        }
    }

    /// The reward that finalizing deposits: the reward on what the staking
    /// pool is known to hold.
    pub open spec fn pool_reward(self) -> u64 {
        reward_for(self.proposal.staking_vault_balance as nat) as u64
    }

    /// Why `finalize_proposal` is rejected, if it is: the pool has been
    /// closed, or the reward cannot be computed, or the ledger refuses to
    /// move it from the treasury to the pool.
    pub open spec fn finalize_rejection(self) -> Option<Error> {
        if self.staking_vault is None {
            Some(Error::AccountNotInitialized)
        } else if !reward_computable(self.proposal.staking_vault_balance as nat) {
            Some(Error::Code(ErrorCode::CalculationError))
        } else if let Some(e) = transfer_refusal(
            self.dao_treasury,
            self.staking_vault->0,
            self.dao_mint,
            self.pool_reward(),
        ) {
            Some(Error::Token(e))
        } else {
            None
        }
    }

    /// The instruction that `finalize_proposal` returns: the reward goes
    /// from the treasury to the pool, on the organization's word.
    pub open spec fn finalize_instruction(self) -> TokenInstruction {
        transfer_instruction(
            self.dao_treasury,
            self.staking_vault->0,
            self.dao_mint,
            self.dao_key,
            self.pool_reward(),
        )
    }

    /// The state that an accepted `finalize_proposal` leaves.
    pub open spec fn after_finalize(self) -> ClaimRewards {
        ClaimRewards {
            proposal: ProposalState {
                staking_vault_balance: (self.proposal.staking_vault_balance
                    + self.pool_reward()) as u64,
                voting_end_time: 0,
                ..self.proposal
            },
            dao_treasury: debited(self.dao_treasury, self.pool_reward()),
            staking_vault: Some(credited(self.staking_vault->0, self.pool_reward())),
            ..self
        }
    }

    /// Finalizes the proposal: moves the reward on what its staking pool is
    /// known to hold from the organization's treasury into the pool, adds it
    /// to the pool's known balance, and sets the deadline to 0 for good.
    /// Whether the deadline has passed is not asked, and a proposal can be
    /// finalized again.
    pub fn finalize_proposal(&mut self) -> (res: Result<TokenInstruction, Error>)
        ensures
            match old(self).finalize_rejection() {
                Some(e) => res == Err::<TokenInstruction, Error>(e) && *final(self) == *old(self),
                None => res == Ok::<TokenInstruction, Error>(old(self).finalize_instruction())
                    && *final(self) == old(self).after_finalize(),
            },
    {
        let mut vault = match self.staking_vault {
            Some(vault) => vault,
            None => {
                return Err(Error::AccountNotInitialized);
            },
        };
        let pool = self.proposal.staking_vault_balance;
        let reward = match compute_reward(pool) {
            Ok(reward) => reward,
            Err(e) => {
                return Err(Error::Code(e));
            },
        };
        let mut treasury = self.dao_treasury;
        let instruction = match transfer(
            &mut treasury,
            &mut vault,
            &self.dao_mint,
            &self.dao_key,
            reward,
        ) {
            Ok(instruction) => instruction,
            Err(e) => {
                return Err(Error::Token(e));
            },
        };
        self.proposal.staking_vault_balance = pool + reward;
        self.proposal.voting_end_time = 0;
        self.dao_treasury = treasury;
        self.staking_vault = Some(vault);
        Ok(instruction)
    }

    /// The interest on the vote: the reward on its stake.
    pub open spec fn interest(self) -> u64 {
        reward_for(self.vote_record.tokens_staked as nat) as u64
    }

    /// Why `claim_rewards` is rejected, if it is. In this order: the vote
    /// has been settled before; the pool has been closed; the ledger refuses
    /// to return the stake from the pool; the interest cannot be computed;
    /// the treasury holds less than the interest; the ledger refuses to pay
    /// the interest; the pool is known to hold less than the stake.
    pub open spec fn claim_rejection(self) -> Option<Error> {
        let staked = self.vote_record.tokens_staked;
        if self.vote_record.claimed {
            Some(Error::Code(ErrorCode::RewardsAlreadyClaimed))
        } else if self.staking_vault is None {
            Some(Error::AccountNotInitialized)
        } else if let Some(e) = transfer_refusal(
            self.staking_vault->0,
            self.voter_dao_ata,
            self.dao_mint,
            staked,
        ) {
            Some(Error::Token(e))
        } else if !reward_computable(staked as nat) {
            Some(Error::Code(ErrorCode::CalculationError))
        } else if self.dao_treasury.amount < self.interest() {
            Some(Error::Code(ErrorCode::InsufficientFunds))
        } else if let Some(e) = transfer_refusal(
            self.dao_treasury,
            credited(self.voter_dao_ata, staked),
            self.dao_mint,
            self.interest(),
        ) {
            Some(Error::Token(e))
        } else if self.proposal.staking_vault_balance < staked {
            Some(Error::Code(ErrorCode::CalculationError))
        } else {
            None
        }
    }

    /// Whether returning the stake empties the pool, so that it is closed.
    pub open spec fn claim_empties_pool(self) -> bool {
        self.staking_vault matches Some(vault) && vault.amount == self.vote_record.tokens_staked
    }

    /// The instructions that `claim_rewards` returns, in order: the stake
    /// goes from the pool to the voter on the proposal's word; the interest
    /// goes from the treasury to the voter on the organization's word; and
    /// where that emptied the pool, the pool is closed on the proposal's
    /// word, in favour of the voter's sub-account.
    pub open spec fn claim_instructions(self) -> Seq<TokenInstruction> {
        let staked = self.vote_record.tokens_staked;
        let vault = self.staking_vault->0;
        let payments = seq![
            transfer_instruction(
                vault,
                self.voter_dao_ata,
                self.dao_mint,
                self.proposal_key,
                staked,
            ),
            transfer_instruction(
                self.dao_treasury,
                self.voter_dao_ata,
                self.dao_mint,
                self.dao_key,
                self.interest(),
            ),
        ];
        if self.claim_empties_pool() {
            payments.push(
                TokenInstruction::CloseAccount {
                    account: vault.key,
                    destination: self.voter_dao_ata.key,
                    authority: self.proposal_key,
                },
            )
        } else {
            payments
        }
    }

    /// The state that an accepted `claim_rewards` leaves.
    pub open spec fn after_claim(self) -> ClaimRewards {
        let staked = self.vote_record.tokens_staked;
        ClaimRewards {
            proposal: ProposalState {
                staking_vault_balance: (self.proposal.staking_vault_balance - staked) as u64,
                ..self.proposal
            },
            voter_dao_ata: credited(credited(self.voter_dao_ata, staked), self.interest()),
            staking_vault: if self.claim_empties_pool() {
                None
            } else {
                Some(debited(self.staking_vault->0, staked))
            },
            dao_treasury: debited(self.dao_treasury, self.interest()),
            vote_record: VoteState { claimed: true, ..self.vote_record },
            ..self
        }
    }

    /// Settles the vote on a finalized proposal: returns its stake from the
    /// pool to the voter, pays the interest on it from the organization's
    /// treasury, takes the stake off the pool's known balance, marks the
    /// vote as settled, and closes the pool where it is left empty. A vote
    /// is settled once. Whose the receipt is is not asked.
    pub fn claim_rewards(&mut self) -> (res: Result<Vec<TokenInstruction>, Error>)
        requires
            old(self).proposal.finalized(),
        ensures
            match old(self).claim_rejection() {
                Some(e) => res == Err::<Vec<TokenInstruction>, Error>(e)
                    && *final(self) == *old(self),
                None => res matches Ok(instructions)
                    && instructions@ == old(self).claim_instructions()
                    && *final(self) == old(self).after_claim(),
            },
    {
        if self.vote_record.claimed {
            return Err(Error::Code(ErrorCode::RewardsAlreadyClaimed));
        }
        let mut vault = match self.staking_vault {
            Some(vault) => vault,
            None => {
                return Err(Error::AccountNotInitialized);
            },
        };
        let staked = self.vote_record.tokens_staked;
        let mut voter_ata = self.voter_dao_ata;
        let principal = match transfer(
            &mut vault,
            &mut voter_ata,
            &self.dao_mint,
            &self.proposal_key,
            staked,
        ) {
            Ok(instruction) => instruction,
            Err(e) => {
                return Err(Error::Token(e));
            },
        };
        let interest = match compute_reward(staked) {
            Ok(interest) => interest,
            Err(e) => {
                return Err(Error::Code(e));
            },
        };
        let mut treasury = self.dao_treasury;
        if treasury.amount < interest {
            return Err(Error::Code(ErrorCode::InsufficientFunds));
        }
        let payment = match transfer(
            &mut treasury,
            &mut voter_ata,
            &self.dao_mint,
            &self.dao_key,
            interest,
        ) {
            Ok(instruction) => instruction,
            Err(e) => {
                return Err(Error::Token(e));
            },
        };
        let pool = match self.proposal.staking_vault_balance.checked_sub(staked) {
            Some(pool) => pool,
            None => {
                return Err(Error::Code(ErrorCode::CalculationError));
            },
        };
        let mut instructions: Vec<TokenInstruction> = Vec::new();
        instructions.push(principal);
        instructions.push(payment);
        if vault.amount == 0 {
            instructions.push(
                TokenInstruction::CloseAccount {
                    account: vault.key,
                    destination: voter_ata.key,
                    authority: self.proposal_key,
                },
            );
            self.staking_vault = None;
        } else {
            self.staking_vault = Some(vault);
        }
        self.proposal.staking_vault_balance = pool;
        self.vote_record.claimed = true;
        self.voter_dao_ata = voter_ata;
        self.dao_treasury = treasury;
        Ok(instructions)
    }
}

/// A vote that has been settled is not settled again.
pub proof fn lemma_settled_vote_is_refused(ctx: ClaimRewards)
    requires
        ctx.vote_record.claimed,
    ensures
        ctx.claim_rejection() == Some(Error::Code(ErrorCode::RewardsAlreadyClaimed)),
{
}

/// A vote is settled once: after it has been, settling it is rejected.
pub proof fn lemma_vote_is_settled_once(ctx: ClaimRewards)
    requires
        ctx.claim_rejection() is None,
    ensures
        ctx.after_claim().vote_record.claimed,
        ctx.after_claim().claim_rejection() == Some(
            Error::Code(ErrorCode::RewardsAlreadyClaimed),
        ),
{
}

/// A finalized proposal stays finalized, whether it is finalized again or
/// a vote on it is settled.
pub proof fn lemma_finalized_for_good(ctx: ClaimRewards)
    ensures
        ctx.after_finalize().proposal.finalized(),
        ctx.proposal.finalized() ==> ctx.after_claim().proposal.finalized(),
{
}

/// The receipt of a settled vote does not change any more: finalizing
/// leaves every receipt as it is, and settling is rejected.
pub proof fn lemma_settled_receipt_is_final(ctx: ClaimRewards)
    requires
        ctx.vote_record.claimed,
    ensures
        ctx.after_finalize().vote_record == ctx.vote_record,
        ctx.claim_rejection() is Some,
{
}

} // verus!
