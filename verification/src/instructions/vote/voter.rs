use crate::errors::{Error, ErrorCode};
use crate::limits::MIN_VOTER_BALANCE;
use crate::pubkey::Pubkey;
use crate::state::{ProposalState, VoteState, VoteType};
use crate::token::{
    credited, debited, held, transfer, transfer_instruction, transfer_refusal, TokenAccount,
    TokenInstruction,
};
use vstd::prelude::*;

verus! {

/// The bump of the address at which a vote's receipt is created.
#[derive(Clone, Copy, Debug, PartialEq, Eq, Hash)]
pub struct VoterBumps {
    pub vote_record: u8,
}

/// What casting a vote touches: the voter with the sub-account that the
/// stake comes from, the proposal with its staking pool, and the place of
/// the vote's receipt.
#[derive(Clone, Debug, PartialEq, Eq)]
pub struct Voter {
    pub voter: Pubkey,
    pub dao_mint: Pubkey,
    /// The receipt of this voter's vote on this proposal; `None` as long as
    /// the voter has not voted on it.
    pub vote_record: Option<VoteState>,
    pub proposal_key: Pubkey,
    pub proposal: ProposalState,
    pub voter_dao_ata: TokenAccount,
    pub staking_vault: TokenAccount,
}

impl Voter {
    /// The sub-accounts are two different ones, and the ledger holds each
    /// with the balance that is booked on it.
    pub open spec fn booked(self, balances: Map<Pubkey, nat>) -> bool {
        &&& self.voter_dao_ata.key != self.staking_vault.key
        &&& held(balances, self.voter_dao_ata)
        &&& held(balances, self.staking_vault)
    }

    /// Why the voter may not stake `tokens_to_stake` on the proposal at the
    /// time `current_time`, if so. In this order: voting is over; the voter
    /// holds less than the floor for voters; the stake is below the
    /// proposal's minimum; the voter holds less than the stake.
    pub open spec fn voter_defect(self, tokens_to_stake: u64, current_time: i64) -> Option<
        ErrorCode,
    > {
        if !self.proposal.open_at(current_time) {
            Some(ErrorCode::VotingPeriodEnded)
        } else if self.voter_dao_ata.amount < MIN_VOTER_BALANCE {
            Some(ErrorCode::InsufficientDaoTokens)
        } else if tokens_to_stake < self.proposal.min_token_stake {
            Some(ErrorCode::InsufficientStake)
        } else if self.voter_dao_ata.amount < tokens_to_stake {
            Some(ErrorCode::InsufficientDaoTokens)
        } else {
            None
        }
    }

    /// Checks that the voter may stake `tokens_to_stake` on the proposal at
    /// the time `current_time`.
    pub fn validate_voter(&self, tokens_to_stake: u64, current_time: i64) -> (res: Result<
        (),
        Error,
    >)
        ensures
            match self.voter_defect(tokens_to_stake, current_time) {
                Some(code) => res == Err::<(), Error>(Error::Code(code)),
                None => res is Ok,
            },
    {
        if current_time >= self.proposal.voting_end_time || self.proposal.voting_end_time == 0 {
            return Err(Error::Code(ErrorCode::VotingPeriodEnded));
        }
        if self.voter_dao_ata.amount < MIN_VOTER_BALANCE {
            return Err(Error::Code(ErrorCode::InsufficientDaoTokens));
        }
        if tokens_to_stake < self.proposal.min_token_stake {
            return Err(Error::Code(ErrorCode::InsufficientStake));
        }
        if self.voter_dao_ata.amount < tokens_to_stake {
            return Err(Error::Code(ErrorCode::InsufficientDaoTokens));
        }
        Ok(())
    }

    /// The tally that a vote of the given direction counts for.
    pub open spec fn tally(self, vote_type: VoteType) -> u64 {
        match vote_type {
            VoteType::Yes => self.proposal.vote_count_yes,
            VoteType::No => self.proposal.vote_count_no,
        }
    }

    /// Why `cast_vote` is rejected, if it is. In this order: the voter has
    /// voted on the proposal before; the tally or the pool's known balance
    /// would overflow; the ledger refuses to move the stake.
    pub open spec fn cast_rejection(self, vote_type: VoteType, tokens_to_stake: u64) -> Option<
        Error,
    > {
        if self.vote_record is Some {
            Some(Error::AccountInUse)
        } else if self.tally(vote_type) + 1 > u64::MAX {
            Some(Error::Code(ErrorCode::CalculationError))
        } else if self.proposal.staking_vault_balance + tokens_to_stake > u64::MAX {
            Some(Error::Code(ErrorCode::CalculationError))
        } else if let Some(e) = transfer_refusal(
            self.voter_dao_ata,
            self.staking_vault,
            self.dao_mint,
            tokens_to_stake,
        ) {
            Some(Error::Token(e))
        } else {
            None
        }
    }

    /// The receipt that `cast_vote` writes.
    pub open spec fn receipt(
        self,
        bumps: VoterBumps,
        vote_type: VoteType,
        tokens_to_stake: u64,
        vote_seed: u64,
    ) -> VoteState {
        VoteState {
            voter: self.voter,
            proposal_id: self.proposal_key,
            vote_seed,
            bump: bumps.vote_record,
            vote_type,
            tokens_staked: tokens_to_stake,
            claimed: false,
        }
    }

    /// The instruction that `cast_vote` returns: the stake goes from the
    /// voter's sub-account to the pool, on the voter's word.
    pub open spec fn cast_instruction(self, tokens_to_stake: u64) -> TokenInstruction {
        transfer_instruction(
            self.voter_dao_ata,
            self.staking_vault,
            self.dao_mint,
            self.voter,
            tokens_to_stake,
        )
    }

    /// The state that an accepted `cast_vote` leaves.
    pub open spec fn after_cast(
        self,
        bumps: VoterBumps,
        vote_type: VoteType,
        tokens_to_stake: u64,
        vote_seed: u64,
    ) -> Voter {
        Voter {
            vote_record: Some(self.receipt(bumps, vote_type, tokens_to_stake, vote_seed)),
            proposal: ProposalState {
                vote_count_yes: if vote_type is Yes {
                    (self.proposal.vote_count_yes + 1) as u64
                } else {
                    self.proposal.vote_count_yes
                },
                vote_count_no: if vote_type is No {
                    (self.proposal.vote_count_no + 1) as u64
                } else {
                    self.proposal.vote_count_no
                },
                staking_vault_balance: (self.proposal.staking_vault_balance
                    + tokens_to_stake) as u64,
                ..self.proposal
            },
            voter_dao_ata: debited(self.voter_dao_ata, tokens_to_stake),
            staking_vault: credited(self.staking_vault, tokens_to_stake),
            ..self
        }
    }

    /// Casts the vote: writes its receipt, counts it in the tally of its
    /// direction, adds the stake to the pool's known balance and moves it
    /// from the voter to the pool. A voter votes once on a proposal.
    pub fn cast_vote(
        &mut self,
        bumps: VoterBumps,
        vote_type: VoteType,
        tokens_to_stake: u64,
        vote_seed: u64,
    ) -> (res: Result<TokenInstruction, Error>)
        ensures
            match old(self).cast_rejection(vote_type, tokens_to_stake) {
                Some(e) => res == Err::<TokenInstruction, Error>(e) && *final(self) == *old(self),
                None => res == Ok::<TokenInstruction, Error>(
                    old(self).cast_instruction(tokens_to_stake),
                ) && *final(self) == old(self).after_cast(
                    bumps,
                    vote_type,
                    tokens_to_stake,
                    vote_seed,
                ),
            },
    {
        if self.vote_record.is_some() {
            return Err(Error::AccountInUse);
        }
        let tally = match vote_type {
            VoteType::Yes => self.proposal.vote_count_yes,
            VoteType::No => self.proposal.vote_count_no,
        };
        let tally = match tally.checked_add(1) {
            Some(tally) => tally,
            None => {
                return Err(Error::Code(ErrorCode::CalculationError));
            },
        };
        let pool = match self.proposal.staking_vault_balance.checked_add(tokens_to_stake) {
            Some(pool) => pool,
            None => {
                return Err(Error::Code(ErrorCode::CalculationError));
            },
        };
        let mut voter_ata = self.voter_dao_ata;
        let mut vault = self.staking_vault;
        let instruction = match transfer(
            &mut voter_ata,
            &mut vault,
            &self.dao_mint,
            &self.voter,
            tokens_to_stake,
        ) {
            Ok(instruction) => instruction,
            Err(e) => {
                return Err(Error::Token(e));
            },
        };
        self.vote_record = Some(
            VoteState {
                voter: self.voter,
                proposal_id: self.proposal_key,
                vote_seed,
                bump: bumps.vote_record,
                vote_type,
                tokens_staked: tokens_to_stake,
                claimed: false,
            },
        );
        match vote_type {
            VoteType::Yes => {
                self.proposal.vote_count_yes = tally;
            },
            VoteType::No => {
                self.proposal.vote_count_no = tally;
            },
        }
        self.proposal.staking_vault_balance = pool;
        self.voter_dao_ata = voter_ata;
        self.staking_vault = vault;
        Ok(instruction)
    }
}

/// A voter votes once on a proposal: after a vote has been cast, every
/// further one from the same place is rejected, because its receipt is
/// there.
pub proof fn lemma_vote_once(
    ctx: Voter,
    bumps: VoterBumps,
    vote_type: VoteType,
    tokens_to_stake: u64,
    vote_seed: u64,
    next_vote_type: VoteType,
    next_tokens_to_stake: u64,
)
    requires
        ctx.cast_rejection(vote_type, tokens_to_stake) is None,
    ensures
        ({
            let after = ctx.after_cast(bumps, vote_type, tokens_to_stake, vote_seed);
            &&& after.vote_record == Some(
                ctx.receipt(bumps, vote_type, tokens_to_stake, vote_seed),
            )
            &&& after.cast_rejection(next_vote_type, next_tokens_to_stake) == Some(
                Error::AccountInUse,
            )
        }),
{
}

/// No vote is cast on a finalized proposal, at whatever time.
pub proof fn lemma_finalized_takes_no_votes(ctx: Voter, tokens_to_stake: u64, current_time: i64)
    requires
        ctx.proposal.finalized(),
    ensures
        ctx.voter_defect(tokens_to_stake, current_time) == Some(ErrorCode::VotingPeriodEnded),
{
}

} // verus!
