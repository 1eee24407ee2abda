use crate::errors::{Error, ErrorCode};
use crate::limits::{fits, string_fits, MAX_DESCRIPTION_LEN, MAX_NAME_LEN, MIN_PROPOSER_BALANCE};
use crate::pubkey::Pubkey;
use crate::state::ProposalState;
use crate::token::TokenAccount;
use vstd::prelude::*;

verus! {

/// The bump of the address at which a proposal is created.
#[derive(Clone, Copy, Debug, PartialEq, Eq, Hash)]
pub struct ProposerBumps {
    pub proposal: u8,
}

/// What making a proposal touches: the proposer with the sub-account that
/// shows the holding, and the place of the proposal.
#[derive(Clone, Debug, PartialEq, Eq)]
pub struct Proposer {
    pub proposer: Pubkey,
    pub dao_mint: Pubkey,
    pub proposer_dao_ata: TokenAccount,
    /// The proposal of this proposer and seed; `None` as long as it has not
    /// been made.
    pub proposal: Option<ProposalState>,
}

impl Proposer {
    /// Why the proposer may not make a proposal, if so: the sub-account
    /// shown holds another asset than the organization's, or less than the
    /// floor for proposers.
    pub open spec fn proposer_defect(self) -> Option<ErrorCode> {
        if self.proposer_dao_ata.mint != self.dao_mint {
            Some(ErrorCode::InvalidDaoMint)
        } else if self.proposer_dao_ata.amount < MIN_PROPOSER_BALANCE {
            Some(ErrorCode::InsufficientDaoTokens)
        } else {
            None
        }
    }

    /// Checks that the proposer may make a proposal.
    pub fn validate_proposer(&self) -> (res: Result<(), Error>)
        ensures
            match self.proposer_defect() {
                Some(code) => res == Err::<(), Error>(Error::Code(code)),
                None => res is Ok,
            },
    {
        if self.proposer_dao_ata.mint != self.dao_mint {
            return Err(Error::Code(ErrorCode::InvalidDaoMint));
        }
        if self.proposer_dao_ata.amount < MIN_PROPOSER_BALANCE {
            return Err(Error::Code(ErrorCode::InsufficientDaoTokens));
        }
        Ok(())
    }

    /// Why `create_proposal` is rejected, if it is. In this order: the
    /// proposal exists already; the title is too long; the details are too
    /// long.
    pub open spec fn create_rejection(
        self,
        proposal_title: String,
        proposal_details: String,
    ) -> Option<Error> {
        if self.proposal is Some {
            Some(Error::AccountInUse)
        } else if !fits(proposal_title@, MAX_NAME_LEN) {
            Some(Error::Code(ErrorCode::StringTooLong))
        } else if !fits(proposal_details@, MAX_DESCRIPTION_LEN) {
            Some(Error::Code(ErrorCode::StringTooLong))
        } else {
            None
        }
    }

    /// The proposal that `create_proposal` writes: the proposer's, with both
    /// tallies at zero and a staking pool that is known to be empty.
    pub open spec fn new_proposal(
        self,
        bumps: ProposerBumps,
        proposal_seed: u64,
        proposal_title: String,
        proposal_details: String,
        proposal_cost: u64,
        min_token_stake: u64,
        voting_end_time: i64,
    ) -> ProposalState {
        ProposalState {
            proposal_seed,
            proposal_owner: self.proposer,
            bump: bumps.proposal,
            proposal_title,
            proposal_details,
            proposal_cost,
            min_token_stake,
            vote_count_yes: 0,
            vote_count_no: 0,
            voting_end_time,
            staking_vault_balance: 0,
        }
    }

    /// The state that an accepted `create_proposal` leaves.
    pub open spec fn after_create(
        self,
        bumps: ProposerBumps,
        proposal_seed: u64,
        proposal_title: String,
        proposal_details: String,
        proposal_cost: u64,
        min_token_stake: u64,
        voting_end_time: i64,
    ) -> Proposer {
        Proposer {
            proposal: Some(
                self.new_proposal(
                    bumps,
                    proposal_seed,
                    proposal_title,
                    proposal_details,
                    proposal_cost,
                    min_token_stake,
                    voting_end_time,
                ),
            ),
            ..self
        }
    }

    /// Creates the proposal. The deadline is taken as it is given: it is
    /// not held against the voting periods of the organization.
    pub fn create_proposal(
        &mut self,
        bumps: ProposerBumps,
        proposal_seed: u64,
        proposal_title: String,
        proposal_details: String,
        proposal_cost: u64,
        min_token_stake: u64,
        voting_end_time: i64,
    ) -> (res: Result<(), Error>)
        ensures
            match old(self).create_rejection(proposal_title, proposal_details) {
                Some(e) => res == Err::<(), Error>(e) && *final(self) == *old(self),
                None => res is Ok && *final(self) == old(self).after_create(
                    bumps,
                    proposal_seed,
                    proposal_title,
                    proposal_details,
                    proposal_cost,
                    min_token_stake,
                    voting_end_time,
                ) && final(self).proposal->0.well_formed(),
            },
    {
        if self.proposal.is_some() {
            return Err(Error::AccountInUse);
        }
        if !string_fits(&proposal_title, MAX_NAME_LEN) {
            return Err(Error::Code(ErrorCode::StringTooLong));
        }
        if !string_fits(&proposal_details, MAX_DESCRIPTION_LEN) {
            return Err(Error::Code(ErrorCode::StringTooLong));
        }
        self.proposal = Some(
            ProposalState {
                proposal_seed,
                proposal_owner: self.proposer,
                bump: bumps.proposal,
                proposal_title,
                proposal_details,
                proposal_cost,
                min_token_stake,
                vote_count_yes: 0,
                vote_count_no: 0,
                voting_end_time,
                staking_vault_balance: 0,
            },
        );
        Ok(())
    }
}

/// A proposal is made once: after it has been, making it again is
/// rejected, because it is there.
pub proof fn lemma_proposal_is_made_once(
    ctx: Proposer,
    bumps: ProposerBumps,
    proposal_seed: u64,
    proposal_title: String,
    proposal_details: String,
    proposal_cost: u64,
    min_token_stake: u64,
    voting_end_time: i64,
    next_proposal_title: String,
    next_proposal_details: String,
)
    requires
        ctx.create_rejection(proposal_title, proposal_details) is None,
    ensures
        ctx.after_create(
            bumps,
            proposal_seed,
            proposal_title,
            proposal_details,
            proposal_cost,
            min_token_stake,
            voting_end_time,
        ).create_rejection(next_proposal_title, next_proposal_details) == Some(
            Error::AccountInUse,
        ),
{
}

} // verus!
