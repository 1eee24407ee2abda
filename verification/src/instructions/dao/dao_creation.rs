use crate::errors::{Error, ErrorCode};
use crate::limits::{
    fits, string_fits, DAO_CREATION_FEE, MAX_DESCRIPTION_LEN, MAX_NAME_LEN, MIN_CREATOR_BALANCE,
};
use crate::pubkey::Pubkey;
use crate::state::{
    DaoConfig, DaoverseConfig, GovernanceModel, RewardModel, VotingModel, VotingThreshold,
};
use crate::token::{
    credited, debited, held, transfer, transfer_instruction, transfer_refusal, TokenAccount,
    TokenInstruction,
};
use vstd::prelude::*;

verus! {

/// The bump of the address at which an organization is created.
#[derive(Clone, Copy, Debug, PartialEq, Eq, Hash)]
pub struct CreateDaoBumps {
    pub dao: u8,
}

/// What creating an organization touches: the creator with the sub-accounts
/// that pay the fee and the first deposit, the platform with its treasury,
/// and the place of the organization with its treasury.
#[derive(Clone, Debug, PartialEq, Eq)]
pub struct CreateDao {
    pub creator: Pubkey,
    pub daoverse_mint: Pubkey,
    pub dao_mint: Pubkey,
    /// The organization of this creator and seed; `None` as long as it has
    /// not been created.
    pub dao: Option<DaoConfig>,
    pub dao_treasury: TokenAccount,
    pub creator_dao_ata: TokenAccount,
    pub daoverse: DaoverseConfig,
    pub daoverse_treasury: TokenAccount,
    pub creator_daoverse_ata: TokenAccount,
}

impl CreateDao {
    /// The sub-accounts are four different ones, and the ledger holds each
    /// with the balance that is booked on it.
    pub open spec fn booked(self, balances: Map<Pubkey, nat>) -> bool {
        &&& self.creator_daoverse_ata.key != self.daoverse_treasury.key
        &&& self.creator_daoverse_ata.key != self.creator_dao_ata.key
        &&& self.creator_daoverse_ata.key != self.dao_treasury.key
        &&& self.daoverse_treasury.key != self.creator_dao_ata.key
        &&& self.daoverse_treasury.key != self.dao_treasury.key
        &&& self.creator_dao_ata.key != self.dao_treasury.key
        &&& held(balances, self.creator_daoverse_ata)
        &&& held(balances, self.daoverse_treasury)
        &&& held(balances, self.creator_dao_ata)
        &&& held(balances, self.dao_treasury)
    }

    /// Why the creator may not create an organization, if so: the asset
    /// named is not the platform's, or not that of the sub-account that is
    /// to pay; or that sub-account holds less than the floor for creators.
    pub open spec fn creator_defect(self) -> Option<ErrorCode> {
        if self.creator_daoverse_ata.mint != self.daoverse_mint || self.daoverse.daoverse_mint
            != self.daoverse_mint {
            Some(ErrorCode::InvalidDaoverseMint)
        } else if self.creator_daoverse_ata.amount < MIN_CREATOR_BALANCE {
            Some(ErrorCode::InsufficientDaoverseTokens)
        } else {
            None
        }
    }

    /// Checks that the creator may create an organization.
    pub fn validate_creator(&self) -> (res: Result<(), Error>)
        ensures
            match self.creator_defect() {
                Some(code) => res == Err::<(), Error>(Error::Code(code)),
                None => res is Ok,
            },
    {
        if self.creator_daoverse_ata.mint != self.daoverse_mint || self.daoverse.daoverse_mint
            != self.daoverse_mint {
            return Err(Error::Code(ErrorCode::InvalidDaoverseMint));
        }
        if self.creator_daoverse_ata.amount < MIN_CREATOR_BALANCE {
            return Err(Error::Code(ErrorCode::InsufficientDaoverseTokens));
        }
        Ok(())
    }

    /// Why `pay_daoverse_fee` is rejected, if it is: the ledger refuses to
    /// move the fee, or the platform treasury's known balance would
    /// overflow.
    pub open spec fn fee_rejection(self) -> Option<Error> {
        if let Some(e) = transfer_refusal(
            self.creator_daoverse_ata,
            self.daoverse_treasury,
            self.daoverse_mint,
            DAO_CREATION_FEE,
        ) {
            Some(Error::Token(e))
        } else if self.daoverse.daoverse_treasury_balance + DAO_CREATION_FEE > u64::MAX {
            Some(Error::Code(ErrorCode::Overflow))
        } else {
            None
        }
    }

    /// The instruction that `pay_daoverse_fee` returns: the fee goes from
    /// the creator to the platform treasury, on the creator's word.
    pub open spec fn fee_instruction(self) -> TokenInstruction {
        transfer_instruction(
            self.creator_daoverse_ata,
            self.daoverse_treasury,
            self.daoverse_mint,
            self.creator,
            DAO_CREATION_FEE,
        )
    }

    /// The state that an accepted `pay_daoverse_fee` leaves.
    pub open spec fn after_fee(self) -> CreateDao {
        CreateDao {
            creator_daoverse_ata: debited(self.creator_daoverse_ata, DAO_CREATION_FEE),
            daoverse_treasury: credited(self.daoverse_treasury, DAO_CREATION_FEE),
            daoverse: DaoverseConfig {
                daoverse_treasury_balance: (self.daoverse.daoverse_treasury_balance
                    + DAO_CREATION_FEE) as u64,
                ..self.daoverse
            },
            ..self
        }
    }

    /// Charges the fixed fee for creating an organization: moves it from the
    /// creator to the platform treasury and adds it to the treasury's known
    /// balance.
    pub fn pay_daoverse_fee(&mut self) -> (res: Result<TokenInstruction, Error>)
        ensures
            match old(self).fee_rejection() {
                Some(e) => res == Err::<TokenInstruction, Error>(e) && *final(self) == *old(self),
                None => res == Ok::<TokenInstruction, Error>(old(self).fee_instruction())
                    && *final(self) == old(self).after_fee(),
            },
    {
        let mut payer = self.creator_daoverse_ata;
        let mut treasury = self.daoverse_treasury;
        let instruction = match transfer(
            &mut payer,
            &mut treasury,
            &self.daoverse_mint,
            &self.creator,
            DAO_CREATION_FEE,
        ) {
            Ok(instruction) => instruction,
            Err(e) => {
                return Err(Error::Token(e));
            },
        };
        let balance = match self.daoverse.daoverse_treasury_balance.checked_add(DAO_CREATION_FEE) {
            Some(balance) => balance,
            None => {
                return Err(Error::Code(ErrorCode::Overflow));
            },
        };
        self.creator_daoverse_ata = payer;
        self.daoverse_treasury = treasury;
        self.daoverse.daoverse_treasury_balance = balance;
        Ok(instruction)
    }

    /// Why `create_dao` is rejected, if it is. In this order: the
    /// organization exists already; the name is too long; the description
    /// is too long; the thresholds are invalid.
    pub open spec fn create_rejection(
        self,
        dao_name: String,
        dao_description: String,
        voting_threshold: VotingThreshold,
    ) -> Option<Error> {
        if self.dao is Some {
            Some(Error::AccountInUse)
        } else if !fits(dao_name@, MAX_NAME_LEN) {
            Some(Error::Code(ErrorCode::StringTooLong))
        } else if !fits(dao_description@, MAX_DESCRIPTION_LEN) {
            Some(Error::Code(ErrorCode::StringTooLong))
        } else if let Some(code) = voting_threshold.defect() {
            Some(Error::Code(code))
        } else {
            None
        }
    }

    /// The organization that `create_dao` writes: the creator's, governed
    /// by the asset named, with an empty treasury and all counters at zero.
    pub open spec fn new_dao(
        self,
        bumps: CreateDaoBumps,
        dao_seed: u64,
        dao_name: String,
        dao_description: String,
        governance_model: GovernanceModel,
        voting_model: VotingModel,
        reward_model: RewardModel,
        voting_threshold: VotingThreshold,
    ) -> DaoConfig {
        DaoConfig {
            dao_seed,
            dao_creator: self.creator,
            dao_mint: self.dao_mint,
            bump: bumps.dao,
            dao_treasury_balance: 0,
            dao_name,
            dao_description,
            total_proposals: 0,
            approved_proposals: 0,
            member_count: 0,
            governance_model,
            voting_model,
            reward_model,
            voting_threshold,
        }
    }

    /// The state that an accepted `create_dao` leaves.
    pub open spec fn after_create(
        self,
        bumps: CreateDaoBumps,
        dao_seed: u64,
        dao_name: String,
        dao_description: String,
        governance_model: GovernanceModel,
        voting_model: VotingModel,
        reward_model: RewardModel,
        voting_threshold: VotingThreshold,
    ) -> CreateDao {
        CreateDao {
            dao: Some(
                self.new_dao(
                    bumps,
                    dao_seed,
                    dao_name,
                    dao_description,
                    governance_model,
                    voting_model,
                    reward_model,
                    voting_threshold,
                ),
            ),
            ..self
        }
    }

    /// Creates the organization, where its name, its description and its
    /// thresholds are in order.
    pub fn create_dao(
        &mut self,
        bumps: CreateDaoBumps,
        dao_seed: u64,
        dao_name: String,
        dao_description: String,
        governance_model: GovernanceModel,
        voting_model: VotingModel,
        reward_model: RewardModel,
        voting_threshold: VotingThreshold,
    ) -> (res: Result<(), Error>)
        ensures
            match old(self).create_rejection(dao_name, dao_description, voting_threshold) {
                Some(e) => res == Err::<(), Error>(e) && *final(self) == *old(self),
                None => res is Ok && *final(self) == old(self).after_create(
                    bumps,
                    dao_seed,
                    dao_name,
                    dao_description,
                    governance_model,
                    voting_model,
                    reward_model,
                    voting_threshold,
                ) && final(self).dao->0.well_formed(),
            },
    {
        if self.dao.is_some() {
            return Err(Error::AccountInUse);
        }
        if !string_fits(&dao_name, MAX_NAME_LEN) {
            return Err(Error::Code(ErrorCode::StringTooLong));
        }
        if !string_fits(&dao_description, MAX_DESCRIPTION_LEN) {
            return Err(Error::Code(ErrorCode::StringTooLong));
        }
        if let Err(code) = voting_threshold.validate() {
            return Err(Error::Code(code));
        }
        self.dao = Some(
            DaoConfig {
                dao_seed,
                dao_creator: self.creator,
                dao_mint: self.dao_mint,
                bump: bumps.dao,
                dao_treasury_balance: 0,
                dao_name,
                dao_description,
                total_proposals: 0,
                approved_proposals: 0,
                member_count: 0,
                governance_model,
                voting_model,
                reward_model,
                voting_threshold,
            },
        );
        Ok(())
    }

    /// Why `dao_creator_deposit` is rejected, if it is: the organization
    /// has not been created; the ledger refuses to move the deposit; the
    /// treasury's known balance would overflow.
    pub open spec fn deposit_rejection(self, amount: u64) -> Option<Error> {
        if self.dao is None {
            Some(Error::AccountNotInitialized)
        } else if let Some(e) = transfer_refusal(
            self.creator_dao_ata,
            self.dao_treasury,
            self.dao_mint,
            amount,
        ) {
            Some(Error::Token(e))
        } else if self.dao->0.dao_treasury_balance + amount > u64::MAX {
            Some(Error::Code(ErrorCode::Overflow))
        } else {
            None
        }
    }

    /// The instruction that `dao_creator_deposit` returns: the deposit goes
    /// from the creator to the organization's treasury, on the creator's
    /// word.
    pub open spec fn deposit_instruction(self, amount: u64) -> TokenInstruction {
        transfer_instruction(
            self.creator_dao_ata,
            self.dao_treasury,
            self.dao_mint,
            self.creator,
            amount,
        )
    }

    /// The state that an accepted `dao_creator_deposit` leaves.
    pub open spec fn after_deposit(self, amount: u64) -> CreateDao {
        CreateDao {
            creator_dao_ata: debited(self.creator_dao_ata, amount),
            dao_treasury: credited(self.dao_treasury, amount),
            dao: Some(
                DaoConfig {
                    dao_treasury_balance: (self.dao->0.dao_treasury_balance + amount) as u64,
                    ..self.dao->0
                },
            ),
            ..self
        }
    }

    /// Moves the creator's deposit into the organization's treasury and adds
    /// it to the treasury's known balance.
    pub fn dao_creator_deposit(&mut self, amount: u64) -> (res: Result<TokenInstruction, Error>)
        ensures
            match old(self).deposit_rejection(amount) {
                Some(e) => res == Err::<TokenInstruction, Error>(e) && *final(self) == *old(self),
                None => res == Ok::<TokenInstruction, Error>(old(self).deposit_instruction(amount))
                    && *final(self) == old(self).after_deposit(amount),
            },
    {
        let known = match &self.dao {
            Some(dao) => dao.dao_treasury_balance,
            None => {
                return Err(Error::AccountNotInitialized);
            },
        };
        let mut payer = self.creator_dao_ata;
        let mut treasury = self.dao_treasury;
        let instruction = match transfer(
            &mut payer,
            &mut treasury,
            &self.dao_mint,
            &self.creator,
            amount,
        ) {
            Ok(instruction) => instruction,
            Err(e) => {
                return Err(Error::Token(e));
            },
        };
        let balance = match known.checked_add(amount) {
            Some(balance) => balance,
            None => {
                return Err(Error::Code(ErrorCode::Overflow));
            },
        };
        self.creator_dao_ata = payer;
        self.dao_treasury = treasury;
        match &mut self.dao {
            Some(dao) => {
                dao.dao_treasury_balance = balance;
            },
            None => {},
        }
        Ok(instruction)
    }
}

/// An organization is created once: after it has been, creating it again
/// is rejected, because it is there.
pub proof fn lemma_organization_is_created_once(
    ctx: CreateDao,
    bumps: CreateDaoBumps,
    dao_seed: u64,
    dao_name: String,
    dao_description: String,
    governance_model: GovernanceModel,
    voting_model: VotingModel,
    reward_model: RewardModel,
    voting_threshold: VotingThreshold,
    next_dao_name: String,
    next_dao_description: String,
    next_voting_threshold: VotingThreshold,
)
    requires
        ctx.create_rejection(dao_name, dao_description, voting_threshold) is None,
    ensures
        ctx.after_create(
            bumps,
            dao_seed,
            dao_name,
            dao_description,
            governance_model,
            voting_model,
            reward_model,
            voting_threshold,
        ).create_rejection(next_dao_name, next_dao_description, next_voting_threshold) == Some(
            Error::AccountInUse,
        ),
{
}

} // verus!
