use crate::errors::{Error, ErrorCode};
use crate::limits::{fits, string_fits, MAX_DESCRIPTION_LEN, MAX_NAME_LEN};
use crate::pubkey::Pubkey;
use crate::state::DaoverseConfig;
use crate::token::{
    credited, debited, held, transfer, transfer_instruction, transfer_refusal, TokenAccount,
    TokenInstruction,
};
use vstd::prelude::*;

verus! {

/// The bump of the address at which the platform's record is created.
#[derive(Clone, Copy, Debug, PartialEq, Eq, Hash)]
pub struct InitializeDaoverseBumps {
    pub daoverse: u8,
}

/// What setting up the platform touches: the admin with the sub-account
/// that pays the first deposit, and the place of the platform's record with
/// its treasury.
#[derive(Clone, Debug, PartialEq, Eq)]
pub struct InitializeDaoverse {
    pub admin: Pubkey,
    pub daoverse_mint: Pubkey,
    /// The platform's one record; `None` as long as the platform has not
    /// been set up.
    pub daoverse: Option<DaoverseConfig>,
    pub admin_ata: TokenAccount,
    pub daoverse_treasury: TokenAccount,
}

impl InitializeDaoverse {
    /// The sub-accounts are two different ones, and the ledger holds each
    /// with the balance that is booked on it.
    pub open spec fn booked(self, balances: Map<Pubkey, nat>) -> bool {
        &&& self.admin_ata.key != self.daoverse_treasury.key
        &&& held(balances, self.admin_ata)
        &&& held(balances, self.daoverse_treasury)
    }

    /// Why `initialize_daoverse` is rejected, if it is. In this order: the
    /// platform has been set up before; the admin's name is too long; the
    /// description is too long.
    pub open spec fn initialize_rejection(
        self,
        admin_name: String,
        daoverse_description: String,
    ) -> Option<Error> {
        if self.daoverse is Some {
            Some(Error::AccountInUse)
        } else if !fits(admin_name@, MAX_NAME_LEN) {
            Some(Error::Code(ErrorCode::StringTooLong))
        } else if !fits(daoverse_description@, MAX_DESCRIPTION_LEN) {
            Some(Error::Code(ErrorCode::StringTooLong))
        } else {
            None
        }
    }

    /// The record that `initialize_daoverse` writes: the admin's, accepting
    /// the asset named, with a treasury that is known to be empty.
    pub open spec fn new_daoverse(
        self,
        bumps: InitializeDaoverseBumps,
        dao_creation_fee: u64,
        admin_name: String,
        daoverse_description: String,
    ) -> DaoverseConfig {
        DaoverseConfig {
            admin: self.admin,
            daoverse_mint: self.daoverse_mint,
            dao_creation_fee,
            bump: bumps.daoverse,
            daoverse_treasury_balance: 0,
            admin_name,
            daoverse_description,
        }
    }

    /// The state that an accepted `initialize_daoverse` leaves.
    pub open spec fn after_initialize(
        self,
        bumps: InitializeDaoverseBumps,
        dao_creation_fee: u64,
        admin_name: String,
        daoverse_description: String,
    ) -> InitializeDaoverse {
        InitializeDaoverse {
            daoverse: Some(
                self.new_daoverse(bumps, dao_creation_fee, admin_name, daoverse_description),
            ),
            ..self
        }
    }

    /// Sets up the platform: writes its one record. It cannot be set up
    /// twice.
    pub fn initialize_daoverse(
        &mut self,
        bumps: InitializeDaoverseBumps,
        dao_creation_fee: u64,
        admin_name: String,
        daoverse_description: String,
    ) -> (res: Result<(), Error>)
        ensures
            match old(self).initialize_rejection(admin_name, daoverse_description) {
                Some(e) => res == Err::<(), Error>(e) && *final(self) == *old(self),
                None => res is Ok && *final(self) == old(self).after_initialize(
                    bumps,
                    dao_creation_fee,
                    admin_name,
                    daoverse_description,
                ) && final(self).daoverse->0.well_formed(),
            },
    {
        if self.daoverse.is_some() {
            return Err(Error::AccountInUse);
        }
        if !string_fits(&admin_name, MAX_NAME_LEN) {
            return Err(Error::Code(ErrorCode::StringTooLong));
        }
        if !string_fits(&daoverse_description, MAX_DESCRIPTION_LEN) {
            return Err(Error::Code(ErrorCode::StringTooLong));
        }
        self.daoverse = Some(
            DaoverseConfig {
                admin: self.admin,
                daoverse_mint: self.daoverse_mint,
                dao_creation_fee,
                bump: bumps.daoverse,
                daoverse_treasury_balance: 0,
                admin_name,
                daoverse_description,
            },
        );
        Ok(())
    }

    /// Why `admin_deposit` is rejected, if it is: the platform has not been
    /// set up; the ledger refuses to move the deposit; the treasury's known
    /// balance would overflow.
    pub open spec fn deposit_rejection(self, amount: u64) -> Option<Error> {
        if self.daoverse is None {
            Some(Error::AccountNotInitialized)
        } else if let Some(e) = transfer_refusal(
            self.admin_ata,
            self.daoverse_treasury,
            self.daoverse_mint,
            amount,
        ) {
            Some(Error::Token(e))
        } else if self.daoverse->0.daoverse_treasury_balance + amount > u64::MAX {
            Some(Error::Code(ErrorCode::Overflow))
        } else {
            None
        }
    }

    /// The instruction that `admin_deposit` returns: the deposit goes from
    /// the admin to the platform treasury, on the admin's word.
    pub open spec fn deposit_instruction(self, amount: u64) -> TokenInstruction {
        transfer_instruction(
            self.admin_ata,
            self.daoverse_treasury,
            self.daoverse_mint,
            self.admin,
            amount,
        )
    }

    /// The state that an accepted `admin_deposit` leaves.
    pub open spec fn after_deposit(self, amount: u64) -> InitializeDaoverse {
        InitializeDaoverse {
            admin_ata: debited(self.admin_ata, amount),
            daoverse_treasury: credited(self.daoverse_treasury, amount),
            daoverse: Some(
                DaoverseConfig {
                    daoverse_treasury_balance: (self.daoverse->0.daoverse_treasury_balance
                        + amount) as u64,
                    ..self.daoverse->0
                },
            ),
            ..self
        }
    }

    /// Moves the admin's deposit into the platform treasury and adds it to
    /// the treasury's known balance.
    pub fn admin_deposit(&mut self, amount: u64) -> (res: Result<TokenInstruction, Error>)
        ensures
            match old(self).deposit_rejection(amount) {
                Some(e) => res == Err::<TokenInstruction, Error>(e) && *final(self) == *old(self),
                None => res == Ok::<TokenInstruction, Error>(old(self).deposit_instruction(amount))
                    && *final(self) == old(self).after_deposit(amount),
            },
    {
        let known = match &self.daoverse {
            Some(daoverse) => daoverse.daoverse_treasury_balance,
            None => {
                return Err(Error::AccountNotInitialized);
            },
        };
        let mut payer = self.admin_ata;
        let mut treasury = self.daoverse_treasury;
        let instruction = match transfer(
            &mut payer,
            &mut treasury,
            &self.daoverse_mint,
            &self.admin,
            amount,
        ) {
            Ok(instruction) => instruction,
            Err(e) => {
                return Err(Error::Token(e));
            },
        };
        let balance = match known.checked_add(amount) {
            Some(balance) => balance,
            None => {
                return Err(Error::Code(ErrorCode::Overflow));
            },
        };
        self.admin_ata = payer;
        self.daoverse_treasury = treasury;
        match &mut self.daoverse {
            Some(daoverse) => {
                daoverse.daoverse_treasury_balance = balance;
            },
            None => {},
        }
        Ok(instruction)
    }
}

/// The platform is set up once: after it has been, setting it up again is
/// rejected, because its record is there.
pub proof fn lemma_platform_is_set_up_once(
    ctx: InitializeDaoverse,
    bumps: InitializeDaoverseBumps,
    dao_creation_fee: u64,
    admin_name: String,
    daoverse_description: String,
    next_admin_name: String,
    next_daoverse_description: String,
)
    requires
        ctx.initialize_rejection(admin_name, daoverse_description) is None,
    ensures
        ctx.after_initialize(
            bumps,
            dao_creation_fee,
            admin_name,
            daoverse_description,
        ).initialize_rejection(next_admin_name, next_daoverse_description) == Some(
            Error::AccountInUse,
        ),
{
}

} // verus!
