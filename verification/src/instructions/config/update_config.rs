use crate::errors::{Error, ErrorCode};
use crate::limits::{fits, string_fits, MAX_DESCRIPTION_LEN, MAX_NAME_LEN};
use crate::pubkey::Pubkey;
use crate::state::DaoverseConfig;
use crate::token::TokenAccount;
use vstd::prelude::*;

verus! {

/// What updating the platform touches: its record, its treasury as the
/// ledger reports it, and the caller who claims to be the admin.
#[derive(Clone, Debug, PartialEq, Eq)]
pub struct UpdateDaoverse {
    pub admin: Pubkey,
    pub daoverse: DaoverseConfig,
    pub daoverse_mint: Pubkey,
    pub daoverse_treasury: TokenAccount,
}

impl UpdateDaoverse {
    /// Why `update_daoverse` is rejected, if it is. In this order: the
    /// caller is not the admin; the asset named is not the platform's; the
    /// new name is too long; the new description is too long.
    pub open spec fn update_rejection(
        self,
        admin_name: Option<String>,
        daoverse_description: Option<String>,
    ) -> Option<ErrorCode> {
        if self.admin != self.daoverse.admin {
            Some(ErrorCode::Unauthorized)
        } else if self.daoverse.daoverse_mint != self.daoverse_mint {
            Some(ErrorCode::Unauthorized)
        } else if admin_name matches Some(name) && !fits(name@, MAX_NAME_LEN) {
            Some(ErrorCode::StringTooLong)
        } else if daoverse_description matches Some(description) && !fits(
            description@,
            MAX_DESCRIPTION_LEN,
        ) {
            Some(ErrorCode::StringTooLong)
        } else {
            None
        }
    }

    /// The state that an accepted `update_daoverse` leaves: each field that
    /// was given replaces the old one, and the treasury's known balance is
    /// what the ledger reports.
    pub open spec fn after_update(
        self,
        dao_creation_fee: Option<u64>,
        admin_name: Option<String>,
        daoverse_description: Option<String>,
    ) -> UpdateDaoverse {
        UpdateDaoverse {
            daoverse: DaoverseConfig {
                dao_creation_fee: match dao_creation_fee {
                    Some(fee) => fee,
                    None => self.daoverse.dao_creation_fee,
                },
                admin_name: match admin_name {
                    Some(name) => name,
                    None => self.daoverse.admin_name,
                },
                daoverse_description: match daoverse_description {
                    Some(description) => description,
                    None => self.daoverse.daoverse_description,
                },
                daoverse_treasury_balance: self.daoverse_treasury.amount,
                ..self.daoverse
            },
            ..self
        }
    }

    /// Updates the platform's record on behalf of its admin: each field that
    /// is given replaces the old one, and the treasury's known balance is
    /// set to what the ledger reports. Either all of it is applied or
    /// nothing is.
    pub fn update_daoverse(
        &mut self,
        dao_creation_fee: Option<u64>,
        admin_name: Option<String>,
        daoverse_description: Option<String>,
    ) -> (res: Result<(), Error>)
        ensures
            match old(self).update_rejection(admin_name, daoverse_description) {
                Some(code) => res == Err::<(), Error>(Error::Code(code))
                    && *final(self) == *old(self),
                None => res is Ok && *final(self) == old(self).after_update(
                    dao_creation_fee,
                    admin_name,
                    daoverse_description,
                ),
            },
            old(self).daoverse.well_formed() ==> final(self).daoverse.well_formed(),
    {
        if self.admin != self.daoverse.admin {
            return Err(Error::Code(ErrorCode::Unauthorized));
        }
        if self.daoverse.daoverse_mint != self.daoverse_mint {
            return Err(Error::Code(ErrorCode::Unauthorized));
        }
        if let Some(name) = &admin_name {
            if !string_fits(name, MAX_NAME_LEN) {
                return Err(Error::Code(ErrorCode::StringTooLong));
            }
        }
        if let Some(description) = &daoverse_description {
            if !string_fits(description, MAX_DESCRIPTION_LEN) {
                return Err(Error::Code(ErrorCode::StringTooLong));
            }
        }
        if let Some(fee) = dao_creation_fee {
            self.daoverse.dao_creation_fee = fee;
        }
        if let Some(name) = admin_name {
            self.daoverse.admin_name = name;
        }
        if let Some(description) = daoverse_description {
            self.daoverse.daoverse_description = description;
        }
        self.daoverse.daoverse_treasury_balance = self.daoverse_treasury.amount;
        Ok(())
    }
}

} // verus!
