use crate::limits::{fits, MAX_DESCRIPTION_LEN, MAX_NAME_LEN};
use crate::pubkey::Pubkey;
use vstd::prelude::*;

verus! {

/// The one record of the platform: its admin, the asset it accepts, the
/// fee for creating an organization and what its treasury is known to hold.
#[derive(Clone, Debug, PartialEq, Eq)]
pub struct DaoverseConfig {
    pub admin: Pubkey,
    pub daoverse_mint: Pubkey,
    /// The fee on record. What the creator of an organization is charged
    /// is fixed and does not follow it.
    pub dao_creation_fee: u64,
    pub bump: u8,
    pub daoverse_treasury_balance: u64,
    pub admin_name: String,
    pub daoverse_description: String,
}

impl DaoverseConfig {
    /// The admin's name and the description are within their bounds.
    pub open spec fn well_formed(self) -> bool {
        &&& fits(self.admin_name@, MAX_NAME_LEN)
        &&& fits(self.daoverse_description@, MAX_DESCRIPTION_LEN)
    }
}

} // verus!
