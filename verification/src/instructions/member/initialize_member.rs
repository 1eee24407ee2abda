use crate::errors::{Error, ErrorCode};
use crate::limits::MIN_MEMBER_BALANCE;
use crate::pubkey::Pubkey;
use crate::state::{DaoConfig, DaoMemberState};
use crate::token::TokenAccount;
use vstd::prelude::*;

verus! {

/// The bump of the address at which a membership is created.
#[derive(Clone, Copy, Debug, PartialEq, Eq, Hash)]
pub struct InitializeMemberBumps {
    pub member: u8,
}

/// What joining an organization touches: the user with the sub-account
/// that shows the holding, the organization, and the place of the
/// membership.
#[derive(Clone, Debug, PartialEq, Eq)]
pub struct InitializeMember {
    pub user: Pubkey,
    pub dao_mint: Pubkey,
    /// The membership of this user under this seed; `None` as long as the
    /// user has not joined.
    pub member: Option<DaoMemberState>,
    pub member_dao_ata: TokenAccount,
    pub dao_key: Pubkey,
    pub dao: DaoConfig,
}

impl InitializeMember {
    /// Why the user may not join, if so: the asset named is not the
    /// organization's, or not that of the sub-account shown; or that
    /// sub-account holds less than the floor for members.
    pub open spec fn member_defect(self) -> Option<ErrorCode> {
        if self.member_dao_ata.mint != self.dao_mint || self.dao.dao_mint != self.dao_mint {
            Some(ErrorCode::InvalidDaoMint)
        } else if self.member_dao_ata.amount < MIN_MEMBER_BALANCE {
            Some(ErrorCode::InsufficientDaoTokens)
        } else {
            None
        }
    }

    /// Checks that the user may join the organization.
    pub fn validate_member(&self) -> (res: Result<(), Error>)
        ensures
            match self.member_defect() {
                Some(code) => res == Err::<(), Error>(Error::Code(code)),
                None => res is Ok,
            },
    {
        if self.member_dao_ata.mint != self.dao_mint || self.dao.dao_mint != self.dao_mint {
            return Err(Error::Code(ErrorCode::InvalidDaoMint));
        }
        if self.member_dao_ata.amount < MIN_MEMBER_BALANCE {
            return Err(Error::Code(ErrorCode::InsufficientDaoTokens));
        }
        Ok(())
    }

    /// The membership that `initialize_member` writes: the user's, in this
    /// organization, with all counters at zero and the balance as the
    /// sub-account shows it.
    pub open spec fn new_member(
        self,
        bumps: InitializeMemberBumps,
        member_seed: u64,
    ) -> DaoMemberState {
        DaoMemberState {
            member_seed,
            dao_member: self.user,
            bump: bumps.member,
            created_proposals: 0,
            approved_proposals: 0,
            total_rewards: 0,
            total_votes: 0,
            dao_member_balance: self.member_dao_ata.amount,
            dao_joined: self.dao_key,
        }
    }

    /// The state that an accepted `initialize_member` leaves.
    pub open spec fn after_initialize(
        self,
        bumps: InitializeMemberBumps,
        member_seed: u64,
    ) -> InitializeMember {
        InitializeMember { member: Some(self.new_member(bumps, member_seed)), ..self }
    }

    /// Creates the membership. A membership is created once.
    pub fn initialize_member(&mut self, bumps: InitializeMemberBumps, member_seed: u64) -> (res:
        Result<(), Error>)
        ensures
            old(self).member is Some ==> res == Err::<(), Error>(Error::AccountInUse)
                && *final(self) == *old(self),
            old(self).member is None ==> res is Ok && *final(self) == old(self).after_initialize(
                bumps,
                member_seed,
            ),
    {
        if self.member.is_some() {
            return Err(Error::AccountInUse);
        }
        self.member = Some(
            DaoMemberState {
                member_seed,
                dao_member: self.user,
                bump: bumps.member,
                created_proposals: 0,
                approved_proposals: 0,
                total_rewards: 0,
                total_votes: 0,
                dao_member_balance: self.member_dao_ata.amount,
                dao_joined: self.dao_key,
            },
        );
        Ok(())
    }

    /// The state that an accepted `update_member_balance` leaves.
    pub open spec fn after_refresh(self) -> InitializeMember {
        InitializeMember {
            member: Some(
                DaoMemberState {
                    dao_member_balance: self.member_dao_ata.amount,
                    ..self.member->0
                },
            ),
            ..self
        }
    }

    /// Reads the user's balance anew and writes it over the one the
    /// membership holds.
    pub fn update_member_balance(&mut self) -> (res: Result<(), Error>)
        ensures
            old(self).member is None ==> res == Err::<(), Error>(Error::AccountNotInitialized)
                && *final(self) == *old(self),
            old(self).member is Some ==> res is Ok && *final(self) == old(self).after_refresh(),
    {
        match &mut self.member {
            Some(member) => {
                member.dao_member_balance = self.member_dao_ata.amount;
                Ok(())
            },
            None => Err(Error::AccountNotInitialized),
        }
    }
}

/// A user joins once under a seed: after the membership has been created,
/// joining again is rejected.
pub proof fn lemma_membership_is_created_once(
    ctx: InitializeMember,
    bumps: InitializeMemberBumps,
    member_seed: u64,
)
    requires
        crate::processor::initialize_member_rejection(ctx) is None,
    ensures
        crate::processor::initialize_member_rejection(ctx.after_initialize(bumps, member_seed))
            == Some(Error::AccountInUse),
{
}

/// Reading the balance anew twice is as good as once.
pub proof fn lemma_refresh_is_idempotent(ctx: InitializeMember)
    requires
        ctx.member is Some,
    ensures
        ctx.after_refresh().member is Some,
        ctx.after_refresh().after_refresh() == ctx.after_refresh(),
{
}

} // verus!
