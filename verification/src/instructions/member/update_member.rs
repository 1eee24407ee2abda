use crate::errors::{Error, ErrorCode};
use crate::pubkey::Pubkey;
use crate::state::DaoMemberState;
use vstd::prelude::*;

verus! {

/// What updating a membership touches: the membership and the caller who
/// claims to own it.
#[derive(Clone, Copy, Debug, PartialEq, Eq, Hash)]
pub struct UpdateMember {
    pub user: Pubkey,
    pub member: DaoMemberState,
}

impl UpdateMember {
    /// The state that an accepted `update_member` leaves: each counter that
    /// was given replaces the old one, and nothing else changes.
    pub open spec fn after_update(
        self,
        created_proposals: Option<u64>,
        approved_proposals: Option<u64>,
        total_rewards: Option<u64>,
        total_votes: Option<u64>,
    ) -> UpdateMember {
        UpdateMember {
            member: DaoMemberState {
                created_proposals: match created_proposals {
                    Some(count) => count,
                    None => self.member.created_proposals,
                },
                approved_proposals: match approved_proposals {
                    Some(count) => count,
                    None => self.member.approved_proposals,
                },
                total_rewards: match total_rewards {
                    Some(count) => count,
                    None => self.member.total_rewards,
                },
                total_votes: match total_votes {
                    Some(count) => count,
                    None => self.member.total_votes,
                },
                ..self.member
            },
            ..self
        }
    }

    /// Overwrites the counters of a membership on behalf of its owner: each
    /// counter that is given replaces the old one; none is added to.
    pub fn update_member(
        &mut self,
        created_proposals: Option<u64>,
        approved_proposals: Option<u64>,
        total_rewards: Option<u64>,
        total_votes: Option<u64>,
    ) -> (res: Result<(), Error>)
        ensures
            old(self).user != old(self).member.dao_member ==> res == Err::<(), Error>(
                Error::Code(ErrorCode::Unauthorized),
            ) && *final(self) == *old(self),
            old(self).user == old(self).member.dao_member ==> res is Ok && *final(self) == old(self)
                .after_update(created_proposals, approved_proposals, total_rewards, total_votes),
    {
        if self.user != self.member.dao_member {
            return Err(Error::Code(ErrorCode::Unauthorized));
        }
        if let Some(count) = created_proposals {
            self.member.created_proposals = count;
        }
        if let Some(count) = approved_proposals {
            self.member.approved_proposals = count;
        }
        if let Some(count) = total_rewards {
            self.member.total_rewards = count;
        }
        if let Some(count) = total_votes {
            self.member.total_votes = count;
        }
        Ok(())
    }
}

} // verus!
