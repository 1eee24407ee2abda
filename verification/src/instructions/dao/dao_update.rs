use crate::errors::{Error, ErrorCode};
use crate::limits::{fits, string_fits, MAX_DESCRIPTION_LEN, MAX_NAME_LEN};
use crate::pubkey::Pubkey;
use crate::state::{DaoConfig, GovernanceModel, RewardModel, VotingModel, VotingThreshold};
use vstd::prelude::*;

verus! {

/// What updating an organization touches: the organization and the caller
/// who claims to have created it.
#[derive(Clone, Debug, PartialEq, Eq)]
pub struct UpdateDao {
    pub creator: Pubkey,
    pub dao: DaoConfig,
}

impl UpdateDao {
    /// Why `update_dao` is rejected, if it is. In this order: the caller is
    /// not the organization's creator; the new name is too long; the new
    /// description is too long; the new thresholds are invalid.
    pub open spec fn update_rejection(
        self,
        dao_name: Option<String>,
        dao_description: Option<String>,
        voting_threshold: Option<VotingThreshold>,
    ) -> Option<ErrorCode> {
        if self.creator != self.dao.dao_creator {
            Some(ErrorCode::Unauthorized)
        } else if dao_name matches Some(name) && !fits(name@, MAX_NAME_LEN) {
            Some(ErrorCode::StringTooLong)
        } else if dao_description matches Some(description) && !fits(
            description@,
            MAX_DESCRIPTION_LEN,
        ) {
            Some(ErrorCode::StringTooLong)
        } else if let Some(threshold) = voting_threshold {
            threshold.defect()
        } else {
            None
        }
    }

    /// The state that an accepted `update_dao` leaves: each field that was
    /// given replaces the old one, and nothing else changes.
    pub open spec fn after_update(
        self,
        dao_name: Option<String>,
        dao_description: Option<String>,
        governance_model: Option<GovernanceModel>,
        voting_model: Option<VotingModel>,
        reward_model: Option<RewardModel>,
        voting_threshold: Option<VotingThreshold>,
    ) -> UpdateDao {
        UpdateDao {
            dao: DaoConfig {
                dao_name: match dao_name {
                    Some(name) => name,
                    None => self.dao.dao_name,
                },
                dao_description: match dao_description {
                    Some(description) => description,
                    None => self.dao.dao_description,
                },
                governance_model: match governance_model {
                    Some(model) => model,
                    None => self.dao.governance_model,
                },
                voting_model: match voting_model {
                    Some(model) => model,
                    None => self.dao.voting_model,
                },
                reward_model: match reward_model {
                    Some(model) => model,
                    None => self.dao.reward_model,
                },
                voting_threshold: match voting_threshold {
                    Some(threshold) => threshold,
                    None => self.dao.voting_threshold,
                },
                ..self.dao
            },
            ..self
        }
    }

    /// Updates the organization on behalf of its creator: each field that is
    /// given is checked as at creation and replaces the old one. Either all
    /// of them are applied or none is.
    pub fn update_dao(
        &mut self,
        dao_name: Option<String>,
        dao_description: Option<String>,
        governance_model: Option<GovernanceModel>,
        voting_model: Option<VotingModel>,
        reward_model: Option<RewardModel>,
        voting_threshold: Option<VotingThreshold>,
    ) -> (res: Result<(), Error>)
        ensures
            match old(self).update_rejection(dao_name, dao_description, voting_threshold) {
                Some(code) => res == Err::<(), Error>(Error::Code(code))
                    && *final(self) == *old(self),
                None => res is Ok && *final(self) == old(self).after_update(
                    dao_name,
                    dao_description,
                    governance_model,
                    voting_model,
                    reward_model,
                    voting_threshold,
                ),
            },
            old(self).dao.well_formed() ==> final(self).dao.well_formed(),
    {
        if self.creator != self.dao.dao_creator {
            return Err(Error::Code(ErrorCode::Unauthorized));
        }
        if let Some(name) = &dao_name {
            if !string_fits(name, MAX_NAME_LEN) {
                return Err(Error::Code(ErrorCode::StringTooLong));
            }
        }
        if let Some(description) = &dao_description {
            if !string_fits(description, MAX_DESCRIPTION_LEN) {
                return Err(Error::Code(ErrorCode::StringTooLong));
            }
        }
        if let Some(threshold) = &voting_threshold {
            if let Err(code) = threshold.validate() {
                return Err(Error::Code(code));
            }
        }
        if let Some(name) = dao_name {
            self.dao.dao_name = name;
        }
        if let Some(description) = dao_description {
            self.dao.dao_description = description;
        }
        if let Some(model) = governance_model {
            self.dao.governance_model = model;
        }
        if let Some(model) = voting_model {
            self.dao.voting_model = model;
        }
        if let Some(model) = reward_model {
            self.dao.reward_model = model;
        }
        if let Some(threshold) = voting_threshold {
            self.dao.voting_threshold = threshold;
        }
        Ok(())
    }
}

/// When the creator gives new thresholds and nothing else, the update is
/// rejected if a percentage is over 100 or the shortest voting period is
/// longer than the longest, and the organization stays as it was; else the
/// thresholds are replaced and nothing else changes.
pub proof fn lemma_threshold_update(ctx: UpdateDao, voting_threshold: VotingThreshold)
    requires
        ctx.creator == ctx.dao.dao_creator,
    ensures
        ({
            let rejection = ctx.update_rejection(None, None, Some(voting_threshold));
            let after = ctx.after_update(None, None, None, None, None, Some(voting_threshold));
            &&& rejection is Some <==> voting_threshold.quorum_percentage > 100
                || voting_threshold.approval_percentage > 100
                || voting_threshold.min_voting_period > voting_threshold.max_voting_period
            &&& rejection is None <==> voting_threshold.valid()
            &&& after.dao == (DaoConfig { voting_threshold, ..ctx.dao })
            &&& after.creator == ctx.creator
        }),
{
}

} // verus!
