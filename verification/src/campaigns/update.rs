//! Campaign metadata updates and the one-time deadline extension.

use vstd::prelude::*;

use crate::constants::{
    CAMPAIGN_DESCRIPTION_MAX_LEN, CAMPAIGN_DESCRIPTION_MIN_LEN, CAMPAIGN_DURATION_MAX_DAYS,
    CAMPAIGN_EXTENSION_MAX_DAYS, CAMPAIGN_TITLE_MAX_LEN, CAMPAIGN_TITLE_MIN_LEN, MAX_EXTENSION_DAYS,
    SECONDS_PER_DAY,
};
use crate::errors::Error;
use crate::lifecycle::{is_open, require_active_campaign, require_unverified_campaign};
use crate::state::{category_index, lemma_entry_update_wf, CampaignEntry, Effect, Event, LedgerInfo, Platform};
use crate::types::{bytes_equal, copy_bytes, Campaign};

verus! {

impl Platform {
    /// The error `update_campaign` returns, or `None` when it succeeds.
    pub open spec fn update_campaign_error(
        &self,
        campaign_id: u32,
        title: Seq<u8>,
        description: Seq<u8>,
    ) -> Option<Error> {
        if !self.has_campaign(campaign_id) {
            Some(Error::CampaignNotFound)
        } else {
            let c = self.campaign(campaign_id);
            if self.is_paused() {
                Some(Error::ContractPaused)
            } else if c.is_verified {
                Some(Error::CampaignAlreadyVerified)
            } else if c.amount_raised > 0 {
                Some(Error::ValidationFailed)
            } else if !is_open(c) {
                Some(Error::CampaignNotActive)
            } else if title.len() < CAMPAIGN_TITLE_MIN_LEN || title.len() > CAMPAIGN_TITLE_MAX_LEN {
                Some(Error::ValidationFailed)
            } else if description.len() < CAMPAIGN_DESCRIPTION_MIN_LEN || description.len()
                > CAMPAIGN_DESCRIPTION_MAX_LEN {
                Some(Error::ValidationFailed)
            } else {
                None
            }
        }
    }

    /// The creator replaces the title and description of an open campaign;
    /// refused once the campaign is verified (verification attests to what
    /// was reviewed) or has received contributions.
    pub fn update_campaign(&mut self, campaign_id: u32, title: Vec<u8>, description: Vec<u8>) -> (r:
        Result<Vec<Effect>, Error>)
        requires
            old(self).wf(),
        ensures
            final(self).wf(),
            match r {
                Ok(effects) => {
                    let e = old(self).entry(campaign_id);
                    let c = e.campaign;
                    let ne = final(self).entry(campaign_id);
                    &&& old(self).update_campaign_error(campaign_id, title@, description@) is None
                    &&& old(self).with_entry(*final(self), campaign_id, ne)
                    &&& ne == CampaignEntry {
                        campaign: Campaign {
                            title: ne.campaign.title,
                            description: ne.campaign.description,
                            ..c
                        },
                        ..e
                    }
                    &&& ne.campaign.title@ == title@
                    &&& ne.campaign.description@ == description@
                    &&& effects@ == seq![
                        Effect::RequireAuth(c.creator),
                        Effect::Emit(
                            Event::MetadataUpdated {
                                campaign_id,
                                old_title: c.title,
                                old_description: c.description,
                                new_title: title,
                                new_description: description,
                            },
                        ),
                    ]
                },
                Err(err) => {
                    &&& old(self).update_campaign_error(campaign_id, title@, description@) == Some(
                        err,
                    )
                    &&& *final(self) == *old(self)
                },
            },
    {
        let i = self.campaign_position(campaign_id)?;
        self.require_not_paused()?;
        require_unverified_campaign(&self.entries[i].campaign)?;
        if self.entries[i].campaign.amount_raised > 0 {
            return Err(Error::ValidationFailed);
        }
        require_active_campaign(&self.entries[i].campaign)?;
        if title.len() < CAMPAIGN_TITLE_MIN_LEN || title.len() > CAMPAIGN_TITLE_MAX_LEN {
            return Err(Error::ValidationFailed);
        }
        if description.len() < CAMPAIGN_DESCRIPTION_MIN_LEN || description.len()
            > CAMPAIGN_DESCRIPTION_MAX_LEN {
            return Err(Error::ValidationFailed);
        }
        let creator = self.entries[i].campaign.creator;
        let ghost old_self = *self;
        let mut old_title = copy_bytes(&title);
        let mut old_description = copy_bytes(&description);
        std::mem::swap(&mut self.entries[i].campaign.title, &mut old_title);
        std::mem::swap(&mut self.entries[i].campaign.description, &mut old_description);
        proof {
            assert(self.entries@ =~= old_self.entries@.update(i as int, self.entries@[i as int]));
            assert(old_self.entries@[i as int].wf());
            lemma_entry_update_wf(old_self, *self, i as int);
        }
        let mut effects: Vec<Effect> = Vec::new();
        effects.push(Effect::RequireAuth(creator));
        effects.push(
            Effect::Emit(
                Event::MetadataUpdated {
                    campaign_id,
                    old_title,
                    old_description,
                    new_title: title,
                    new_description: description,
                },
            ),
        );
        Ok(effects)
    }
}

} // verus!

verus! {

impl Platform {
    /// The error `update_campaign_description` returns, or `None` when it
    /// succeeds.
    pub open spec fn update_description_error(&self, campaign_id: u32, description: Seq<u8>) -> Option<
        Error,
    > {
        if !self.has_campaign(campaign_id) {
            Some(Error::CampaignNotFound)
        } else {
            let c = self.campaign(campaign_id);
            if self.is_paused() {
                Some(Error::ContractPaused)
            } else if !is_open(c) {
                Some(Error::CampaignNotActive)
            } else if description == c.description@ {
                None
            } else if description.len() < CAMPAIGN_DESCRIPTION_MIN_LEN || description.len()
                > CAMPAIGN_DESCRIPTION_MAX_LEN {
                Some(Error::ValidationFailed)
            } else {
                None
            }
        }
    }

    /// The creator replaces the description of an open campaign. An
    /// unchanged description is a no-op. A verified campaign loses its
    /// verification and its community vote tallies: the votes were cast on
    /// the text that has just been replaced.
    pub fn update_campaign_description(&mut self, campaign_id: u32, description: Vec<u8>) -> (r:
        Result<Vec<Effect>, Error>)
        requires
            old(self).wf(),
        ensures
            final(self).wf(),
            match r {
                Ok(effects) => {
                    let e = old(self).entry(campaign_id);
                    let c = e.campaign;
                    let ne = final(self).entry(campaign_id);
                    let revoked = c.is_verified;
                    &&& old(self).update_description_error(campaign_id, description@) is None
                    &&& if description@ == c.description@ {
                        &&& *final(self) == *old(self)
                        &&& effects@ == seq![Effect::RequireAuth(c.creator)]
                    } else {
                        &&& *final(self) == Platform {
                            entries: final(self).entries,
                            verified_count: if revoked {
                                if old(self).verified_count == 0 {
                                    0
                                } else {
                                    (old(self).verified_count - 1) as u32
                                }
                            } else {
                                old(self).verified_count
                            },
                            ..*old(self)
                        }
                        &&& final(self).entries@ == old(self).entries@.update(campaign_id - 1, ne)
                        &&& ne == CampaignEntry {
                            campaign: Campaign {
                                description: ne.campaign.description,
                                is_verified: false,
                                ..c
                            },
                            approve_votes: if revoked {
                                0
                            } else {
                                e.approve_votes
                            },
                            reject_votes: if revoked {
                                0
                            } else {
                                e.reject_votes
                            },
                            ..e
                        }
                        &&& ne.campaign.description@ == description@
                        &&& effects@.len() == if revoked {
                            3nat
                        } else {
                            2nat
                        }
                        &&& effects@[0] == Effect::RequireAuth(c.creator)
                        &&& revoked ==> effects@[1] == Effect::Emit(
                            Event::VerificationRevoked { campaign_id, creator: c.creator },
                        )
                        &&& effects@.last() matches Effect::Emit(
                            Event::MetadataUpdated {
                                campaign_id: id,
                                old_title,
                                old_description,
                                new_title,
                                new_description,
                            },
                        )
                        &&& id == campaign_id
                        &&& old_title@ == c.title@
                        &&& old_description == c.description
                        &&& new_title@ == c.title@
                        &&& new_description == description
                    }
                },
                Err(err) => {
                    &&& old(self).update_description_error(campaign_id, description@) == Some(err)
                    &&& *final(self) == *old(self)
                },
            },
    {
        let i = self.campaign_position(campaign_id)?;
        self.require_not_paused()?;
        require_active_campaign(&self.entries[i].campaign)?;
        let creator = self.entries[i].campaign.creator;
        let mut effects: Vec<Effect> = Vec::new();
        effects.push(Effect::RequireAuth(creator));
        if bytes_equal(&description, &self.entries[i].campaign.description) {
            return Ok(effects);
        }
        if description.len() < CAMPAIGN_DESCRIPTION_MIN_LEN || description.len()
            > CAMPAIGN_DESCRIPTION_MAX_LEN {
            return Err(Error::ValidationFailed);
        }
        let ghost old_self = *self;
        let mut old_description = copy_bytes(&description);
        std::mem::swap(&mut self.entries[i].campaign.description, &mut old_description);
        // Verification attests to the content that was reviewed; once the
        // content changes the attestation is stale.
        let was_verified = self.entries[i].campaign.is_verified;
        if was_verified {
            self.entries[i].campaign.is_verified = false;
            self.verified_count = self.verified_count.saturating_sub(1);
            // The tallies were cast on the replaced text.
            self.entries[i].approve_votes = 0;
            self.entries[i].reject_votes = 0;
            effects.push(Effect::Emit(Event::VerificationRevoked { campaign_id, creator }));
        }
        proof {
            assert(self.entries@ =~= old_self.entries@.update(i as int, self.entries@[i as int]));
            assert(old_self.entries@[i as int].wf());
            lemma_entry_update_wf(old_self, *self, i as int);
        }
        // The title is unchanged; it fills both slots so the event keeps one
        // shape whichever operation publishes it.
        let title_before = copy_bytes(&self.entries[i].campaign.title);
        let title_after = copy_bytes(&self.entries[i].campaign.title);
        effects.push(
            Effect::Emit(
                Event::MetadataUpdated {
                    campaign_id,
                    old_title: title_before,
                    old_description,
                    new_title: title_after,
                    new_description: description,
                },
            ),
        );
        Ok(effects)
    }

    /// The error `extend_campaign_deadline` returns, or `None` when it
    /// succeeds.
    pub open spec fn extend_deadline_error(
        &self,
        campaign_id: u32,
        additional_days: u64,
        ledger: LedgerInfo,
    ) -> Option<Error> {
        if !self.has_campaign(campaign_id) {
            Some(Error::CampaignNotFound)
        } else {
            let e = self.entry(campaign_id);
            let c = e.campaign;
            let new_deadline = c.deadline + additional_days * SECONDS_PER_DAY;
            let total = new_deadline - e.start_time;
            if self.is_paused() {
                Some(Error::ContractPaused)
            } else if !is_open(c) {
                Some(Error::CampaignNotActive)
            } else if c.deadline_extended {
                Some(Error::DeadlineAlreadyExtended)
            } else if ledger.timestamp >= c.deadline {
                Some(Error::DeadlinePassed)
            } else if additional_days == 0 || additional_days > MAX_EXTENSION_DAYS {
                Some(Error::ExtensionTooLong)
            } else if new_deadline > u64::MAX || total < 0 {
                Some(Error::Overflow)
            } else if total > self.duration_cap(c.category) * SECONDS_PER_DAY {
                Some(Error::InvalidDuration)
            } else if total > CAMPAIGN_EXTENSION_MAX_DAYS * SECONDS_PER_DAY {
                Some(Error::InvalidDuration)
            } else {
                None
            }
        }
    }

    /// The creator pushes the deadline of an open campaign back by
    /// `additional_days` (1 to `MAX_EXTENSION_DAYS`), once, before it passes.
    /// The span from the campaign's start to the new deadline, in seconds,
    /// may exceed neither the category's duration cap nor
    /// `CAMPAIGN_EXTENSION_MAX_DAYS`.
    pub fn extend_campaign_deadline(
        &mut self,
        campaign_id: u32,
        additional_days: u64,
        ledger: LedgerInfo,
    ) -> (r: Result<Vec<Effect>, Error>)
        requires
            old(self).wf(),
        ensures
            final(self).wf(),
            match r {
                Ok(effects) => {
                    let e = old(self).entry(campaign_id);
                    let c = e.campaign;
                    let new_deadline = (c.deadline + additional_days * SECONDS_PER_DAY) as u64;
                    &&& old(self).extend_deadline_error(campaign_id, additional_days, ledger) is None
                    &&& old(self).with_entry(
                        *final(self),
                        campaign_id,
                        CampaignEntry {
                            campaign: Campaign {
                                deadline: new_deadline,
                                deadline_extended: true,
                                ..c
                            },
                            ..e
                        },
                    )
                    &&& effects@ == seq![
                        Effect::RequireAuth(c.creator),
                        Effect::Emit(
                            Event::DeadlineExtended {
                                campaign_id,
                                old_deadline: c.deadline,
                                new_deadline,
                                additional_days,
                                total_duration_days: ((new_deadline - e.start_time)
                                    / SECONDS_PER_DAY as int) as u64,
                            },
                        ),
                    ]
                },
                Err(err) => {
                    &&& old(self).extend_deadline_error(campaign_id, additional_days, ledger)
                        == Some(err)
                    &&& *final(self) == *old(self)
                },
            },
    {
        let i = self.campaign_position(campaign_id)?;
        self.require_not_paused()?;
        require_active_campaign(&self.entries[i].campaign)?;
        if self.entries[i].campaign.deadline_extended {
            return Err(Error::DeadlineAlreadyExtended);
        }
        if ledger.timestamp >= self.entries[i].campaign.deadline {
            return Err(Error::DeadlinePassed);
        }
        if additional_days == 0 || additional_days > MAX_EXTENSION_DAYS {
            return Err(Error::ExtensionTooLong);
        }
        let old_deadline = self.entries[i].campaign.deadline;
        let new_deadline = match old_deadline.checked_add(additional_days * SECONDS_PER_DAY) {
            Some(d) => d,
            None => {
                return Err(Error::Overflow);
            },
        };
        let start_time = self.entries[i].start_time;
        let slot = category_index(self.entries[i].campaign.category);
        let category_cap = match self.config.duration_caps[slot] {
            Some(d) => d,
            None => CAMPAIGN_DURATION_MAX_DAYS,
        };
        // Compare seconds, not whole days: rounding the span down to days
        // would let a deadline run up to a day past the cap.
        let total_duration_seconds = match new_deadline.checked_sub(start_time) {
            Some(t) => t,
            None => {
                return Err(Error::Overflow);
            },
        };
        if total_duration_seconds > category_cap * SECONDS_PER_DAY {
            return Err(Error::InvalidDuration);
        }
        if total_duration_seconds > CAMPAIGN_EXTENSION_MAX_DAYS * SECONDS_PER_DAY {
            return Err(Error::InvalidDuration);
        }
        let creator = self.entries[i].campaign.creator;
        let ghost old_self = *self;
        self.entries[i].campaign.deadline = new_deadline;
        self.entries[i].campaign.deadline_extended = true;
        proof {
            assert(self.entries@ =~= old_self.entries@.update(i as int, self.entries@[i as int]));
            assert(old_self.entries@[i as int].wf());
            lemma_entry_update_wf(old_self, *self, i as int);
        }
        let mut effects: Vec<Effect> = Vec::new();
        effects.push(Effect::RequireAuth(creator));
        effects.push(
            Effect::Emit(
                Event::DeadlineExtended {
                    campaign_id,
                    old_deadline,
                    new_deadline,
                    additional_days,
                    total_duration_days: total_duration_seconds / SECONDS_PER_DAY,
                },
            ),
        );
        Ok(effects)
    }
}

} // verus!
