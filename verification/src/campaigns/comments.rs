//! Comment bookkeeping: comments live off-chain, the platform numbers them
//! and records removals.

use vstd::prelude::*;

use crate::errors::Error;
use crate::state::{lemma_entry_update_wf, CampaignEntry, Effect, Event, Platform};
use crate::types::AccountId;

verus! {

impl Platform {
    /// The error `add_campaign_comment` returns, or `None` when it succeeds.
    pub open spec fn add_comment_error(&self, campaign_id: u32) -> Option<Error> {
        if self.is_paused() {
            Some(Error::ContractPaused)
        } else if !self.has_campaign(campaign_id) {
            Some(Error::CampaignNotFound)
        } else if self.entry(campaign_id).comment_count == u32::MAX {
            Some(Error::Overflow)
        } else {
            None
        }
    }

    /// `commenter` registers an off-chain comment, identified by
    /// `comment_hash`, on a campaign; returns the comment's number, counting
    /// from 1.
    pub fn add_campaign_comment(
        &mut self,
        campaign_id: u32,
        commenter: AccountId,
        comment_hash: Vec<u8>,
    ) -> (r: Result<(u32, Vec<Effect>), Error>)
        requires
            old(self).wf(),
        ensures
            final(self).wf(),
            match r {
                Ok((comment_id, effects)) => {
                    let e = old(self).entry(campaign_id);
                    &&& old(self).add_comment_error(campaign_id) is None
                    &&& comment_id == e.comment_count + 1
                    &&& old(self).with_entry(
                        *final(self),
                        campaign_id,
                        CampaignEntry { comment_count: comment_id, ..e },
                    )
                    &&& effects@ == seq![
                        Effect::RequireAuth(commenter),
                        Effect::Emit(
                            Event::CommentAdded { campaign_id, comment_id, commenter, comment_hash },
                        ),
                    ]
                },
                Err(err) => {
                    &&& old(self).add_comment_error(campaign_id) == Some(err)
                    &&& *final(self) == *old(self)
                },
            },
    {
        self.require_not_paused()?;
        let i = self.campaign_position(campaign_id)?;
        let comment_id = match self.entries[i].comment_count.checked_add(1) {
            Some(v) => v,
            None => {
                return Err(Error::Overflow);
            },
        };
        let ghost old_self = *self;
        self.entries[i].comment_count = comment_id;
        proof {
            assert(self.entries@ =~= old_self.entries@.update(i as int, self.entries@[i as int]));
            assert(old_self.entries@[i as int].wf());
            lemma_entry_update_wf(old_self, *self, i as int);
        }
        let mut effects: Vec<Effect> = Vec::new();
        effects.push(Effect::RequireAuth(commenter));
        effects.push(
            Effect::Emit(Event::CommentAdded { campaign_id, comment_id, commenter, comment_hash }),
        );
        Ok((comment_id, effects))
    }

    /// The error `remove_campaign_comment` returns, or `None` when it
    /// succeeds.
    pub open spec fn remove_comment_error(&self, campaign_id: u32, comment_id: u32, caller: AccountId) -> Option<
        Error,
    > {
        if self.is_paused() {
            Some(Error::ContractPaused)
        } else if !self.has_campaign(campaign_id) {
            Some(Error::CampaignNotFound)
        } else {
            let e = self.entry(campaign_id);
            if caller != e.campaign.creator && caller != self.config.admin {
                Some(Error::NotAuthorized)
            } else if comment_id == 0 || comment_id > e.comment_count {
                Some(Error::ValidationFailed)
            } else if e.removed_comments@.contains_key(comment_id as u64) {
                Some(Error::ValidationFailed)
            } else {
                None
            }
        }
    }

    /// The campaign creator or the admin records the removal of comment
    /// `comment_id`. An unknown or already removed comment is refused with
    /// `ValidationFailed`.
    pub fn remove_campaign_comment(&mut self, campaign_id: u32, comment_id: u32, caller: AccountId) -> (r:
        Result<Vec<Effect>, Error>)
        requires
            old(self).wf(),
        ensures
            final(self).wf(),
            match r {
                Ok(effects) => {
                    let e = old(self).entry(campaign_id);
                    let ne = final(self).entry(campaign_id);
                    &&& old(self).remove_comment_error(campaign_id, comment_id, caller) is None
                    &&& old(self).with_entry(*final(self), campaign_id, ne)
                    &&& ne == CampaignEntry { removed_comments: ne.removed_comments, ..e }
                    &&& ne.removed_comments@ == e.removed_comments@.insert(comment_id as u64, true)
                    &&& effects@ == seq![
                        Effect::RequireAuth(caller),
                        Effect::Emit(Event::CommentRemoved { campaign_id, comment_id, caller }),
                    ]
                },
                Err(err) => {
                    &&& old(self).remove_comment_error(campaign_id, comment_id, caller) == Some(err)
                    &&& *final(self) == *old(self)
                },
            },
    {
        self.require_not_paused()?;
        let i = self.campaign_position(campaign_id)?;
        proof {
            assert(self.entries@[i as int].wf());
        }
        // Only the campaign creator or the admin can remove comments.
        if caller != self.entries[i].campaign.creator && caller != self.config.admin {
            return Err(Error::NotAuthorized);
        }
        let count = self.entries[i].comment_count;
        if comment_id == 0 || comment_id > count {
            return Err(Error::ValidationFailed);
        }
        if self.entries[i].removed_comments.contains(comment_id as u64) {
            return Err(Error::ValidationFailed);
        }
        let ghost old_self = *self;
        self.entries[i].removed_comments.insert(comment_id as u64, true);
        proof {
            assert(self.entries@ =~= old_self.entries@.update(i as int, self.entries@[i as int]));
            lemma_entry_update_wf(old_self, *self, i as int);
        }
        let mut effects: Vec<Effect> = Vec::new();
        effects.push(Effect::RequireAuth(caller));
        effects.push(Effect::Emit(Event::CommentRemoved { campaign_id, comment_id, caller }));
        Ok(effects)
    }
}

} // verus!
