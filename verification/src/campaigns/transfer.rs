//! Two-step campaign ownership transfer: the creator nominates a new
//! creator, who accepts.

use vstd::prelude::*;

use crate::constants::CREATOR_CAMPAIGNS_BUCKET_SIZE;
use crate::errors::Error;
use crate::index::{
    append_to_index, can_append, idx_can_append, idx_bucket, idx_count, index_removed, key_appended, locate, BucketIndex,
};
use crate::lifecycle::{is_open, require_active_campaign};
use crate::state::{lemma_entry_update_wf, CampaignEntry, Effect, Event, Platform};
use crate::table::Table;
use crate::types::{AccountId, Campaign};

verus! {

impl Platform {
    /// Where campaign `campaign_id` sits in `creator`'s index, if it does.
    pub open spec fn creator_position(&self, creator: AccountId, campaign_id: u32) -> Option<
        (u32, u32),
    > {
        if self.creator_index@.contains_key(creator as u64) {
            locate(self.creator_index@[creator as u64], campaign_id, CREATOR_CAMPAIGNS_BUCKET_SIZE)
        } else {
            None
        }
    }

    /// The position of campaign `campaign_id` in `creator`'s index: the
    /// recorded one, or for campaigns indexed before positions were recorded,
    /// the first occurrence found by scanning the creator's buckets.
    pub fn get_creator_campaign_position_or_legacy_scan(
        &self,
        creator: AccountId,
        campaign_id: u32,
    ) -> (r: Option<(u32, u32)>)
        requires
            self.wf(),
        ensures
            r == self.creator_position(creator, campaign_id),
    {
        match self.creator_index.get(creator) {
            Some(index) => index.position_or_scan(campaign_id, CREATOR_CAMPAIGNS_BUCKET_SIZE),
            None => None,
        }
    }

    /// The error `initiate_campaign_transfer` returns, or `None` when it
    /// succeeds.
    pub open spec fn initiate_transfer_error(&self, campaign_id: u32, new_creator: AccountId) -> Option<
        Error,
    > {
        if !self.has_campaign(campaign_id) {
            Some(Error::CampaignNotFound)
        } else {
            let c = self.campaign(campaign_id);
            if self.is_paused() {
                Some(Error::ContractPaused)
            } else if !is_open(c) || c.funds_withdrawn {
                Some(Error::CampaignNotActive)
            } else if new_creator == c.creator {
                Some(Error::InvalidNewOwner)
            } else if c.pending_creator is Some {
                Some(Error::TransferAlreadyPending)
            } else {
                None
            }
        }
    }

    /// The creator nominates `new_creator` to take the campaign over.
    pub fn initiate_campaign_transfer(&mut self, campaign_id: u32, new_creator: AccountId) -> (r:
        Result<Vec<Effect>, Error>)
        requires
            old(self).wf(),
        ensures
            final(self).wf(),
            match r {
                Ok(effects) => {
                    let e = old(self).entry(campaign_id);
                    let c = e.campaign;
                    &&& old(self).initiate_transfer_error(campaign_id, new_creator) is None
                    &&& old(self).with_entry(
                        *final(self),
                        campaign_id,
                        CampaignEntry {
                            campaign: Campaign { pending_creator: Some(new_creator), ..c },
                            ..e
                        },
                    )
                    &&& effects@ == seq![
                        Effect::RequireAuth(c.creator),
                        Effect::Emit(
                            Event::TransferInitiated { campaign_id, creator: c.creator, new_creator },
                        ),
                    ]
                },
                Err(err) => {
                    &&& old(self).initiate_transfer_error(campaign_id, new_creator) == Some(err)
                    &&& *final(self) == *old(self)
                },
            },
    {
        let i = self.campaign_position(campaign_id)?;
        self.require_not_paused()?;
        require_active_campaign(&self.entries[i].campaign)?;
        if self.entries[i].campaign.funds_withdrawn {
            return Err(Error::CampaignNotActive);
        }
        let creator = self.entries[i].campaign.creator;
        if new_creator == creator {
            return Err(Error::InvalidNewOwner);
        }
        if self.entries[i].campaign.pending_creator.is_some() {
            return Err(Error::TransferAlreadyPending);
        }
        let ghost old_self = *self;
        self.entries[i].campaign.pending_creator = Some(new_creator);
        proof {
            assert(self.entries@ =~= old_self.entries@.update(i as int, self.entries@[i as int]));
            assert(old_self.entries@[i as int].wf());
            lemma_entry_update_wf(old_self, *self, i as int);
        }
        let mut effects: Vec<Effect> = Vec::new();
        effects.push(Effect::RequireAuth(creator));
        effects.push(Effect::Emit(Event::TransferInitiated { campaign_id, creator, new_creator }));
        Ok(effects)
    }

    /// The error `cancel_campaign_transfer` returns, or `None` when it
    /// succeeds.
    pub open spec fn cancel_transfer_error(&self, campaign_id: u32) -> Option<Error> {
        if !self.has_campaign(campaign_id) {
            Some(Error::CampaignNotFound)
        } else if self.is_paused() {
            Some(Error::ContractPaused)
        } else if self.campaign(campaign_id).pending_creator is None {
            Some(Error::NoTransferPending)
        } else {
            None
        }
    }

    /// The creator withdraws a pending nomination.
    pub fn cancel_campaign_transfer(&mut self, campaign_id: u32) -> (r: Result<Vec<Effect>, Error>)
        requires
            old(self).wf(),
        ensures
            final(self).wf(),
            match r {
                Ok(effects) => {
                    let e = old(self).entry(campaign_id);
                    let c = e.campaign;
                    &&& old(self).cancel_transfer_error(campaign_id) is None
                    &&& old(self).with_entry(
                        *final(self),
                        campaign_id,
                        CampaignEntry { campaign: Campaign { pending_creator: None, ..c }, ..e },
                    )
                    &&& effects@ == seq![
                        Effect::RequireAuth(c.creator),
                        Effect::Emit(
                            Event::TransferCancelled {
                                campaign_id,
                                pending_creator: c.pending_creator->0,
                            },
                        ),
                    ]
                },
                Err(err) => {
                    &&& old(self).cancel_transfer_error(campaign_id) == Some(err)
                    &&& *final(self) == *old(self)
                },
            },
    {
        let i = self.campaign_position(campaign_id)?;
        self.require_not_paused()?;
        let pending_address = match self.entries[i].campaign.pending_creator {
            Some(a) => a,
            None => {
                return Err(Error::NoTransferPending);
            },
        };
        let creator = self.entries[i].campaign.creator;
        let ghost old_self = *self;
        self.entries[i].campaign.pending_creator = None;
        proof {
            assert(self.entries@ =~= old_self.entries@.update(i as int, self.entries@[i as int]));
            assert(old_self.entries@[i as int].wf());
            lemma_entry_update_wf(old_self, *self, i as int);
        }
        let mut effects: Vec<Effect> = Vec::new();
        effects.push(Effect::RequireAuth(creator));
        effects.push(
            Effect::Emit(Event::TransferCancelled { campaign_id, pending_creator: pending_address }),
        );
        Ok(effects)
    }

    /// The error `accept_campaign_transfer` returns, or `None` when it
    /// succeeds.
    pub open spec fn accept_transfer_error(&self, campaign_id: u32) -> Option<Error> {
        if !self.has_campaign(campaign_id) {
            Some(Error::CampaignNotFound)
        } else {
            let c = self.campaign(campaign_id);
            if !is_open(c) {
                Some(Error::CampaignNotActive)
            } else if self.is_paused() {
                Some(Error::ContractPaused)
            } else if c.pending_creator is None {
                Some(Error::NoTransferPending)
            } else if c.pending_creator->0 == c.creator {
                Some(Error::InvalidNewOwner)
            } else {
                match self.creator_position(c.creator, campaign_id) {
                    None => Some(Error::ValidationFailed),
                    Some((b, slot)) => {
                        let bucket = idx_bucket(self.creator_index, c.creator as u64, b as u64);
                        if bucket.len() == 0 || slot >= bucket.len() || bucket[slot as int]
                            != campaign_id {
                            Some(Error::ValidationFailed)
                        } else if !idx_can_append(
                            self.creator_index,
                            c.pending_creator->0 as u64,
                            CREATOR_CAMPAIGNS_BUCKET_SIZE,
                        ) {
                            Some(Error::Overflow)
                        } else {
                            None
                        }
                    },
                }
            }
        }
    }

    /// The nominated account takes the campaign over: the campaign moves
    /// from the old creator's index to the new creator's.
    ///
    /// The old creator's bucket loses the campaign by moving its last id
    /// into the freed slot (updating that id's recorded position).
    #[verifier::rlimit(30)]
    pub fn accept_campaign_transfer(&mut self, campaign_id: u32) -> (r: Result<Vec<Effect>, Error>)
        requires
            old(self).wf(),
        ensures
            final(self).wf(),
            match r {
                Ok(effects) => {
                    let e = old(self).entry(campaign_id);
                    let c = e.campaign;
                    let new_creator = c.pending_creator->0;
                    let (b, slot) = old(self).creator_position(c.creator, campaign_id)->0;
                    let ne = final(self).entry(campaign_id);
                    &&& old(self).accept_transfer_error(campaign_id) is None
                    &&& *final(self) == Platform {
                        entries: final(self).entries,
                        creator_index: final(self).creator_index,
                        ..*old(self)
                    }
                    &&& final(self).entries@ == old(self).entries@.update(campaign_id - 1, ne)
                    &&& ne == CampaignEntry {
                        campaign: Campaign { creator: new_creator, pending_creator: None, ..c },
                        ..e
                    }
                    &&& final(self).creator_index@.remove(c.creator as u64).remove(
                        new_creator as u64,
                    ) == old(self).creator_index@.remove(c.creator as u64).remove(
                        new_creator as u64,
                    )
                    &&& final(self).creator_index@.contains_key(c.creator as u64)
                    &&& index_removed(
                        old(self).creator_index@[c.creator as u64],
                        final(self).creator_index@[c.creator as u64],
                        campaign_id,
                        b,
                        slot,
                    )
                    &&& key_appended(
                        old(self).creator_index,
                        final(self).creator_index,
                        new_creator as u64,
                        campaign_id,
                        CREATOR_CAMPAIGNS_BUCKET_SIZE,
                        true,
                    )
                    &&& effects@ == seq![
                        Effect::RequireAuth(new_creator),
                        Effect::Emit(
                            Event::TransferCompleted {
                                campaign_id,
                                old_creator: c.creator,
                                new_creator,
                            },
                        ),
                    ]
                },
                Err(err) => {
                    &&& old(self).accept_transfer_error(campaign_id) == Some(err)
                    &&& *final(self) == *old(self)
                },
            },
    {
        let i = self.campaign_position(campaign_id)?;
        require_active_campaign(&self.entries[i].campaign)?;
        self.require_not_paused()?;
        let pending = match self.entries[i].campaign.pending_creator {
            Some(a) => a,
            None => {
                return Err(Error::NoTransferPending);
            },
        };
        let old_creator = self.entries[i].campaign.creator;
        // `initiate_campaign_transfer` never nominates the current creator;
        // checked again because the index rewrite below is not idempotent.
        if pending == old_creator {
            return Err(Error::InvalidNewOwner);
        }
        let (old_bucket_idx, old_slot_idx) = match self.get_creator_campaign_position_or_legacy_scan(
            old_creator,
            campaign_id,
        ) {
            Some(p) => p,
            None => {
                return Err(Error::ValidationFailed);
            },
        };
        proof {
            assert(self.creator_index@.contains_key(old_creator as u64));
            assert(self.creator_index@[old_creator as u64].wf());
        }
        let old_bucket = match self.creator_index.get(old_creator) {
            Some(index) => index.get_bucket(old_bucket_idx),
            None => Vec::new(),
        };
        if old_bucket.len() == 0 {
            return Err(Error::ValidationFailed);
        }
        if old_slot_idx as usize >= old_bucket.len() || old_bucket[old_slot_idx as usize]
            != campaign_id {
            return Err(Error::ValidationFailed);
        }
        if !can_append(&self.creator_index, pending, CREATOR_CAMPAIGNS_BUCKET_SIZE) {
            return Err(Error::Overflow);
        }

        let ghost old_self = *self;
        let ghost t0 = self.creator_index;
        let mut old_index = self.creator_index.take(old_creator).unwrap();
        let ghost oi0 = old_index;
        old_index.remove_at(old_bucket_idx, old_slot_idx, campaign_id);
        let ghost oi1 = old_index;
        self.creator_index.insert(old_creator, old_index);
        let ghost t1 = self.creator_index;
        proof {
            assert(t1@ == t0@.remove(old_creator as u64).insert(old_creator as u64, oi1));
            assert(idx_count(t1, pending as u64) == idx_count(t0, pending as u64));
            assert(forall|bb: u64|
                #[trigger] idx_bucket(t1, pending as u64, bb) == idx_bucket(t0, pending as u64, bb));
            assert(forall|x: u64|
                #![trigger crate::index::idx_position(t1, pending as u64, x)]
                crate::index::idx_position(t1, pending as u64, x)
                    == crate::index::idx_position(t0, pending as u64, x));
            assert forall|kk: u64| #[trigger] t1@.contains_key(kk) implies t1@[kk].wf() by {
                if kk != old_creator as u64 {
                    assert(t0@.contains_key(kk));
                }
            }
        }
        append_to_index(
            &mut self.creator_index,
            pending,
            campaign_id,
            CREATOR_CAMPAIGNS_BUCKET_SIZE,
            true,
        );
        let ghost t2 = self.creator_index;
        self.entries[i].campaign.creator = pending;
        self.entries[i].campaign.pending_creator = None;
        proof {
            assert(t2@.remove(pending as u64) == t1@.remove(pending as u64));
            assert(t2@.contains_key(old_creator as u64));
            let o = old_creator as u64;
            let p = pending as u64;
            assert(t2@[o] == oi1) by {
                assert(t1@.remove(p)[o] == t1@[o]);
                assert(t2@.remove(p)[o] == t2@[o]);
            }
            assert(t2@.remove(p).remove(o) == t1@.remove(p).remove(o));
            assert(t1@.remove(o) =~= t0@.remove(o));
            assert(t1@.remove(o).remove(p) =~= t1@.remove(p).remove(o));
            assert(t2@.remove(o).remove(p) =~= t2@.remove(p).remove(o));
            assert(t2@.remove(o).remove(p) =~= t0@.remove(o).remove(p));
            assert(self.entries@ =~= old_self.entries@.update(i as int, self.entries@[i as int]));
            assert forall|j: int| 0 <= j < self.entries@.len() implies #[trigger] self.entries@[j].wf()
                && self.entries@[j].campaign.id == j + 1 by {
                assert(old_self.entries@[j].wf());
                if j != i {
                    assert(self.entries@[j] == old_self.entries@[j]);
                }
            }
        }
        let mut effects: Vec<Effect> = Vec::new();
        effects.push(Effect::RequireAuth(pending));
        effects.push(
            Effect::Emit(
                Event::TransferCompleted { campaign_id, old_creator, new_creator: pending },
            ),
        );
        Ok(effects)
    }
}

} // verus!
