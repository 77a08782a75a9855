//! The public record of censured off-chain comments.
//!
//! Comments live off-chain; this module records the act of removing one.
//! An admin marks a comment hash as censured with a mandatory reason, and
//! that mark, its lifting, and a per-campaign count are public, so a comment
//! missing from a frontend but absent from the censure list is detectable.
//! The hash is an opaque 32-byte identifier chosen by the caller.

use vstd::prelude::*;

use crate::constants::CENSURE_REASON_MAX_LEN;
use crate::errors::Error;
use crate::state::{lemma_entry_update_wf, CampaignEntry, Effect, Event, LedgerInfo, Platform};
use crate::types::{copy_bytes, AccountId, CommentCensure};

verus! {

/// Whether comment `hash` is censured on campaign entry `e`.
pub open spec fn is_censured(e: CampaignEntry, hash: Seq<u8>) -> bool {
    exists|k: int| 0 <= k < e.censures@.len() && e.censures@[k].0@ == hash
}

/// Whether two comment hashes are equal.
pub fn hash_equal(a: &[u8; 32], b: &[u8; 32]) -> (r: bool)
    ensures
        r == (a@ == b@),
{
    let mut i: usize = 0;
    while i < 32
        invariant
            a@.len() == 32,
            b@.len() == 32,
            i <= 32,
            forall|j: int| 0 <= j < i ==> a@[j] == b@[j],
        decreases 32 - i,
    {
        if a[i] != b[i] {
            return false;
        }
        i = i + 1;
    }
    assert(a@ =~= b@);
    true
}

/// Where the censure of `hash` is recorded in `e`, if it is.
pub fn find_censure(e: &CampaignEntry, hash: &[u8; 32]) -> (r: Option<usize>)
    ensures
        match r {
            Some(k) => k < e.censures@.len() && e.censures@[k as int].0@ == hash@,
            None => !is_censured(*e, hash@),
        },
{
    let mut k: usize = 0;
    while k < e.censures.len()
        invariant
            k <= e.censures@.len(),
            forall|j: int| 0 <= j < k ==> e.censures@[j].0@ != hash@,
        decreases e.censures@.len() - k,
    {
        if hash_equal(&e.censures[k].0, hash) {
            return Some(k);
        }
        k = k + 1;
    }
    None
}

impl Platform {
    /// The error `censure_comment` returns, or `None` when it succeeds.
    pub open spec fn censure_error(&self, admin: AccountId, campaign_id: u32, reason: Seq<u8>) -> Option<
        Error,
    > {
        if admin != self.config.admin {
            Some(Error::NotAuthorized)
        } else if self.is_paused() {
            Some(Error::ContractPaused)
        } else if !self.has_campaign(campaign_id) {
            Some(Error::CampaignNotFound)
        } else if reason.len() == 0 || reason.len() > CENSURE_REASON_MAX_LEN {
            Some(Error::ValidationFailed)
        } else {
            None
        }
    }

    /// The admin marks comment `comment_hash` of a campaign as censured,
    /// with a reason. Censuring a censured comment succeeds and changes
    /// nothing, so a retry does not count a suppression twice.
    pub fn censure_comment(
        &mut self,
        admin: AccountId,
        campaign_id: u32,
        comment_hash: [u8; 32],
        reason: Vec<u8>,
        ledger: LedgerInfo,
    ) -> (r: Result<Vec<Effect>, Error>)
        requires
            old(self).wf(),
        ensures
            final(self).wf(),
            match r {
                Ok(effects) => {
                    let e = old(self).entry(campaign_id);
                    let ne = final(self).entry(campaign_id);
                    &&& old(self).censure_error(admin, campaign_id, reason@) is None
                    &&& if is_censured(e, comment_hash@) {
                        &&& *final(self) == *old(self)
                        &&& effects@ == seq![Effect::RequireAuth(admin)]
                    } else {
                        &&& old(self).with_entry(*final(self), campaign_id, ne)
                        &&& ne == CampaignEntry {
                            censures: ne.censures,
                            censured_count: if e.censured_count == u32::MAX {
                                u32::MAX
                            } else {
                                (e.censured_count + 1) as u32
                            },
                            ..e
                        }
                        &&& ne.censures@.len() == e.censures@.len() + 1
                        &&& ne.censures@.drop_last() == e.censures@
                        &&& ne.censures@.last().0 == comment_hash
                        &&& ne.censures@.last().1.reason@ == reason@
                        &&& ne.censures@.last().1.censured_at == ledger.timestamp
                        &&& ne.censures@.last().1.admin == admin
                        &&& effects@ == seq![
                            Effect::RequireAuth(admin),
                            Effect::Emit(
                                Event::CommentCensured {
                                    campaign_id,
                                    comment_hash,
                                    admin,
                                    reason,
                                    censured_at: ledger.timestamp,
                                },
                            ),
                        ]
                    }
                },
                Err(err) => {
                    &&& old(self).censure_error(admin, campaign_id, reason@) == Some(err)
                    &&& *final(self) == *old(self)
                },
            },
    {
        self.assert_admin(admin)?;
        self.require_not_paused()?;
        let i = self.campaign_position(campaign_id)?;
        let reason_len = reason.len();
        if reason_len == 0 || reason_len > CENSURE_REASON_MAX_LEN {
            return Err(Error::ValidationFailed);
        }
        let mut effects: Vec<Effect> = Vec::new();
        effects.push(Effect::RequireAuth(admin));
        if find_censure(&self.entries[i], &comment_hash).is_some() {
            return Ok(effects);
        }
        let record = CommentCensure {
            reason: copy_bytes(&reason),
            censured_at: ledger.timestamp,
            admin,
        };
        let ghost old_self = *self;
        self.entries[i].censures.push((comment_hash, record));
        self.entries[i].censured_count = self.entries[i].censured_count.saturating_add(1);
        proof {
            let ne = self.entries@[i as int];
            let e = old_self.entries@[i as int];
            assert(e.wf());
            assert(ne.censures@.drop_last() =~= e.censures@);
            assert forall|a: int, b: int| 0 <= a < b < ne.censures@.len() implies ne.censures@[a].0@
                != ne.censures@[b].0@ by {
                if b == ne.censures@.len() - 1 {
                    assert(e.censures@[a] == ne.censures@[a]);
                } else {
                    assert(e.censures@[a] == ne.censures@[a]);
                    assert(e.censures@[b] == ne.censures@[b]);
                }
            }
            assert(self.entries@ =~= old_self.entries@.update(i as int, self.entries@[i as int]));
            lemma_entry_update_wf(old_self, *self, i as int);
        }
        effects.push(
            Effect::Emit(
                Event::CommentCensured {
                    campaign_id,
                    comment_hash,
                    admin,
                    reason,
                    censured_at: ledger.timestamp,
                },
            ),
        );
        Ok(effects)
    }

    /// The error `uncensure_comment` returns, or `None` when it succeeds.
    pub open spec fn uncensure_error(&self, admin: AccountId, campaign_id: u32) -> Option<Error> {
        if admin != self.config.admin {
            Some(Error::NotAuthorized)
        } else if self.is_paused() {
            Some(Error::ContractPaused)
        } else if !self.has_campaign(campaign_id) {
            Some(Error::CampaignNotFound)
        } else {
            None
        }
    }

    /// The admin lifts the censure of a comment; a comment that is not
    /// censured is left alone. The lifting is published like the censure.
    pub fn uncensure_comment(
        &mut self,
        admin: AccountId,
        campaign_id: u32,
        comment_hash: [u8; 32],
        ledger: LedgerInfo,
    ) -> (r: Result<Vec<Effect>, Error>)
        requires
            old(self).wf(),
        ensures
            final(self).wf(),
            match r {
                Ok(effects) => {
                    let e = old(self).entry(campaign_id);
                    let ne = final(self).entry(campaign_id);
                    &&& old(self).uncensure_error(admin, campaign_id) is None
                    &&& if !is_censured(e, comment_hash@) {
                        &&& *final(self) == *old(self)
                        &&& effects@ == seq![Effect::RequireAuth(admin)]
                    } else {
                        &&& old(self).with_entry(*final(self), campaign_id, ne)
                        &&& ne == CampaignEntry {
                            censures: ne.censures,
                            censured_count: if e.censured_count == 0 {
                                0
                            } else {
                                (e.censured_count - 1) as u32
                            },
                            ..e
                        }
                        &&& exists|k: int|
                            0 <= k < e.censures@.len() && e.censures@[k].0@ == comment_hash@
                                && ne.censures@ == e.censures@.remove(k)
                        &&& !is_censured(ne, comment_hash@)
                        &&& effects@ == seq![
                            Effect::RequireAuth(admin),
                            Effect::Emit(
                                Event::CommentUncensured {
                                    campaign_id,
                                    comment_hash,
                                    admin,
                                    at: ledger.timestamp,
                                },
                            ),
                        ]
                    }
                },
                Err(err) => {
                    &&& old(self).uncensure_error(admin, campaign_id) == Some(err)
                    &&& *final(self) == *old(self)
                },
            },
    {
        self.assert_admin(admin)?;
        self.require_not_paused()?;
        let i = self.campaign_position(campaign_id)?;
        let mut effects: Vec<Effect> = Vec::new();
        effects.push(Effect::RequireAuth(admin));
        let k = match find_censure(&self.entries[i], &comment_hash) {
            Some(k) => k,
            None => {
                return Ok(effects);
            },
        };
        let ghost old_self = *self;
        let _ = self.entries[i].censures.remove(k);
        self.entries[i].censured_count = self.entries[i].censured_count.saturating_sub(1);
        proof {
            let ne = self.entries@[i as int];
            let e = old_self.entries@[i as int];
            assert(e.wf());
            assert(ne.censures@ == e.censures@.remove(k as int));
            assert forall|a: int, b: int| 0 <= a < b < ne.censures@.len() implies ne.censures@[a].0@
                != ne.censures@[b].0@ by {
                let a0 = if a < k { a } else { a + 1 };
                let b0 = if b < k { b } else { b + 1 };
                assert(ne.censures@[a] == e.censures@[a0]);
                assert(ne.censures@[b] == e.censures@[b0]);
            }
            assert(!is_censured(ne, comment_hash@)) by {
                if is_censured(ne, comment_hash@) {
                    let j = choose|j: int| 0 <= j < ne.censures@.len() && ne.censures@[j].0@ == comment_hash@;
                    let j0 = if j < k { j } else { j + 1 };
                    assert(ne.censures@[j] == e.censures@[j0]);
                }
            }
            assert(self.entries@ =~= old_self.entries@.update(i as int, self.entries@[i as int]));
            lemma_entry_update_wf(old_self, *self, i as int);
        }
        effects.push(
            Effect::Emit(
                Event::CommentUncensured { campaign_id, comment_hash, admin, at: ledger.timestamp },
            ),
        );
        Ok(effects)
    }

    /// Whether comment `comment_hash` of a campaign is censured; an unknown
    /// campaign or hash is simply not censured.
    pub fn comment_is_censured(&self, campaign_id: u32, comment_hash: [u8; 32]) -> (r: bool)
        ensures
            r == (self.has_campaign(campaign_id) && is_censured(
                self.entry(campaign_id),
                comment_hash@,
            )),
    {
        if campaign_id == 0 || campaign_id as usize > self.entries.len() {
            return false;
        }
        find_censure(&self.entries[(campaign_id - 1) as usize], &comment_hash).is_some()
    }

    /// The censure record of a comment, or `None` when it is not censured.
    pub fn comment_censure_record(&self, campaign_id: u32, comment_hash: [u8; 32]) -> (r: Option<
        CommentCensure,
    >)
        ensures
            match r {
                Some(rec) => self.has_campaign(campaign_id) && exists|k: int|
                    0 <= k < self.entry(campaign_id).censures@.len() && self.entry(
                        campaign_id,
                    ).censures@[k].0@ == comment_hash@ && {
                        let c = self.entry(campaign_id).censures@[k].1;
                        &&& rec.reason@ == c.reason@
                        &&& rec.censured_at == c.censured_at
                        &&& rec.admin == c.admin
                    },
                None => !(self.has_campaign(campaign_id) && is_censured(
                    self.entry(campaign_id),
                    comment_hash@,
                )),
            },
    {
        if campaign_id == 0 || campaign_id as usize > self.entries.len() {
            return None;
        }
        let e = &self.entries[(campaign_id - 1) as usize];
        match find_censure(e, &comment_hash) {
            Some(k) => {
                let c = &e.censures[k].1;
                Some(
                    CommentCensure {
                        reason: copy_bytes(&c.reason),
                        censured_at: c.censured_at,
                        admin: c.admin,
                    },
                )
            },
            None => None,
        }
    }

    /// How many comments of a campaign are currently censured (0 for an
    /// unknown campaign).
    pub fn campaign_censured_comment_count(&self, campaign_id: u32) -> (r: u32)
        ensures
            r == if self.has_campaign(campaign_id) {
                self.entry(campaign_id).censured_count
            } else {
                0
            },
    {
        if campaign_id == 0 || campaign_id as usize > self.entries.len() {
            return 0;
        }
        self.entries[(campaign_id - 1) as usize].censured_count
    }
}

} // verus!
