//! Tag-based campaign discovery.
//!
//! The creator adds short free-text tags to a campaign; each tag has an
//! index of the campaigns carrying it, so the campaigns of a tag can be
//! paged without scanning every campaign. Tags are append-only, like the
//! category index, so index buckets never develop holes.

use vstd::prelude::*;

use crate::constants::{
    CAMPAIGN_TAG_MAX_LEN, CAMPAIGN_TAG_MIN_LEN, MAX_TAGS_PER_CAMPAIGN, TAG_CAMPAIGNS_BUCKET_SIZE,
};
use crate::errors::Error;
use crate::index::{append_to_index, can_append, idx_can_append, indexes_wf, table_appended};
use crate::lifecycle::{is_open, require_active_campaign};
use crate::state::{CampaignEntry, Effect, Event, Platform};
use crate::types::{bytes_equal, copy_bytes};

verus! {

/// Position of tag `tag` among the known tags `names`, or their count when
/// it is unknown.
pub open spec fn tag_slot(names: Seq<Vec<u8>>, tag: Seq<u8>) -> int {
    if exists|k: int| 0 <= k < names.len() && names[k]@ == tag {
        choose|k: int| 0 <= k < names.len() && names[k]@ == tag
    } else {
        names.len() as int
    }
}

/// Whether campaign entry `e` carries tag `tag`.
pub open spec fn has_tag(e: CampaignEntry, tag: Seq<u8>) -> bool {
    exists|k: int| 0 <= k < e.tags@.len() && e.tags@[k]@ == tag
}

impl Platform {
    /// The index key of tag `tag`.
    pub open spec fn tag_key(&self, tag: Seq<u8>) -> u64 {
        tag_slot(self.tag_names@, tag) as u64
    }

    /// The index key of tag `tag`, and whether the tag is known.
    pub fn find_tag(&self, tag: &Vec<u8>) -> (r: (u64, bool))
        requires
            self.wf(),
        ensures
            r.0 == self.tag_key(tag@),
            r.1 == exists|k: int| 0 <= k < self.tag_names@.len() && self.tag_names@[k]@ == tag@,
    {
        let mut k: usize = 0;
        while k < self.tag_names.len()
            invariant
                self.wf(),
                k <= self.tag_names@.len(),
                forall|j: int| 0 <= j < k ==> self.tag_names@[j]@ != tag@,
            decreases self.tag_names@.len() - k,
        {
            if bytes_equal(&self.tag_names[k], tag) {
                proof {
                    let c = tag_slot(self.tag_names@, tag@);
                    assert(self.tag_names@[k as int]@ == tag@);
                    assert(c == k) by {
                        if c != k {
                            let a = if c < k { c } else { k as int };
                            let b = if c < k { k as int } else { c };
                            assert(self.tag_names@[a]@ != self.tag_names@[b]@);
                        }
                    }
                }
                return (k as u64, true);
            }
            k = k + 1;
        }
        (k as u64, false)
    }

    /// The error `add_campaign_tag` returns, or `None` when it succeeds.
    pub open spec fn add_tag_error(&self, campaign_id: u32, tag: Seq<u8>) -> Option<Error> {
        if !self.has_campaign(campaign_id) {
            Some(Error::CampaignNotFound)
        } else {
            let e = self.entry(campaign_id);
            if self.is_paused() {
                Some(Error::ContractPaused)
            } else if !is_open(e.campaign) {
                Some(Error::CampaignNotActive)
            } else if tag.len() < CAMPAIGN_TAG_MIN_LEN || tag.len() > CAMPAIGN_TAG_MAX_LEN {
                Some(Error::ValidationFailed)
            } else if e.tags@.len() >= MAX_TAGS_PER_CAMPAIGN {
                Some(Error::ValidationFailed)
            } else if has_tag(e, tag) {
                Some(Error::ValidationFailed)
            } else if !idx_can_append(self.tag_index, self.tag_key(tag), TAG_CAMPAIGNS_BUCKET_SIZE) {
                Some(Error::Overflow)
            } else {
                None
            }
        }
    }

    /// The creator adds `tag` to an open campaign and indexes the campaign
    /// under it. The tag must be 1 to `CAMPAIGN_TAG_MAX_LEN` bytes, new on
    /// the campaign (a second copy would list the campaign twice), and the
    /// campaign may carry at most `MAX_TAGS_PER_CAMPAIGN` tags.
    #[verifier::loop_isolation(false)]
    pub fn add_campaign_tag(&mut self, campaign_id: u32, tag: Vec<u8>) -> (r: Result<
        Vec<Effect>,
        Error,
    >)
        requires
            old(self).wf(),
        ensures
            final(self).wf(),
            match r {
                Ok(effects) => {
                    let e = old(self).entry(campaign_id);
                    let ne = final(self).entry(campaign_id);
                    let key = old(self).tag_key(tag@);
                    &&& old(self).add_tag_error(campaign_id, tag@) is None
                    &&& *final(self) == Platform {
                        entries: final(self).entries,
                        tag_names: final(self).tag_names,
                        tag_index: final(self).tag_index,
                        ..*old(self)
                    }
                    &&& final(self).entries@ == old(self).entries@.update(campaign_id - 1, ne)
                    &&& ne == CampaignEntry { tags: ne.tags, ..e }
                    &&& ne.tags@.drop_last() == e.tags@
                    &&& ne.tags@.len() == e.tags@.len() + 1
                    &&& ne.tags@.last()@ == tag@
                    &&& if key < old(self).tag_names@.len() {
                        final(self).tag_names == old(self).tag_names
                    } else {
                        &&& final(self).tag_names@.drop_last() == old(self).tag_names@
                        &&& final(self).tag_names@.len() == old(self).tag_names@.len() + 1
                        &&& final(self).tag_names@.last()@ == tag@
                    }
                    &&& table_appended(
                        old(self).tag_index,
                        final(self).tag_index,
                        key,
                        campaign_id,
                        TAG_CAMPAIGNS_BUCKET_SIZE,
                        false,
                    )
                    &&& effects@ == seq![
                        Effect::RequireAuth(e.campaign.creator),
                        Effect::Emit(Event::TagAdded { campaign_id, tag }),
                    ]
                },
                Err(err) => {
                    &&& old(self).add_tag_error(campaign_id, tag@) == Some(err)
                    &&& *final(self) == *old(self)
                },
            },
    {
        let i = self.campaign_position(campaign_id)?;
        self.require_not_paused()?;
        require_active_campaign(&self.entries[i].campaign)?;
        if tag.len() < CAMPAIGN_TAG_MIN_LEN || tag.len() > CAMPAIGN_TAG_MAX_LEN {
            return Err(Error::ValidationFailed);
        }
        if self.entries[i].tags.len() >= MAX_TAGS_PER_CAMPAIGN {
            return Err(Error::ValidationFailed);
        }
        let mut k: usize = 0;
        while k < self.entries[i].tags.len()
            invariant
                i < self.entries@.len(),
                k <= self.entries@[i as int].tags@.len(),
                forall|j: int| 0 <= j < k ==> self.entries@[i as int].tags@[j]@ != tag@,
            decreases self.entries@[i as int].tags@.len() - k,
        {
            if bytes_equal(&self.entries[i].tags[k], &tag) {
                return Err(Error::ValidationFailed);
            }
            k = k + 1;
        }
        let creator = self.entries[i].campaign.creator;
        let (key, known) = self.find_tag(&tag);
        if !can_append(&self.tag_index, key, TAG_CAMPAIGNS_BUCKET_SIZE) {
            return Err(Error::Overflow);
        }
        let ghost old_self = *self;
        if !known {
            self.tag_names.push(copy_bytes(&tag));
        }
        append_to_index(&mut self.tag_index, key, campaign_id, TAG_CAMPAIGNS_BUCKET_SIZE, false);
        self.entries[i].tags.push(copy_bytes(&tag));
        proof {
            let e = old_self.entries@[i as int];
            let ne = self.entries@[i as int];
            assert(ne.tags@.drop_last() =~= e.tags@);
            assert(e.wf());
            assert(self.entries@ =~= old_self.entries@.update(i as int, ne));
            assert forall|j: int| 0 <= j < self.entries@.len() implies #[trigger] self.entries@[j].wf()
                && self.entries@[j].campaign.id == j + 1 by {
                assert(old_self.entries@[j].wf());
                if j != i {
                    assert(self.entries@[j] == old_self.entries@[j]);
                }
            }
            assert(old_self.tag_names.len() == old_self.tag_names@.len());
            if known {
                let c = choose|c: int| 0 <= c < old_self.tag_names@.len() && old_self.tag_names@[c]@ == tag@;
                assert(key == c);
                assert(key < old_self.tag_names@.len());
            } else {
                assert(key == old_self.tag_names@.len());
            }
            if !known {
                assert(self.tag_names@.drop_last() =~= old_self.tag_names@);
                assert forall|a: int, b: int|
                    0 <= a < b < self.tag_names@.len() implies self.tag_names@[a]@
                    != self.tag_names@[b]@ by {
                    if b == old_self.tag_names@.len() {
                        assert(self.tag_names@[a] == old_self.tag_names@[a]);
                    } else {
                        assert(self.tag_names@[a] == old_self.tag_names@[a]);
                        assert(self.tag_names@[b] == old_self.tag_names@[b]);
                    }
                }
            }
            assert forall|kk: u64| #[trigger] self.tag_index@.contains_key(kk) implies kk
                < self.tag_names@.len() by {
                if kk != key {
                    assert(old_self.tag_index@.remove(key).contains_key(kk));
                }
            }
        }
        let mut effects: Vec<Effect> = Vec::new();
        effects.push(Effect::RequireAuth(creator));
        effects.push(Effect::Emit(Event::TagAdded { campaign_id, tag }));
        Ok(effects)
    }
}

} // verus!
