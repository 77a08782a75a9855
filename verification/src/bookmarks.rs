//! Wallet bookmarks: each wallet keeps an ordered list of the campaigns it
//! saved, readable by anyone.

use vstd::prelude::*;

use crate::constants::MAX_BOOKMARKS;
use crate::errors::Error;
use crate::index::first_index_of;
use crate::index::{copy_ids, first_pos, lemma_first_pos};
use crate::state::{Effect, Event, Platform};
use crate::types::AccountId;

verus! {

impl Platform {
    /// The campaigns `user` saved, in the order saved.
    pub open spec fn saved(&self, user: AccountId) -> Seq<u32> {
        if self.bookmarks@.contains_key(user as u64) {
            self.bookmarks@[user as u64]@
        } else {
            Seq::empty()
        }
    }

    /// The error `save_campaign` returns, or `None` when it succeeds.
    pub open spec fn save_campaign_error(&self, user: AccountId, campaign_id: u32) -> Option<Error> {
        if !self.has_campaign(campaign_id) {
            Some(Error::CampaignNotFound)
        } else if self.saved(user).contains(campaign_id) {
            Some(Error::CampaignAlreadyBookmarked)
        } else if self.saved(user).len() >= MAX_BOOKMARKS {
            Some(Error::BookmarkLimitReached)
        } else {
            None
        }
    }

    /// `user`'s bookmarks after a call that changed only them.
    pub open spec fn with_saved(&self, new: Platform, user: AccountId, saved: Seq<u32>) -> bool {
        &&& new == Platform { bookmarks: new.bookmarks, ..*self }
        &&& new.bookmarks@.dom() == self.bookmarks@.dom().insert(user as u64)
        &&& forall|k: u64|
            #![trigger new.bookmarks@[k]]
            self.bookmarks@.contains_key(k) && k != user as u64 ==> new.bookmarks@[k]
                == self.bookmarks@[k]
        &&& new.saved(user) == saved
    }
}

/// Adds campaign `campaign_id` to `user`'s saved list; the campaign must
/// exist and not be saved already, and the list must hold fewer than
/// `MAX_BOOKMARKS` campaigns.
pub fn save_campaign(platform: &mut Platform, user: AccountId, campaign_id: u32) -> (r: Result<
    Vec<Effect>,
    Error,
>)
    requires
        old(platform).wf(),
    ensures
        final(platform).wf(),
        match r {
            Ok(effects) => {
                &&& old(platform).save_campaign_error(user, campaign_id) is None
                &&& old(platform).with_saved(
                    *final(platform),
                    user,
                    old(platform).saved(user).push(campaign_id),
                )
                &&& effects@ == seq![
                    Effect::RequireAuth(user),
                    Effect::Emit(Event::CampaignBookmarked { user, campaign_id }),
                ]
            },
            Err(err) => {
                &&& old(platform).save_campaign_error(user, campaign_id) == Some(err)
                &&& *final(platform) == *old(platform)
            },
        },
{
    platform.campaign_position(campaign_id)?;
    let mut saved = match platform.bookmarks.get(user) {
        Some(v) => copy_ids(v),
        None => Vec::new(),
    };
    if first_index_of(&saved, campaign_id).is_some() {
        proof {
            lemma_first_pos(saved@, campaign_id);
        }
        return Err(Error::CampaignAlreadyBookmarked);
    }
    proof {
        lemma_first_pos(saved@, campaign_id);
    }
    if saved.len() >= MAX_BOOKMARKS {
        return Err(Error::BookmarkLimitReached);
    }
    saved.push(campaign_id);
    let ghost old_p = *platform;
    platform.bookmarks.insert(user, saved);
    proof {
        assert(platform.bookmarks@.dom() =~= old_p.bookmarks@.dom().insert(user as u64));
    }
    let mut effects: Vec<Effect> = Vec::new();
    effects.push(Effect::RequireAuth(user));
    effects.push(Effect::Emit(Event::CampaignBookmarked { user, campaign_id }));
    Ok(effects)
}

/// Removes campaign `campaign_id` from `user`'s saved list, keeping the
/// order of the others; `CampaignNotBookmarked` when it is not there.
pub fn remove_saved_campaign(platform: &mut Platform, user: AccountId, campaign_id: u32) -> (r:
    Result<Vec<Effect>, Error>)
    requires
        old(platform).wf(),
    ensures
        final(platform).wf(),
        r is Ok <==> old(platform).saved(user).contains(campaign_id),
        match r {
            Ok(effects) => {
                let s = old(platform).saved(user);
                &&& old(platform).with_saved(
                    *final(platform),
                    user,
                    s.remove(first_pos(s, campaign_id)),
                )
                &&& effects@ == seq![
                    Effect::RequireAuth(user),
                    Effect::Emit(Event::CampaignUnbookmarked { user, campaign_id }),
                ]
            },
            Err(err) => {
                &&& err == Error::CampaignNotBookmarked
                &&& *final(platform) == *old(platform)
            },
        },
{
    let mut saved = match platform.bookmarks.get(user) {
        Some(v) => copy_ids(v),
        None => Vec::new(),
    };
    proof {
        lemma_first_pos(saved@, campaign_id);
    }
    match first_index_of(&saved, campaign_id) {
        Some(idx) => {
            saved.remove(idx);
            let ghost old_p = *platform;
            platform.bookmarks.insert(user, saved);
            proof {
                assert(platform.bookmarks@.dom() =~= old_p.bookmarks@.dom().insert(user as u64));
            }
            let mut effects: Vec<Effect> = Vec::new();
            effects.push(Effect::RequireAuth(user));
            effects.push(Effect::Emit(Event::CampaignUnbookmarked { user, campaign_id }));
            Ok(effects)
        },
        None => Err(Error::CampaignNotBookmarked),
    }
}

/// The ids of `s` whose campaign is not cancelled, in order.
pub open spec fn live_ids(p: Platform, s: Seq<u32>) -> Seq<u32>
    decreases s.len(),
{
    if s.len() == 0 {
        Seq::empty()
    } else {
        let prev = live_ids(p, s.drop_last());
        let id = s.last();
        if p.has_campaign(id) && p.campaign(id).is_cancelled {
            prev
        } else {
            prev.push(id)
        }
    }
}

/// The campaigns `user` saved that are not cancelled, in the order saved:
/// a cancelled campaign will never run again, so it is left out. Anyone may
/// read it.
pub fn get_saved(platform: &Platform, user: AccountId) -> (r: Vec<u32>)
    requires
        platform.wf(),
    ensures
        r@ == live_ids(*platform, platform.saved(user)),
{
    let mut out: Vec<u32> = Vec::new();
    match platform.bookmarks.get(user) {
        Some(v) => {
            let mut i: usize = 0;
            while i < v.len()
                invariant
                    i <= v@.len(),
                    v@ == platform.saved(user),
                    out@ == live_ids(*platform, v@.take(i as int)),
                decreases v@.len() - i,
            {
                let id = v[i];
                proof {
                    assert(v@.take(i + 1).drop_last() =~= v@.take(i as int));
                    assert(v@.take(i + 1).last() == id);
                }
                let cancelled = id >= 1 && (id as usize) <= platform.entries.len()
                    && platform.entries[(id - 1) as usize].campaign.is_cancelled;
                if !cancelled {
                    out.push(id);
                }
                i = i + 1;
            }
            proof {
                assert(v@.take(v@.len() as int) =~= v@);
            }
        },
        None => {},
    }
    out
}

/// How many campaigns `get_saved` lists for `user`.
pub fn get_saved_count(platform: &Platform, user: AccountId) -> (r: usize)
    requires
        platform.wf(),
    ensures
        r == live_ids(*platform, platform.saved(user)).len(),
{
    get_saved(platform, user).len()
}

} // verus!
