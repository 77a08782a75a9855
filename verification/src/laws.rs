//! Properties that hold across calls: what a second call sees of a first
//! one, and what one operation undoes of another. Each is proved from the
//! contracts of the operations involved.

use vstd::prelude::*;

use crate::errors::Error;
use crate::index::{first_pos, lemma_first_pos};
use crate::state::{CampaignEntry, ContributorRecord, LedgerInfo, Platform};
use crate::tags::has_tag;
use crate::comments::is_censured;
use crate::types::{AccountId, Campaign};
use crate::voting::vote_cast;
use crate::milestones::{
    bps_sum, claimed_fees, claimed_totals, fee_total_of, first_milestone, is_claimed, milestones_valid,
};
use crate::types::Milestone;
use crate::constants::{
    BPS_DENOMINATOR, CAMPAIGN_DURATION_MAX_DAYS, CAMPAIGN_EXTENSION_MAX_DAYS, LIST_MAX_LIMIT,
    SECONDS_PER_DAY,
};
use crate::queries::page_end;
use crate::revenue::{creator_share_of, revenue_due, revenue_owed};
use crate::table::inserted_entries;
use crate::lifecycle::{state_of, CampaignState};
use crate::types::CreateCampaignParams;
use crate::index::idx_count;
use crate::state::category_slot;
use crate::state::Effect;
use crate::state::fits_i128;
use crate::contributions::{contribution_sum, contribution_total};
use crate::table::lemma_to_map;

verus! {

impl Platform {
    /// The two states hold the same values, campaign storage compared by
    /// content.
    pub open spec fn same_state(&self, other: Platform) -> bool {
        &&& other == Platform { entries: other.entries, ..*self }
        &&& other.entries@ == self.entries@
    }
}

/// Casting the same vote twice: the second call changes nothing and only
/// checks the voter's authorization, so no duplicate event is published.
pub proof fn lemma_repeated_vote_is_noop(
    p0: Platform,
    p1: Platform,
    p2: Platform,
    e1: Seq<Effect>,
    e2: Seq<Effect>,
    voter: AccountId,
    campaign_id: u64,
    approve: bool,
    t1: u64,
    t2: u64,
)
    requires
        vote_cast(p0, p1, e1, voter, campaign_id, approve, t1),
        vote_cast(p1, p2, e2, voter, campaign_id, approve, t2),
    ensures
        p2 == p1,
        e2 == seq![Effect::RequireAuth(voter)],
{
}

/// Saving a campaign and then removing it gives every wallet's saved list
/// back as it was.
pub proof fn lemma_save_then_remove_restores(
    p0: Platform,
    p1: Platform,
    p2: Platform,
    user: AccountId,
    campaign_id: u32,
    other: AccountId,
)
    requires
        p0.save_campaign_error(user, campaign_id) is None,
        p0.with_saved(p1, user, p0.saved(user).push(campaign_id)),
        p1.with_saved(
            p2,
            user,
            p1.saved(user).remove(first_pos(p1.saved(user), campaign_id)),
        ),
    ensures
        p2.saved(user) == p0.saved(user),
        p2.saved(other) == p0.saved(other),
{
    let s0 = p0.saved(user);
    let s1 = s0.push(campaign_id);
    lemma_first_pos(s1, campaign_id);
    assert(s1[s0.len() as int] == campaign_id);
    assert(first_pos(s1, campaign_id) == s0.len()) by {
        let k = first_pos(s1, campaign_id);
        if k < s0.len() {
            assert(s0[k] == s1[k]);
            assert(s0.contains(campaign_id));
        }
    }
    assert(s1.remove(s0.len() as int) =~= s0);
    if other as u64 != user as u64 {
        if p0.bookmarks@.contains_key(other as u64) {
            assert(p1.bookmarks@[other as u64] == p0.bookmarks@[other as u64]);
            assert(p2.bookmarks@[other as u64] == p1.bookmarks@[other as u64]);
        }
    }
}

/// A campaign a wallet saved cannot be saved by it again.
pub proof fn lemma_save_twice_refused(
    p0: Platform,
    p1: Platform,
    user: AccountId,
    campaign_id: u32,
)
    requires
        p0.save_campaign_error(user, campaign_id) is None,
        p0.with_saved(p1, user, p0.saved(user).push(campaign_id)),
    ensures
        p1.save_campaign_error(user, campaign_id) == Some(Error::CampaignAlreadyBookmarked),
{
    assert(p1.saved(user)[p0.saved(user).len() as int] == campaign_id);
}

/// A refund can be claimed only once: after a refund, a second claim by the
/// same contributor on the same campaign fails, whenever it is made.
pub proof fn lemma_refund_only_once(
    p0: Platform,
    p1: Platform,
    campaign_id: u32,
    contributor: AccountId,
    l1: LedgerInfo,
    l2: LedgerInfo,
)
    requires
        p0.wf(),
        p0.claim_refund_error(campaign_id, contributor, l1) is None,
        p0.refunded(p1, campaign_id, contributor),
    ensures
        p1.claim_refund_error(campaign_id, contributor, l2) is Some,
{
    assert(p1.entry(campaign_id).contributors@.contains_key(contributor as u64));
    assert(p1.entry(campaign_id).record(contributor).contribution == 0);
}

/// A contribution that went through leaves the contributor's lifetime total
/// within the campaign's per-contributor cap, when the campaign has one.
pub proof fn lemma_contribution_within_cap(
    p0: Platform,
    p1: Platform,
    campaign_id: u32,
    contributor: AccountId,
    amount: i128,
    ledger: LedgerInfo,
)
    requires
        p0.wf(),
        p0.contribute_error(campaign_id, contributor, amount, ledger) is None,
        p0.contributed(p1, campaign_id, contributor, amount, ledger),
    ensures
        p1.entry(campaign_id).record(contributor).lifetime == p0.entry(campaign_id).record(
            contributor,
        ).lifetime + amount,
        p1.campaign(campaign_id).max_contribution_per_user > 0 ==> p1.entry(campaign_id).record(
            contributor,
        ).lifetime <= p1.campaign(campaign_id).max_contribution_per_user,
{
    assert(p1.entry(campaign_id).contributors@.contains_key(contributor as u64));
}

/// A refund leaves the contributor's lifetime total and the campaign's cap
/// as they were, so refunding and contributing again cannot take a
/// contributor past the cap.
pub proof fn lemma_refund_keeps_lifetime(
    p0: Platform,
    p1: Platform,
    campaign_id: u32,
    contributor: AccountId,
    ledger: LedgerInfo,
)
    requires
        p0.wf(),
        p0.claim_refund_error(campaign_id, contributor, ledger) is None,
        p0.refunded(p1, campaign_id, contributor),
    ensures
        p1.entry(campaign_id).record(contributor).lifetime == p0.entry(campaign_id).record(
            contributor,
        ).lifetime,
        p1.campaign(campaign_id).max_contribution_per_user == p0.campaign(
            campaign_id,
        ).max_contribution_per_user,
{
    assert(p1.entry(campaign_id).contributors@.contains_key(contributor as u64));
}

/// Contributing and then taking the refund returns the platform's total and
/// the campaign's effective total to where they were before the
/// contributor's escrowed funds went in.
pub proof fn lemma_refund_undoes_contribution(
    p0: Platform,
    p1: Platform,
    p2: Platform,
    campaign_id: u32,
    contributor: AccountId,
    amount: i128,
    l1: LedgerInfo,
    l2: LedgerInfo,
)
    requires
        p0.wf(),
        p0.contribute_error(campaign_id, contributor, amount, l1) is None,
        p0.contributed(p1, campaign_id, contributor, amount, l1),
        p1.claim_refund_error(campaign_id, contributor, l2) is None,
        p1.refunded(p2, campaign_id, contributor),
    ensures
        p2.total_raised == p0.total_raised - p0.entry(campaign_id).record(contributor).contribution,
        p2.campaign(campaign_id).effective_amount_raised == p0.campaign(
            campaign_id,
        ).effective_amount_raised - p0.entry(campaign_id).record(contributor).contribution,
        p2.entry(campaign_id).record(contributor).contribution == 0,
{
    assert(p1.entry(campaign_id).contributors@.contains_key(contributor as u64));
    assert(p2.entry(campaign_id).contributors@.contains_key(contributor as u64));
}

/// Nominating a new creator and then withdrawing the nomination leaves the
/// platform as it was.
pub proof fn lemma_withdrawn_nomination_restores(
    p0: Platform,
    p1: Platform,
    p2: Platform,
    campaign_id: u32,
    new_creator: AccountId,
)
    requires
        p0.initiate_transfer_error(campaign_id, new_creator) is None,
        p0.with_entry(
            p1,
            campaign_id,
            (CampaignEntry {
                campaign: (Campaign { pending_creator: Some(new_creator), ..p0.campaign(campaign_id) }),
                ..p0.entry(campaign_id)
            }),
        ),
        p1.cancel_transfer_error(campaign_id) is None,
        p1.with_entry(
            p2,
            campaign_id,
            (CampaignEntry {
                campaign: (Campaign { pending_creator: None, ..p1.campaign(campaign_id) }),
                ..p1.entry(campaign_id)
            }),
        ),
    ensures
        p0.same_state(p2),
{
    let i = campaign_id - 1;
    assert(p2.entries@[i] == p0.entries@[i]);
    assert(p2.entries@ =~= p0.entries@);
}

/// Setting a personal cap and then removing it leaves the contributor's
/// record as it was before, with no cap.
pub proof fn lemma_personal_cap_set_then_removed(
    p0: Platform,
    p1: Platform,
    p2: Platform,
    campaign_id: u32,
    contributor: AccountId,
    amount: i128,
)
    requires
        p0.set_personal_cap_error(campaign_id, contributor, amount) is None,
        p0.cap_changed(p1, campaign_id, contributor, Some(amount)),
        p1.cap_changed(p2, campaign_id, contributor, None),
    ensures
        p2.entry(campaign_id).record(contributor) == (ContributorRecord {
            personal_cap: None,
            ..p0.entry(campaign_id).record(contributor)
        }),
        !p2.has_personal_cap(campaign_id, contributor),
{
    assert(p1.entry(campaign_id).contributors@.contains_key(contributor as u64));
    assert(p2.entry(campaign_id).contributors@.contains_key(contributor as u64));
}

/// A tag a campaign carries cannot be added to it again.
pub proof fn lemma_tag_twice_refused(p: Platform, campaign_id: u32, tag: Seq<u8>)
    requires
        p.has_campaign(campaign_id),
        has_tag(p.entry(campaign_id), tag),
    ensures
        p.add_tag_error(campaign_id, tag) is Some,
{
}

/// After a tag was added, the campaign carries it, so adding it again is
/// refused.
pub proof fn lemma_added_tag_is_carried(
    p0: Platform,
    p1: Platform,
    campaign_id: u32,
    tag: Seq<u8>,
)
    requires
        p0.add_tag_error(campaign_id, tag) is None,
        p1.entries@.len() == p0.entries@.len(),
        p1.entry(campaign_id).tags@.len() == p0.entry(campaign_id).tags@.len() + 1,
        p1.entry(campaign_id).tags@.last()@ == tag,
    ensures
        has_tag(p1.entry(campaign_id), tag),
        p1.add_tag_error(campaign_id, tag) is Some,
{
    let k = p1.entry(campaign_id).tags@.len() - 1;
    assert(p1.entry(campaign_id).tags@[k]@ == tag);
}

/// Lifting a censure right after placing it gives the campaign's censure
/// record back as it was.
pub proof fn lemma_censure_then_lift_restores(
    p0: Platform,
    p1: Platform,
    campaign_id: u32,
    hash: Seq<u8>,
    e2: CampaignEntry,
)
    requires
        p1.wf(),
        p1.has_campaign(campaign_id),
        !is_censured(p0.entry(campaign_id), hash),
        p1.entry(campaign_id).censures@.drop_last() == p0.entry(campaign_id).censures@,
        p1.entry(campaign_id).censures@.len() == p0.entry(campaign_id).censures@.len() + 1,
        p1.entry(campaign_id).censures@.last().0@ == hash,
        exists|k: int|
            0 <= k < p1.entry(campaign_id).censures@.len() && p1.entry(campaign_id).censures@[k].0@
                == hash && e2.censures@ == p1.entry(campaign_id).censures@.remove(k),
    ensures
        e2.censures@ == p0.entry(campaign_id).censures@,
        !is_censured(e2, hash),
{
    let s1 = p1.entry(campaign_id).censures@;
    let last = s1.len() - 1;
    let k = choose|k: int| 0 <= k < s1.len() && s1[k].0@ == hash && e2.censures@ == s1.remove(k);
    assert(p1.entries@[campaign_id - 1].wf());
    if k != last {
        assert(s1[k].0@ != s1[last].0@);
    }
    assert(s1.remove(last) =~= s1.drop_last());
}

/// A campaign's deadline can be extended only once: an extension marks the
/// campaign extended, and every extension of an extended campaign is
/// refused.
pub proof fn lemma_deadline_extends_once(
    p0: Platform,
    p1: Platform,
    campaign_id: u32,
    days: u64,
    ledger: LedgerInfo,
    days2: u64,
    ledger2: LedgerInfo,
)
    requires
        p0.extend_deadline_error(campaign_id, days, ledger) is None,
        p0.with_entry(
            p1,
            campaign_id,
            (CampaignEntry {
                campaign: (Campaign {
                    deadline: (p0.campaign(campaign_id).deadline + days * SECONDS_PER_DAY) as u64,
                    deadline_extended: true,
                    ..p0.campaign(campaign_id)
                }),
                ..p0.entry(campaign_id)
            }),
        ),
    ensures
        p1.campaign(campaign_id).deadline_extended,
        p1.extend_deadline_error(campaign_id, days2, ledger2) is Some,
{
    assert(p1.entries@.len() == p0.entries@.len());
}

/// The shares, in bps, of the milestones among `s` already paid out.
spec fn paid_bps(s: Seq<Milestone>, e: CampaignEntry) -> int
    decreases s.len(),
{
    if s.len() == 0 {
        0
    } else {
        paid_bps(s.drop_last(), e) + if is_claimed(e, s.last().id) {
            s.last().payout_bps as int
        } else {
            0
        }
    }
}

proof fn lemma_claimed_totals_bps(s: Seq<Milestone>, e: CampaignEntry, t: int)
    ensures
        claimed_totals(s, e, t) matches Some((b, a)) ==> b == paid_bps(s, e),
    decreases s.len(),
{
    if s.len() > 0 {
        lemma_claimed_totals_bps(s.drop_last(), e, t);
    }
}

proof fn lemma_all_paid(s: Seq<Milestone>, e: CampaignEntry)
    requires
        forall|i: int| 0 <= i < s.len() ==> is_claimed(e, (#[trigger] s[i]).id),
    ensures
        paid_bps(s, e) == bps_sum(s),
    decreases s.len(),
{
    if s.len() > 0 {
        let t = s.drop_last();
        assert forall|i: int| 0 <= i < t.len() implies is_claimed(e, (#[trigger] t[i]).id) by {
            assert(t[i] == s[i]);
        }
        lemma_all_paid(t, e);
        assert(is_claimed(e, s[s.len() - 1].id));
    }
}

/// With every milestone but the one at `k` paid, the paid shares are the
/// total less that one's share.
proof fn lemma_paid_all_but(s: Seq<Milestone>, e: CampaignEntry, k: int)
    requires
        0 <= k < s.len(),
        !is_claimed(e, s[k].id),
        forall|i: int, j: int| 0 <= i < j < s.len() ==> s[i].id != s[j].id,
        forall|i: int| 0 <= i < s.len() && (#[trigger] s[i]).id != s[k].id ==> is_claimed(e, s[i].id),
    ensures
        paid_bps(s, e) == bps_sum(s) - s[k].payout_bps,
    decreases s.len(),
{
    let t = s.drop_last();
    let last = s.len() - 1;
    if k == last {
        assert forall|i: int| 0 <= i < t.len() implies is_claimed(e, (#[trigger] t[i]).id) by {
            assert(t[i] == s[i]);
            assert(s[i].id != s[k].id);
        }
        lemma_all_paid(t, e);
    } else {
        assert(s[k].id != s[last].id);
        assert forall|i: int| 0 <= i < t.len() && (#[trigger] t[i]).id != t[k].id implies is_claimed(
            e,
            t[i].id,
        ) by {
            assert(t[i] == s[i]);
        }
        lemma_paid_all_but(t, e, k);
    }
}

/// The fee slices of the paid milestones never exceed their share of the
/// fee total.
proof fn lemma_claimed_fees_bound(s: Seq<Milestone>, e: CampaignEntry, f: int)
    requires
        f >= 0,
        forall|i: int| 0 <= i < s.len() ==> (#[trigger] s[i]).payout_bps >= 0,
    ensures
        claimed_fees(s, e, f) matches Some(c) ==> 0 <= c && c * 10_000 <= f * paid_bps(s, e),
    decreases s.len(),
{
    if s.len() > 0 {
        let t = s.drop_last();
        assert forall|i: int| 0 <= i < t.len() implies (#[trigger] t[i]).payout_bps >= 0 by {
            assert(t[i] == s[i]);
        }
        lemma_claimed_fees_bound(t, e, f);
        let m = s.last();
        if claimed_fees(s, e, f) is Some && is_claimed(e, m.id) {
            let b = m.payout_bps as int;
            let x = f * b;
            assert(f * b >= 0) by (nonlinear_arith)
                requires
                    f >= 0,
                    b >= 0,
            ;
            assert((x / 10_000) * 10_000 <= x && x / 10_000 >= 0) by (nonlinear_arith)
                requires
                    x >= 0,
            ;
            assert(f * paid_bps(s, e) == f * paid_bps(t, e) + x) by (nonlinear_arith)
                requires
                    paid_bps(s, e) == paid_bps(t, e) + b,
                    x == f * b,
            ;
        }
    }
}

/// When both entries count the same milestones of `s` as paid, the running
/// totals over `s` agree.
proof fn lemma_same_claims(s: Seq<Milestone>, e0: CampaignEntry, e1: CampaignEntry, t: int, f: int)
    requires
        forall|i: int| 0 <= i < s.len() ==> is_claimed(e0, (#[trigger] s[i]).id) == is_claimed(e1, s[i].id),
    ensures
        paid_bps(s, e1) == paid_bps(s, e0),
        claimed_totals(s, e1, t) == claimed_totals(s, e0, t),
        claimed_fees(s, e1, f) == claimed_fees(s, e0, f),
    decreases s.len(),
{
    if s.len() > 0 {
        let u = s.drop_last();
        assert forall|i: int| 0 <= i < u.len() implies is_claimed(e0, (#[trigger] u[i]).id) == is_claimed(
            e1,
            u[i].id,
        ) by {
            assert(u[i] == s[i]);
        }
        lemma_same_claims(u, e0, e1, t, f);
        assert(is_claimed(e0, s[s.len() - 1].id) == is_claimed(e1, s[s.len() - 1].id));
    }
}

/// The paid shares lie between nothing and all of the shares.
proof fn lemma_paid_bps_bound(s: Seq<Milestone>, e: CampaignEntry)
    requires
        forall|i: int| 0 <= i < s.len() ==> (#[trigger] s[i]).payout_bps >= 0,
    ensures
        0 <= paid_bps(s, e) <= bps_sum(s),
    decreases s.len(),
{
    if s.len() > 0 {
        let u = s.drop_last();
        assert forall|i: int| 0 <= i < u.len() implies (#[trigger] u[i]).payout_bps >= 0 by {
            assert(u[i] == s[i]);
        }
        lemma_paid_bps_bound(u, e);
        assert(s[s.len() - 1].payout_bps >= 0);
    }
}

/// Marking the milestone at `k` paid adds its share to the paid shares.
proof fn lemma_paid_bps_claim(s: Seq<Milestone>, e0: CampaignEntry, e1: CampaignEntry, k: int)
    requires
        0 <= k < s.len(),
        forall|i: int, j: int| 0 <= i < j < s.len() ==> s[i].id != s[j].id,
        !is_claimed(e0, s[k].id),
        e1.claimed_milestones@ == e0.claimed_milestones@.insert(s[k].id as u64, true),
    ensures
        paid_bps(s, e1) == paid_bps(s, e0) + s[k].payout_bps,
    decreases s.len(),
{
    let u = s.drop_last();
    let l = s.len() - 1;
    if k == l {
        assert forall|i: int| 0 <= i < u.len() implies is_claimed(e0, (#[trigger] u[i]).id) == is_claimed(
            e1,
            u[i].id,
        ) by {
            assert(u[i] == s[i]);
            assert(s[i].id != s[k].id);
        }
        lemma_same_claims(u, e0, e1, 0, 0);
    } else {
        assert(s[k].id != s[l].id);
        assert(u[k] == s[k]);
        assert forall|i: int, j: int| 0 <= i < j < u.len() implies u[i].id != u[j].id by {
            assert(u[i] == s[i] && u[j] == s[j]);
        }
        lemma_paid_bps_claim(u, e0, e1, k);
    }
}

/// The payouts of the paid milestones never exceed their share of the funds.
proof fn lemma_claimed_amount_bound(s: Seq<Milestone>, e: CampaignEntry, t: int)
    requires
        t >= 0,
        forall|i: int| 0 <= i < s.len() ==> (#[trigger] s[i]).payout_bps >= 0,
    ensures
        claimed_totals(s, e, t) matches Some((b, a)) ==> b == paid_bps(s, e) && 0 <= a && a * 10_000
            <= t * b,
    decreases s.len(),
{
    lemma_claimed_totals_bps(s, e, t);
    if s.len() > 0 {
        let u = s.drop_last();
        assert forall|i: int| 0 <= i < u.len() implies (#[trigger] u[i]).payout_bps >= 0 by {
            assert(u[i] == s[i]);
        }
        lemma_claimed_amount_bound(u, e, t);
        lemma_claimed_totals_bps(u, e, t);
        let m = s.last();
        if claimed_totals(s, e, t) is Some && is_claimed(e, m.id) {
            let b = m.payout_bps as int;
            let pb = paid_bps(u, e);
            let x = t * b;
            assert(x >= 0) by (nonlinear_arith)
                requires
                    x == t * b,
                    t >= 0,
                    b >= 0,
            ;
            assert((x / 10_000) * 10_000 <= x && x / 10_000 >= 0) by (nonlinear_arith)
                requires
                    x >= 0,
            ;
            assert(t * (pb + b) == t * pb + x) by (nonlinear_arith)
                requires
                    x == t * b,
            ;
        }
    }
}

/// The fee slices of the paid milestones always fit, when ten thousand times
/// the fee total does and no more than all the shares are paid.
proof fn lemma_claimed_fees_some(s: Seq<Milestone>, e: CampaignEntry, f: int)
    requires
        0 <= f,
        f * 10_000 <= i128::MAX,
        forall|i: int| 0 <= i < s.len() ==> 0 <= (#[trigger] s[i]).payout_bps <= 10_000,
        paid_bps(s, e) <= 10_000,
    ensures
        claimed_fees(s, e, f) is Some,
    decreases s.len(),
{
    if s.len() > 0 {
        let u = s.drop_last();
        assert forall|i: int| 0 <= i < u.len() implies 0 <= (#[trigger] u[i]).payout_bps <= 10_000 by {
            assert(u[i] == s[i]);
        }
        assert(s[s.len() - 1].payout_bps >= 0);
        lemma_claimed_fees_some(u, e, f);
        lemma_claimed_fees_bound(u, e, f);
        let m = s.last();
        if is_claimed(e, m.id) {
            let b = m.payout_bps as int;
            let c = claimed_fees(u, e, f)->0;
            let pb = paid_bps(u, e);
            let x = f * b;
            assert(0 <= x <= f * 10_000) by (nonlinear_arith)
                requires
                    x == f * b,
                    f >= 0,
                    0 <= b <= 10_000,
            ;
            assert((c + x / 10_000) * 10_000 <= f * 10_000) by (nonlinear_arith)
                requires
                    c * 10_000 <= f * pb,
                    pb + b <= 10_000,
                    x == f * b,
                    x >= 0,
                    f >= 0,
                    b >= 0,
            ;
            assert(c >= 0);
        }
    }
}

/// Paying the milestone at `k` adds its floor share of `t` to the running
/// payout total and its share to the paid shares.
proof fn lemma_claimed_totals_claim(s: Seq<Milestone>, e0: CampaignEntry, e1: CampaignEntry, t: int, k: int)
    requires
        0 <= k < s.len(),
        forall|i: int, j: int| 0 <= i < j < s.len() ==> s[i].id != s[j].id,
        !is_claimed(e0, s[k].id),
        e1.claimed_milestones@ == e0.claimed_milestones@.insert(s[k].id as u64, true),
        forall|i: int| 0 <= i < s.len() ==> (#[trigger] s[i]).payout_bps >= 0,
        bps_sum(s) <= 10_000,
        0 <= t <= i128::MAX,
        fits_i128(t * s[k].payout_bps),
        claimed_totals(s, e0, t) is Some,
    ensures
        claimed_totals(s, e1, t) == Some(
            (
                (claimed_totals(s, e0, t)->0).0 + s[k].payout_bps,
                (claimed_totals(s, e0, t)->0).1 + (t * s[k].payout_bps) / 10_000,
            ),
        ),
    decreases s.len(),
{
    let u = s.drop_last();
    let l = s.len() - 1;
    let bk = s[k].payout_bps as int;
    let sk = (t * bk) / 10_000;
    assert(t * bk >= 0 && sk * 10_000 <= t * bk && sk >= 0) by (nonlinear_arith)
        requires
            t >= 0,
            bk >= 0,
            sk == (t * bk) / 10_000,
    ;
    assert forall|i: int| 0 <= i < u.len() implies (#[trigger] u[i]).payout_bps >= 0 by {
        assert(u[i] == s[i]);
    }
    lemma_paid_bps_claim(s, e0, e1, k);
    lemma_paid_bps_bound(s, e1);
    lemma_claimed_amount_bound(s, e0, t);
    lemma_claimed_amount_bound(u, e0, t);
    if k == l {
        assert forall|i: int| 0 <= i < u.len() implies is_claimed(e0, (#[trigger] u[i]).id) == is_claimed(
            e1,
            u[i].id,
        ) by {
            assert(u[i] == s[i]);
            assert(s[i].id != s[k].id);
        }
        lemma_same_claims(u, e0, e1, t, 0);
        let (b0, a0) = claimed_totals(u, e0, t)->0;
        assert(b0 + bk <= 10_000);
        assert((a0 + sk) * 10_000 <= t * 10_000) by (nonlinear_arith)
            requires
                a0 * 10_000 <= t * b0,
                sk * 10_000 <= t * bk,
                b0 + bk <= 10_000,
                t >= 0,
        ;
    } else {
        assert(s[k].id != s[l].id);
        assert(u[k] == s[k]);
        assert forall|i: int, j: int| 0 <= i < j < u.len() implies u[i].id != u[j].id by {
            assert(u[i] == s[i] && u[j] == s[j]);
        }
        lemma_paid_bps_bound(u, e0);
        assert(bps_sum(u) <= bps_sum(s));
        lemma_claimed_totals_claim(u, e0, e1, t, k);
        let m = s.last();
        if is_claimed(e0, m.id) {
            let (b0, a0) = claimed_totals(u, e0, t)->0;
            let bl = m.payout_bps as int;
            let sl = (t * bl) / 10_000;
            let (b2, a2) = claimed_totals(s, e0, t)->0;
            assert(b2 == b0 + bl && a2 == a0 + sl);
            assert(b2 + bk <= 10_000);
            assert((a2 + sk) * 10_000 <= t * 10_000) by (nonlinear_arith)
                requires
                    a2 * 10_000 <= t * b2,
                    sk * 10_000 <= t * bk,
                    b2 + bk <= 10_000,
                    t >= 0,
            ;
        }
    }
}

/// Paying the milestone at `k` adds its floor slice of `f` to the running
/// fee total.
proof fn lemma_claimed_fees_claim(s: Seq<Milestone>, e0: CampaignEntry, e1: CampaignEntry, f: int, k: int)
    requires
        0 <= k < s.len(),
        forall|i: int, j: int| 0 <= i < j < s.len() ==> s[i].id != s[j].id,
        !is_claimed(e0, s[k].id),
        e1.claimed_milestones@ == e0.claimed_milestones@.insert(s[k].id as u64, true),
        forall|i: int| 0 <= i < s.len() ==> 0 <= (#[trigger] s[i]).payout_bps <= 10_000,
        bps_sum(s) <= 10_000,
        0 <= f,
        f * 10_000 <= i128::MAX,
    ensures
        claimed_fees(s, e0, f) is Some,
        claimed_fees(s, e1, f) == Some(claimed_fees(s, e0, f)->0 + (f * s[k].payout_bps) / 10_000),
    decreases s.len(),
{
    let u = s.drop_last();
    let l = s.len() - 1;
    assert forall|i: int| 0 <= i < u.len() implies 0 <= (#[trigger] u[i]).payout_bps <= 10_000 by {
        assert(u[i] == s[i]);
    }
    lemma_paid_bps_claim(s, e0, e1, k);
    lemma_paid_bps_bound(s, e1);
    lemma_paid_bps_bound(s, e0);
    lemma_claimed_fees_some(s, e0, f);
    lemma_claimed_fees_some(s, e1, f);
    let bk = s[k].payout_bps as int;
    assert(0 <= f * bk) by (nonlinear_arith)
        requires
            f >= 0,
            bk >= 0,
    ;
    if k == l {
        assert forall|i: int| 0 <= i < u.len() implies is_claimed(e0, (#[trigger] u[i]).id) == is_claimed(
            e1,
            u[i].id,
        ) by {
            assert(u[i] == s[i]);
            assert(s[i].id != s[k].id);
        }
        lemma_same_claims(u, e0, e1, 0, f);
    } else {
        assert(s[k].id != s[l].id);
        assert(u[k] == s[k]);
        assert forall|i: int, j: int| 0 <= i < j < u.len() implies u[i].id != u[j].id by {
            assert(u[i] == s[i] && u[j] == s[j]);
        }
        lemma_paid_bps_bound(u, e0);
        assert(s[l].payout_bps >= 0);
        assert(bps_sum(u) <= bps_sum(s));
        lemma_claimed_fees_claim(u, e0, e1, f, k);
    }
}

/// The last unpaid milestone pays what the earlier claims left: the
/// creator's payout completes the funds after the fee, and its fee slice
/// completes the fee total. So over all the claims of a campaign whose
/// funds are positive, the creator is paid the funds less the fee, the fee
/// is paid in full, and the funds leave the platform's total exactly.
pub proof fn lemma_last_milestone_takes_rest(p: Platform, campaign_id: u32, milestone_id: u32)
    requires
        p.has_campaign(campaign_id),
        p.campaign(campaign_id).amount_raised > 0,
        milestones_valid(p.entry(campaign_id).milestones@),
        p.others_claimed(campaign_id, milestone_id),
        p.claim_milestone_outcome(campaign_id, milestone_id) is Ok,
    ensures
        ({
            let e = p.entry(campaign_id);
            let raised = e.campaign.amount_raised as int;
            let fee_total = fee_total_of(raised, p.fee_rate(e.campaign) as int)->0;
            let after_fee = raised - fee_total;
            let amount = p.claim_milestone_outcome(campaign_id, milestone_id)->Ok_0.0;
            let fee = p.claim_milestone_outcome(campaign_id, milestone_id)->Ok_0.1;
            &&& claimed_totals(e.milestones@, e, after_fee) matches Some((_, paid)) && paid + amount
                == after_fee
            &&& claimed_fees(e.milestones@, e, fee_total) matches Some(paid_fees) && paid_fees
                + fee == fee_total
            &&& claimed_totals(e.milestones@, e, after_fee) matches Some((_, paid))
                && claimed_fees(e.milestones@, e, fee_total) matches Some(paid_fees) && paid
                + paid_fees + amount + fee == raised
        }),
{
    let e = p.entry(campaign_id);
    let ms = e.milestones@;
    let raised = e.campaign.amount_raised as int;
    let fee_total = fee_total_of(raised, p.fee_rate(e.campaign) as int)->0;
    let after_fee = raised - fee_total;
    let i0 = choose|i: int| 0 <= i < ms.len() && ms[i].id == milestone_id;
    assert forall|j: int| 0 <= j < i0 implies ms[j].id != milestone_id by {
        assert(ms[j].id != ms[i0].id);
    }
    let k = first_milestone(ms, milestone_id);
    assert(0 <= k < ms.len() && ms[k].id == milestone_id);
    assert forall|i: int| 0 <= i < ms.len() && (#[trigger] ms[i]).id != ms[k].id implies is_claimed(
        e,
        ms[i].id,
    ) by {
        assert(ms[i].id != milestone_id);
    }
    lemma_paid_all_but(ms, e, k);
    lemma_claimed_totals_bps(ms, e, after_fee);
    assert(bps_sum(ms) == BPS_DENOMINATOR);
    let rate = p.fee_rate(e.campaign) as int;
    assert(raised * rate >= 0) by (nonlinear_arith)
        requires
            raised > 0,
            rate >= 0,
    ;
    assert(fee_total >= 0);
    assert forall|i: int| 0 <= i < ms.len() implies (#[trigger] ms[i]).payout_bps >= 0 by {}
    lemma_claimed_fees_bound(ms, e, fee_total);
    let b = ms[k].payout_bps as int;
    let cf = claimed_fees(ms, e, fee_total)->0;
    let slice = (fee_total * b) / 10_000;
    assert(fee_total - cf >= slice) by (nonlinear_arith)
        requires
            cf * 10_000 <= fee_total * (10_000 - b),
            fee_total >= 0,
            0 <= b,
            slice == (fee_total * b) / 10_000,
    ;
}


/// A milestone left unpaid keeps its share out of the paid shares.
proof fn lemma_paid_bps_unclaimed(s: Seq<Milestone>, e: CampaignEntry, j: int)
    requires
        0 <= j < s.len(),
        !is_claimed(e, s[j].id),
        forall|i: int| 0 <= i < s.len() ==> (#[trigger] s[i]).payout_bps >= 0,
    ensures
        paid_bps(s, e) + s[j].payout_bps <= bps_sum(s),
    decreases s.len(),
{
    let u = s.drop_last();
    assert forall|i: int| 0 <= i < u.len() implies (#[trigger] u[i]).payout_bps >= 0 by {
        assert(u[i] == s[i]);
    }
    if j == s.len() - 1 {
        lemma_paid_bps_bound(u, e);
    } else {
        assert(u[j] == s[j]);
        lemma_paid_bps_unclaimed(u, e, j);
        assert(s[s.len() - 1].payout_bps >= 0);
    }
}

/// Two milestones left unpaid keep both their shares out of the paid
/// shares.
proof fn lemma_paid_bps_two_unclaimed(s: Seq<Milestone>, e: CampaignEntry, j: int, k: int)
    requires
        0 <= j < s.len(),
        0 <= k < s.len(),
        j != k,
        !is_claimed(e, s[j].id),
        !is_claimed(e, s[k].id),
        forall|i: int| 0 <= i < s.len() ==> (#[trigger] s[i]).payout_bps >= 0,
    ensures
        paid_bps(s, e) + s[j].payout_bps + s[k].payout_bps <= bps_sum(s),
    decreases s.len(),
{
    let u = s.drop_last();
    let l = s.len() - 1;
    assert forall|i: int| 0 <= i < u.len() implies (#[trigger] u[i]).payout_bps >= 0 by {
        assert(u[i] == s[i]);
    }
    if j == l {
        assert(u[k] == s[k]);
        lemma_paid_bps_unclaimed(u, e, k);
    } else if k == l {
        assert(u[j] == s[j]);
        lemma_paid_bps_unclaimed(u, e, j);
    } else {
        assert(u[j] == s[j] && u[k] == s[k]);
        lemma_paid_bps_two_unclaimed(u, e, j, k);
        assert(s[l].payout_bps >= 0);
    }
}

/// A milestone paid while others are still unpaid pays exactly its floor
/// share of the funds after the fee, and exactly its floor slice of the fee
/// total; both are added to what the campaign has paid out so far, and both
/// leave the platform's total. The campaign, its milestones and the fee
/// terms stay as they were, so the next claim works from the same funds.
/// Together with the last claim, which pays the rest, every campaign pays
/// its creator the funds less the fee, and the fee in full, in whatever
/// order its milestones are claimed.
pub proof fn lemma_milestone_claim_step(
    p0: Platform,
    p1: Platform,
    campaign_id: u32,
    milestone_id: u32,
)
    requires
        p0.has_campaign(campaign_id),
        p0.campaign(campaign_id).amount_raised > 0,
        milestones_valid(p0.entry(campaign_id).milestones@),
        !p0.others_claimed(campaign_id, milestone_id),
        p0.claim_milestone_outcome(campaign_id, milestone_id) is Ok,
        p0.milestone_paid(p1, campaign_id, milestone_id),
    ensures
        ({
            let e0 = p0.entry(campaign_id);
            let e1 = p1.entry(campaign_id);
            let ms = e0.milestones@;
            let b = ms[first_milestone(ms, milestone_id)].payout_bps as int;
            let raised = e0.campaign.amount_raised as int;
            let fee_total = fee_total_of(raised, p0.fee_rate(e0.campaign) as int)->0;
            let after_fee = raised - fee_total;
            let amount = p0.claim_milestone_outcome(campaign_id, milestone_id)->Ok_0.0;
            let fee = p0.claim_milestone_outcome(campaign_id, milestone_id)->Ok_0.1;
            &&& amount == (after_fee * b) / 10_000
            &&& fee == (fee_total * b) / 10_000
            &&& claimed_totals(ms, e0, after_fee) matches Some((paid_bps0, paid0))
                && claimed_totals(ms, e1, after_fee) == Some((paid_bps0 + b, paid0 + amount))
            &&& claimed_fees(ms, e0, fee_total) matches Some(paid_fees0) && claimed_fees(
                ms,
                e1,
                fee_total,
            ) == Some(paid_fees0 + fee)
            &&& p1.total_raised == p0.total_raised - amount - fee
            &&& e1.campaign == e0.campaign
            &&& e1.milestones == e0.milestones
            &&& p1.config == p0.config
        }),
{
    let e0 = p0.entry(campaign_id);
    let e1 = p1.entry(campaign_id);
    let ms = e0.milestones@;
    let i0 = choose|i: int| 0 <= i < ms.len() && ms[i].id == milestone_id;
    assert forall|j: int| 0 <= j < i0 implies ms[j].id != milestone_id by {
        assert(ms[j].id != ms[i0].id);
    }
    let k = first_milestone(ms, milestone_id);
    assert(0 <= k < ms.len() && ms[k].id == milestone_id);
    let m = ms[k];
    let b = m.payout_bps as int;
    let raised = e0.campaign.amount_raised as int;
    let rate = p0.fee_rate(e0.campaign) as int;
    let n = raised * rate;
    assert(n >= 0) by (nonlinear_arith)
        requires
            n == raised * rate,
            raised > 0,
            rate >= 0,
    ;
    let fee_total = fee_total_of(raised, rate)->0;
    assert(fee_total >= 0 && fee_total * 10_000 <= n + 9_999) by (nonlinear_arith)
        requires
            n >= 0,
            fee_total == (n + 9_999) / 10_000,
    ;
    let after_fee = raised - fee_total;
    lemma_claimed_totals_bps(ms, e0, after_fee);
    // Another milestone is still unpaid, so this one is not the last.
    let j = choose|i: int|
        0 <= i < ms.len() && (#[trigger] ms[i]).id != milestone_id && !is_claimed(e0, ms[i].id);
    assert forall|i: int| 0 <= i < ms.len() implies (#[trigger] ms[i]).payout_bps >= 0 by {}
    lemma_paid_bps_two_unclaimed(ms, e0, j, k);
    assert(ms[j].payout_bps > 0);
    let amount = p0.claim_milestone_outcome(campaign_id, milestone_id)->Ok_0.0;
    let x = after_fee * b;
    assert(after_fee > 0) by (nonlinear_arith)
        requires
            x == after_fee * b,
            b > 0,
            x / 10_000 > 0,
    ;
    assert(p1.entries@[campaign_id - 1] == e1);
    lemma_claimed_totals_claim(ms, e0, e1, after_fee, k);
    lemma_claimed_fees_claim(ms, e0, e1, fee_total, k);
}

/// A creator who claimed their revenue share holds exactly that share, so
/// claiming again before more revenue is deposited pays nothing.
pub proof fn lemma_creator_revenue_claimed_once(p0: Platform, p1: Platform, campaign_id: u32)
    requires
        p0.claim_creator_revenue_outcome(campaign_id) is Ok,
        p0.with_entry(p1, campaign_id, p1.entry(campaign_id)),
        p1.entry(campaign_id) == (CampaignEntry {
            creator_revenue_claimed: (p0.entry(campaign_id).creator_revenue_claimed
                + p0.claim_creator_revenue_outcome(campaign_id)->Ok_0) as i128,
            ..p0.entry(campaign_id)
        }),
    ensures
        p1.entry(campaign_id).creator_revenue_claimed == creator_share_of(
            p0.entry(campaign_id).revenue_pool as int,
            p0.campaign(campaign_id).revenue_share_percentage,
        )->0,
        p1.claim_creator_revenue_outcome(campaign_id) == Err::<i128, Error>(Error::NoFundsToWithdraw),
{
    let e = p0.entry(campaign_id);
    assert(p1.entries@.len() == p0.entries@.len());
    assert(p1.has_campaign(campaign_id));
    assert(p1.campaign(campaign_id) == e.campaign);
    assert(p1.entry(campaign_id).revenue_pool == e.revenue_pool);
    assert(p1.is_paused() == p0.is_paused());
}

/// A contributor who claimed revenue cannot claim again before more
/// revenue is deposited.
pub proof fn lemma_contributor_revenue_claimed_once(
    p0: Platform,
    p1: Platform,
    campaign_id: u32,
    contributor: AccountId,
)
    requires
        p0.entry(campaign_id).record(contributor).revenue_claimed >= 0,
        p0.claim_revenue_outcome(campaign_id, contributor) is Ok,
        p0.revenue_paid(p1, campaign_id, contributor),
    ensures
        p1.claim_revenue_outcome(campaign_id, contributor) == Err::<i128, Error>(
            Error::NoFundsToWithdraw,
        ),
{
    assert(p1.entry(campaign_id).contributors@.contains_key(contributor as u64));
}

/// Paging `list_campaigns` with a limit of at most `LIST_MAX_LIMIT`: a page
/// shorter than the limit is the last one, and the next page starts right
/// after the last id of this one.
pub proof fn lemma_short_page_is_last(total: u32, start: u32, limit: u32)
    requires
        0 < limit <= LIST_MAX_LIMIT,
        page_end(total, start, limit) - start < limit,
    ensures
        page_end(total, start, limit) >= total || start >= total,
        page_end(total, page_end(total, start, limit) as u32, limit) == page_end(
            total,
            start,
            limit,
        ),
{
}

/// A campaign just created reads back as created: it exists under the
/// returned id with the creator, texts and goal it was given, it is open and
/// unverified, it is counted in its category's index, and no other campaign
/// changed.
pub proof fn lemma_created_campaign_reads_back(
    p0: Platform,
    p1: Platform,
    params: CreateCampaignParams,
    token: Option<AccountId>,
    ledger: LedgerInfo,
    id: u32,
    effects: Vec<Effect>,
    other: u32,
)
    requires
        p0.wf(),
        p0.create_outcome(p1, params, token, ledger, Ok((id, effects))),
    ensures
        p1.has_campaign(id),
        !p0.has_campaign(id),
        p1.campaign(id).creator == params.creator,
        p1.campaign(id).title@ == params.title@,
        p1.campaign(id).description@ == params.description@,
        p1.campaign(id).funding_goal == params.funding_goal,
        p1.campaign(id).category == params.category,
        state_of(p1.campaign(id)) == CampaignState::Active,
        idx_count(p1.category_index, category_slot(params.category)) == idx_count(
            p0.category_index,
            category_slot(params.category),
        ) + 1,
        p0.has_campaign(other) ==> p1.has_campaign(other) && p1.entry(other) == p0.entry(other),
{
    let n = p0.entries@.len();
    if p0.has_campaign(other) {
        assert(p1.entries@.subrange(0, n as int)[other - 1] == p1.entries@[other - 1]);
    }
}


/// No contributor's lifetime total exceeds the per-contributor cap of a
/// campaign that has one.
pub open spec fn lifetimes_within_caps(p: Platform) -> bool {
    forall|i: int, k: u64|
        #![trigger p.entries@[i].contributors@[k]]
        0 <= i < p.entries@.len() && p.entries@[i].contributors@.contains_key(k)
            && p.entries@[i].campaign.max_contribution_per_user > 0
            ==> p.entries@[i].contributors@[k].lifetime
            <= p.entries@[i].campaign.max_contribution_per_user
}

/// Contributions keep every lifetime total within its campaign's cap.
pub proof fn lemma_contribution_keeps_caps(
    p0: Platform,
    p1: Platform,
    campaign_id: u32,
    contributor: AccountId,
    amount: i128,
    ledger: LedgerInfo,
)
    requires
        p0.wf(),
        lifetimes_within_caps(p0),
        p0.contribute_error(campaign_id, contributor, amount, ledger) is None,
        p0.contributed(p1, campaign_id, contributor, amount, ledger),
    ensures
        lifetimes_within_caps(p1),
{
    let j = campaign_id - 1;
    assert forall|i: int, k: u64|
        0 <= i < p1.entries@.len() && p1.entries@[i].contributors@.contains_key(k)
            && p1.entries@[i].campaign.max_contribution_per_user > 0 implies
        #[trigger] p1.entries@[i].contributors@[k].lifetime
            <= p1.entries@[i].campaign.max_contribution_per_user by {
        if i != j {
            assert(p1.entries@[i] == p0.entries@[i]);
        } else if k != contributor as u64 {
            assert(p0.entries@[i].contributors@.contains_key(k));
            assert(p1.entries@[i].contributors@[k] == p0.entries@[i].contributors@[k]);
        }
    }
}

/// Refunds keep every lifetime total within its campaign's cap.
pub proof fn lemma_refund_keeps_caps(
    p0: Platform,
    p1: Platform,
    campaign_id: u32,
    contributor: AccountId,
    ledger: LedgerInfo,
)
    requires
        p0.wf(),
        lifetimes_within_caps(p0),
        p0.claim_refund_error(campaign_id, contributor, ledger) is None,
        p0.refunded(p1, campaign_id, contributor),
    ensures
        lifetimes_within_caps(p1),
{
    let j = campaign_id - 1;
    assert forall|i: int, k: u64|
        0 <= i < p1.entries@.len() && p1.entries@[i].contributors@.contains_key(k)
            && p1.entries@[i].campaign.max_contribution_per_user > 0 implies
        #[trigger] p1.entries@[i].contributors@[k].lifetime
            <= p1.entries@[i].campaign.max_contribution_per_user by {
        if i != j {
            assert(p1.entries@[i] == p0.entries@[i]);
        } else if k != contributor as u64 {
            assert(p0.entries@[i].contributors@.contains_key(k));
            assert(p1.entries@[i].contributors@[k] == p0.entries@[i].contributors@[k]);
        } else if p0.entries@[i].contributors@.contains_key(k) {
            assert(p0.entries@[i].contributors@[k].lifetime <= p0.entries@[i].campaign.max_contribution_per_user);
        }
    }
}


/// A new campaign has no contributors, so creating one keeps every lifetime
/// total within its campaign's cap.
pub proof fn lemma_creation_keeps_caps(
    p0: Platform,
    p1: Platform,
    params: CreateCampaignParams,
    token: Option<AccountId>,
    ledger: LedgerInfo,
    id: u32,
    effects: Vec<Effect>,
)
    requires
        lifetimes_within_caps(p0),
        p0.create_outcome(p1, params, token, ledger, Ok((id, effects))),
    ensures
        lifetimes_within_caps(p1),
{
    let n = p0.entries@.len() as int;
    assert forall|i: int, k: u64|
        0 <= i < p1.entries@.len() && p1.entries@[i].contributors@.contains_key(k)
            && p1.entries@[i].campaign.max_contribution_per_user > 0 implies
        #[trigger] p1.entries@[i].contributors@[k].lifetime
            <= p1.entries@[i].campaign.max_contribution_per_user by {
        if i < n {
            assert(p1.entries@.subrange(0, n)[i] == p1.entries@[i]);
        }
    }
}


/// No campaign runs longer than a year: its deadline is at most
/// `CAMPAIGN_EXTENSION_MAX_DAYS` days after its start.
pub open spec fn within_a_year(p: Platform) -> bool {
    forall|i: int|
        0 <= i < p.entries@.len() ==> #[trigger] p.entries@[i].campaign.deadline
            <= p.entries@[i].start_time + CAMPAIGN_EXTENSION_MAX_DAYS * SECONDS_PER_DAY
}

/// A new campaign's duration is within its category's cap, which is at most
/// a year, so creation keeps every campaign within a year.
pub proof fn lemma_creation_keeps_year_cap(
    p0: Platform,
    p1: Platform,
    params: CreateCampaignParams,
    token: Option<AccountId>,
    ledger: LedgerInfo,
    id: u32,
    effects: Vec<Effect>,
)
    requires
        p0.wf(),
        within_a_year(p0),
        p0.create_outcome(p1, params, token, ledger, Ok((id, effects))),
    ensures
        within_a_year(p1),
{
    let n = p0.entries@.len() as int;
    let slot = category_slot(params.category) as int;
    assert(p0.config.duration_caps[slot] is Some ==> p0.config.duration_caps[slot]->0
        <= CAMPAIGN_DURATION_MAX_DAYS);
    assert forall|i: int| 0 <= i < p1.entries@.len() implies #[trigger] p1.entries@[i].campaign.deadline
        <= p1.entries@[i].start_time + CAMPAIGN_EXTENSION_MAX_DAYS * SECONDS_PER_DAY by {
        if i < n {
            assert(p1.entries@.subrange(0, n)[i] == p1.entries@[i]);
        }
    }
}

/// An extension is refused past a year from the start, so extending keeps
/// every campaign within a year.
pub proof fn lemma_extension_keeps_year_cap(
    p0: Platform,
    p1: Platform,
    campaign_id: u32,
    days: u64,
    ledger: LedgerInfo,
)
    requires
        within_a_year(p0),
        p0.extend_deadline_error(campaign_id, days, ledger) is None,
        p0.with_entry(
            p1,
            campaign_id,
            (CampaignEntry {
                campaign: (Campaign {
                    deadline: (p0.campaign(campaign_id).deadline + days * SECONDS_PER_DAY) as u64,
                    deadline_extended: true,
                    ..p0.campaign(campaign_id)
                }),
                ..p0.entry(campaign_id)
            }),
        ),
    ensures
        within_a_year(p1),
{
    let j = campaign_id - 1;
    assert forall|i: int| 0 <= i < p1.entries@.len() implies #[trigger] p1.entries@[i].campaign.deadline
        <= p1.entries@[i].start_time + CAMPAIGN_EXTENSION_MAX_DAYS * SECONDS_PER_DAY by {
        if i != j {
            assert(p1.entries@[i] == p0.entries@[i]);
        }
    }
}


/// The escrowed contributions recorded for each campaign add up to its
/// effective total.
pub open spec fn contributions_match(p: Platform) -> bool {
    forall|i: int|
        0 <= i < p.entries@.len() ==> contribution_total(#[trigger] p.entries@[i].contributors)
            == p.entries@[i].campaign.effective_amount_raised
}

/// A contribution adds its amount both to the contributor's escrowed funds
/// and to the campaign's effective total, so they keep adding up.
pub proof fn lemma_contribution_keeps_sum(
    p0: Platform,
    p1: Platform,
    campaign_id: u32,
    contributor: AccountId,
    amount: i128,
    ledger: LedgerInfo,
)
    requires
        p0.wf(),
        contributions_match(p0),
        p0.contribute_error(campaign_id, contributor, amount, ledger) is None,
        p0.contributed(p1, campaign_id, contributor, amount, ledger),
    ensures
        contributions_match(p1),
{
    let j = campaign_id - 1;
    assert forall|i: int| 0 <= i < p1.entries@.len() implies contribution_total(
        #[trigger] p1.entries@[i].contributors,
    ) == p1.entries@[i].campaign.effective_amount_raised by {
        if i != j {
            assert(p1.entries@[i] == p0.entries@[i]);
        } else {
            assert(contribution_total(p0.entries@[i].contributors)
                == p0.entries@[i].campaign.effective_amount_raised);
        }
    }
}

/// A refund takes the contributor's escrowed funds out of both the records
/// and the campaign's effective total, so they keep adding up.
pub proof fn lemma_refund_keeps_sum(
    p0: Platform,
    p1: Platform,
    campaign_id: u32,
    contributor: AccountId,
    ledger: LedgerInfo,
)
    requires
        p0.wf(),
        contributions_match(p0),
        p0.claim_refund_error(campaign_id, contributor, ledger) is None,
        p0.refunded(p1, campaign_id, contributor),
    ensures
        contributions_match(p1),
{
    let j = campaign_id - 1;
    assert forall|i: int| 0 <= i < p1.entries@.len() implies contribution_total(
        #[trigger] p1.entries@[i].contributors,
    ) == p1.entries@[i].campaign.effective_amount_raised by {
        if i != j {
            assert(p1.entries@[i] == p0.entries@[i]);
        } else {
            assert(contribution_total(p0.entries@[i].contributors)
                == p0.entries@[i].campaign.effective_amount_raised);
        }
    }
}

/// Setting or removing a personal cap leaves the escrowed contributions and
/// the effective total as they were, so they keep adding up.
pub proof fn lemma_personal_cap_keeps_sum(
    p0: Platform,
    p1: Platform,
    campaign_id: u32,
    contributor: AccountId,
    cap: Option<i128>,
)
    requires
        p0.has_campaign(campaign_id),
        contributions_match(p0),
        p0.cap_changed(p1, campaign_id, contributor, cap),
    ensures
        contributions_match(p1),
{
    let j = campaign_id - 1;
    assert forall|i: int| 0 <= i < p1.entries@.len() implies contribution_total(
        #[trigger] p1.entries@[i].contributors,
    ) == p1.entries@[i].campaign.effective_amount_raised by {
        if i != j {
            assert(p1.entries@[i] == p0.entries@[i]);
        } else {
            assert(contribution_total(p0.entries@[i].contributors)
                == p0.entries@[i].campaign.effective_amount_raised);
        }
    }
}

/// A revenue claim changes only what the contributor was paid, so the
/// escrowed contributions keep adding up to the effective total.
pub proof fn lemma_revenue_claim_keeps_sum(
    p0: Platform,
    p1: Platform,
    campaign_id: u32,
    contributor: AccountId,
)
    requires
        p0.wf(),
        contributions_match(p0),
        p0.claim_revenue_outcome(campaign_id, contributor) is Ok,
        p0.revenue_paid(p1, campaign_id, contributor),
    ensures
        contributions_match(p1),
{
    let j = campaign_id - 1;
    let e0 = p0.entry(campaign_id);
    let rec = e0.record(contributor);
    let amount = p0.claim_revenue_outcome(campaign_id, contributor)->Ok_0;
    assert(e0.wf());
    crate::contributions::lemma_contribution_total_insert(
        e0.contributors,
        contributor as u64,
        ContributorRecord { revenue_claimed: (rec.revenue_claimed + amount) as i128, ..rec },
    );
    assert forall|i: int| 0 <= i < p1.entries@.len() implies contribution_total(
        #[trigger] p1.entries@[i].contributors,
    ) == p1.entries@[i].campaign.effective_amount_raised by {
        if i != j {
            assert(p1.entries@[i] == p0.entries@[i]);
        } else {
            assert(contribution_total(p0.entries@[i].contributors)
                == p0.entries@[i].campaign.effective_amount_raised);
        }
    }
}

/// A new campaign has no contributors and an effective total of zero, so
/// creating one keeps the contributions adding up.
pub proof fn lemma_creation_keeps_sum(
    p0: Platform,
    p1: Platform,
    params: CreateCampaignParams,
    token: Option<AccountId>,
    ledger: LedgerInfo,
    id: u32,
    effects: Vec<Effect>,
)
    requires
        p1.wf(),
        contributions_match(p0),
        p0.create_outcome(p1, params, token, ledger, Ok((id, effects))),
    ensures
        contributions_match(p1),
{
    let n = p0.entries@.len() as int;
    assert forall|i: int| 0 <= i < p1.entries@.len() implies contribution_total(
        #[trigger] p1.entries@[i].contributors,
    ) == p1.entries@[i].campaign.effective_amount_raised by {
        if i < n {
            assert(p1.entries@.subrange(0, n)[i] == p1.entries@[i]);
        } else {
            let t = p1.entries@[i].contributors;
            assert(p1.entries@[i].wf());
            lemma_to_map(t.entries@);
            if t.entries@.len() > 0 {
                assert(t@.contains_key(t.entries@[0].0));
            }
        }
    }
}


/// A sum over a campaign's contributor records of one value of each.
pub open spec fn record_sum(s: Seq<(u64, ContributorRecord)>, f: spec_fn(ContributorRecord) -> int) -> int
    decreases s.len(),
{
    if s.len() == 0 {
        0
    } else {
        record_sum(s.drop_last(), f) + f(s.last().1)
    }
}

/// Replacing one record changes a record sum by the difference of the two.
pub(crate) proof fn lemma_record_sum_update(
    s: Seq<(u64, ContributorRecord)>,
    f: spec_fn(ContributorRecord) -> int,
    i: int,
    x: (u64, ContributorRecord),
)
    requires
        0 <= i < s.len(),
    ensures
        record_sum(s.update(i, x), f) == record_sum(s, f) - f(s[i].1) + f(x.1),
    decreases s.len(),
{
    let u = s.update(i, x);
    if i < s.len() - 1 {
        assert(u.drop_last() =~= s.drop_last().update(i, x));
        lemma_record_sum_update(s.drop_last(), f, i, x);
    } else {
        assert(u.drop_last() =~= s.drop_last());
    }
}

/// A record sum is at most another one that is at least as large record by
/// record.
proof fn lemma_record_sum_le(
    s: Seq<(u64, ContributorRecord)>,
    f: spec_fn(ContributorRecord) -> int,
    g: spec_fn(ContributorRecord) -> int,
)
    requires
        forall|i: int| 0 <= i < s.len() ==> f((#[trigger] s[i]).1) <= g(s[i].1),
    ensures
        record_sum(s, f) <= record_sum(s, g),
    decreases s.len(),
{
    if s.len() > 0 {
        let u = s.drop_last();
        assert forall|i: int| 0 <= i < u.len() implies f((#[trigger] u[i]).1) <= g(u[i].1) by {
            assert(u[i] == s[i]);
        }
        lemma_record_sum_le(u, f, g);
        assert(f(s[s.len() - 1].1) <= g(s[s.len() - 1].1));
    }
}

/// What each record is owed out of `pool`.
pub open spec fn owed_fn(c: Campaign, pool: int) -> spec_fn(ContributorRecord) -> int {
    |r: ContributorRecord| revenue_owed(c, pool, r.contribution as int)
}

/// The revenue already paid to each record.
pub open spec fn claimed_fn() -> spec_fn(ContributorRecord) -> int {
    |r: ContributorRecord| r.revenue_claimed as int
}

/// The revenue accounting of a campaign before any claim has swept the
/// rounding dust: the escrowed contributions add up to the effective total,
/// the payouts recorded per contributor add up to the distributed total,
/// and no contributor has been paid more than they are owed out of the
/// current pool.
pub open spec fn revenue_unswept(e: CampaignEntry) -> bool {
    let s = e.contributors.entries@;
    let c = e.campaign;
    &&& 0 <= e.revenue_pool
    &&& c.revenue_share_percentage <= 10_000
    &&& contribution_total(e.contributors) == c.effective_amount_raised
    &&& record_sum(s, claimed_fn()) == e.revenue_distributed
    &&& forall|i: int|
        0 <= i < s.len() ==> 0 <= (#[trigger] s[i]).1.contribution && 0 <= s[i].1.revenue_claimed
            <= revenue_owed(c, e.revenue_pool as int, s[i].1.contribution as int)
}

/// Ten thousand times what the records are owed is at most the
/// contributors' share of the pool, scaled by their contributions.
proof fn lemma_owed_sum(s: Seq<(u64, ContributorRecord)>, c: Campaign, pool: int)
    requires
        0 <= pool,
        c.effective_amount_raised > 0,
        forall|i: int| 0 <= i < s.len() ==> 0 <= (#[trigger] s[i]).1.contribution,
    ensures
        record_sum(s, owed_fn(c, pool)) * 10_000 * c.effective_amount_raised <= pool
            * c.revenue_share_percentage * contribution_sum(s),
        0 <= contribution_sum(s),
    decreases s.len(),
{
    if s.len() > 0 {
        let u = s.drop_last();
        assert forall|i: int| 0 <= i < u.len() implies 0 <= (#[trigger] u[i]).1.contribution by {
            assert(u[i] == s[i]);
        }
        lemma_owed_sum(u, c, pool);
        let r = s[s.len() - 1].1;
        let ci = r.contribution as int;
        let sh = c.revenue_share_percentage as int;
        let e = c.effective_amount_raised as int;
        let x = ci * pool * sh;
        let o = revenue_owed(c, pool, ci);
        assert(o == (x / e) / 10_000);
        assert(o * 10_000 * e <= x && o >= 0) by (nonlinear_arith)
            requires
                o == (x / e) / 10_000,
                x == ci * pool * sh,
                ci >= 0,
                pool >= 0,
                sh >= 0,
                e > 0,
        ;
        let a = record_sum(u, owed_fn(c, pool));
        let cs = contribution_sum(u);
        assert(owed_fn(c, pool)(r) == o);
        assert((a + o) * 10_000 * e <= pool * sh * (cs + ci)) by (nonlinear_arith)
            requires
                a * 10_000 * e <= pool * sh * cs,
                o * 10_000 * e <= x,
                x == ci * pool * sh,
        ;
        assert(s.last() == s[s.len() - 1]);
        assert(record_sum(s, owed_fn(c, pool)) == a + o);
        assert(contribution_sum(s) == cs + ci);
        assert(record_sum(s, owed_fn(c, pool)) * 10_000 * e <= pool * sh * contribution_sum(s));
    } else {
        let a = record_sum(s, owed_fn(c, pool));
        let cs = contribution_sum(s);
        let e = c.effective_amount_raised as int;
        let sh = c.revenue_share_percentage as int;
        assert(a == 0 && cs == 0);
        assert(a * 10_000 * e <= pool * sh * cs) by (nonlinear_arith)
            requires
                a == 0,
                cs == 0,
        ;
    }
}

/// Before the sweep, the revenue paid out to contributors is never more
/// than the contributors' part of the pool: ten thousand times it is at
/// most the pool times their share in bps, and it is at most the pool less
/// the creator's entitlement.
pub proof fn lemma_unswept_within_pool(e: CampaignEntry)
    requires
        revenue_unswept(e),
    ensures
        0 <= e.revenue_distributed,
        e.revenue_distributed * 10_000 <= e.revenue_pool * e.campaign.revenue_share_percentage,
        creator_share_of(e.revenue_pool as int, e.campaign.revenue_share_percentage) matches Some(cs)
            ==> e.revenue_distributed <= e.revenue_pool - cs,
{
    let s = e.contributors.entries@;
    let c = e.campaign;
    let pool = e.revenue_pool as int;
    let sh = c.revenue_share_percentage as int;
    let zero = |r: ContributorRecord| 0int;
    assert forall|i: int| 0 <= i < s.len() implies zero((#[trigger] s[i]).1) <= claimed_fn()(s[i].1) by {}
    lemma_record_sum_le(s, zero, claimed_fn());
    lemma_zero_sum(s);
    assert forall|i: int| 0 <= i < s.len() implies claimed_fn()((#[trigger] s[i]).1) <= owed_fn(c, pool)(
        s[i].1,
    ) by {}
    lemma_record_sum_le(s, claimed_fn(), owed_fn(c, pool));
    let d = e.revenue_distributed as int;
    if c.effective_amount_raised > 0 {
        lemma_owed_sum(s, c, pool);
        let o = record_sum(s, owed_fn(c, pool));
        let ee = c.effective_amount_raised as int;
        assert(o * 10_000 <= pool * sh) by (nonlinear_arith)
            requires
                o * 10_000 * ee <= pool * sh * ee,
                ee > 0,
        ;
    } else {
        lemma_zero_sum(s);
        assert forall|i: int| 0 <= i < s.len() implies owed_fn(c, pool)((#[trigger] s[i]).1) <= zero(
            s[i].1,
        ) by {}
        lemma_record_sum_le(s, owed_fn(c, pool), zero);
        assert(pool * sh >= 0) by (nonlinear_arith)
            requires
                pool >= 0,
                sh >= 0,
        ;
    }
    if creator_share_of(pool, c.revenue_share_percentage) is Some {
        let cs = creator_share_of(pool, c.revenue_share_percentage)->0;
        let y = pool * (10_000 - sh);
        assert(y >= 0) by (nonlinear_arith)
            requires
                y == pool * (10_000 - sh),
                pool >= 0,
                sh <= 10_000,
        ;
        assert(cs == y / 10_000);
        assert(d <= pool - cs) by (nonlinear_arith)
            requires
                d * 10_000 <= pool * sh,
                cs == y / 10_000,
                y == pool * (10_000 - sh),
                y >= 0,
        ;
    }
}

/// A sum of zeros is zero.
proof fn lemma_zero_sum(s: Seq<(u64, ContributorRecord)>)
    ensures
        record_sum(s, |r: ContributorRecord| 0int) == 0,
    decreases s.len(),
{
    if s.len() > 0 {
        lemma_zero_sum(s.drop_last());
    }
}


/// Escrowed contributions that are each non-negative add up to a
/// non-negative total.
pub(crate) proof fn lemma_contribution_sum_nonneg(s: Seq<(u64, ContributorRecord)>)
    requires
        forall|i: int| 0 <= i < s.len() ==> 0 <= (#[trigger] s[i]).1.contribution,
    ensures
        0 <= contribution_sum(s),
    decreases s.len(),
{
    if s.len() > 0 {
        let u = s.drop_last();
        assert forall|i: int| 0 <= i < u.len() implies 0 <= (#[trigger] u[i]).1.contribution by {
            assert(u[i] == s[i]);
        }
        lemma_contribution_sum_nonneg(u);
        assert(s.last() == s[s.len() - 1]);
    }
}

/// Depositing revenue only raises what each contributor is owed, so it
/// keeps the accounting within the pool.
pub proof fn lemma_deposit_keeps_unswept(p0: Platform, p1: Platform, campaign_id: u32, amount: i128)
    requires
        revenue_unswept(p0.entry(campaign_id)),
        p0.deposit_revenue_error(campaign_id, amount) is None,
        p0.with_entry(p1, campaign_id, p1.entry(campaign_id)),
        p1.entry(campaign_id) == (CampaignEntry {
            revenue_pool: (p0.entry(campaign_id).revenue_pool + amount) as i128,
            ..p0.entry(campaign_id)
        }),
    ensures
        revenue_unswept(p1.entry(campaign_id)),
{
    let e0 = p0.entry(campaign_id);
    let e1 = p1.entry(campaign_id);
    let s = e0.contributors.entries@;
    let c = e0.campaign;
    let pool0 = e0.revenue_pool as int;
    let pool1 = e1.revenue_pool as int;
    assert forall|i: int| 0 <= i < s.len() implies revenue_owed(c, pool0, (#[trigger] s[i]).1.contribution as int)
        <= revenue_owed(c, pool1, s[i].1.contribution as int) by {
        let ci = s[i].1.contribution as int;
        let sh = c.revenue_share_percentage as int;
        let e = c.effective_amount_raised as int;
        if e > 0 {
            assert((ci * pool0 * sh / e) / 10_000 <= (ci * pool1 * sh / e) / 10_000) by (nonlinear_arith)
                requires
                    0 <= ci,
                    0 <= pool0 <= pool1,
                    0 <= sh,
                    e > 0,
            ;
        }
    }
}

/// The position of `contributor`'s record among a campaign's records when
/// a revenue claim of theirs goes through, and the amount they are owed.
pub(crate) proof fn lemma_claimed_record(p0: Platform, campaign_id: u32, contributor: AccountId) -> (ix: int)
    requires
        p0.wf(),
        revenue_unswept(p0.entry(campaign_id)),
        p0.claim_revenue_outcome(campaign_id, contributor) is Ok,
    ensures
        ({
            let e = p0.entry(campaign_id);
            let s = e.contributors.entries@;
            let rec = e.record(contributor);
            &&& 0 <= ix < s.len()
            &&& s[ix] == (contributor as u64, rec)
            &&& forall|x: ContributorRecord| #[trigger] inserted_entries(s, contributor as u64, x)
                == s.update(ix, (contributor as u64, x))
            &&& e.campaign.effective_amount_raised > 0
            &&& revenue_due(e.campaign, e.revenue_pool as int, rec.contribution as int)
                == Some(revenue_owed(e.campaign, e.revenue_pool as int, rec.contribution as int))
        }),
{
    let e = p0.entry(campaign_id);
    let s = e.contributors.entries@;
    let k = contributor as u64;
    let c = e.campaign;
    assert(e.wf());
    lemma_to_map(s);
    assert(e.record(contributor).contribution != 0);
    assert(e.contributors@.contains_key(k));
    let ix = choose|i: int| 0 <= i < s.len() && s[i].0 == k;
    assert(s[ix].1 == e.contributors@[k]);
    lemma_contribution_sum_nonneg(s);
    let rec = e.record(contributor);
    let ci = rec.contribution as int;
    let pool = e.revenue_pool as int;
    let sh = c.revenue_share_percentage as int;
    let ee = c.effective_amount_raised as int;
    let p2 = ci * pool * sh;
    assert(p2 >= 0 && p2 / ee >= 0) by (nonlinear_arith)
        requires
            p2 == ci * pool * sh,
            ci >= 0,
            pool >= 0,
            sh >= 0,
            ee > 0,
    ;
    assert(revenue_due(c, pool, ci) matches Some(d) ==> d == revenue_owed(c, pool, ci));
    ix
}

/// A revenue claim that does not sweep the dust pays exactly what the
/// contributor is owed out of the current pool, less what they were already
/// paid.
pub proof fn lemma_revenue_claim_pays_owed(p0: Platform, campaign_id: u32, contributor: AccountId)
    requires
        p0.wf(),
        revenue_unswept(p0.entry(campaign_id)),
        p0.claim_revenue_outcome(campaign_id, contributor) is Ok,
        !p0.is_last_claimant(campaign_id, contributor),
    ensures
        p0.claim_revenue_outcome(campaign_id, contributor)->Ok_0 == revenue_owed(
            p0.entry(campaign_id).campaign,
            p0.entry(campaign_id).revenue_pool as int,
            p0.entry(campaign_id).record(contributor).contribution as int,
        ) - p0.entry(campaign_id).record(contributor).revenue_claimed,
{
    lemma_claimed_record(p0, campaign_id, contributor);
}

/// A revenue claim that does not sweep the dust pays the contributor up to
/// what they are owed, so the accounting stays within the pool.
pub proof fn lemma_claim_keeps_unswept(p0: Platform, p1: Platform, campaign_id: u32, contributor: AccountId)
    requires
        p0.wf(),
        revenue_unswept(p0.entry(campaign_id)),
        p0.claim_revenue_outcome(campaign_id, contributor) is Ok,
        !p0.is_last_claimant(campaign_id, contributor),
        p0.revenue_paid(p1, campaign_id, contributor),
    ensures
        revenue_unswept(p1.entry(campaign_id)),
{
    let e0 = p0.entry(campaign_id);
    let e1 = p1.entry(campaign_id);
    let s = e0.contributors.entries@;
    let rec = e0.record(contributor);
    let amount = p0.claim_revenue_outcome(campaign_id, contributor)->Ok_0;
    let x = ContributorRecord { revenue_claimed: (rec.revenue_claimed + amount) as i128, ..rec };
    let ix = lemma_claimed_record(p0, campaign_id, contributor);
    assert(p1.entries@[campaign_id - 1] == e1);
    let s1 = e1.contributors.entries@;
    assert(s1 == s.update(ix, (contributor as u64, x)));
    lemma_record_sum_update(s, claimed_fn(), ix, (contributor as u64, x));
    crate::contributions::lemma_contribution_sum_update(s, ix, (contributor as u64, x));
    assert(claimed_fn()(x) == rec.revenue_claimed + amount);
    assert(claimed_fn()(s[ix].1) == rec.revenue_claimed);
    assert forall|i: int| 0 <= i < s1.len() implies 0 <= (#[trigger] s1[i]).1.contribution
        && 0 <= s1[i].1.revenue_claimed <= revenue_owed(
        e1.campaign,
        e1.revenue_pool as int,
        s1[i].1.contribution as int,
    ) by {
        if i != ix {
            assert(s1[i] == s[i]);
        }
    }
}

/// The claim that sweeps the dust brings the revenue paid out to
/// contributors to exactly the contributors' part of the pool: the pool
/// less the creator's entitlement.
pub proof fn lemma_sweep_completes_pool(p0: Platform, p1: Platform, campaign_id: u32, contributor: AccountId)
    requires
        p0.wf(),
        revenue_unswept(p0.entry(campaign_id)),
        p0.claim_revenue_outcome(campaign_id, contributor) is Ok,
        p0.is_last_claimant(campaign_id, contributor),
        p0.revenue_paid(p1, campaign_id, contributor),
    ensures
        p1.entry(campaign_id).revenue_distributed == p0.entry(campaign_id).revenue_pool
            - creator_share_of(
            p0.entry(campaign_id).revenue_pool as int,
            p0.entry(campaign_id).campaign.revenue_share_percentage,
        )->0,
{
    let e0 = p0.entry(campaign_id);
    let e1 = p1.entry(campaign_id);
    let s = e0.contributors.entries@;
    let c = e0.campaign;
    let pool = e0.revenue_pool as int;
    let rec = e0.record(contributor);
    let ix = lemma_claimed_record(p0, campaign_id, contributor);
    let due = revenue_owed(c, pool, rec.contribution as int);
    let claimable = due - rec.revenue_claimed;
    // The contributor's record once paid what they are owed.
    let y = ContributorRecord { revenue_claimed: due as i128, ..rec };
    let s2 = s.update(ix, (contributor as u64, y));
    lemma_record_sum_update(s, claimed_fn(), ix, (contributor as u64, y));
    lemma_record_sum_update(s, owed_fn(c, pool), ix, (contributor as u64, y));
    assert(claimed_fn()(s[ix].1) == rec.revenue_claimed);
    assert(owed_fn(c, pool)(y) == owed_fn(c, pool)(rec));
    assert forall|i: int| 0 <= i < s2.len() implies claimed_fn()((#[trigger] s2[i]).1) <= owed_fn(
        c,
        pool,
    )(s2[i].1) by {
        if i != ix {
            assert(s2[i] == s[i]);
        }
    }
    lemma_record_sum_le(s2, claimed_fn(), owed_fn(c, pool));
    // What everyone is owed fits in the contributors' part of the pool.
    lemma_unswept_within_pool(e0);
    let ee = c.effective_amount_raised as int;
    let sh = c.revenue_share_percentage as int;
    assert forall|i: int| 0 <= i < s.len() implies 0 <= (#[trigger] s[i]).1.contribution by {}
    lemma_owed_sum(s, c, pool);
    let o = record_sum(s, owed_fn(c, pool));
    assert(o * 10_000 <= pool * sh) by (nonlinear_arith)
        requires
            o * 10_000 * ee <= pool * sh * ee,
            ee > 0,
    ;
    let cs = creator_share_of(pool, c.revenue_share_percentage)->0;
    let yy = pool * (10_000 - sh);
    assert(yy >= 0) by (nonlinear_arith)
        requires
            yy == pool * (10_000 - sh),
            pool >= 0,
            sh <= 10_000,
    ;
    assert(o <= pool - cs) by (nonlinear_arith)
        requires
            o * 10_000 <= pool * sh,
            cs == yy / 10_000,
            yy == pool * (10_000 - sh),
            yy >= 0,
    ;
    assert(p1.entries@[campaign_id - 1] == e1);
}

} // verus!
