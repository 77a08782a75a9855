//! What the queries and the guarded operations answer, stated from the
//! campaign fields they read: which campaigns a creator's statistics count,
//! which bookmarks a wallet sees, when an ownership hand-over goes through
//! and when a milestone plan is accepted.

use vstd::prelude::*;

use crate::bookmarks::live_ids;
use crate::constants::{BPS_DENOMINATOR, CREATOR_CAMPAIGNS_BUCKET_SIZE, MAX_MILESTONES};
use crate::index::{idx_bucket, idx_can_append, idx_count, idx_position, index_removed, key_appended, BucketIndex};
use crate::queries::{bucket_page, capped, sat_add, walk, walk_inner};
use crate::table::Table;
use vstd::arithmetic::div_mod::lemma_fundamental_div_mod_converse;
use crate::milestones::{bps_sum, milestones_valid};
use crate::state::Platform;
use crate::stats::{creator_ids, creator_totals};
use crate::types::{AccountId, CreatorStats, Milestone};

verus! {

/// Adds up `f` over `ids`.
pub open spec fn id_sum(ids: Seq<u32>, f: spec_fn(u32) -> int) -> int
    decreases ids.len(),
{
    if ids.len() == 0 {
        0
    } else {
        id_sum(ids.drop_last(), f) + f(ids.last())
    }
}

/// The ids among `ids` that name a campaign of `p`.
pub open spec fn existing(p: Platform) -> spec_fn(u32) -> bool {
    |id: u32| p.has_campaign(id)
}

/// The ids among `ids` that name a campaign that is not cancelled.
pub open spec fn existing_not_cancelled(p: Platform) -> spec_fn(u32) -> bool {
    |id: u32| p.has_campaign(id) && !p.campaign(id).is_cancelled
}

/// The ids among `ids` that name a campaign that is active and not
/// cancelled.
pub open spec fn existing_running(p: Platform) -> spec_fn(u32) -> bool {
    |id: u32| p.has_campaign(id) && p.campaign(id).is_active && !p.campaign(id).is_cancelled
}

/// The totals a creator's statistics are built from, taken directly: the
/// campaigns that are active and not cancelled, the funds raised by those
/// not cancelled, and the contributor counts of all of them.
proof fn lemma_creator_totals_direct(p: Platform, ids: Seq<u32>)
    ensures
        creator_totals(p, ids).0 == ids.filter(existing_running(p)).len(),
        creator_totals(p, ids).1 == id_sum(
            ids.filter(existing_not_cancelled(p)),
            |id: u32| p.campaign(id).amount_raised as int,
        ),
        creator_totals(p, ids).2 == id_sum(
            ids.filter(existing(p)),
            |id: u32| p.entry(id).contributor_count as int,
        ),
    decreases ids.len(),
{
    reveal(Seq::filter);
    if ids.len() > 0 {
        let u = ids.drop_last();
        lemma_creator_totals_direct(p, u);
        let f1 = u.filter(existing_not_cancelled(p));
        let f2 = u.filter(existing(p));
        assert(f1.push(ids.last()).drop_last() =~= f1);
        assert(f2.push(ids.last()).drop_last() =~= f2);
    }
}

/// A creator's statistics count as active exactly the campaigns of the
/// creator's index that are active and not cancelled; a campaign that
/// closed (inactive) or was cancelled is never counted. The funds raised
/// add up the campaigns not cancelled, and the contributor counts add up
/// all of the creator's campaigns.
pub proof fn lemma_creator_stats_count(p: Platform, creator: AccountId, s: CreatorStats)
    requires
        s.active_campaigns == creator_totals(p, creator_ids(p, creator)).0,
        s.total_raised == creator_totals(p, creator_ids(p, creator)).1,
        s.total_contributors == creator_totals(p, creator_ids(p, creator)).2,
    ensures
        s.active_campaigns == creator_ids(p, creator).filter(existing_running(p)).len(),
        s.total_raised == id_sum(
            creator_ids(p, creator).filter(existing_not_cancelled(p)),
            |id: u32| p.campaign(id).amount_raised as int,
        ),
        s.total_contributors == id_sum(
            creator_ids(p, creator).filter(existing(p)),
            |id: u32| p.entry(id).contributor_count as int,
        ),
{
    lemma_creator_totals_direct(p, creator_ids(p, creator));
}

/// The ids whose campaign is not cancelled (an id naming no campaign is
/// kept).
pub open spec fn not_cancelled(p: Platform) -> spec_fn(u32) -> bool {
    |id: u32| !(p.has_campaign(id) && p.campaign(id).is_cancelled)
}

/// The saved list a wallet reads is exactly its saved ids whose campaign is
/// not cancelled, in the order saved: a campaign that closed, was funded or
/// was withdrawn stays listed; only cancellation removes it.
pub proof fn lemma_saved_lists_all_but_cancelled(p: Platform, user: AccountId, r: Seq<u32>)
    requires
        r == live_ids(p, p.saved(user)),
    ensures
        r == p.saved(user).filter(not_cancelled(p)),
        forall|i: int|
            0 <= i < p.saved(user).len() && !(p.has_campaign(#[trigger] p.saved(user)[i])
                && p.campaign(p.saved(user)[i]).is_cancelled) ==> r.contains(p.saved(user)[i]),
        forall|id: u32| r.contains(id) ==> p.saved(user).contains(id) && !(p.has_campaign(id) && p.campaign(id).is_cancelled),
{
    lemma_live_ids_filter(p, p.saved(user));
    let s = p.saved(user);
    assert forall|i: int|
        0 <= i < s.len() && !(p.has_campaign(#[trigger] s[i]) && p.campaign(s[i]).is_cancelled) implies r.contains(s[i]) by {
        s.lemma_filter_contains(not_cancelled(p), i);
    }
    assert forall|id: u32| r.contains(id) implies s.contains(id) && !(p.has_campaign(id) && p.campaign(id).is_cancelled) by {
        s.lemma_filter_contains_rev(not_cancelled(p), id);
    }
}

proof fn lemma_live_ids_filter(p: Platform, s: Seq<u32>)
    ensures
        live_ids(p, s) == s.filter(not_cancelled(p)),
    decreases s.len(),
{
    reveal(Seq::filter);
    if s.len() > 0 {
        lemma_live_ids_filter(p, s.drop_last());
    }
}

/// An ownership hand-over goes through whenever the campaign is active and
/// not cancelled, the platform is not paused, another account is
/// nominated, the creator's index holds the campaign where it is recorded
/// and the nominee's index can take one more, and only then; whether the
/// campaign is verified, funded or has milestones plays no part.
pub proof fn lemma_accept_transfer_succeeds(p: Platform, campaign_id: u32)
    ensures
        p.accept_transfer_error(campaign_id) is None <==> {
            &&& p.has_campaign(campaign_id)
            &&& p.campaign(campaign_id).is_active
            &&& !p.campaign(campaign_id).is_cancelled
            &&& !p.config.paused
            &&& !p.config.auto_paused
            &&& p.campaign(campaign_id).pending_creator matches Some(n) && n != p.campaign(
                campaign_id,
            ).creator
            &&& p.creator_position(p.campaign(campaign_id).creator, campaign_id) matches Some((b, slot))
                && slot < idx_bucket(p.creator_index, p.campaign(campaign_id).creator as u64, b as u64).len()
                && idx_bucket(p.creator_index, p.campaign(campaign_id).creator as u64, b as u64)[slot as int]
                == campaign_id
            &&& idx_can_append(
                p.creator_index,
                p.campaign(campaign_id).pending_creator->0 as u64,
                CREATOR_CAMPAIGNS_BUCKET_SIZE,
            )
        },
{
}

/// A milestone plan as the creator may set it, spelled out: one to ten
/// milestones, each with a share in `1..=10_000` bps and a description,
/// no id twice, and shares adding up to exactly 10_000 bps.
pub open spec fn plan_acceptable(ms: Seq<Milestone>) -> bool {
    &&& 1 <= ms.len() <= MAX_MILESTONES
    &&& forall|i: int|
        0 <= i < ms.len() ==> 1 <= #[trigger] ms[i].payout_bps <= BPS_DENOMINATOR
            && ms[i].description@.len() >= 1
    &&& forall|i: int, j: int| 0 <= i < ms.len() && 0 <= j < ms.len() && i != j ==> ms[i].id != ms[j].id
    &&& bps_sum(ms) == BPS_DENOMINATOR
}

/// A milestone plan is accepted exactly when the campaign exists, the
/// platform is not paused, the campaign is neither cancelled nor withdrawn,
/// it has no plan yet and the plan is acceptable; how much it has raised,
/// and whether it is verified, play no part.
pub proof fn lemma_set_milestones_accepted_iff(p: Platform, campaign_id: u32, ms: Seq<Milestone>)
    ensures
        p.set_milestones_error(campaign_id, ms) is None <==> {
            &&& p.has_campaign(campaign_id)
            &&& !p.config.paused && !p.config.auto_paused
            &&& !p.campaign(campaign_id).is_cancelled
            &&& !p.campaign(campaign_id).funds_withdrawn
            &&& p.entry(campaign_id).milestones@.len() == 0
            &&& plan_acceptable(ms)
        },
{
    if plan_acceptable(ms) {
        assert forall|i: int, j: int| 0 <= i < j < ms.len() implies ms[i].id != ms[j].id by {}
    }
    if milestones_valid(ms) {
        assert forall|i: int, j: int| 0 <= i < ms.len() && 0 <= j < ms.len() && i != j implies ms[i].id
            != ms[j].id by {
            if i > j {
                assert(ms[j].id != ms[i].id);
            }
        }
    }
}

/// The campaign id at zero-based position `q` of the index under `k`,
/// whose buckets hold `size` ids each: slot `q % size` of bucket
/// `q / size`, when that bucket reaches it.
pub open spec fn id_at(t: Table<BucketIndex>, k: u64, size: u32, q: int) -> Option<u32> {
    let bucket = idx_bucket(t, k, (q / (size as int)) as u64);
    let slot = q % (size as int);
    if 0 <= slot < bucket.len() {
        Some(bucket[slot])
    } else {
        None
    }
}

/// The ids at positions `lo .. hi` of the index under `k`, in order.
pub open spec fn ids_between(t: Table<BucketIndex>, k: u64, size: u32, lo: int, hi: int) -> Seq<u32>
    decreases hi - lo,
{
    if hi <= lo {
        Seq::empty()
    } else {
        let prev = ids_between(t, k, size, lo, hi - 1);
        match id_at(t, k, size, hi - 1) {
            Some(id) => prev.push(id),
            None => prev,
        }
    }
}

/// The positions `lo .. hi` read as `lo .. mid` then `mid .. hi`.
proof fn lemma_ids_between_split(t: Table<BucketIndex>, k: u64, size: u32, lo: int, mid: int, hi: int)
    requires
        lo <= mid <= hi,
    ensures
        ids_between(t, k, size, lo, hi) == ids_between(t, k, size, lo, mid) + ids_between(
            t,
            k,
            size,
            mid,
            hi,
        ),
    decreases hi - mid,
{
    if hi > mid {
        lemma_ids_between_split(t, k, size, lo, mid, hi - 1);
        let a = ids_between(t, k, size, lo, mid);
        let b = ids_between(t, k, size, mid, hi - 1);
        match id_at(t, k, size, hi - 1) {
            Some(id) => {
                assert((a + b).push(id) =~= a + b.push(id));
            },
            None => {},
        }
    } else {
        assert(ids_between(t, k, size, lo, hi) =~= ids_between(t, k, size, lo, mid) + Seq::empty());
    }
}

/// Positions that name no id contribute nothing.
proof fn lemma_ids_between_none(t: Table<BucketIndex>, k: u64, size: u32, lo: int, hi: int)
    requires
        forall|q: int| lo <= q < hi ==> #[trigger] id_at(t, k, size, q) is None,
    ensures
        ids_between(t, k, size, lo, hi) == Seq::<u32>::empty(),
    decreases hi - lo,
{
    if hi > lo {
        lemma_ids_between_none(t, k, size, lo, hi - 1);
        assert(id_at(t, k, size, hi - 1) is None);
    }
}

/// Position `b * size + s` is slot `s` of bucket `b`.
proof fn lemma_position_slot(size: u32, b: int, s: int)
    requires
        size > 0,
        0 <= s < size,
    ensures
        (b * size + s) / (size as int) == b,
        (b * size + s) % (size as int) == s,
{
    lemma_fundamental_div_mod_converse(b * size + s, size as int, b, s);
}

/// Reading one bucket from slot `idx` on collects the existing campaigns at
/// the positions it passes, in order.
proof fn lemma_walk_inner_reads(
    p: Platform,
    t: Table<BucketIndex>,
    k: u64,
    size: u32,
    b: int,
    idx: int,
    position: int,
    end: int,
    next: int,
    acc: Seq<u32>,
)
    requires
        size > 0,
        idx_bucket(t, k, b as u64).len() <= size,
        0 <= idx,
        position == b * size + idx,
        position <= end,
    ensures
        ({
            let r = walk_inner(p, idx_bucket(t, k, b as u64), idx, position, end, next, acc);
            &&& r.1 - position == r.0 - idx
            &&& position <= r.1 <= end
            &&& r.3 == acc + ids_between(t, k, size, position, r.1).filter(existing(p))
            &&& r.0 < idx_bucket(t, k, b as u64).len() ==> r.1 == end
            &&& idx < idx_bucket(t, k, b as u64).len() && r.0 >= idx_bucket(t, k, b as u64).len()
                ==> r.0 == idx_bucket(t, k, b as u64).len()
            &&& idx >= idx_bucket(t, k, b as u64).len() ==> r.0 == idx && r.1 == position
        }),
    decreases end - position,
{
    reveal(Seq::filter);
    let bucket = idx_bucket(t, k, b as u64);
    if 0 <= idx < bucket.len() && position < end {
        let id = bucket[idx];
        lemma_position_slot(size, b, idx);
        assert(id_at(t, k, size, position) == Some(id));
        assert(ids_between(t, k, size, position, position + 1) == seq![id]) by {
            assert(ids_between(t, k, size, position, position) == Seq::<u32>::empty());
            assert(Seq::<u32>::empty().push(id) =~= seq![id]);
        }
        let acc2 = if p.has_campaign(id) {
            acc.push(id)
        } else {
            acc
        };
        let next2 = if p.has_campaign(id) {
            position + 1
        } else {
            next
        };
        lemma_walk_inner_reads(p, t, k, size, b, idx + 1, position + 1, end, next2, acc2);
        let r = walk_inner(p, bucket, idx + 1, position + 1, end, next2, acc2);
        lemma_ids_between_split(t, k, size, position, position + 1, r.1);
        let rest = ids_between(t, k, size, position + 1, r.1);
        Seq::filter_distributes_over_add(seq![id], rest, existing(p));
        assert(seq![id].drop_last() =~= Seq::<u32>::empty());
        assert(Seq::<u32>::empty().filter(existing(p)) =~= Seq::<u32>::empty());
        if p.has_campaign(id) {
            assert(seq![id].filter(existing(p)) =~= seq![id]);
            assert(acc.push(id) + rest.filter(existing(p)) =~= acc + (seq![id] + rest.filter(
                existing(p),
            )));
        } else {
            assert(seq![id].filter(existing(p)) =~= Seq::<u32>::empty());
            assert(Seq::<u32>::empty() + rest.filter(existing(p)) =~= rest.filter(existing(p)));
        }
    } else {
        assert(ids_between(t, k, size, position, position) == Seq::<u32>::empty());
        assert(Seq::<u32>::empty().filter(existing(p)) =~= Seq::<u32>::empty());
        assert(acc + Seq::<u32>::empty() =~= acc);
    }
}

/// The bucket walk from `position` to `end` collects, after `acc`, the
/// existing campaigns at those positions, in order, whenever it finishes.
proof fn lemma_walk_reads(
    p: Platform,
    t: Table<BucketIndex>,
    k: u64,
    size: u32,
    end: int,
    position: int,
    next: int,
    acc: Seq<u32>,
)
    requires
        size > 0,
        forall|b: u64| (#[trigger] idx_bucket(t, k, b)).len() <= size,
        0 <= position,
        walk(p, t, k, size, end, position, next, acc) is Some,
    ensures
        (walk(p, t, k, size, end, position, next, acc)->0).0 == acc + ids_between(
            t,
            k,
            size,
            position,
            end,
        ).filter(existing(p)),
    decreases end - position,
{
    reveal(Seq::filter);
    if position >= end {
        assert(ids_between(t, k, size, position, end) == Seq::<u32>::empty());
        assert(Seq::<u32>::empty().filter(existing(p)) =~= Seq::<u32>::empty());
        assert(acc + Seq::<u32>::empty() =~= acc);
    } else {
        let sz = size as int;
        let b = position / sz;
        let bs = b * sz;
        assert(bs <= position < bs + sz && b >= 0) by (nonlinear_arith)
            requires
                b == position / sz,
                bs == b * sz,
                sz > 0,
                position >= 0,
        ;
        let bucket = idx_bucket(t, k, b as u64);
        let len = bucket.len() as int;
        lemma_walk_inner_reads(p, t, k, size, b, position - bs, position, end, next, acc);
        let inner = walk_inner(p, bucket, position - bs, position, end, next, acc);
        if inner.0 >= len {
            let pos3 = if len == 0 {
                bs + sz
            } else {
                bs + len
            };
            // The positions the walk jumps over name no id.
            let stop = if pos3 < end {
                pos3
            } else {
                end
            };
            assert forall|q: int| inner.1 <= q < stop implies #[trigger] id_at(t, k, size, q) is None by {
                lemma_position_slot(size, b, q - bs);
            }
            lemma_ids_between_none(t, k, size, inner.1, stop);
            lemma_ids_between_split(t, k, size, position, inner.1, stop);
            let first = ids_between(t, k, size, position, inner.1);
            assert(first + Seq::<u32>::empty() =~= first);
            if pos3 < end {
                lemma_walk_reads(p, t, k, size, end, pos3, inner.2, inner.3);
                lemma_ids_between_split(t, k, size, position, pos3, end);
                Seq::filter_distributes_over_add(
                    first,
                    ids_between(t, k, size, pos3, end),
                    existing(p),
                );
                assert(acc + first.filter(existing(p)) + ids_between(t, k, size, pos3, end).filter(
                    existing(p),
                ) =~= acc + (first.filter(existing(p)) + ids_between(t, k, size, pos3, end).filter(
                    existing(p),
                )));
            }
        }
    }
}

/// Each page of the category, tag and creator queries lists, in index
/// order, every campaign that exists at the positions it covers, whatever
/// its state: cancelled, closed or withdrawn campaigns are listed like the
/// others, and ids that name no campaign are skipped. The positions
/// covered run from `start` up to `min(limit, LIST_MAX_LIMIT)` positions
/// further, and no further than the index's count; this holds of every
/// index whose buckets hold at most `size` ids.
pub proof fn lemma_index_page_lists_every_campaign(
    p: Platform,
    t: Table<BucketIndex>,
    k: u64,
    start: u32,
    limit: u32,
    total: u32,
    size: u32,
)
    requires
        size > 0,
        forall|b: u64| (#[trigger] idx_bucket(t, k, b)).len() <= size,
        bucket_page(p, t, k, start, limit, total, size) is Some,
    ensures
        ({
            let c = capped(limit);
            let end: int = if start >= total || c == 0 {
                start as int
            } else if sat_add(start, c) < total {
                sat_add(start, c) as int
            } else {
                total as int
            };
            (bucket_page(p, t, k, start, limit, total, size)->0).0 == ids_between(
                t,
                k,
                size,
                start as int,
                end,
            ).filter(existing(p))
        }),
{
    reveal(Seq::filter);
    let c = capped(limit);
    if start >= total || c == 0 {
        assert(ids_between(t, k, size, start as int, start as int) == Seq::<u32>::empty());
        assert(Seq::<u32>::empty().filter(existing(p)) =~= Seq::<u32>::empty());
    } else {
        let end: int = if sat_add(start, c) < total {
            sat_add(start, c) as int
        } else {
            total as int
        };
        lemma_walk_reads(p, t, k, size, end, start as int, start as int, Seq::empty());
        assert(Seq::<u32>::empty() + ids_between(t, k, size, start as int, end).filter(existing(p))
            =~= ids_between(t, k, size, start as int, end).filter(existing(p)));
    }
}

/// A bookmark is saved exactly when the campaign exists, the wallet has not
/// saved it yet and holds fewer than 50 bookmarks; whether the campaign is
/// open, closed, funded or cancelled plays no part.
pub proof fn lemma_save_accepted_iff(p: Platform, user: AccountId, campaign_id: u32)
    ensures
        p.save_campaign_error(user, campaign_id) is None <==> {
            &&& p.has_campaign(campaign_id)
            &&& !p.saved(user).contains(campaign_id)
            &&& p.saved(user).len() < 50
        },
{
}

/// A comment is censured exactly when the admin asks, the platform is not
/// paused, the campaign exists and the reason has 1 to 200 bytes; the
/// campaign's state plays no part.
pub proof fn lemma_censure_accepted_iff(p: Platform, admin: AccountId, campaign_id: u32, reason: Seq<u8>)
    ensures
        p.censure_error(admin, campaign_id, reason) is None <==> {
            &&& admin == p.config.admin
            &&& !p.config.paused && !p.config.auto_paused
            &&& p.has_campaign(campaign_id)
            &&& 1 <= reason.len() <= 200
        },
{
}

/// A censure is lifted exactly when the admin asks, the platform is not
/// paused and the campaign exists.
pub proof fn lemma_uncensure_accepted_iff(p: Platform, admin: AccountId, campaign_id: u32)
    ensures
        p.uncensure_error(admin, campaign_id) is None <==> {
            &&& admin == p.config.admin
            &&& !p.config.paused && !p.config.auto_paused
            &&& p.has_campaign(campaign_id)
        },
{
}

/// A tag is added exactly when the campaign exists and is active and not
/// cancelled, the platform is not paused, the tag has 1 to 32 bytes, the
/// campaign carries fewer than 5 tags and not this one, and the tag's index
/// can take one more campaign.
pub proof fn lemma_add_tag_accepted_iff(p: Platform, campaign_id: u32, tag: Seq<u8>)
    ensures
        p.add_tag_error(campaign_id, tag) is None <==> {
            &&& p.has_campaign(campaign_id)
            &&& !p.config.paused && !p.config.auto_paused
            &&& p.campaign(campaign_id).is_active && !p.campaign(campaign_id).is_cancelled
            &&& 1 <= tag.len() <= 32
            &&& p.entry(campaign_id).tags@.len() < 5
            &&& forall|j: int|
                0 <= j < p.entry(campaign_id).tags@.len() ==> (#[trigger] p.entry(campaign_id).tags@[j])@
                    != tag
            &&& idx_can_append(p.tag_index, p.tag_key(tag), crate::constants::TAG_CAMPAIGNS_BUCKET_SIZE)
        },
{
}

/// A hand-over is offered exactly when the campaign exists, the platform is
/// not paused, the campaign is active, not cancelled and not withdrawn,
/// the nominee is not the creator and no other hand-over is pending;
/// verification, funding and milestones play no part.
pub proof fn lemma_initiate_transfer_accepted_iff(p: Platform, campaign_id: u32, new_creator: AccountId)
    ensures
        p.initiate_transfer_error(campaign_id, new_creator) is None <==> {
            &&& p.has_campaign(campaign_id)
            &&& !p.config.paused && !p.config.auto_paused
            &&& p.campaign(campaign_id).is_active && !p.campaign(campaign_id).is_cancelled
            &&& !p.campaign(campaign_id).funds_withdrawn
            &&& new_creator != p.campaign(campaign_id).creator
            &&& p.campaign(campaign_id).pending_creator is None
        },
{
}

/// A pending hand-over is withdrawn exactly when the campaign exists, the
/// platform is not paused and a nominee is pending.
pub proof fn lemma_cancel_transfer_accepted_iff(p: Platform, campaign_id: u32)
    ensures
        p.cancel_transfer_error(campaign_id) is None <==> {
            &&& p.has_campaign(campaign_id)
            &&& !p.config.paused && !p.config.auto_paused
            &&& p.campaign(campaign_id).pending_creator is Some
        },
{
}

/// The admin verifies a milestone exactly when the platform is not paused,
/// the campaign exists and is not cancelled, and the campaign's plan has
/// that milestone, still unverified (its first entry with that id).
pub proof fn lemma_verify_milestone_accepted_iff(p: Platform, admin: AccountId, campaign_id: u32, milestone_id: u32)
    ensures
        p.verify_milestone_error(admin, campaign_id, milestone_id) is None <==> {
            &&& admin == p.config.admin
            &&& !p.config.paused && !p.config.auto_paused
            &&& p.has_campaign(campaign_id)
            &&& !p.campaign(campaign_id).is_cancelled
            &&& exists|j: int|
                0 <= j < p.entry(campaign_id).milestones@.len() && (#[trigger] p.entry(
                    campaign_id,
                ).milestones@[j]).id == milestone_id
            &&& forall|j: int|
                0 <= j < p.entry(campaign_id).milestones@.len() && (#[trigger] p.entry(
                    campaign_id,
                ).milestones@[j]).id == milestone_id ==> !p.entry(campaign_id).milestones@[j].verified
        },
{
}

/// A vote always leaves the voter's vote on the campaign with the choice
/// just made, and no one else's vote on any campaign changes.
pub proof fn lemma_vote_records_the_choice(
    old: Platform,
    new: Platform,
    effects: Seq<crate::state::Effect>,
    voter: AccountId,
    campaign_id: u64,
    approve: bool,
    now: u64,
)
    requires
        crate::voting::vote_cast(old, new, effects, voter, campaign_id, approve, now),
    ensures
        new.vote_of(campaign_id, voter) matches Some(v) && v.approve == approve,
        forall|c: u64, w: AccountId|
            !(c == campaign_id && w == voter) ==> #[trigger] new.vote_of(c, w) == old.vote_of(c, w),
{
}

/// A page of `list_campaigns` after cursor `start` holds campaigns
/// `start + 1, start + 2, ...`: as many as the limit allows, capped at 50,
/// and none past the last campaign.
pub proof fn lemma_list_page_size(total: u32, start: u32, limit: u32)
    ensures
        crate::queries::page_end(total, start, limit) - start == if start >= total || limit == 0 {
            0
        } else if (if limit < 50 {
            limit as int
        } else {
            50
        }) < total - start {
            if limit < 50 {
                limit as int
            } else {
                50
            }
        } else {
            total - start
        },
{
}

/// A campaign's statistics report its stored contributor count, top
/// contributor and last contribution time, and as average the funds raised
/// shared among the contributors, rounded down; all zero and none for an
/// unknown campaign.
pub proof fn lemma_campaign_stats_report(p: Platform, campaign_id: u32, s: crate::types::CampaignStats)
    requires
        s == crate::stats::campaign_stats_of(p, campaign_id),
    ensures
        !p.has_campaign(campaign_id) ==> s.contributor_count == 0 && s.top_contributor is None
            && s.avg_contribution == 0 && s.last_contribution_time == 0,
        p.has_campaign(campaign_id) ==> {
            let e = p.entry(campaign_id);
            &&& s.contributor_count == e.contributor_count
            &&& s.top_contributor == e.top_contributor
            &&& s.last_contribution_time == e.last_contribution_time
            &&& e.contributor_count == 0 ==> s.avg_contribution == 0
            &&& e.contributor_count > 0 && e.campaign.amount_raised >= 0 ==> s.avg_contribution
                * e.contributor_count <= e.campaign.amount_raised < (s.avg_contribution + 1)
                * e.contributor_count
        },
{
    if p.has_campaign(campaign_id) {
        let e = p.entry(campaign_id);
        let n = e.contributor_count as int;
        let a = e.campaign.amount_raised as int;
        if n > 0 && a >= 0 {
            let q = a / n;
            assert(q * n <= a < (q + 1) * n && 0 <= q <= a) by (nonlinear_arith)
                requires
                    q == a / n,
                    n > 0,
                    a >= 0,
            ;
        }
    }
}

/// The portfolio rows of a wallet over campaigns `lo + 1 ..= hi` are, in
/// increasing id order, exactly the campaigns it currently has funds in,
/// each with the amount it has in, a status word that names the
/// campaign's state (cancelled before withdrawn before inactive before
/// verified) and whether a refund is open now (the campaign is cancelled,
/// or its deadline passed short of its goal).
pub proof fn lemma_portfolio_rows_report(p: Platform, who: AccountId, now: u64, lo: int, hi: int)
    requires
        0 <= lo,
        hi <= u32::MAX,
    ensures
        ({
            let rows = crate::stats::portfolio_rows(p, who, now, lo, hi);
            &&& forall|j: int|
                0 <= j < rows.len() ==> {
                    let id = (#[trigger] rows[j]).0;
                    let c = p.campaign(id);
                    &&& lo < id <= hi
                    &&& rows[j].1 == p.entry(id).record(who).contribution
                    &&& rows[j].1 != 0
                    &&& rows[j].3 == (c.is_cancelled || (now > c.deadline && c.amount_raised
                        < c.funding_goal))
                    &&& c.is_cancelled ==> rows[j].2 == "cancelled"@
                    &&& !c.is_cancelled && c.funds_withdrawn ==> rows[j].2 == "withdrawn"@
                    &&& !c.is_cancelled && !c.funds_withdrawn && !c.is_active ==> rows[j].2
                        == "inactive"@
                    &&& !c.is_cancelled && !c.funds_withdrawn && c.is_active && c.is_verified
                        ==> rows[j].2 == "verified"@
                    &&& !c.is_cancelled && !c.funds_withdrawn && c.is_active && !c.is_verified
                        ==> rows[j].2 == "active"@
                }
            &&& forall|i: int, j: int| 0 <= i < j < rows.len() ==> rows[i].0 < rows[j].0
            &&& forall|id: u32|
                lo < id <= hi && #[trigger] p.entry(id).record(who).contribution != 0 ==> exists|j: int|
                    0 <= j < rows.len() && rows[j].0 == id
        }),
    decreases hi - lo,
{
    if hi > lo {
        lemma_portfolio_rows_report(p, who, now, lo, hi - 1);
        let prev = crate::stats::portfolio_rows(p, who, now, lo, hi - 1);
        let rows = crate::stats::portfolio_rows(p, who, now, lo, hi);
        assert forall|j: int| 0 <= j < prev.len() implies #[trigger] rows[j] == prev[j] by {}
        assert forall|id: u32|
            lo < id <= hi && #[trigger] p.entry(id).record(who).contribution != 0 implies exists|j: int|
            0 <= j < rows.len() && rows[j].0 == id by {
            if id < hi {
                let j = choose|j: int| 0 <= j < prev.len() && prev[j].0 == id;
                assert(rows[j].0 == id);
            } else {
                assert(rows[rows.len() - 1].0 == id);
            }
        }
    }
}

/// The campaign ids `1 ..= n`.
pub open spec fn first_ids(n: nat) -> Seq<u32> {
    Seq::new(n, |i: int| (i + 1) as u32)
}

/// The contributor total of the platform report adds up the contributor
/// count of every campaign.
pub proof fn lemma_report_counts_all_contributors(p: Platform, n: nat)
    requires
        n <= u32::MAX,
    ensures
        crate::stats::contributor_sum(p, n as int) == id_sum(
            first_ids(n),
            |id: u32| p.entry(id).contributor_count as int,
        ),
    decreases n,
{
    if n > 0 {
        lemma_report_counts_all_contributors(p, (n - 1) as nat);
        assert(first_ids(n).drop_last() =~= first_ids((n - 1) as nat));
        assert(first_ids(n).last() == n as u32);
    }
}

/// A completed hand-over moves the campaign between the creators'
/// listings: the nominee becomes its creator, the nominee's index counts
/// one more campaign and lists this one, with its position recorded, and
/// the old creator's bucket that held it holds one id fewer, every other
/// id of that bucket still listed and this campaign's position forgotten.
pub proof fn lemma_transfer_moves_listing(p0: Platform, p1: Platform, campaign_id: u32)
    requires
        p0.accept_transfer_error(campaign_id) is None,
        p1.campaign(campaign_id).creator == p0.campaign(campaign_id).pending_creator->0,
        p1.creator_index@.contains_key(p0.campaign(campaign_id).creator as u64),
        index_removed(
            p0.creator_index@[p0.campaign(campaign_id).creator as u64],
            p1.creator_index@[p0.campaign(campaign_id).creator as u64],
            campaign_id,
            (p0.creator_position(p0.campaign(campaign_id).creator, campaign_id)->0).0,
            (p0.creator_position(p0.campaign(campaign_id).creator, campaign_id)->0).1,
        ),
        key_appended(
            p0.creator_index,
            p1.creator_index,
            p0.campaign(campaign_id).pending_creator->0 as u64,
            campaign_id,
            CREATOR_CAMPAIGNS_BUCKET_SIZE,
            true,
        ),
    ensures
        ({
            let old_creator = p0.campaign(campaign_id).creator as u64;
            let nominee = p0.campaign(campaign_id).pending_creator->0 as u64;
            let (b, slot) = p0.creator_position(p0.campaign(campaign_id).creator, campaign_id)->0;
            let before = idx_bucket(p0.creator_index, old_creator, b as u64);
            let after = idx_bucket(p1.creator_index, old_creator, b as u64);
            &&& p1.campaign(campaign_id).creator as u64 == nominee
            &&& idx_count(p1.creator_index, nominee) == idx_count(p0.creator_index, nominee) + 1
            &&& exists|bb: u64| #[trigger] idx_bucket(p1.creator_index, nominee, bb).contains(campaign_id)
            &&& idx_position(p1.creator_index, nominee, campaign_id as u64) is Some
            &&& after.len() == before.len() - 1
            &&& forall|j: int| 0 <= j < before.len() && j != slot ==> after.contains(#[trigger] before[j])
            &&& idx_position(p1.creator_index, old_creator, campaign_id as u64) is None
        }),
{
    let old_creator = p0.campaign(campaign_id).creator as u64;
    let nominee = p0.campaign(campaign_id).pending_creator->0 as u64;
    let (b, slot) = p0.creator_position(p0.campaign(campaign_id).creator, campaign_id)->0;
    let c = idx_count(p0.creator_index, nominee);
    let nb = (c / CREATOR_CAMPAIGNS_BUCKET_SIZE) as u64;
    let appended = idx_bucket(p1.creator_index, nominee, nb);
    assert(appended[appended.len() - 1] == campaign_id);
    assert(appended.contains(campaign_id));
    let before = idx_bucket(p0.creator_index, old_creator, b as u64);
    let after = idx_bucket(p1.creator_index, old_creator, b as u64);
    assert(p0.creator_index@.contains_key(old_creator));
    assert(after == p1.creator_index@[old_creator].bucket(b as u64));
    assert forall|j: int| 0 <= j < before.len() && j != slot implies after.contains(#[trigger] before[j]) by {
        if slot as int != before.len() - 1 {
            if j == before.len() - 1 {
                assert(after[slot as int] == before[j]);
            } else {
                assert(after[j] == before[j]);
            }
        } else {
            assert(after[j] == before[j]);
        }
    }
}

/// A campaign counts as open exactly when it is active and not cancelled,
/// and the platform as paused exactly when the admin or the anomaly guard
/// paused it.
pub proof fn lemma_open_and_paused_read_the_flags(p: Platform, c: crate::types::Campaign)
    ensures
        crate::lifecycle::is_open(c) <==> c.is_active && !c.is_cancelled,
        p.is_paused() <==> p.config.paused || p.config.auto_paused,
{
}

/// A comment is censured exactly when a censure for its hash is on the
/// campaign's record; a censure makes it so, and censuring it again
/// changes nothing.
pub proof fn lemma_censured_reads_the_record(
    e0: crate::state::CampaignEntry,
    e1: crate::state::CampaignEntry,
    hash: Seq<u8>,
)
    requires
        e1.censures@.drop_last() == e0.censures@,
        e1.censures@.len() == e0.censures@.len() + 1,
        e1.censures@.last().0@ == hash,
    ensures
        crate::comments::is_censured(e0, hash) <==> exists|k: int|
            0 <= k < e0.censures@.len() && e0.censures@[k].0@ == hash,
        crate::comments::is_censured(e1, hash),
        forall|h: Seq<u8>| crate::comments::is_censured(e0, h) ==> #[trigger] crate::comments::is_censured(e1, h),
{
    assert(e1.censures@[e1.censures@.len() - 1].0@ == hash);
    assert forall|h: Seq<u8>| crate::comments::is_censured(e0, h) implies #[trigger] crate::comments::is_censured(e1, h) by {
        let k = choose|k: int| 0 <= k < e0.censures@.len() && e0.censures@[k].0@ == h;
        assert(e1.censures@[k] == e0.censures@[k]);
    }
}

} // verus!
