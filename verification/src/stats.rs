//! Aggregates: per-creator, per-campaign and platform-wide statistics, and
//! a contributor's portfolio.

use vstd::prelude::*;

use crate::constants::CREATOR_CAMPAIGNS_BUCKET_SIZE;
use crate::errors::Error;
use crate::index::{buckets_for, idx_bucket, idx_count};
use crate::lifecycle::is_open;
use crate::queries::capped;
use crate::state::{div_trunc, fits_i128, LedgerInfo, Platform};
use crate::table::Table;
use crate::index::BucketIndex;
use crate::types::{AccountId, Campaign, CampaignStats, CreatorStats, PlatformReport, PlatformStats};

verus! {

/// The ids in buckets `0 .. nb` of the index under `k`, bucket after bucket.
pub open spec fn bucket_ids(t: Table<BucketIndex>, k: u64, nb: nat) -> Seq<u32>
    decreases nb,
{
    if nb == 0 {
        Seq::empty()
    } else {
        bucket_ids(t, k, (nb - 1) as nat) + idx_bucket(t, k, (nb - 1) as u64)
    }
}

/// The ids of the first `m` buckets come first among those of the first `n`.
proof fn lemma_bucket_ids_prefix(t: Table<BucketIndex>, k: u64, m: nat, n: nat)
    requires
        m <= n,
    ensures
        bucket_ids(t, k, m).len() <= bucket_ids(t, k, n).len(),
        bucket_ids(t, k, n).take(bucket_ids(t, k, m).len() as int) == bucket_ids(t, k, m),
    decreases n,
{
    if m < n {
        lemma_bucket_ids_prefix(t, k, m, (n - 1) as nat);
        let a = bucket_ids(t, k, m);
        let b = bucket_ids(t, k, (n - 1) as nat);
        let c = bucket_ids(t, k, n);
        assert(c.take(a.len() as int) =~= b.take(a.len() as int));
    } else {
        assert(bucket_ids(t, k, n).take(bucket_ids(t, k, n).len() as int) =~= bucket_ids(t, k, n));
    }
}

/// Running totals over the existing campaigns among `ids`: how many are
/// open, the funds raised by those not cancelled, and their contributor
/// counts added up.
pub open spec fn creator_totals(p: Platform, ids: Seq<u32>) -> (int, int, int)
    decreases ids.len(),
{
    if ids.len() == 0 {
        (0, 0, 0)
    } else {
        let prev = creator_totals(p, ids.drop_last());
        let id = ids.last();
        if p.has_campaign(id) {
            let c = p.campaign(id);
            (
                prev.0 + if is_open(c) {
                    1int
                } else {
                    0int
                },
                prev.1 + if !c.is_cancelled {
                    c.amount_raised as int
                } else {
                    0int
                },
                prev.2 + p.entry(id).contributor_count,
            )
        } else {
            prev
        }
    }
}

/// The running totals fit their fields at every step.
pub open spec fn totals_fit(t: (int, int, int)) -> bool {
    t.0 <= u32::MAX && fits_i128(t.1) && t.2 <= u32::MAX
}

/// The ids a creator's statistics walk over: every bucket of the creator's
/// index.
pub open spec fn creator_ids(p: Platform, creator: AccountId) -> Seq<u32> {
    bucket_ids(
        p.creator_index,
        creator as u64,
        buckets_for(idx_count(p.creator_index, creator as u64), CREATOR_CAMPAIGNS_BUCKET_SIZE) as nat,
    )
}

/// No running total of a creator's statistics overflows.
pub open spec fn creator_stats_fit(p: Platform, creator: AccountId) -> bool {
    forall|i: int|
        0 <= i <= creator_ids(p, creator).len() ==> totals_fit(
            #[trigger] creator_totals(p, creator_ids(p, creator).take(i)),
        )
}

/// Sum of the contributor counts of campaigns `1 ..= n`.
pub open spec fn contributor_sum(p: Platform, n: int) -> int
    decreases n,
{
    if n <= 0 {
        0
    } else {
        contributor_sum(p, n - 1) + p.entry(n as u32).contributor_count
    }
}

proof fn lemma_contributor_sum_mono(p: Platform, i: int, n: int)
    requires
        0 <= i <= n,
    ensures
        contributor_sum(p, i) <= contributor_sum(p, n),
    decreases n,
{
    if i < n {
        lemma_contributor_sum_mono(p, i, n - 1);
    }
}

/// The status word the portfolio shows for a campaign.
pub open spec fn status_of(c: Campaign) -> Seq<char> {
    if c.is_cancelled {
        "cancelled"@
    } else if c.funds_withdrawn {
        "withdrawn"@
    } else if !c.is_active {
        "inactive"@
    } else if c.is_verified {
        "verified"@
    } else {
        "active"@
    }
}

/// Whether a contributor to `c` can claim a refund at time `now`.
pub open spec fn refundable(c: Campaign, now: u64) -> bool {
    c.is_cancelled || (now > c.deadline && c.amount_raised < c.funding_goal)
}

/// The portfolio rows of `who` for campaigns `lo + 1 ..= hi`: id, amount
/// contributed, status and refund availability of each campaign `who`
/// currently has funds in.
pub open spec fn portfolio_rows(p: Platform, who: AccountId, now: u64, lo: int, hi: int) -> Seq<
    (u32, i128, Seq<char>, bool),
>
    decreases hi - lo,
{
    if hi <= lo {
        Seq::empty()
    } else {
        let prev = portfolio_rows(p, who, now, lo, hi - 1);
        let id = hi as u32;
        let amount = p.entry(id).record(who).contribution;
        let c = p.campaign(id);
        if amount != 0 {
            prev.push((id, amount, status_of(c), refundable(c, now)))
        } else {
            prev
        }
    }
}

/// The rows up to `x` come first among the rows up to `y`.
proof fn lemma_rows_prefix(p: Platform, who: AccountId, now: u64, lo: int, x: int, y: int)
    requires
        lo <= x <= y,
    ensures
        portfolio_rows(p, who, now, lo, x).len() <= portfolio_rows(p, who, now, lo, y).len(),
        portfolio_rows(p, who, now, lo, y).take(portfolio_rows(p, who, now, lo, x).len() as int)
            == portfolio_rows(p, who, now, lo, x),
    decreases y - x,
{
    let a = portfolio_rows(p, who, now, lo, x);
    if x < y {
        lemma_rows_prefix(p, who, now, lo, x, y - 1);
        let b = portfolio_rows(p, who, now, lo, y - 1);
        let c = portfolio_rows(p, who, now, lo, y);
        assert(c.take(a.len() as int) =~= b.take(a.len() as int));
    } else {
        assert(a.take(a.len() as int) =~= a);
    }
}

/// The statistics of campaign `id`; zeros for an unknown campaign.
pub open spec fn campaign_stats_of(p: Platform, id: u32) -> CampaignStats {
    if p.has_campaign(id) {
        let e = p.entry(id);
        CampaignStats {
            contributor_count: e.contributor_count,
            top_contributor: e.top_contributor,
            avg_contribution: if e.contributor_count > 0 {
                div_trunc(e.campaign.amount_raised as int, e.contributor_count as int) as i128
            } else {
                0
            },
            last_contribution_time: e.last_contribution_time,
        }
    } else {
        CampaignStats {
            contributor_count: 0,
            top_contributor: None,
            avg_contribution: 0,
            last_contribution_time: 0,
        }
    }
}

impl Platform {
    /// Aggregates over every campaign of `creator`: how many there are (0
    /// for an unknown creator), how many are open, the funds raised by
    /// those not cancelled, and their contributor counts added up (a
    /// wallet that backed several of them counts once per campaign).
    /// `Overflow` when a sum does not fit its field.
    pub fn get_creator_stats(&self, creator: AccountId) -> (r: Result<CreatorStats, Error>)
        requires
            self.wf(),
        ensures
            match r {
                Ok(s) => {
                    &&& creator_stats_fit(*self, creator)
                    &&& s.total_campaigns == idx_count(self.creator_index, creator as u64)
                    &&& s.active_campaigns == creator_totals(*self, creator_ids(*self, creator)).0
                    &&& s.total_raised == creator_totals(*self, creator_ids(*self, creator)).1
                    &&& s.total_contributors == creator_totals(*self, creator_ids(*self, creator)).2
                },
                Err(e) => !creator_stats_fit(*self, creator) && e == Error::Overflow,
            },
    {
        let total = Self::index_count(&self.creator_index, creator);
        let size = CREATOR_CAMPAIGNS_BUCKET_SIZE;
        let num_buckets: u32 = total / size + if total % size == 0 {
            0u32
        } else {
            1u32
        };
        let ghost all = creator_ids(*self, creator);
        let ghost t = self.creator_index;
        let ghost k = creator as u64;
        assert(num_buckets == buckets_for(total, size));
        assert(all.take(0) =~= Seq::<u32>::empty());
        let mut active: u32 = 0;
        let mut raised: i128 = 0;
        let mut contributors: u32 = 0;
        let mut b: u32 = 0;
        while b < num_buckets
            invariant
                self.wf(),
                t == self.creator_index,
                k == creator as u64,
                all == creator_ids(*self, creator),
                all == bucket_ids(t, k, num_buckets as nat),
                b <= num_buckets,
                bucket_ids(t, k, b as nat).len() <= all.len(),
                all.take(bucket_ids(t, k, b as nat).len() as int) == bucket_ids(t, k, b as nat),
                forall|j: int|
                    0 <= j <= bucket_ids(t, k, b as nat).len() ==> totals_fit(
                        #[trigger] creator_totals(*self, all.take(j)),
                    ),
                (active as int, raised as int, contributors as int) == creator_totals(
                    *self,
                    bucket_ids(t, k, b as nat),
                ),
            decreases num_buckets - b,
        {
            let bucket = match self.creator_index.get(creator) {
                Some(index) => index.get_bucket(b),
                None => Vec::new(),
            };
            let ghost before = bucket_ids(t, k, b as nat);
            proof {
                lemma_bucket_ids_prefix(t, k, (b + 1) as nat, num_buckets as nat);
                assert(bucket_ids(t, k, (b + 1) as nat) == before + bucket@);
                assert(before + bucket@.take(0) =~= before);
            }
            let mut i: usize = 0;
            while i < bucket.len()
                invariant
                    self.wf(),
                    t == self.creator_index,
                    all == creator_ids(*self, creator),
                    all == bucket_ids(t, k, num_buckets as nat),
                    bucket@ == idx_bucket(t, k, b as u64),
                    bucket_ids(t, k, (b + 1) as nat) == before + bucket@,
                    (before + bucket@).len() <= all.len(),
                    all.take((before + bucket@).len() as int) == before + bucket@,
                    i <= bucket@.len(),
                    forall|j: int|
                        0 <= j <= before.len() + i ==> totals_fit(
                            #[trigger] creator_totals(*self, all.take(j)),
                        ),
                    (active as int, raised as int, contributors as int) == creator_totals(
                        *self,
                        before + bucket@.take(i as int),
                    ),
                decreases bucket@.len() - i,
            {
                let id = bucket[i];
                let ghost seen = before + bucket@.take(i as int);
                let ghost next = before + bucket@.take(i + 1);
                proof {
                    assert(next.drop_last() =~= seen);
                    assert(next.last() == id);
                    assert(next =~= all.take(next.len() as int));
                }
                if id >= 1 && (id as usize) <= self.entries.len() {
                    let entry = &self.entries[(id - 1) as usize];
                    let c = &entry.campaign;
                    let new_active = if c.is_active && !c.is_cancelled {
                        active.checked_add(1)
                    } else {
                        Some(active)
                    };
                    let new_raised = if !c.is_cancelled {
                        raised.checked_add(c.amount_raised)
                    } else {
                        Some(raised)
                    };
                    let new_contributors = contributors.checked_add(entry.contributor_count);
                    match (new_active, new_raised, new_contributors) {
                        (Some(x), Some(y), Some(z)) => {
                            active = x;
                            raised = y;
                            contributors = z;
                        },
                        _ => {
                            proof {
                                assert(!totals_fit(creator_totals(*self, all.take(next.len() as int))));
                            }
                            return Err(Error::Overflow);
                        },
                    }
                }
                proof {
                    assert forall|j: int| 0 <= j <= before.len() + i + 1 implies totals_fit(
                        #[trigger] creator_totals(*self, all.take(j)),
                    ) by {
                        if j == before.len() + i + 1 {
                            assert(all.take(j) == next);
                        }
                    }
                }
                i = i + 1;
            }
            proof {
                assert(bucket@.take(bucket@.len() as int) =~= bucket@);
            }
            b = b + 1;
        }
        Ok(
            CreatorStats {
                total_campaigns: total,
                active_campaigns: active,
                total_raised: raised,
                total_contributors: contributors,
            },
        )
    }

    /// The platform-wide counters.
    pub fn get_platform_stats(&self) -> (s: PlatformStats)
        requires
            self.wf(),
        ensures
            s == (PlatformStats {
                total_campaigns: self.entries@.len() as u32,
                active_campaigns: self.active_count,
                verified_campaigns: self.verified_count,
                cancelled_campaigns: self.cancelled_count,
                total_amount_raised: self.total_raised,
                stats_are_partial: false,
                scanned_up_to: self.entries@.len() as u32,
            }),
    {
        let total = self.entries.len() as u32;
        PlatformStats {
            total_campaigns: total,
            active_campaigns: self.active_count,
            verified_campaigns: self.verified_count,
            cancelled_campaigns: self.cancelled_count,
            total_amount_raised: self.total_raised,
            stats_are_partial: false,
            scanned_up_to: total,
        }
    }

    /// Contributor count, top contributor, average contribution (rounded
    /// towards zero) and last contribution time of campaign `campaign_id`.
    pub fn get_campaign_stats(&self, campaign_id: u32) -> (s: CampaignStats)
        requires
            self.wf(),
        ensures
            s == campaign_stats_of(*self, campaign_id),
    {
        if campaign_id == 0 || campaign_id as usize > self.entries.len() {
            return CampaignStats {
                contributor_count: 0,
                top_contributor: None,
                avg_contribution: 0,
                last_contribution_time: 0,
            };
        }
        let e = &self.entries[(campaign_id - 1) as usize];
        let count = e.contributor_count;
        let avg: i128 = if count > 0 {
            e.campaign.amount_raised / (count as i128)
        } else {
            0
        };
        CampaignStats {
            contributor_count: count,
            top_contributor: e.top_contributor,
            avg_contribution: avg,
            last_contribution_time: e.last_contribution_time,
        }
    }

    /// Every key platform metric in one record; `Overflow` when the
    /// contributor counts add up past what the record can hold.
    pub fn get_platform_report(&self) -> (r: Result<PlatformReport, Error>)
        requires
            self.wf(),
        ensures
            match r {
                Ok(report) => {
                    &&& contributor_sum(*self, self.entries@.len() as int) <= u32::MAX
                    &&& report == (PlatformReport {
                        total_campaigns: self.entries@.len() as u32,
                        active_campaigns: self.active_count,
                        total_raised: self.total_raised,
                        total_contributors: contributor_sum(*self, self.entries@.len() as int) as u32,
                        platform_fee_bps: self.config.platform_fee_bps,
                        is_paused: self.is_paused(),
                        token: self.config.token,
                    })
                },
                Err(e) => contributor_sum(*self, self.entries@.len() as int) > u32::MAX && e
                    == Error::Overflow,
            },
    {
        let total = self.entries.len();
        let mut contributors: u32 = 0;
        let mut i: usize = 0;
        while i < total
            invariant
                self.wf(),
                total == self.entries@.len(),
                i <= total,
                contributors == contributor_sum(*self, i as int),
            decreases total - i,
        {
            proof {
                lemma_contributor_sum_mono(*self, i + 1, total as int);
                assert(self.entries@[i as int].campaign.id == i + 1);
            }
            contributors = match contributors.checked_add(self.entries[i].contributor_count) {
                Some(v) => v,
                None => {
                    return Err(Error::Overflow);
                },
            };
            i = i + 1;
        }
        Ok(
            PlatformReport {
                total_campaigns: total as u32,
                active_campaigns: self.active_count,
                total_raised: self.total_raised,
                total_contributors: contributors,
                platform_fee_bps: self.config.platform_fee_bps,
                is_paused: self.config.paused || self.config.auto_paused,
                token: self.config.token,
            },
        )
    }

    /// The campaigns after `start` (an exclusive campaign-id cursor) that
    /// `contributor` currently has funds in, at most `min(limit,
    /// LIST_MAX_LIMIT)` of them: id, amount, status word and whether a
    /// refund can be claimed now.
    pub fn get_contributor_portfolio(
        &self,
        contributor: AccountId,
        start: u32,
        limit: u32,
        ledger: LedgerInfo,
    ) -> (r: Vec<(u32, i128, String, bool)>)
        requires
            self.wf(),
        ensures
            ({
                let total = self.entries@.len();
                let rows = portfolio_rows(*self, contributor, ledger.timestamp, start as int, total as int);
                let n = if rows.len() < capped(limit) {
                    rows.len()
                } else {
                    capped(limit) as nat
                };
                if start >= total || limit == 0 {
                    r@.len() == 0
                } else {
                    &&& r@.len() == n
                    &&& forall|j: int|
                        0 <= j < n ==> {
                            &&& (#[trigger] r@[j]).0 == rows[j].0
                            &&& r@[j].1 == rows[j].1
                            &&& r@[j].2@ == rows[j].2
                            &&& r@[j].3 == rows[j].3
                        }
                }
            }),
    {
        let total = self.entries.len();
        let mut portfolio: Vec<(u32, i128, String, bool)> = Vec::new();
        if start as usize >= total || limit == 0 {
            return portfolio;
        }
        let capped_limit: u32 = if limit < crate::constants::LIST_MAX_LIMIT {
            limit
        } else {
            crate::constants::LIST_MAX_LIMIT
        };
        let ghost now = ledger.timestamp;
        let mut collected: u32 = 0;
        let mut id: u64 = start as u64 + 1;
        while id <= total as u64
            invariant
                self.wf(),
                total == self.entries@.len(),
                start < id <= total + 1,
                capped_limit == capped(limit),
                0 < capped_limit,
                collected < capped_limit,
                now == ledger.timestamp,
                portfolio@.len() == collected,
                portfolio@.len() == portfolio_rows(*self, contributor, now, start as int, id - 1).len(),
                forall|j: int|
                    0 <= j < portfolio@.len() ==> {
                        let row = portfolio_rows(*self, contributor, now, start as int, id - 1)[j];
                        &&& (#[trigger] portfolio@[j]).0 == row.0
                        &&& portfolio@[j].1 == row.1
                        &&& portfolio@[j].2@ == row.2
                        &&& portfolio@[j].3 == row.3
                    },
            decreases total + 1 - id,
        {
            let entry = &self.entries[(id - 1) as usize];
            let ghost prev_rows = portfolio_rows(*self, contributor, now, start as int, id - 1);
            proof {
                assert(entry.campaign.id == id);
            }
            let amount = entry.record_of(contributor).contribution;
            if amount != 0 {
                let c = &entry.campaign;
                let status: &str = if c.is_cancelled {
                    "cancelled"
                } else if c.funds_withdrawn {
                    "withdrawn"
                } else if !c.is_active {
                    "inactive"
                } else if c.is_verified {
                    "verified"
                } else {
                    "active"
                };
                let refund = c.is_cancelled || (ledger.timestamp > c.deadline && c.amount_raised
                    < c.funding_goal);
                let ghost prev = portfolio@;
                portfolio.push((id as u32, amount, status.to_owned(), refund));
                collected = collected + 1;
                proof {
                    let rows = portfolio_rows(*self, contributor, now, start as int, id as int);
                    assert(rows == prev_rows.push(
                        (id as u32, amount, status_of(*c), refundable(*c, now)),
                    ));
                    assert forall|j: int| 0 <= j < portfolio@.len() implies {
                        let row = rows[j];
                        &&& (#[trigger] portfolio@[j]).0 == row.0
                        &&& portfolio@[j].1 == row.1
                        &&& portfolio@[j].2@ == row.2
                        &&& portfolio@[j].3 == row.3
                    } by {
                        if j < prev.len() {
                            assert(portfolio@[j] == prev[j]);
                        }
                    }
                }
                if collected >= capped_limit {
                    proof {
                        lemma_rows_prefix(*self, contributor, now, start as int, id as int, total as int);
                    }
                    return portfolio;
                }
            }
            id = id + 1;
        }
        portfolio
    }
}

} // verus!
