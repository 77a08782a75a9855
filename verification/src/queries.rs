//! Read-only queries: listings, paginated index lookups and statistics.

use vstd::prelude::*;

use crate::constants::{
    CAMPAIGN_TAG_MAX_LEN, CAMPAIGN_TAG_MIN_LEN, CATEGORY_CAMPAIGNS_BUCKET_SIZE,
    CREATOR_CAMPAIGNS_BUCKET_SIZE, LIST_MAX_LIMIT, MAX_SCAN_WINDOW, TAG_CAMPAIGNS_BUCKET_SIZE,
};
use crate::lifecycle::is_open;
use crate::errors::Error;
use crate::index::{idx_bucket, idx_count, indexes_wf, BucketIndex};
use crate::state::{category_index, category_slot, Effect, Event, Platform};
use crate::table::Table;
use crate::types::{copy_bytes, AccountId, Campaign, Category};

verus! {

/// `a + b`, or `u32::MAX` when that overflows.
pub open spec fn sat_add(a: u32, b: u32) -> u32 {
    if a + b > u32::MAX {
        u32::MAX
    } else {
        (a + b) as u32
    }
}

/// The page size actually served for a requested `limit`.
pub open spec fn capped(limit: u32) -> u32 {
    if limit < LIST_MAX_LIMIT {
        limit
    } else {
        LIST_MAX_LIMIT
    }
}

/// The last campaign id on the page of `list_campaigns` that starts after
/// `start`, out of `total` campaigns; `start` itself for an empty page.
pub open spec fn page_end(total: u32, start: u32, limit: u32) -> int {
    if start >= total || limit == 0 {
        start as int
    } else if sat_add(start, capped(limit)) < total {
        sat_add(start, capped(limit)) as int
    } else {
        total as int
    }
}

/// `res` holds copies of campaigns `ids`, in order.
pub open spec fn copies_of(p: Platform, res: Seq<Campaign>, ids: Seq<u32>) -> bool {
    &&& res.len() == ids.len()
    &&& forall|j: int| 0 <= j < ids.len() ==> (#[trigger] res[j]).same(p.campaign(ids[j]))
}

/// The ids of the open campaigns among `lo + 1 ..= hi`, in order.
pub open spec fn open_ids(p: Platform, lo: int, hi: int) -> Seq<u32>
    decreases hi - lo,
{
    if hi <= lo {
        Seq::empty()
    } else {
        let prev = open_ids(p, lo, hi - 1);
        if is_open(p.campaign(hi as u32)) {
            prev.push(hi as u32)
        } else {
            prev
        }
    }
}

/// The ids in `lo + 1 ..= hi` all exist and are increasing.
proof fn lemma_open_ids(p: Platform, lo: int, hi: int)
    requires
        0 <= lo,
        hi <= u32::MAX,
    ensures
        forall|j: int|
            0 <= j < open_ids(p, lo, hi).len() ==> lo < #[trigger] open_ids(p, lo, hi)[j] <= hi,
        open_ids(p, lo, hi).len() <= if hi > lo {
            hi - lo
        } else {
            0
        },
    decreases hi - lo,
{
    if hi > lo {
        lemma_open_ids(p, lo, hi - 1);
    }
}

/// The ids `open_ids` lists are exactly the open campaigns among
/// `lo + 1 ..= hi`, in increasing order; so a page that stops at one of
/// them skips no open campaign before it.
pub proof fn lemma_open_ids_are_the_open_campaigns(p: Platform, lo: int, hi: int)
    requires
        0 <= lo,
        hi <= u32::MAX,
    ensures
        forall|j: int|
            0 <= j < open_ids(p, lo, hi).len() ==> lo < #[trigger] open_ids(p, lo, hi)[j] <= hi
                && is_open(p.campaign(open_ids(p, lo, hi)[j])),
        forall|j: int, k: int|
            0 <= j < k < open_ids(p, lo, hi).len() ==> #[trigger] open_ids(p, lo, hi)[j]
                < #[trigger] open_ids(p, lo, hi)[k],
        forall|x: u32|
            lo < x <= hi && #[trigger] is_open(p.campaign(x)) ==> exists|j: int|
                0 <= j < open_ids(p, lo, hi).len() && open_ids(p, lo, hi)[j] == x,
        forall|m: int, x: u32|
            #![trigger open_ids(p, lo, hi)[m], is_open(p.campaign(x))]
            0 <= m < open_ids(p, lo, hi).len() && lo < x <= open_ids(p, lo, hi)[m] && is_open(
                p.campaign(x),
            ) ==> exists|j: int| 0 <= j <= m && #[trigger] open_ids(p, lo, hi)[j] == x,
    decreases hi - lo,
{
    let ids = open_ids(p, lo, hi);
    if hi > lo {
        lemma_open_ids_are_the_open_campaigns(p, lo, hi - 1);
        let prev = open_ids(p, lo, hi - 1);
        assert forall|j: int| 0 <= j < prev.len() implies #[trigger] ids[j] == prev[j] by {}
        assert forall|x: u32| lo < x <= hi && #[trigger] is_open(p.campaign(x)) implies exists|j: int|
            0 <= j < ids.len() && ids[j] == x by {
            if x < hi {
                let j = choose|j: int| 0 <= j < prev.len() && prev[j] == x;
                assert(ids[j] == x);
            } else {
                assert(ids[ids.len() - 1] == x);
            }
        }
        assert forall|m: int, x: u32|
            #![trigger ids[m], is_open(p.campaign(x))]
            0 <= m < ids.len() && lo < x <= ids[m] && is_open(p.campaign(x)) implies exists|j: int|
            0 <= j <= m && #[trigger] ids[j] == x by {
            let j = choose|j: int| 0 <= j < ids.len() && ids[j] == x;
            if j > m {
                assert(ids[m] < ids[j]);
            }
        }
    }
}

/// The open ids up to `x` are a prefix of those up to `y`, and the last of
/// them, when it is `x` itself, sits where that prefix ends.
proof fn lemma_open_ids_prefix(p: Platform, lo: int, x: int, y: int)
    requires
        0 <= lo < x <= y <= u32::MAX,
        open_ids(p, lo, x).len() > 0,
        open_ids(p, lo, x).last() == x,
    ensures
        open_ids(p, lo, y).len() >= open_ids(p, lo, x).len(),
        open_ids(p, lo, y).take(open_ids(p, lo, x).len() as int) == open_ids(p, lo, x),
        open_ids(p, lo, y)[open_ids(p, lo, x).len() - 1] == x,
    decreases y - x,
{
    if y > x {
        lemma_open_ids_prefix(p, lo, x, y - 1);
        let a = open_ids(p, lo, x);
        let b = open_ids(p, lo, y - 1);
        let c = open_ids(p, lo, y);
        assert(c.take(a.len() as int) =~= b.take(a.len() as int));
    } else {
        assert(open_ids(p, lo, y).take(open_ids(p, lo, x).len() as int) =~= open_ids(p, lo, x));
    }
}

impl Platform {
    /// Number of campaigns.
    pub open spec fn campaign_count(&self) -> u32 {
        self.entries@.len() as u32
    }

    /// All campaigns, cancelled and closed included, in id order: those with
    /// ids after `start` (an exclusive cursor: the last id of the previous
    /// page, 0 for the first), at most `min(limit, LIST_MAX_LIMIT)` of them.
    pub fn list_campaigns(&self, start: u32, limit: u32) -> (r: Vec<Campaign>)
        requires
            self.wf(),
        ensures
            r@.len() == page_end(self.campaign_count(), start, limit) - start,
            forall|j: int|
                0 <= j < r@.len() ==> (#[trigger] r@[j]).same(self.campaign((start + 1 + j) as u32)),
    {
        let total = self.entries.len() as u32;
        let mut campaigns: Vec<Campaign> = Vec::new();
        if start >= total || limit == 0 {
            return campaigns;
        }
        let capped_limit = if limit < LIST_MAX_LIMIT {
            limit
        } else {
            LIST_MAX_LIMIT
        };
        let end = if start.saturating_add(capped_limit) < total {
            start.saturating_add(capped_limit)
        } else {
            total
        };
        let mut id: u64 = start as u64 + 1;
        while id <= end as u64
            invariant
                self.wf(),
                total == self.entries@.len(),
                start < id <= end + 1,
                end <= total,
                campaigns@.len() == id - start - 1,
                forall|j: int|
                    0 <= j < campaigns@.len() ==> (#[trigger] campaigns@[j]).same(
                        self.campaign((start + 1 + j) as u32),
                    ),
            decreases end + 1 - id,
        {
            campaigns.push(self.entries[(id - 1) as usize].campaign.duplicate());
            id = id + 1;
        }
        campaigns
    }

    /// Scans campaign ids after `start` for open campaigns, at most
    /// `MAX_SCAN_WINDOW` ids per call, collecting up to
    /// `min(limit, LIST_MAX_LIMIT)`. Returns the campaigns, the cursor to
    /// continue from (0 once the scan reached the last campaign), and, when
    /// the window ran out first, a `ScanWindowExhausted` event telling the
    /// caller to re-query from the cursor.
    pub fn list_active_campaigns(&self, start: u32, limit: u32) -> (r: (Vec<Campaign>, u32, Vec<Effect>))
        requires
            self.wf(),
        ensures
            ({
                let total = self.campaign_count();
                let c = capped(limit);
                let window_end = sat_add(start, MAX_SCAN_WINDOW);
                let scan_end = if window_end < total {
                    window_end
                } else {
                    total
                };
                let ids = open_ids(*self, start as int, scan_end as int);
                if start >= total || limit == 0 {
                    r.0@.len() == 0 && r.1 == 0 && r.2@.len() == 0
                } else if ids.len() >= c {
                    &&& copies_of(*self, r.0@, ids.take(c as int))
                    &&& r.1 == sat_add(ids[c - 1], 1)
                    &&& r.2@.len() == 0
                } else {
                    &&& copies_of(*self, r.0@, ids)
                    &&& if total > window_end {
                        &&& r.1 == window_end + 1
                        &&& r.2@ == seq![
                            Effect::Emit(
                                Event::ScanWindowExhausted {
                                    start,
                                    current_id: (window_end + 1) as u32,
                                    collected: ids.len() as u32,
                                    limit: c,
                                },
                            ),
                        ]
                    } else {
                        r.1 == 0 && r.2@.len() == 0
                    }
                }
            }),
    {
        let total = self.entries.len() as u32;
        let mut campaigns: Vec<Campaign> = Vec::new();
        let mut effects: Vec<Effect> = Vec::new();
        if start >= total || limit == 0 {
            return (campaigns, 0, effects);
        }
        let capped_limit = if limit < LIST_MAX_LIMIT {
            limit
        } else {
            LIST_MAX_LIMIT
        };
        let mut collected: u32 = 0;
        let window_end = start.saturating_add(MAX_SCAN_WINDOW);
        let ghost scan_end = if window_end < total {
            window_end
        } else {
            total
        };
        let mut current_id: u64 = start as u64 + 1;
        while current_id <= total as u64
            invariant
                self.wf(),
                total == self.entries@.len(),
                start < total,
                0 < capped_limit <= LIST_MAX_LIMIT,
                capped_limit == capped(limit),
                window_end == sat_add(start, MAX_SCAN_WINDOW),
                scan_end == if window_end < total {
                    window_end
                } else {
                    total
                },
                start < current_id <= total + 1,
                current_id <= window_end + 1,
                collected == campaigns@.len(),
                collected < capped_limit,
                copies_of(*self, campaigns@, open_ids(*self, start as int, current_id - 1)),
                effects@.len() == 0,
            decreases total + 1 - current_id,
        {
            if current_id > window_end as u64 {
                proof {
                    assert(current_id - 1 == scan_end);
                }
                effects.push(
                    Effect::Emit(
                        Event::ScanWindowExhausted {
                            start,
                            current_id: current_id as u32,
                            collected,
                            limit: capped_limit,
                        },
                    ),
                );
                return (campaigns, current_id as u32, effects);
            }
            let campaign = &self.entries[(current_id - 1) as usize].campaign;
            if campaign.is_active && !campaign.is_cancelled {
                let ghost prev = campaigns@;
                campaigns.push(campaign.duplicate());
                collected = collected + 1;
                proof {
                    let ids = open_ids(*self, start as int, current_id as int);
                    assert(ids.len() == campaigns@.len());
                    assert forall|j: int| 0 <= j < ids.len() implies (#[trigger] campaigns@[j]).same(
                        self.campaign(ids[j]),
                    ) by {
                        if j < prev.len() {
                            assert(campaigns@[j] == prev[j]);
                        }
                    }
                    assert(open_ids(*self, start as int, current_id as int) == open_ids(
                        *self,
                        start as int,
                        current_id - 1,
                    ).push(current_id as u32));
                }
                if collected >= capped_limit {
                    proof {
                        lemma_open_ids_prefix(*self, start as int, current_id as int, scan_end as int);
                    }
                    return (campaigns, (current_id as u32).saturating_add(1), effects);
                }
            }
            current_id = current_id + 1;
        }
        (campaigns, 0, effects)
    }
}

} // verus!

verus! {

/// The inner step of the bucket walk: reads bucket slots from `idx` while
/// positions stay below `end`, collecting the ids of existing campaigns and
/// moving the cursor past each one collected.
pub open spec fn walk_inner(
    p: Platform,
    bucket: Seq<u32>,
    idx: int,
    position: int,
    end: int,
    next: int,
    acc: Seq<u32>,
) -> (int, int, int, Seq<u32>)
    decreases end - position,
{
    if 0 <= idx < bucket.len() && position < end {
        let id = bucket[idx];
        if p.has_campaign(id) {
            walk_inner(p, bucket, idx + 1, position + 1, end, position + 1, acc.push(id))
        } else {
            walk_inner(p, bucket, idx + 1, position + 1, end, next, acc)
        }
    } else {
        (idx, position, next, acc)
    }
}

/// The bucket walk from `position` to `end` over the index under `k`: the
/// ids collected and the cursor, or `None` when the walk would never finish
/// (a bucket holds fewer ids than its share of the positions).
pub open spec fn walk(
    p: Platform,
    t: Table<BucketIndex>,
    k: u64,
    size: u32,
    end: int,
    position: int,
    next: int,
    acc: Seq<u32>,
) -> Option<(Seq<u32>, int)>
    decreases end - position,
{
    if position >= end || size == 0 {
        Some((acc, next))
    } else {
        let b = position / (size as int);
        let bs = b * size;
        let bucket = idx_bucket(t, k, b as u64);
        let inner = walk_inner(p, bucket, position - bs, position, end, next, acc);
        let len = bucket.len() as int;
        if inner.0 >= len {
            let pos3 = if len == 0 {
                bs + size
            } else {
                bs + len
            };
            if pos3 <= position {
                None
            } else if pos3 >= end {
                Some((inner.3, inner.2))
            } else {
                walk(p, t, k, size, end, pos3, inner.2, inner.3)
            }
        } else {
            Some((inner.3, inner.1))
        }
    }
}

/// One page of the index under `k`: the ids of the existing campaigns at
/// positions `start ..` (a zero-based offset, not a campaign id), at most
/// `min(limit, LIST_MAX_LIMIT)` positions and none past `total`, with the
/// cursor to continue from; `None` when the walk would never finish.
pub open spec fn bucket_page(
    p: Platform,
    t: Table<BucketIndex>,
    k: u64,
    start: u32,
    limit: u32,
    total: u32,
    size: u32,
) -> Option<(Seq<u32>, int)> {
    let c = capped(limit);
    if start >= total || c == 0 {
        Some((Seq::empty(), start as int))
    } else {
        let end = if sat_add(start, c) < total {
            sat_add(start, c)
        } else {
            total
        };
        walk(p, t, k, size, end as int, start as int, start as int, Seq::empty())
    }
}

impl Platform {
    /// Pages through the index under `key` of `t`, whose buckets hold `size`
    /// ids each: the shared traversal of the category, tag and creator
    /// queries.
    ///
    /// The walk jumps straight to the bucket holding position `start` and
    /// reads on from there; an empty bucket is skipped whole. An index whose
    /// buckets hold fewer ids than their share of the positions (left by
    /// ownership transfers out of a bucket that is not the last) would make
    /// the walk revisit the same position forever; that is reported as
    /// `InvariantBroken`.
    pub fn get_campaigns_from_buckets(
        &self,
        t: &Table<BucketIndex>,
        key: u64,
        start: u32,
        limit: u32,
        total: u32,
        size: u32,
    ) -> (r: Result<(Vec<Campaign>, u32), Error>)
        requires
            self.wf(),
            indexes_wf(*t),
            size > 0,
        ensures
            match bucket_page(*self, *t, key, start, limit, total, size) {
                None => r == Err::<(Vec<Campaign>, u32), Error>(Error::InvariantBroken),
                Some((ids, next)) => r matches Ok((v, n)) && copies_of(*self, v@, ids) && n == next,
            },
    {
        let mut campaigns: Vec<Campaign> = Vec::new();
        let capped_limit = if limit < LIST_MAX_LIMIT {
            limit
        } else {
            LIST_MAX_LIMIT
        };
        if start >= total || capped_limit == 0 {
            return Ok((campaigns, start));
        }
        let end = if start.saturating_add(capped_limit) < total {
            start.saturating_add(capped_limit)
        } else {
            total
        };
        let mut position: u32 = start;
        let mut next_cursor: u32 = start;
        let ghost mut acc: Seq<u32> = Seq::empty();
        while position < end
            invariant
                self.wf(),
                indexes_wf(*t),
                size > 0,
                position <= end,
                walk(*self, *t, key, size, end as int, position as int, next_cursor as int, acc)
                    == bucket_page(*self, *t, key, start, limit, total, size),
                copies_of(*self, campaigns@, acc),
                forall|j: int| 0 <= j < acc.len() ==> self.has_campaign(#[trigger] acc[j]),
            decreases end - position,
        {
            let b = position / size;
            let bucket = match t.get(key) {
                Some(index) => index.get_bucket(b),
                None => Vec::new(),
            };
            proof {
                assert(b * size <= position) by (nonlinear_arith)
                    requires
                        b == position / size,
                        size > 0,
                ;
            }
            let bucket_start: u32 = b * size;
            let pos_before: u32 = position;
            let ghost pos0 = position;
            let ghost next0 = next_cursor;
            let ghost acc0 = acc;
            let ghost idx0 = (position - bucket_start) as int;
            let mut idx: usize = (position - bucket_start) as usize;
            let bucket_len = bucket.len();
            while idx < bucket_len && position < end
                invariant
                    self.wf(),
                    bucket_len == bucket@.len(),
                    position <= end,
                    pos0 <= position,
                    idx - idx0 == position - pos0,
                    idx0 >= 0,
                    walk_inner(*self, bucket@, idx as int, position as int, end as int, next_cursor as int, acc)
                        == walk_inner(*self, bucket@, idx0, pos0 as int, end as int, next0 as int, acc0),
                    copies_of(*self, campaigns@, acc),
                    forall|j: int| 0 <= j < acc.len() ==> self.has_campaign(#[trigger] acc[j]),
                decreases end - position,
            {
                let campaign_id = bucket[idx];
                // An id with no campaign behind it is skipped.
                if campaign_id >= 1 && (campaign_id as usize) <= self.entries.len() {
                    let ghost prev = campaigns@;
                    campaigns.push(self.entries[(campaign_id - 1) as usize].campaign.duplicate());
                    proof {
                        let acc2 = acc.push(campaign_id);
                        assert forall|j: int| 0 <= j < acc2.len() implies (#[trigger] campaigns@[j]).same(
                            self.campaign(acc2[j]),
                        ) by {
                            if j < prev.len() {
                                assert(campaigns@[j] == prev[j]);
                            }
                        }
                        acc = acc2;
                    }
                    next_cursor = position + 1;
                }
                idx = idx + 1;
                position = position + 1;
            }
            if idx >= bucket_len {
                let pos3: u64 = if bucket_len == 0 {
                    bucket_start as u64 + size as u64
                } else {
                    bucket_start as u64 + bucket_len as u64
                };
                if pos3 <= pos_before as u64 {
                    return Err(Error::InvariantBroken);
                }
                position = if pos3 < end as u64 {
                    pos3 as u32
                } else {
                    end
                };
            } else {
                next_cursor = position;
            }
        }
        Ok((campaigns, next_cursor))
    }
}


impl Platform {
    /// The number of campaigns indexed under `key` of `t`.
    pub fn index_count(t: &Table<BucketIndex>, key: u64) -> (n: u32)
        requires
            indexes_wf(*t),
        ensures
            n == idx_count(*t, key),
    {
        match t.get(key) {
            Some(index) => index.count,
            None => 0,
        }
    }

    /// The campaigns of `category`, paginated: `offset` is a zero-based
    /// position in the category's list, not a campaign id. Returns the page
    /// and the cursor to continue from.
    pub fn get_campaigns_by_category(&self, category: Category, offset: u32, limit: u32) -> (r:
        Result<(Vec<Campaign>, u32), Error>)
        requires
            self.wf(),
        ensures
            match bucket_page(
                *self,
                self.category_index,
                category_slot(category),
                offset,
                limit,
                idx_count(self.category_index, category_slot(category)),
                CATEGORY_CAMPAIGNS_BUCKET_SIZE,
            ) {
                None => r == Err::<(Vec<Campaign>, u32), Error>(Error::InvariantBroken),
                Some((ids, next)) => r matches Ok((v, n)) && copies_of(*self, v@, ids) && n == next,
            },
    {
        let key = category_index(category) as u64;
        let total = Self::index_count(&self.category_index, key);
        self.get_campaigns_from_buckets(
            &self.category_index,
            key,
            offset,
            limit,
            total,
            CATEGORY_CAMPAIGNS_BUCKET_SIZE,
        )
    }

    /// The campaigns tagged `tag`, paginated like
    /// [`Platform::get_campaigns_by_category`]. An empty, over-long or
    /// unknown tag gives an empty page and the cursor unchanged.
    pub fn get_campaigns_by_tag(&self, tag: &Vec<u8>, offset: u32, limit: u32) -> (r: Result<
        (Vec<Campaign>, u32),
        Error,
    >)
        requires
            self.wf(),
        ensures
            tag@.len() < CAMPAIGN_TAG_MIN_LEN || tag@.len() > CAMPAIGN_TAG_MAX_LEN ==> (r matches Ok(
                (v, n),
            ) && v@.len() == 0 && n == offset),
            CAMPAIGN_TAG_MIN_LEN <= tag@.len() <= CAMPAIGN_TAG_MAX_LEN ==> match bucket_page(
                *self,
                self.tag_index,
                self.tag_key(tag@),
                offset,
                limit,
                idx_count(self.tag_index, self.tag_key(tag@)),
                TAG_CAMPAIGNS_BUCKET_SIZE,
            ) {
                None => r == Err::<(Vec<Campaign>, u32), Error>(Error::InvariantBroken),
                Some((ids, next)) => r matches Ok((v, n)) && copies_of(*self, v@, ids) && n == next,
            },
    {
        if tag.len() < CAMPAIGN_TAG_MIN_LEN || tag.len() > CAMPAIGN_TAG_MAX_LEN {
            return Ok((Vec::new(), offset));
        }
        let (key, _known) = self.find_tag(tag);
        let total = Self::index_count(&self.tag_index, key);
        self.get_campaigns_from_buckets(
            &self.tag_index,
            key,
            offset,
            limit,
            total,
            TAG_CAMPAIGNS_BUCKET_SIZE,
        )
    }

    /// The campaigns of `creator`, paginated like
    /// [`Platform::get_campaigns_by_category`].
    pub fn get_creator_campaigns(&self, creator: AccountId, start: u32, limit: u32) -> (r: Result<
        (Vec<Campaign>, u32),
        Error,
    >)
        requires
            self.wf(),
        ensures
            match bucket_page(
                *self,
                self.creator_index,
                creator as u64,
                start,
                limit,
                idx_count(self.creator_index, creator as u64),
                CREATOR_CAMPAIGNS_BUCKET_SIZE,
            ) {
                None => r == Err::<(Vec<Campaign>, u32), Error>(Error::InvariantBroken),
                Some((ids, next)) => r matches Ok((v, n)) && copies_of(*self, v@, ids) && n == next,
            },
    {
        let total = Self::index_count(&self.creator_index, creator);
        self.get_campaigns_from_buckets(
            &self.creator_index,
            creator,
            start,
            limit,
            total,
            CREATOR_CAMPAIGNS_BUCKET_SIZE,
        )
    }

    /// The tags of campaign `campaign_id` in the order they were added;
    /// none for an unknown campaign.
    pub fn get_campaign_tag_list(&self, campaign_id: u32) -> (r: Vec<Vec<u8>>)
        requires
            self.wf(),
        ensures
            !self.has_campaign(campaign_id) ==> r@.len() == 0,
            self.has_campaign(campaign_id) ==> {
                &&& r@.len() == self.entry(campaign_id).tags@.len()
                &&& forall|j: int|
                    0 <= j < r@.len() ==> (#[trigger] r@[j])@ == self.entry(campaign_id).tags@[j]@
            },
    {
        let mut tags: Vec<Vec<u8>> = Vec::new();
        if campaign_id == 0 || campaign_id as usize > self.entries.len() {
            return tags;
        }
        let entry = &self.entries[(campaign_id - 1) as usize];
        let mut i: usize = 0;
        while i < entry.tags.len()
            invariant
                i <= entry.tags@.len(),
                tags@.len() == i,
                forall|j: int| 0 <= j < i ==> (#[trigger] tags@[j])@ == entry.tags@[j]@,
            decreases entry.tags@.len() - i,
        {
            tags.push(copy_bytes(&entry.tags[i]));
            i = i + 1;
        }
        tags
    }
}

} // verus!
