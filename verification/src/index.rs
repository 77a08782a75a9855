//! Lists of campaign ids split into fixed-size buckets: the layout of the
//! category, creator and tag indexes.

use vstd::prelude::*;

use crate::table::Table;

verus! {

/// A copy of a list of ids.
pub fn copy_ids(v: &Vec<u32>) -> (c: Vec<u32>)
    ensures
        c@ == v@,
{
    let mut c: Vec<u32> = Vec::new();
    let mut i: usize = 0;
    while i < v.len()
        invariant
            i <= v.len(),
            c@ == v@.subrange(0, i as int),
        decreases v.len() - i,
    {
        c.push(v[i]);
        i = i + 1;
    }
    assert(c@ =~= v@);
    c
}

/// A list of campaign ids split into fixed-size buckets, with a count and,
/// for creator indexes, the `(bucket, slot)` position of each id.
pub struct BucketIndex {
    pub count: u32,
    /// Buckets by bucket number; a missing bucket is empty.
    pub buckets: Table<Vec<u32>>,
    /// `(bucket, slot)` of each campaign id.
    pub positions: Table<(u32, u32)>,
}

impl BucketIndex {
    pub open spec fn wf(&self) -> bool {
        self.buckets.wf() && self.positions.wf()
    }

    /// The contents of bucket `b`.
    pub open spec fn bucket(&self, b: u64) -> Seq<u32> {
        if self.buckets@.contains_key(b) {
            self.buckets@[b]@
        } else {
            Seq::empty()
        }
    }

    /// The recorded position of campaign `id`.
    pub open spec fn position(&self, id: u64) -> Option<(u32, u32)> {
        if self.positions@.contains_key(id) {
            Some(self.positions@[id])
        } else {
            None
        }
    }

    /// An empty index.
    pub fn new() -> (r: BucketIndex)
        ensures
            r.wf(),
            r.count == 0,
            forall|b: u64| r.bucket(b) == Seq::<u32>::empty(),
            forall|id: u64| r.position(id) is None,
    {
        BucketIndex { count: 0, buckets: Table::new(), positions: Table::new() }
    }

    /// A copy of bucket `b`.
    pub fn get_bucket(&self, b: u32) -> (r: Vec<u32>)
        requires
            self.wf(),
        ensures
            r@ == self.bucket(b as u64),
    {
        match self.buckets.get(b as u64) {
            Some(v) => copy_ids(v),
            None => Vec::new(),
        }
    }

    /// The recorded position of campaign `id`.
    pub fn get_position(&self, id: u32) -> (r: Option<(u32, u32)>)
        requires
            self.wf(),
        ensures
            r == self.position(id as u64),
    {
        match self.positions.get(id as u64) {
            Some(p) => Some(*p),
            None => None,
        }
    }

    /// Replaces bucket `b`.
    pub fn set_bucket(&mut self, b: u32, bucket: Vec<u32>)
        requires
            old(self).wf(),
        ensures
            final(self).wf(),
            final(self).count == old(self).count,
            final(self).positions == old(self).positions,
            forall|bb: u64|
                #[trigger] final(self).bucket(bb) == if bb == b as u64 {
                    bucket@
                } else {
                    old(self).bucket(bb)
                },
    {
        self.buckets.insert(b as u64, bucket);
    }

    /// Records the position of campaign `id`.
    pub fn set_position(&mut self, id: u32, p: (u32, u32))
        requires
            old(self).wf(),
        ensures
            final(self).wf(),
            final(self).count == old(self).count,
            final(self).buckets == old(self).buckets,
            forall|x: u64|
                #[trigger] final(self).position(x) == if x == id as u64 {
                    Some(p)
                } else {
                    old(self).position(x)
                },
    {
        self.positions.insert(id as u64, p);
    }

    /// Forgets the position of campaign `id`.
    pub fn remove_position(&mut self, id: u32)
        requires
            old(self).wf(),
        ensures
            final(self).wf(),
            final(self).count == old(self).count,
            final(self).buckets == old(self).buckets,
            forall|x: u64|
                #[trigger] final(self).position(x) == if x == id as u64 {
                    None
                } else {
                    old(self).position(x)
                },
    {
        let _ = self.positions.take(id as u64);
    }

    /// Appends campaign `id` to bucket `count / size` and counts it;
    /// records its position when `track` is set.
    pub fn append(&mut self, id: u32, size: u32, track: bool)
        requires
            old(self).wf(),
            size > 0,
            old(self).count < u32::MAX,
            old(self).bucket((old(self).count / size) as u64).len() < u32::MAX,
        ensures
            final(self).wf(),
            index_appended(*old(self), *final(self), id, size, track),
    {
        let ghost old_self = *self;
        let count = self.count;
        let b = count / size;
        let mut bucket = self.get_bucket(b);
        bucket.push(id);
        let slot = (bucket.len() - 1) as u32;
        assert(slot == old_self.bucket(b as u64).len());
        assert(bucket@ == old_self.bucket(b as u64).push(id));
        self.set_bucket(b, bucket);
        let ghost s1 = *self;
        assert(s1.bucket(b as u64) == old_self.bucket(b as u64).push(id));
        if track {
            self.set_position(id, (b, slot));
        }
        let ghost s2 = *self;
        self.count = count + 1;
        assert(self.buckets == s1.buckets);
        assert forall|bb: u64| #[trigger] self.bucket(bb) == if bb == b as u64 {
            old_self.bucket(b as u64).push(id)
        } else {
            old_self.bucket(bb)
        } by {
            assert(self.bucket(bb) == s1.bucket(bb));
        }
        assert forall|x: u64| #[trigger] self.position(x) == if track && x == id as u64 {
            Some((b, old_self.bucket(b as u64).len() as u32))
        } else {
            old_self.position(x)
        } by {
            assert(s1.position(x) == old_self.position(x));
            assert(self.position(x) == s2.position(x));
        }
    }
}

/// `new` is `old` with campaign `id` appended to bucket `old.count / size`,
/// counted, and (when `track`) its position recorded.
pub open spec fn index_appended(
    old: BucketIndex,
    new: BucketIndex,
    id: u32,
    size: u32,
    track: bool,
) -> bool {
    let b = (old.count / size) as u64;
    &&& new.count == old.count + 1
    &&& forall|bb: u64|
        #[trigger] new.bucket(bb) == if bb == b {
            old.bucket(b).push(id)
        } else {
            old.bucket(bb)
        }
    &&& forall|x: u64|
        #[trigger] new.position(x) == if track && x == id as u64 {
            Some((b as u32, old.bucket(b).len() as u32))
        } else {
            old.position(x)
        }
}

/// The count of the index stored under `k` (0 when there is none).
pub open spec fn idx_count(t: Table<BucketIndex>, k: u64) -> u32 {
    if t@.contains_key(k) {
        t@[k].count
    } else {
        0
    }
}

/// Bucket `b` of the index stored under `k` (empty when there is none).
pub open spec fn idx_bucket(t: Table<BucketIndex>, k: u64, b: u64) -> Seq<u32> {
    if t@.contains_key(k) {
        t@[k].bucket(b)
    } else {
        Seq::empty()
    }
}

/// The recorded position of campaign `id` in the index stored under `k`.
pub open spec fn idx_position(t: Table<BucketIndex>, k: u64, id: u64) -> Option<(u32, u32)> {
    if t@.contains_key(k) {
        t@[k].position(id)
    } else {
        None
    }
}

/// Every index in a table of indexes is well formed.
pub open spec fn indexes_wf(t: Table<BucketIndex>) -> bool {
    &&& t.wf()
    &&& forall|k: u64| #[trigger] t@.contains_key(k) ==> t@[k].wf()
}

/// Campaign `id` can be appended to the index under `k` without a counter
/// overflowing.
pub open spec fn idx_can_append(t: Table<BucketIndex>, k: u64, size: u32) -> bool {
    &&& idx_count(t, k) < u32::MAX
    &&& idx_bucket(t, k, (idx_count(t, k) / size) as u64).len() < u32::MAX
}

/// Whether a campaign can be appended to the index under `k` of `t`
/// without a counter overflowing.
pub fn can_append(t: &Table<BucketIndex>, k: u64, size: u32) -> (r: bool)
    requires
        indexes_wf(*t),
        size > 0,
    ensures
        r == idx_can_append(*t, k, size),
{
    match t.get(k) {
        Some(index) => {
            if index.count == u32::MAX {
                false
            } else {
                let bucket = index.get_bucket(index.count / size);
                bucket.len() < u32::MAX as usize
            }
        },
        None => true,
    }
}

/// The index under `k` in `new` is the one in `old` with campaign `id`
/// appended to bucket `count / size`, counted and (when `track`) its
/// position recorded.
pub open spec fn key_appended(
    old: Table<BucketIndex>,
    new: Table<BucketIndex>,
    k: u64,
    id: u32,
    size: u32,
    track: bool,
) -> bool {
    let c = idx_count(old, k);
    let b = (c / size) as u64;
    &&& new@.contains_key(k)
    &&& idx_count(new, k) == c + 1
    &&& forall|bb: u64|
        #[trigger] idx_bucket(new, k, bb) == if bb == b {
            idx_bucket(old, k, b).push(id)
        } else {
            idx_bucket(old, k, bb)
        }
    &&& forall|x: u64|
        #[trigger] idx_position(new, k, x) == if track && x == id as u64 {
            Some((b as u32, idx_bucket(old, k, b).len() as u32))
        } else {
            idx_position(old, k, x)
        }
}

/// `new` is `old` with campaign `id` appended to the index under `k`, all
/// other indexes unchanged.
pub open spec fn table_appended(
    old: Table<BucketIndex>,
    new: Table<BucketIndex>,
    k: u64,
    id: u32,
    size: u32,
    track: bool,
) -> bool {
    &&& new@.remove(k) == old@.remove(k)
    &&& key_appended(old, new, k, id, size, track)
}

/// Appends campaign `id` to the index stored under `k`, creating the index
/// when there is none.
pub fn append_to_index(t: &mut Table<BucketIndex>, k: u64, id: u32, size: u32, track: bool)
    requires
        indexes_wf(*old(t)),
        size > 0,
        idx_can_append(*old(t), k, size),
    ensures
        indexes_wf(*final(t)),
        table_appended(*old(t), *final(t), k, id, size, track),
{
    let ghost t0 = *t;
    let mut index = match t.take(k) {
        Some(index) => index,
        None => BucketIndex::new(),
    };
    let ghost i0 = index;
    index.append(id, size, track);
    let ghost i1 = index;
    t.insert(k, index);
    proof {
        assert(t@ == t0@.remove(k).insert(k, i1));
        assert(t@.remove(k) =~= t0@.remove(k));
        assert forall|kk: u64| #[trigger] t@.contains_key(kk) implies t@[kk].wf() by {
            if kk != k {
                assert(t0@.contains_key(kk));
            }
        }
    }
}

} // verus!

verus! {

/// Position of the first occurrence of `x` in `s`, or -1.
pub open spec fn first_pos(s: Seq<u32>, x: u32) -> int
    decreases s.len(),
{
    if s.len() == 0 {
        -1
    } else if s[0] == x {
        0
    } else {
        let r = first_pos(s.drop_first(), x);
        if r < 0 {
            -1
        } else {
            r + 1
        }
    }
}

/// `first_pos` finds the first occurrence, and -1 exactly when there is
/// none.
pub proof fn lemma_first_pos(s: Seq<u32>, x: u32)
    ensures
        first_pos(s, x) == -1 <==> !s.contains(x),
        first_pos(s, x) >= 0 ==> first_pos(s, x) < s.len() && s[first_pos(s, x)] == x
            && forall|j: int| 0 <= j < first_pos(s, x) ==> s[j] != x,
    decreases s.len(),
{
    if s.len() > 0 {
        lemma_first_pos(s.drop_first(), x);
        if s[0] != x {
            if s.contains(x) {
                let k = choose|k: int| 0 <= k < s.len() && s[k] == x;
                assert(s.drop_first()[k - 1] == x);
            }
            if s.drop_first().contains(x) {
                let k = choose|k: int| 0 <= k < s.drop_first().len() && s.drop_first()[k] == x;
                assert(s[k + 1] == x);
            }
            let r = first_pos(s.drop_first(), x);
            if r >= 0 {
                assert forall|j: int| 0 <= j < r + 1 implies s[j] != x by {
                    if j > 0 {
                        assert(s[j] == s.drop_first()[j - 1]);
                    }
                }
            }
        } else {
            assert(s.contains(x));
        }
    }
}

/// The position of the first occurrence of `x` in `v`.
pub fn first_index_of(v: &Vec<u32>, x: u32) -> (r: Option<usize>)
    ensures
        match r {
            Some(i) => first_pos(v@, x) >= 0 && i == first_pos(v@, x),
            None => first_pos(v@, x) == -1,
        },
{
    proof {
        lemma_first_pos(v@, x);
    }
    let mut i: usize = 0;
    while i < v.len()
        invariant
            i <= v@.len(),
            forall|j: int| 0 <= j < i ==> v@[j] != x,
            first_pos(v@, x) == -1 <==> !v@.contains(x),
            first_pos(v@, x) >= 0 ==> first_pos(v@, x) < v@.len() && v@[first_pos(v@, x)] == x
                && forall|j: int| 0 <= j < first_pos(v@, x) ==> v@[j] != x,
        decreases v@.len() - i,
    {
        if v[i] == x {
            assert(v@.contains(x));
            let ghost f = first_pos(v@, x);
            assert(f == i) by {
                if f < i {
                    assert(v@[f] != x);
                }
                if f > i {
                    assert(v@[i as int] != x);
                }
            }
            return Some(i);
        }
        i = i + 1;
    }
    assert(!v@.contains(x)) by {
        if v@.contains(x) {
            let k = choose|k: int| 0 <= k < v@.len() && v@[k] == x;
            assert(v@[k] != x);
        }
    }
    None
}

/// Number of buckets that `count` ids fill: `count / size` rounded up.
pub open spec fn buckets_for(count: u32, size: u32) -> u32 {
    (count / size + if count % size == 0 {
        0u32
    } else {
        1u32
    }) as u32
}

/// The first bucket from `b` up to `nb` that holds `id`, with the slot of
/// its first occurrence there.
pub open spec fn scan_buckets(ix: BucketIndex, id: u32, b: u32, nb: u32) -> Option<(u32, u32)>
    decreases nb - b,
{
    if b >= nb {
        None
    } else if ix.bucket(b as u64).contains(id) {
        Some((b, first_pos(ix.bucket(b as u64), id) as u32))
    } else {
        scan_buckets(ix, id, (b + 1) as u32, nb)
    }
}

/// Where campaign `id` sits in the index: its recorded position, or, for
/// campaigns indexed before positions were recorded, the first occurrence
/// found by scanning the buckets.
pub open spec fn locate(ix: BucketIndex, id: u32, size: u32) -> Option<(u32, u32)> {
    match ix.position(id as u64) {
        Some(p) => Some(p),
        None => scan_buckets(ix, id, 0, buckets_for(ix.count, size)),
    }
}

impl BucketIndex {
    /// The recorded position of campaign `id`, or the first occurrence found
    /// by scanning the buckets.
    pub fn position_or_scan(&self, id: u32, size: u32) -> (r: Option<(u32, u32)>)
        requires
            self.wf(),
            size >= 2,
        ensures
            r == locate(*self, id, size),
    {
        if let Some(position) = self.get_position(id) {
            return Some(position);
        }
        // Campaigns indexed before positions were recorded have none; find
        // them by scanning.
        assert(self.count / size <= u32::MAX / 2) by (nonlinear_arith)
            requires
                size >= 2,
        ;
        let bucket_count: u32 = self.count / size + if self.count % size == 0 {
            0u32
        } else {
            1u32
        };
        let mut bucket_idx: u32 = 0;
        while bucket_idx < bucket_count
            invariant
                self.wf(),
                bucket_count == buckets_for(self.count, size),
                bucket_idx <= bucket_count,
                self.position(id as u64) is None,
                scan_buckets(*self, id, 0, bucket_count) == scan_buckets(
                    *self,
                    id,
                    bucket_idx,
                    bucket_count,
                ),
            decreases bucket_count - bucket_idx,
        {
            let bucket = self.get_bucket(bucket_idx);
            if let Some(slot_idx) = first_index_of(&bucket, id) {
                proof {
                    lemma_first_pos(bucket@, id);
                }
                return Some((bucket_idx, slot_idx as u32));
            }
            proof {
                lemma_first_pos(bucket@, id);
            }
            bucket_idx = bucket_idx + 1;
        }
        None
    }

    /// Takes campaign `id` out of slot `slot` of bucket `b` by moving the
    /// bucket's last id into its place, uncounts it and forgets its
    /// position.
    pub fn remove_at(&mut self, b: u32, slot: u32, id: u32)
        requires
            old(self).wf(),
            slot < old(self).bucket(b as u64).len(),
            old(self).bucket(b as u64)[slot as int] == id,
        ensures
            final(self).wf(),
            index_removed(*old(self), *final(self), id, b, slot),
    {
        let ghost old_self = *self;
        let mut bucket = self.get_bucket(b);
        let last_slot_idx = bucket.len() - 1;
        let last_campaign_id = bucket[last_slot_idx];
        if slot as usize != last_slot_idx {
            bucket.set(slot as usize, last_campaign_id);
            self.set_position(last_campaign_id, (b, slot));
        }
        let ghost s1 = *self;
        bucket.pop();
        self.set_bucket(b, bucket);
        let ghost s2 = *self;
        self.remove_position(id);
        let ghost s3 = *self;
        self.count = self.count.saturating_sub(1);
        assert forall|bb: u64| #[trigger] self.bucket(bb) == if bb == b as u64 {
            if slot as int != old_self.bucket(b as u64).len() - 1 {
                old_self.bucket(b as u64).update(
                    slot as int,
                    old_self.bucket(b as u64).last(),
                ).drop_last()
            } else {
                old_self.bucket(b as u64).drop_last()
            }
        } else {
            old_self.bucket(bb)
        } by {
            assert(self.bucket(bb) == s2.bucket(bb));
            assert(s1.bucket(bb) == old_self.bucket(bb));
        }
        assert forall|x: u64| #[trigger] self.position(x) == if x == id as u64 {
            None
        } else if slot as int != old_self.bucket(b as u64).len() - 1 && x == old_self.bucket(
            b as u64,
        ).last() as u64 {
            Some((b, slot))
        } else {
            old_self.position(x)
        } by {
            assert(self.position(x) == s3.position(x));
            assert(s2.position(x) == s1.position(x));
        }
    }
}

/// `new` is `old` with campaign `id` taken out of slot `slot` of bucket `b`
/// (the bucket's last id moved into its place), uncounted, and its position
/// forgotten.
pub open spec fn index_removed(old: BucketIndex, new: BucketIndex, id: u32, b: u32, slot: u32) -> bool {
    let bucket = old.bucket(b as u64);
    let moved = slot as int != bucket.len() - 1;
    &&& new.count == if old.count == 0 {
        0
    } else {
        (old.count - 1) as u32
    }
    &&& forall|bb: u64|
        #[trigger] new.bucket(bb) == if bb == b as u64 {
            if moved {
                bucket.update(slot as int, bucket.last()).drop_last()
            } else {
                bucket.drop_last()
            }
        } else {
            old.bucket(bb)
        }
    &&& forall|x: u64|
        #[trigger] new.position(x) == if x == id as u64 {
            None
        } else if moved && x == bucket.last() as u64 {
            Some((b, slot))
        } else {
            old.position(x)
        }
}

} // verus!
