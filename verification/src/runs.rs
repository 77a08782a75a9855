//! Properties of whole runs of calls: every milestone of a campaign claimed
//! once in some order, and every contributor's revenue claims against one
//! pool.

use vstd::prelude::*;

use crate::contributions::{contribution_total, lemma_contribution_sum_update};
use crate::laws::{
    claimed_fn, lemma_claimed_record, lemma_contribution_sum_nonneg, lemma_last_milestone_takes_rest,
    lemma_milestone_claim_step, lemma_record_sum_update, lemma_revenue_claim_pays_owed,
    lemma_sweep_completes_pool, lemma_unswept_within_pool, record_sum, revenue_unswept,
};
use crate::milestones::{claimed_fees, claimed_totals, fee_total_of, is_claimed, milestones_valid};
use crate::revenue::{creator_share_of, lemma_due_is_owed, revenue_owed};
use crate::state::{CampaignEntry, ContributorRecord, Platform};
use crate::table::lemma_to_map;
use crate::types::{AccountId, Campaign, Milestone};

verus! {

/// `ps[i + 1]` is the state after milestone `ids[i]` of campaign
/// `campaign_id` was paid out of `ps[i]`, for every step of the run.
pub open spec fn milestone_run(ps: Seq<Platform>, ids: Seq<u32>, campaign_id: u32) -> bool {
    &&& ps.len() == ids.len() + 1
    &&& forall|i: int|
        0 <= i < ids.len() ==> (#[trigger] ps[i]).claim_milestone_outcome(campaign_id, ids[i]) is Ok
            && ps[i].milestone_paid(ps[i + 1], campaign_id, ids[i])
}

/// What the creator was paid over the first `n` steps of a run.
pub open spec fn run_payouts(ps: Seq<Platform>, ids: Seq<u32>, campaign_id: u32, n: int) -> int
    decreases n,
{
    if n <= 0 {
        0
    } else {
        run_payouts(ps, ids, campaign_id, n - 1) + ps[n - 1].claim_milestone_outcome(
            campaign_id,
            ids[n - 1],
        )->Ok_0.0
    }
}

/// The fees paid over the first `n` steps of a run.
pub open spec fn run_fees(ps: Seq<Platform>, ids: Seq<u32>, campaign_id: u32, n: int) -> int
    decreases n,
{
    if n <= 0 {
        0
    } else {
        run_fees(ps, ids, campaign_id, n - 1) + ps[n - 1].claim_milestone_outcome(
            campaign_id,
            ids[n - 1],
        )->Ok_0.1
    }
}

/// With none of `s` paid, the running totals are zero.
proof fn lemma_nothing_claimed(s: Seq<Milestone>, e: CampaignEntry, t: int, f: int)
    requires
        forall|i: int| 0 <= i < s.len() ==> !is_claimed(e, (#[trigger] s[i]).id),
    ensures
        claimed_totals(s, e, t) == Some((0int, 0int)),
        claimed_fees(s, e, f) == Some(0int),
    decreases s.len(),
{
    if s.len() > 0 {
        let u = s.drop_last();
        assert forall|i: int| 0 <= i < u.len() implies !is_claimed(e, (#[trigger] u[i]).id) by {
            assert(u[i] == s[i]);
        }
        lemma_nothing_claimed(u, e, t, f);
        assert(!is_claimed(e, s[s.len() - 1].id));
    }
}

/// What holds of a run before step `j`, when every earlier step left some
/// milestone unpaid.
pub open spec fn run_prefix_holds(ps: Seq<Platform>, ids: Seq<u32>, campaign_id: u32, j: int) -> bool {
    let e0 = ps[0].entry(campaign_id);
    let ej = ps[j].entry(campaign_id);
    let raised = e0.campaign.amount_raised as int;
    let fee_total = fee_total_of(raised, ps[0].fee_rate(e0.campaign) as int)->0;
    &&& ps[j].has_campaign(campaign_id)
    &&& ej.campaign == e0.campaign
    &&& ej.milestones == e0.milestones
    &&& ps[j].config == ps[0].config
    &&& claimed_totals(e0.milestones@, ej, raised - fee_total) matches Some((_, paid)) && paid
        == run_payouts(ps, ids, campaign_id, j)
    &&& claimed_fees(e0.milestones@, ej, fee_total) == Some(run_fees(ps, ids, campaign_id, j))
    &&& ps[j].total_raised == ps[0].total_raised - run_payouts(ps, ids, campaign_id, j) - run_fees(
        ps,
        ids,
        campaign_id,
        j,
    )
}

/// Every step but the last of a run leaves some milestone unpaid, so the
/// running totals before each step are the floor shares paid so far.
proof fn lemma_run_prefix(ps: Seq<Platform>, ids: Seq<u32>, campaign_id: u32, j: int)
    requires
        ps[0].has_campaign(campaign_id),
        ps[0].campaign(campaign_id).amount_raised > 0,
        milestones_valid(ps[0].entry(campaign_id).milestones@),
        forall|i: int|
            0 <= i < ps[0].entry(campaign_id).milestones@.len() ==> !is_claimed(
                ps[0].entry(campaign_id),
                (#[trigger] ps[0].entry(campaign_id).milestones@[i]).id,
            ),
        milestone_run(ps, ids, campaign_id),
        0 <= j < ids.len(),
    ensures
        run_prefix_holds(ps, ids, campaign_id, j),
    decreases j,
{
    let e0 = ps[0].entry(campaign_id);
    let raised = e0.campaign.amount_raised as int;
    let fee_total = fee_total_of(raised, ps[0].fee_rate(e0.campaign) as int)->0;
    if j == 0 {
        lemma_nothing_claimed(e0.milestones@, e0, raised - fee_total, fee_total);
    } else {
        lemma_run_prefix(ps, ids, campaign_id, j - 1);
        let p = ps[j - 1];
        let q = ps[j];
        assert(p.claim_milestone_outcome(campaign_id, ids[j - 1]) is Ok && p.milestone_paid(
            q,
            campaign_id,
            ids[j - 1],
        ));
        assert(q.claim_milestone_outcome(campaign_id, ids[j]) is Ok);
        // Had step `j - 1` paid the last milestone, the campaign's funds
        // would count as withdrawn and step `j` would be refused.
        if p.others_claimed(campaign_id, ids[j - 1]) {
            assert(q.entries@[campaign_id - 1] == q.entry(campaign_id));
            assert(q.entry(campaign_id).campaign.funds_withdrawn);
            assert(false);
        }
        lemma_milestone_claim_step(p, q, campaign_id, ids[j - 1]);
        assert(q.entries@.len() == p.entries@.len());
        assert(p.fee_rate(p.entry(campaign_id).campaign) == ps[0].fee_rate(e0.campaign));
    }
}

/// Every milestone of a campaign claimed once, in any order, starting with
/// none paid: the creator is paid the funds less the fee, the fee is paid
/// in full, exactly the funds leave the platform's total, and the campaign
/// ends withdrawn and closed.
pub proof fn lemma_milestone_run_pays_out_funds(ps: Seq<Platform>, ids: Seq<u32>, campaign_id: u32)
    requires
        ps.len() > 0,
        ps[0].has_campaign(campaign_id),
        ps[0].campaign(campaign_id).amount_raised > 0,
        milestones_valid(ps[0].entry(campaign_id).milestones@),
        forall|i: int|
            0 <= i < ps[0].entry(campaign_id).milestones@.len() ==> !is_claimed(
                ps[0].entry(campaign_id),
                (#[trigger] ps[0].entry(campaign_id).milestones@[i]).id,
            ),
        milestone_run(ps, ids, campaign_id),
        forall|i: int|
            0 <= i < ps[0].entry(campaign_id).milestones@.len() ==> is_claimed(
                ps.last().entry(campaign_id),
                (#[trigger] ps[0].entry(campaign_id).milestones@[i]).id,
            ),
    ensures
        ({
            let e0 = ps[0].entry(campaign_id);
            let raised = e0.campaign.amount_raised as int;
            let fee_total = fee_total_of(raised, ps[0].fee_rate(e0.campaign) as int)->0;
            let n = ids.len() as int;
            &&& run_payouts(ps, ids, campaign_id, n) == raised - fee_total
            &&& run_fees(ps, ids, campaign_id, n) == fee_total
            &&& ps.last().total_raised == ps[0].total_raised - raised
            &&& ps.last().campaign(campaign_id).funds_withdrawn
            &&& !ps.last().campaign(campaign_id).is_active
        }),
{
    let e0 = ps[0].entry(campaign_id);
    let ms = e0.milestones@;
    let n = ids.len() as int;
    assert(ms.len() > 0);
    if n == 0 {
        assert(is_claimed(ps.last().entry(campaign_id), ms[0].id));
        assert(false);
    }
    lemma_run_prefix(ps, ids, campaign_id, n - 1);
    let p = ps[n - 1];
    let q = ps[n];
    let mid = ids[n - 1];
    assert(p.claim_milestone_outcome(campaign_id, mid) is Ok && p.milestone_paid(q, campaign_id, mid));
    assert(q.entries@[campaign_id - 1] == q.entry(campaign_id));
    // The final step pays the last unpaid milestone: any other milestone
    // still unpaid before it would remain unpaid after it.
    if !p.others_claimed(campaign_id, mid) {
        let k = choose|i: int|
            0 <= i < p.entry(campaign_id).milestones@.len() && (#[trigger] p.entry(
                campaign_id,
            ).milestones@[i]).id != mid && !is_claimed(
                p.entry(campaign_id),
                p.entry(campaign_id).milestones@[i].id,
            );
        assert(ms[k].id != mid);
        assert(is_claimed(q.entry(campaign_id), ms[k].id));
        assert(false);
    }
    lemma_last_milestone_takes_rest(p, campaign_id, mid);
    assert(ps.last() == q);
}

/// `ps[i + 1]` is the state after `who[i]` was paid a revenue claim on
/// campaign `campaign_id` out of `ps[i]`, for every step of the run.
pub open spec fn revenue_run(ps: Seq<Platform>, who: Seq<AccountId>, campaign_id: u32) -> bool {
    &&& ps.len() == who.len() + 1
    &&& forall|i: int| 0 <= i < ps.len() ==> (#[trigger] ps[i]).wf()
    &&& forall|i: int|
        0 <= i < who.len() ==> (#[trigger] ps[i]).claim_revenue_outcome(campaign_id, who[i]) is Ok
            && ps[i].revenue_paid(ps[i + 1], campaign_id, who[i])
}

/// How many of the records satisfy `f`.
pub open spec fn count_where(s: Seq<(u64, ContributorRecord)>, f: spec_fn(ContributorRecord) -> bool) -> int
    decreases s.len(),
{
    if s.len() == 0 {
        0
    } else {
        count_where(s.drop_last(), f) + if f(s.last().1) {
            1int
        } else {
            0int
        }
    }
}

/// The record holds an escrowed contribution.
pub open spec fn has_contribution() -> spec_fn(ContributorRecord) -> bool {
    |r: ContributorRecord| r.contribution > 0
}

/// The record has been paid revenue.
pub open spec fn has_claimed() -> spec_fn(ContributorRecord) -> bool {
    |r: ContributorRecord| r.revenue_claimed > 0
}

/// A withdrawn campaign's revenue accounting before any contributor has
/// claimed: contributions add up to the effective total, the contributor
/// count is the number of contributors with an escrowed contribution, and
/// nothing has been paid out yet.
pub open spec fn revenue_fresh(e: CampaignEntry) -> bool {
    let s = e.contributors.entries@;
    &&& 0 <= e.revenue_pool
    &&& e.campaign.revenue_share_percentage <= 10_000
    &&& contribution_total(e.contributors) == e.campaign.effective_amount_raised
    &&& e.revenue_distributed == 0
    &&& e.revenue_claimants == 0
    &&& e.contributor_count == count_where(s, has_contribution())
    &&& e.contributor_count > 0
    &&& forall|i: int|
        0 <= i < s.len() ==> 0 <= (#[trigger] s[i]).1.contribution && s[i].1.revenue_claimed == 0
}

/// Before the sweep: fewer claimants than contributors, and each record
/// either unpaid or paid exactly what it is owed.
pub open spec fn phase_unswept(e: CampaignEntry) -> bool {
    let s = e.contributors.entries@;
    &&& e.revenue_claimants < e.contributor_count
    &&& forall|i: int|
        0 <= i < s.len() ==> (#[trigger] s[i]).1.revenue_claimed == 0 || s[i].1.revenue_claimed
            == revenue_owed(e.campaign, e.revenue_pool as int, s[i].1.contribution as int)
}

/// After the sweep: every contributor has claimed at least what they are
/// owed, and the contributors' part of the pool is paid out exactly.
pub open spec fn phase_swept(e: CampaignEntry) -> bool {
    let s = e.contributors.entries@;
    let pool = e.revenue_pool as int;
    &&& e.revenue_claimants == e.contributor_count
    &&& creator_share_of(pool, e.campaign.revenue_share_percentage) is Some
    &&& e.revenue_distributed == pool - creator_share_of(pool, e.campaign.revenue_share_percentage)->0
    &&& forall|i: int|
        0 <= i < s.len() && (#[trigger] s[i]).1.contribution > 0 ==> s[i].1.revenue_claimed > 0
            && s[i].1.revenue_claimed >= revenue_owed(e.campaign, pool, s[i].1.contribution as int)
}

/// What holds of the revenue accounting at every state of a run that
/// started from `e0`.
pub open spec fn revenue_phase(e: CampaignEntry, e0: CampaignEntry) -> bool {
    let s = e.contributors.entries@;
    &&& e.campaign == e0.campaign
    &&& e.revenue_pool == e0.revenue_pool
    &&& e.contributor_count == e0.contributor_count
    &&& 0 <= e.revenue_pool
    &&& e.campaign.revenue_share_percentage <= 10_000
    &&& contribution_total(e.contributors) == e.campaign.effective_amount_raised
    &&& record_sum(s, claimed_fn()) == e.revenue_distributed
    &&& e.contributor_count == count_where(s, has_contribution())
    &&& e.revenue_claimants == count_where(s, has_claimed())
    &&& e.contributor_count > 0
    &&& forall|i: int|
        0 <= i < s.len() ==> 0 <= (#[trigger] s[i]).1.contribution && 0 <= s[i].1.revenue_claimed
            && (s[i].1.revenue_claimed > 0 ==> s[i].1.contribution > 0)
    &&& phase_unswept(e) || phase_swept(e)
}

/// Replacing one record changes a count by whether the two records satisfy
/// the predicate.
proof fn lemma_count_update(
    s: Seq<(u64, ContributorRecord)>,
    f: spec_fn(ContributorRecord) -> bool,
    i: int,
    x: (u64, ContributorRecord),
)
    requires
        0 <= i < s.len(),
    ensures
        count_where(s.update(i, x), f) == count_where(s, f) - (if f(s[i].1) {
            1int
        } else {
            0int
        }) + (if f(x.1) {
            1int
        } else {
            0int
        }),
    decreases s.len(),
{
    let u = s.update(i, x);
    if i < s.len() - 1 {
        assert(u.drop_last() =~= s.drop_last().update(i, x));
        lemma_count_update(s.drop_last(), f, i, x);
    } else {
        assert(u.drop_last() =~= s.drop_last());
    }
}

/// When every record satisfying `f` satisfies `g`, and as many satisfy
/// each, then they are the same records.
proof fn lemma_count_same_records(
    s: Seq<(u64, ContributorRecord)>,
    f: spec_fn(ContributorRecord) -> bool,
    g: spec_fn(ContributorRecord) -> bool,
)
    requires
        forall|i: int| 0 <= i < s.len() && f((#[trigger] s[i]).1) ==> g(s[i].1),
    ensures
        count_where(s, f) <= count_where(s, g),
        count_where(s, f) == count_where(s, g) ==> forall|i: int|
            0 <= i < s.len() && g((#[trigger] s[i]).1) ==> f(s[i].1),
    decreases s.len(),
{
    if s.len() > 0 {
        let u = s.drop_last();
        let l = s.len() - 1;
        assert forall|i: int| 0 <= i < u.len() && f((#[trigger] u[i]).1) implies g(u[i].1) by {
            assert(u[i] == s[i]);
        }
        lemma_count_same_records(u, f, g);
        assert(s.last() == s[l]);
        if count_where(s, f) == count_where(s, g) {
            assert forall|i: int| 0 <= i < s.len() && g((#[trigger] s[i]).1) implies f(s[i].1) by {
                if i < l {
                    assert(u[i] == s[i]);
                }
            }
        }
    }
}

/// Records that all satisfy nothing of `f` count zero, and records all
/// unpaid sum to zero.
proof fn lemma_all_unpaid(s: Seq<(u64, ContributorRecord)>)
    requires
        forall|i: int| 0 <= i < s.len() ==> (#[trigger] s[i]).1.revenue_claimed == 0,
    ensures
        count_where(s, has_claimed()) == 0,
        record_sum(s, claimed_fn()) == 0,
    decreases s.len(),
{
    if s.len() > 0 {
        let u = s.drop_last();
        assert forall|i: int| 0 <= i < u.len() implies (#[trigger] u[i]).1.revenue_claimed == 0 by {
            assert(u[i] == s[i]);
        }
        lemma_all_unpaid(u);
        assert(s.last() == s[s.len() - 1]);
    }
}

/// What a contributor is owed is never negative.
proof fn lemma_owed_nonneg(c: Campaign, pool: int, ci: int)
    requires
        0 <= pool,
        0 <= ci,
    ensures
        0 <= revenue_owed(c, pool, ci),
{
    let e = c.effective_amount_raised as int;
    let sh = c.revenue_share_percentage as int;
    if e > 0 {
        assert((ci * pool * sh / e) / 10_000 >= 0) by (nonlinear_arith)
            requires
                0 <= ci,
                0 <= pool,
                0 <= sh,
                e > 0,
        ;
    }
}

/// Before the sweep, the accounting is within the pool in the sense of
/// `revenue_unswept`.
proof fn lemma_phase_unswept(e: CampaignEntry, e0: CampaignEntry)
    requires
        revenue_phase(e, e0),
        phase_unswept(e),
    ensures
        revenue_unswept(e),
{
    let s = e.contributors.entries@;
    assert forall|i: int| 0 <= i < s.len() implies 0 <= (#[trigger] s[i]).1.contribution && 0
        <= s[i].1.revenue_claimed <= revenue_owed(
        e.campaign,
        e.revenue_pool as int,
        s[i].1.contribution as int,
    ) by {
        lemma_owed_nonneg(e.campaign, e.revenue_pool as int, s[i].1.contribution as int);
    }
}

/// One revenue claim keeps the accounting of a run: before the sweep a claim
/// pays the contributor up to what they are owed, the sweep pays out the
/// contributors' part exactly and leaves every contributor paid at least
/// what they are owed, and after it no claim goes through.
proof fn lemma_revenue_step(p: Platform, q: Platform, campaign_id: u32, x: AccountId, e0: CampaignEntry)
    requires
        p.wf(),
        revenue_phase(p.entry(campaign_id), e0),
        p.claim_revenue_outcome(campaign_id, x) is Ok,
        p.revenue_paid(q, campaign_id, x),
    ensures
        q.has_campaign(campaign_id),
        revenue_phase(q.entry(campaign_id), e0),
{
    let e = p.entry(campaign_id);
    let s = e.contributors.entries@;
    let c = e.campaign;
    let pool = e.revenue_pool as int;
    let k = x as u64;
    let rec = e.record(x);
    let amount = p.claim_revenue_outcome(campaign_id, x)->Ok_0;
    assert(p.has_campaign(campaign_id));
    assert(e.wf());
    lemma_to_map(s);
    assert(e.contributors@.contains_key(k));
    let i0 = choose|i: int| 0 <= i < s.len() && s[i].0 == k;
    assert(s[i0].1 == rec);
    lemma_contribution_sum_nonneg(s);
    assert(rec.contribution > 0);
    assert(c.effective_amount_raised > 0);
    lemma_due_is_owed(c, pool, rec.contribution as int);
    if phase_swept(e) {
        // Everyone with escrow has been paid at least what they are owed.
        assert(rec.revenue_claimed > 0);
        assert(false);
    }
    lemma_phase_unswept(e, e0);
    let ix = lemma_claimed_record(p, campaign_id, x);
    let x2 = ContributorRecord { revenue_claimed: (rec.revenue_claimed + amount) as i128, ..rec };
    let ne = q.entry(campaign_id);
    assert(q.entries@[campaign_id - 1] == ne);
    let s2 = ne.contributors.entries@;
    assert(s2 == s.update(ix, (k, x2)));
    lemma_contribution_sum_update(s, ix, (k, x2));
    lemma_record_sum_update(s, claimed_fn(), ix, (k, x2));
    lemma_count_update(s, has_contribution(), ix, (k, x2));
    lemma_count_update(s, has_claimed(), ix, (k, x2));
    assert(claimed_fn()(x2) == rec.revenue_claimed + amount);
    assert(claimed_fn()(s[ix].1) == rec.revenue_claimed);
    assert(has_contribution()(x2) == has_contribution()(s[ix].1));
    assert(has_claimed()(x2));
    assert(has_claimed()(s[ix].1) == (rec.revenue_claimed > 0));
    assert forall|i: int| 0 <= i < s2.len() implies 0 <= (#[trigger] s2[i]).1.contribution && 0
        <= s2[i].1.revenue_claimed && (s2[i].1.revenue_claimed > 0 ==> s2[i].1.contribution > 0) by {
        if i != ix {
            assert(s2[i] == s[i]);
        }
    }
    if !p.is_last_claimant(campaign_id, x) {
        lemma_revenue_claim_pays_owed(p, campaign_id, x);
        assert forall|i: int| 0 <= i < s2.len() implies (#[trigger] s2[i]).1.revenue_claimed == 0
            || s2[i].1.revenue_claimed == revenue_owed(ne.campaign, ne.revenue_pool as int, s2[i].1.contribution as int) by {
            if i != ix {
                assert(s2[i] == s[i]);
            }
        }
        assert(phase_unswept(ne));
    } else {
        lemma_sweep_completes_pool(p, q, campaign_id, x);
        let owed = revenue_owed(c, pool, rec.contribution as int);
        assert(amount >= owed);
        lemma_count_same_records(s2, has_claimed(), has_contribution());
        assert forall|i: int| 0 <= i < s2.len() && (#[trigger] s2[i]).1.contribution > 0 implies s2[i].1.revenue_claimed
            > 0 && s2[i].1.revenue_claimed >= revenue_owed(
            ne.campaign,
            ne.revenue_pool as int,
            s2[i].1.contribution as int,
        ) by {
            assert(has_contribution()(s2[i].1));
            assert(has_claimed()(s2[i].1));
            if i != ix {
                assert(s2[i] == s[i]);
            }
        }
        assert(phase_swept(ne));
    }
}

/// Every state of a run reached from a fresh start keeps the accounting of
/// the run.
proof fn lemma_revenue_run_phase(ps: Seq<Platform>, who: Seq<AccountId>, campaign_id: u32, j: int)
    requires
        ps[0].has_campaign(campaign_id),
        revenue_fresh(ps[0].entry(campaign_id)),
        revenue_run(ps, who, campaign_id),
        0 <= j < ps.len(),
    ensures
        ps[j].has_campaign(campaign_id),
        revenue_phase(ps[j].entry(campaign_id), ps[0].entry(campaign_id)),
    decreases j,
{
    let e0 = ps[0].entry(campaign_id);
    if j == 0 {
        lemma_all_unpaid(e0.contributors.entries@);
    } else {
        lemma_revenue_run_phase(ps, who, campaign_id, j - 1);
        let p = ps[j - 1];
        assert(p.wf());
        assert(p.claim_revenue_outcome(campaign_id, who[j - 1]) is Ok && p.revenue_paid(
            ps[j],
            campaign_id,
            who[j - 1],
        ));
        lemma_revenue_step(p, ps[j], campaign_id, who[j - 1], e0);
    }
}

/// Any run of revenue claims on one pool, starting before anyone claimed:
/// what contributors are paid in total never exceeds the pool less the
/// creator's entitlement, and once every contributor has claimed it equals
/// it, the last first-time claimant having taken the rounding dust.
pub proof fn lemma_revenue_run_within_pool(ps: Seq<Platform>, who: Seq<AccountId>, campaign_id: u32)
    requires
        ps.len() > 0,
        ps[0].has_campaign(campaign_id),
        revenue_fresh(ps[0].entry(campaign_id)),
        revenue_run(ps, who, campaign_id),
    ensures
        forall|j: int|
            #![trigger ps[j]]
            0 <= j < ps.len() ==> {
                let e0 = ps[0].entry(campaign_id);
                let e = ps[j].entry(campaign_id);
                let pool = e0.revenue_pool as int;
                let share = e0.campaign.revenue_share_percentage;
                &&& creator_share_of(pool, share) matches Some(cs) ==> e.revenue_distributed
                    <= pool - cs
                &&& e.revenue_claimants == e0.contributor_count ==> creator_share_of(pool, share) is Some
                    && e.revenue_distributed == pool - creator_share_of(pool, share)->0
            },
{
    let e0 = ps[0].entry(campaign_id);
    assert forall|j: int| #![trigger ps[j]] 0 <= j < ps.len() implies {
        let e = ps[j].entry(campaign_id);
        let pool = e0.revenue_pool as int;
        let share = e0.campaign.revenue_share_percentage;
        &&& creator_share_of(pool, share) matches Some(cs) ==> e.revenue_distributed <= pool - cs
        &&& e.revenue_claimants == e0.contributor_count ==> creator_share_of(pool, share) is Some
            && e.revenue_distributed == pool - creator_share_of(pool, share)->0
    } by {
        lemma_revenue_run_phase(ps, who, campaign_id, j);
        let e = ps[j].entry(campaign_id);
        if phase_unswept(e) {
            lemma_phase_unswept(e, e0);
            lemma_unswept_within_pool(e);
        }
    }
}

} // verus!
