//! Milestone payouts: the creator splits the withdrawable funds into stages
//! that the admin verifies one by one.

use vstd::prelude::*;

use crate::constants::{BPS_CEIL_OFFSET, BPS_DENOMINATOR, MAX_MILESTONES};
use crate::errors::Error;
use crate::revenue::campaign_token;
use crate::state::{
    div_trunc, fits_i128, lemma_entry_update_wf, CampaignEntry, Effect, Event, Party, Platform,
};
use crate::table::Table;
use crate::types::{copy_bytes, AccountId, Campaign, Milestone};

verus! {

/// Sum of the payout shares of a list of milestones.
pub open spec fn bps_sum(ms: Seq<Milestone>) -> int
    decreases ms.len(),
{
    if ms.len() == 0 {
        0
    } else {
        bps_sum(ms.drop_last()) + ms.last().payout_bps
    }
}

/// A milestone list the creator may set: one to ten milestones, each with a
/// share in `1..=10_000` bps and a description, distinct ids, and shares
/// that add up to exactly 10_000 bps.
pub open spec fn milestones_valid(ms: Seq<Milestone>) -> bool {
    &&& 0 < ms.len() <= MAX_MILESTONES
    &&& forall|i: int|
        0 <= i < ms.len() ==> 0 < #[trigger] ms[i].payout_bps <= BPS_DENOMINATOR
            && ms[i].description@.len() > 0
    &&& forall|i: int, j: int| 0 <= i < j < ms.len() ==> ms[i].id != ms[j].id
    &&& bps_sum(ms) == BPS_DENOMINATOR
}

/// Whether milestone `id` of a campaign has been paid out.
pub open spec fn is_claimed(e: CampaignEntry, id: u32) -> bool {
    e.claimed_milestones@.contains_key(id as u64)
}

/// Index of the first milestone with id `id`.
pub open spec fn first_milestone(ms: Seq<Milestone>, id: u32) -> int {
    choose|i: int| 0 <= i < ms.len() && ms[i].id == id && forall|j: int| 0 <= j < i ==> ms[j].id != id
}

/// The first milestone with id `id` is the one at `i`.
pub proof fn lemma_first_milestone(ms: Seq<Milestone>, id: u32, i: int)
    requires
        0 <= i < ms.len(),
        ms[i].id == id,
        forall|j: int| 0 <= j < i ==> ms[j].id != id,
    ensures
        first_milestone(ms, id) == i,
{
    let k = first_milestone(ms, id);
    assert(0 <= k < ms.len() && ms[k].id == id && forall|j: int| 0 <= j < k ==> ms[j].id != id);
    if k < i {
        assert(ms[k].id != id);
    }
    if i < k {
        assert(ms[i].id != id);
    }
}

/// The running totals over the already claimed milestones among `ms`: their
/// shares in bps and their payouts out of `total_after_fee`; `None` when a
/// step overflows.
pub open spec fn claimed_totals(ms: Seq<Milestone>, e: CampaignEntry, total_after_fee: int) -> Option<
    (int, int),
>
    decreases ms.len(),
{
    if ms.len() == 0 {
        Some((0, 0))
    } else {
        match claimed_totals(ms.drop_last(), e, total_after_fee) {
            None => None,
            Some((bps, amount)) => {
                let m = ms.last();
                if !is_claimed(e, m.id) {
                    Some((bps, amount))
                } else {
                    let prod = total_after_fee * m.payout_bps;
                    let bps2 = bps + m.payout_bps;
                    if bps2 > u32::MAX || !fits_i128(prod) {
                        None
                    } else {
                        let amount2 = amount + div_trunc(prod, BPS_DENOMINATOR as int);
                        if !fits_i128(amount2) {
                            None
                        } else {
                            Some((bps2, amount2))
                        }
                    }
                }
            },
        }
    }
}

/// The fee slices of the already claimed milestones among `ms`, out of
/// `fee_total`; `None` when a step overflows.
pub open spec fn claimed_fees(ms: Seq<Milestone>, e: CampaignEntry, fee_total: int) -> Option<int>
    decreases ms.len(),
{
    if ms.len() == 0 {
        Some(0)
    } else {
        match claimed_fees(ms.drop_last(), e, fee_total) {
            None => None,
            Some(sum) => {
                let m = ms.last();
                if !is_claimed(e, m.id) {
                    Some(sum)
                } else {
                    let prod = fee_total * m.payout_bps;
                    if !fits_i128(prod) {
                        None
                    } else {
                        let sum2 = sum + div_trunc(prod, BPS_DENOMINATOR as int);
                        if !fits_i128(sum2) {
                            None
                        } else {
                            Some(sum2)
                        }
                    }
                }
            },
        }
    }
}

/// The fee owed on `raised` at `fee` bps, rounded up; `None` on overflow.
pub open spec fn fee_total_of(raised: int, fee: int) -> Option<int> {
    let n = raised * fee;
    if !fits_i128(n) || !fits_i128(n + BPS_CEIL_OFFSET) {
        None
    } else {
        Some(div_trunc(n + BPS_CEIL_OFFSET, BPS_DENOMINATOR as int))
    }
}

/// The payout of milestone `m` of a campaign whose fee rate is `fee` bps:
/// the creator's amount and the fee, or the error. The last unclaimed
/// milestone takes whatever remains, so the payouts add up to the funds
/// exactly.
pub open spec fn milestone_payout(e: CampaignEntry, m: Milestone, fee: u32) -> Result<
    (i128, i128),
    Error,
> {
    let raised = e.campaign.amount_raised as int;
    let ms = e.milestones@;
    match fee_total_of(raised, fee as int) {
        None => Err(Error::Overflow),
        Some(fee_total) => {
            let total_after_fee = raised - fee_total;
            match claimed_totals(ms, e, total_after_fee) {
                None => Err(Error::Overflow),
                Some((claimed_bps, claimed_amount)) => {
                    let prod = total_after_fee * m.payout_bps;
                    if !fits_i128(prod) {
                        Err(Error::Overflow)
                    } else if claimed_bps > BPS_DENOMINATOR {
                        Err(Error::Overflow)
                    } else {
                        let share = div_trunc(prod, BPS_DENOMINATOR as int);
                        let is_last = BPS_DENOMINATOR - claimed_bps == m.payout_bps;
                        let remaining = total_after_fee - claimed_amount;
                        let fee_prod = fee_total * m.payout_bps;
                        if is_last && !fits_i128(remaining) {
                            Err(Error::Overflow)
                        } else if !fits_i128(fee_prod) {
                            Err(Error::Overflow)
                        } else {
                            let fee_slice = div_trunc(fee_prod, BPS_DENOMINATOR as int);
                            if !is_last {
                                if share <= 0 {
                                    Err(Error::NoFundsToWithdraw)
                                } else {
                                    Ok((share as i128, fee_slice as i128))
                                }
                            } else {
                                match claimed_fees(ms, e, fee_total) {
                                    None => Err(Error::Overflow),
                                    Some(fee_claimed) => {
                                        let fee_remaining = fee_total - fee_claimed;
                                        if !fits_i128(fee_remaining) {
                                            Err(Error::Overflow)
                                        } else {
                                            let fee_claim = if fee_remaining > fee_slice {
                                                fee_remaining
                                            } else {
                                                fee_slice
                                            };
                                            if remaining <= 0 {
                                                Err(Error::NoFundsToWithdraw)
                                            } else {
                                                Ok((remaining as i128, fee_claim as i128))
                                            }
                                        }
                                    },
                                }
                            }
                        }
                    }
                },
            }
        },
    }
}

/// Once a prefix of the claimed totals overflows, the whole does.
proof fn lemma_claimed_totals_none_extends(s: Seq<Milestone>, e: CampaignEntry, t: int, n: int)
    requires
        0 <= n <= s.len(),
        claimed_totals(s.subrange(0, n), e, t) is None,
    ensures
        claimed_totals(s, e, t) is None,
    decreases s.len(),
{
    if n == s.len() {
        assert(s.subrange(0, n) =~= s);
    } else {
        assert(s.drop_last().subrange(0, n) =~= s.subrange(0, n));
        lemma_claimed_totals_none_extends(s.drop_last(), e, t, n);
    }
}

/// Once a prefix of the claimed fees overflows, the whole does.
proof fn lemma_claimed_fees_none_extends(s: Seq<Milestone>, e: CampaignEntry, t: int, n: int)
    requires
        0 <= n <= s.len(),
        claimed_fees(s.subrange(0, n), e, t) is None,
    ensures
        claimed_fees(s, e, t) is None,
    decreases s.len(),
{
    if n == s.len() {
        assert(s.subrange(0, n) =~= s);
    } else {
        assert(s.drop_last().subrange(0, n) =~= s.subrange(0, n));
        lemma_claimed_fees_none_extends(s.drop_last(), e, t, n);
    }
}

/// The claimed totals, when they exist, fit their types.
proof fn lemma_claimed_totals_bounds(s: Seq<Milestone>, e: CampaignEntry, t: int)
    ensures
        claimed_totals(s, e, t) matches Some((b, a)) ==> 0 <= b <= u32::MAX && fits_i128(a),
        claimed_fees(s, e, t) matches Some(f) ==> fits_i128(f),
    decreases s.len(),
{
    if s.len() > 0 {
        lemma_claimed_totals_bounds(s.drop_last(), e, t);
    }
}

/// The share `payout_bps` of `total`, rounded towards zero.
fn share_of(total: i128, payout_bps: u32) -> (r: Option<i128>)
    ensures
        match r {
            Some(v) => fits_i128(total * payout_bps) && v == div_trunc(
                total * payout_bps,
                BPS_DENOMINATOR as int,
            ),
            None => !fits_i128(total * payout_bps),
        },
{
    match total.checked_mul(payout_bps as i128) {
        Some(p) => Some(p / (BPS_DENOMINATOR as i128)),
        None => None,
    }
}

/// Computes [`claimed_totals`] over all milestones of `e`.
fn compute_claimed_totals(e: &CampaignEntry, total_after_fee: i128) -> (r: Result<(u32, i128), Error>)
    requires
        e.wf(),
    ensures
        match claimed_totals(e.milestones@, *e, total_after_fee as int) {
            Some((bps, amount)) => r == Ok::<(u32, i128), Error>((bps as u32, amount as i128)),
            None => r == Err::<(u32, i128), Error>(Error::Overflow),
        },
{
    let mut claimed_bps: u32 = 0;
    let mut claimed_amount: i128 = 0;
    let mut k: usize = 0;
    while k < e.milestones.len()
        invariant
            e.wf(),
            k <= e.milestones@.len(),
            claimed_totals(e.milestones@.subrange(0, k as int), *e, total_after_fee as int)
                == Some((claimed_bps as int, claimed_amount as int)),
        decreases e.milestones@.len() - k,
    {
        let ghost pre = e.milestones@.subrange(0, k as int);
        let ghost next = e.milestones@.subrange(0, k + 1);
        assert(next.drop_last() =~= pre);
        let m = &e.milestones[k];
        if e.claimed_milestones.contains(m.id as u64) {
            claimed_bps = match claimed_bps.checked_add(m.payout_bps) {
                Some(v) => v,
                None => {
                    proof {
                        lemma_claimed_totals_none_extends(e.milestones@, *e, total_after_fee as int, k + 1);
                    }
                    return Err(Error::Overflow);
                },
            };
            let amt = match share_of(total_after_fee, m.payout_bps) {
                Some(v) => v,
                None => {
                    proof {
                        lemma_claimed_totals_none_extends(e.milestones@, *e, total_after_fee as int, k + 1);
                    }
                    return Err(Error::Overflow);
                },
            };
            claimed_amount = match claimed_amount.checked_add(amt) {
                Some(v) => v,
                None => {
                    proof {
                        lemma_claimed_totals_none_extends(e.milestones@, *e, total_after_fee as int, k + 1);
                    }
                    return Err(Error::Overflow);
                },
            };
        }
        k = k + 1;
    }
    assert(e.milestones@.subrange(0, k as int) =~= e.milestones@);
    Ok((claimed_bps, claimed_amount))
}

/// Computes [`claimed_fees`] over all milestones of `e`.
fn compute_claimed_fees(e: &CampaignEntry, fee_total: i128) -> (r: Result<i128, Error>)
    requires
        e.wf(),
    ensures
        match claimed_fees(e.milestones@, *e, fee_total as int) {
            Some(sum) => r == Ok::<i128, Error>(sum as i128),
            None => r == Err::<i128, Error>(Error::Overflow),
        },
{
    let mut sum: i128 = 0;
    let mut k: usize = 0;
    while k < e.milestones.len()
        invariant
            e.wf(),
            k <= e.milestones@.len(),
            claimed_fees(e.milestones@.subrange(0, k as int), *e, fee_total as int) == Some(
                sum as int,
            ),
        decreases e.milestones@.len() - k,
    {
        let ghost pre = e.milestones@.subrange(0, k as int);
        let ghost next = e.milestones@.subrange(0, k + 1);
        assert(next.drop_last() =~= pre);
        let m = &e.milestones[k];
        if e.claimed_milestones.contains(m.id as u64) {
            let f = match share_of(fee_total, m.payout_bps) {
                Some(v) => v,
                None => {
                    proof {
                        lemma_claimed_fees_none_extends(e.milestones@, *e, fee_total as int, k + 1);
                    }
                    return Err(Error::Overflow);
                },
            };
            sum = match sum.checked_add(f) {
                Some(v) => v,
                None => {
                    proof {
                        lemma_claimed_fees_none_extends(e.milestones@, *e, fee_total as int, k + 1);
                    }
                    return Err(Error::Overflow);
                },
            };
        }
        k = k + 1;
    }
    assert(e.milestones@.subrange(0, k as int) =~= e.milestones@);
    Ok(sum)
}

} // verus!

verus! {

/// Paying out the fee owed on `raised` leaves an amount that fits in an
/// `i128`.
proof fn lemma_after_fee_fits(raised: int, fee: int)
    requires
        fits_i128(raised),
        0 <= fee <= u32::MAX,
        fits_i128(raised * fee),
        fits_i128(raised * fee + BPS_CEIL_OFFSET),
    ensures
        fits_i128(raised - div_trunc(raised * fee + BPS_CEIL_OFFSET, BPS_DENOMINATOR as int)),
{
    let n = raised * fee + BPS_CEIL_OFFSET;
    if raised >= 0 {
        assert(raised * fee >= 0) by (nonlinear_arith)
            requires
                raised >= 0,
                fee >= 0,
        ;
    } else {
        assert(raised * fee <= 0) by (nonlinear_arith)
            requires
                raised < 0,
                fee >= 0,
        ;
    }
}

/// Computes [`milestone_payout`].
fn compute_payout(e: &CampaignEntry, m: &Milestone, fee: u32) -> (r: Result<(i128, i128), Error>)
    requires
        e.wf(),
    ensures
        r == milestone_payout(*e, *m, fee),
{
    let raised = e.campaign.amount_raised;
    let n = match raised.checked_mul(fee as i128) {
        Some(v) => v,
        None => {
            return Err(Error::Overflow);
        },
    };
    let n = match n.checked_add(BPS_CEIL_OFFSET) {
        Some(v) => v,
        None => {
            return Err(Error::Overflow);
        },
    };
    let fee_total = n / (BPS_DENOMINATOR as i128);
    proof {
        lemma_after_fee_fits(raised as int, fee as int);
    }
    let total_after_fee = raised - fee_total;

    proof {
        lemma_claimed_totals_bounds(e.milestones@, *e, total_after_fee as int);
        lemma_claimed_totals_bounds(e.milestones@, *e, fee_total as int);
    }
    let (claimed_bps, claimed_amount) = compute_claimed_totals(e, total_after_fee)?;

    let mut claimable = match share_of(total_after_fee, m.payout_bps) {
        Some(v) => v,
        None => {
            return Err(Error::Overflow);
        },
    };
    let remaining_bps = match BPS_DENOMINATOR.checked_sub(claimed_bps) {
        Some(v) => v,
        None => {
            return Err(Error::Overflow);
        },
    };
    let is_last = remaining_bps == m.payout_bps;
    if is_last {
        let remaining = match total_after_fee.checked_sub(claimed_amount) {
            Some(v) => v,
            None => {
                return Err(Error::Overflow);
            },
        };
        if remaining > claimable {
            claimable = remaining;
        }
    }
    let fee_slice = match share_of(fee_total, m.payout_bps) {
        Some(v) => v,
        None => {
            return Err(Error::Overflow);
        },
    };
    let mut fee_claim = fee_slice;
    if is_last {
        let fee_claimed = compute_claimed_fees(e, fee_total)?;
        let fee_remaining = match fee_total.checked_sub(fee_claimed) {
            Some(v) => v,
            None => {
                return Err(Error::Overflow);
            },
        };
        if fee_remaining > fee_claim {
            fee_claim = fee_remaining;
        }
        // The last milestone takes everything that is left, whatever the
        // rounding of the earlier ones.
        let total_remaining = match total_after_fee.checked_sub(claimed_amount) {
            Some(v) => v,
            None => {
                return Err(Error::Overflow);
            },
        };
        claimable = total_remaining;
    }
    if claimable <= 0 {
        return Err(Error::NoFundsToWithdraw);
    }
    Ok((claimable, fee_claim))
}

impl Platform {
    /// The fee rate of campaign `c`, in bps.
    pub open spec fn fee_rate(&self, c: Campaign) -> u32 {
        match c.fee_override {
            Some(f) => f,
            None => self.config.platform_fee_bps,
        }
    }

    /// The error `claim_milestone` returns, or its payout `(amount, fee)`.
    pub open spec fn claim_milestone_outcome(&self, campaign_id: u32, milestone_id: u32) -> Result<
        (i128, i128),
        Error,
    > {
        if !self.has_campaign(campaign_id) {
            Err(Error::CampaignNotFound)
        } else {
            let e = self.entry(campaign_id);
            let c = e.campaign;
            let ms = e.milestones@;
            if self.is_paused() {
                Err(Error::ContractPaused)
            } else if c.is_cancelled {
                Err(Error::CampaignNotActive)
            } else if !c.is_verified {
                Err(Error::CampaignNotVerified)
            } else if c.funds_withdrawn {
                Err(Error::FundsAlreadyWithdrawn)
            } else if c.amount_raised == 0 {
                Err(Error::NoFundsToWithdraw)
            } else if c.amount_raised < c.funding_goal {
                Err(Error::FundingGoalNotReached)
            } else if !(exists|i: int| 0 <= i < ms.len() && ms[i].id == milestone_id) {
                Err(Error::MilestoneNotFound)
            } else {
                let m = ms[first_milestone(ms, milestone_id)];
                if !m.verified {
                    Err(Error::MilestoneNotVerified)
                } else if is_claimed(e, milestone_id) {
                    Err(Error::MilestoneAlreadyClaimed)
                } else {
                    match milestone_payout(e, m, self.fee_rate(c)) {
                        Err(err) => Err(err),
                        Ok((amount, fee)) => {
                            if !fits_i128(amount + fee) || !fits_i128(
                                self.total_raised - (amount + fee),
                            ) {
                                Err(Error::Overflow)
                            } else {
                                Ok((amount, fee))
                            }
                        },
                    }
                }
            }
        }
    }

    /// Whether every milestone of campaign `campaign_id` other than
    /// `milestone_id` has been paid out.
    pub open spec fn others_claimed(&self, campaign_id: u32, milestone_id: u32) -> bool {
        let e = self.entry(campaign_id);
        forall|i: int|
            0 <= i < e.milestones@.len() && (#[trigger] e.milestones@[i]).id != milestone_id
                ==> is_claimed(e, e.milestones@[i].id)
    }

    /// The state after milestone `milestone_id` of campaign `campaign_id`
    /// was paid out: the milestone is marked claimed, its payout and fee
    /// leave the platform's total, and when it was the last unpaid one the
    /// campaign's funds count as withdrawn and the campaign closes.
    pub open spec fn milestone_paid(&self, new: Platform, campaign_id: u32, milestone_id: u32) -> bool {
        let e = self.entry(campaign_id);
        let ne = new.entry(campaign_id);
        let c = e.campaign;
        let amount = self.claim_milestone_outcome(campaign_id, milestone_id)->Ok_0.0;
        let fee = self.claim_milestone_outcome(campaign_id, milestone_id)->Ok_0.1;
        let closes = self.others_claimed(campaign_id, milestone_id);
        &&& new == Platform {
            entries: new.entries,
            total_raised: (self.total_raised - (amount + fee)) as i128,
            active_count: if closes {
                if self.active_count == 0 {
                    0
                } else {
                    (self.active_count - 1) as u32
                }
            } else {
                self.active_count
            },
            ..*self
        }
        &&& new.entries@ == self.entries@.update(campaign_id - 1, ne)
        &&& ne == CampaignEntry {
            campaign: if closes {
                Campaign { funds_withdrawn: true, is_active: false, ..c }
            } else {
                c
            },
            claimed_milestones: ne.claimed_milestones,
            ..e
        }
        &&& ne.claimed_milestones@ == e.claimed_milestones@.insert(
            milestone_id as u64,
            true,
        )
    }

    /// The creator claims the payout of a verified milestone: its share of
    /// the funds after the platform fee (the last unclaimed milestone takes
    /// the rest), with the matching slice of the fee going to the admin.
    /// Once every milestone is paid, the campaign's funds count as withdrawn
    /// and the campaign closes.
    #[verifier::loop_isolation(false)]
    pub fn claim_milestone(&mut self, campaign_id: u32, milestone_id: u32) -> (r: Result<
        Vec<Effect>,
        Error,
    >)
        requires
            old(self).wf(),
        ensures
            final(self).wf(),
            match r {
                Ok(effects) => {
                    let c = old(self).entry(campaign_id).campaign;
                    let amount = old(self).claim_milestone_outcome(campaign_id, milestone_id)->Ok_0.0;
                    let fee = old(self).claim_milestone_outcome(campaign_id, milestone_id)->Ok_0.1;
                    &&& old(self).claim_milestone_outcome(campaign_id, milestone_id) is Ok
                    &&& old(self).milestone_paid(*final(self), campaign_id, milestone_id)
                    &&& (milestones_valid(old(self).entry(campaign_id).milestones@) && c.amount_raised
                        > 0 ==> {
                        let e = old(self).entry(campaign_id);
                        let ms = e.milestones@;
                        let b = ms[first_milestone(ms, milestone_id)].payout_bps as int;
                        let raised = c.amount_raised as int;
                        let fee_total = fee_total_of(raised, old(self).fee_rate(c) as int)->0;
                        let after_fee = raised - fee_total;
                        // A milestone paid while another is still unpaid takes
                        // its floor share of the funds after the fee and its
                        // floor slice of the fee; the last one takes the rest
                        // of both.
                        &&& !old(self).others_claimed(campaign_id, milestone_id) ==> amount == (
                        after_fee * b) / 10_000 && fee == (fee_total * b) / 10_000
                        &&& old(self).others_claimed(campaign_id, milestone_id) ==> (claimed_totals(
                            ms,
                            e,
                            after_fee,
                        ) matches Some((_, paid)) && paid + amount == after_fee)
                        &&& old(self).others_claimed(campaign_id, milestone_id) ==> (claimed_fees(
                            ms,
                            e,
                            fee_total,
                        ) matches Some(paid_fees) && paid_fees + fee == fee_total)
                    })
                    &&& effects@ == if fee > 0 {
                        seq![
                            Effect::RequireAuth(c.creator),
                            Effect::Transfer {
                                token: campaign_token(old(self).entry(campaign_id), old(self).config.token),
                                from: Party::Contract,
                                to: Party::Account(old(self).config.admin),
                                amount: fee,
                            },
                            Effect::Transfer {
                                token: campaign_token(old(self).entry(campaign_id), old(self).config.token),
                                from: Party::Contract,
                                to: Party::Account(c.creator),
                                amount,
                            },
                            Effect::Emit(
                                Event::MilestoneClaimed { campaign_id, milestone_id, amount, fee },
                            ),
                        ]
                    } else {
                        seq![
                            Effect::RequireAuth(c.creator),
                            Effect::Transfer {
                                token: campaign_token(old(self).entry(campaign_id), old(self).config.token),
                                from: Party::Contract,
                                to: Party::Account(c.creator),
                                amount,
                            },
                            Effect::Emit(
                                Event::MilestoneClaimed { campaign_id, milestone_id, amount, fee },
                            ),
                        ]
                    }
                },
                Err(err) => {
                    &&& old(self).claim_milestone_outcome(campaign_id, milestone_id) == Err::<
                        (i128, i128),
                        Error,
                    >(err)
                    &&& *final(self) == *old(self)
                },
            },
    {
        let i = self.campaign_position(campaign_id)?;
        proof {
            assert(self.entries@[i as int].wf());
        }
        self.require_not_paused()?;
        let c = &self.entries[i].campaign;
        if c.is_cancelled {
            return Err(Error::CampaignNotActive);
        }
        if !c.is_verified {
            return Err(Error::CampaignNotVerified);
        }
        if c.funds_withdrawn {
            return Err(Error::FundsAlreadyWithdrawn);
        }
        if c.amount_raised == 0 {
            return Err(Error::NoFundsToWithdraw);
        }
        if c.amount_raised < c.funding_goal {
            return Err(Error::FundingGoalNotReached);
        }
        let ms = &self.entries[i].milestones;
        let mut k: usize = 0;
        while k < ms.len() && ms[k].id != milestone_id
            invariant
                k <= ms@.len(),
                forall|j: int| 0 <= j < k ==> ms@[j].id != milestone_id,
            decreases ms@.len() - k,
        {
            k = k + 1;
        }
        if k == ms.len() {
            return Err(Error::MilestoneNotFound);
        }
        proof {
            lemma_first_milestone(ms@, milestone_id, k as int);
        }
        let m = &ms[k];
        if !m.verified {
            return Err(Error::MilestoneNotVerified);
        }
        if self.entries[i].claimed_milestones.contains(milestone_id as u64) {
            return Err(Error::MilestoneAlreadyClaimed);
        }
        let fee_rate = match self.entries[i].campaign.fee_override {
            Some(f) => f,
            None => self.config.platform_fee_bps,
        };
        let (claimable, fee_claim) = compute_payout(&self.entries[i], m, fee_rate)?;
        let to_deduct = match fee_claim.checked_add(claimable) {
            Some(v) => v,
            None => {
                return Err(Error::Overflow);
            },
        };
        let total = match self.total_raised.checked_sub(to_deduct) {
            Some(v) => v,
            None => {
                return Err(Error::Overflow);
            },
        };

        // Is every other milestone already paid?
        let mut all_claimed = true;
        let mut j: usize = 0;
        while j < ms.len()
            invariant
                i < self.entries@.len(),
                self.entries@[i as int].wf(),
                ms@ == self.entries@[i as int].milestones@,
                j <= ms@.len(),
                all_claimed == forall|x: int|
                    0 <= x < j && (#[trigger] ms@[x]).id != milestone_id ==> is_claimed(
                        self.entries@[i as int],
                        ms@[x].id,
                    ),
            decreases ms@.len() - j,
        {
            if ms[j].id != milestone_id && !self.entries[i].claimed_milestones.contains(
                ms[j].id as u64,
            ) {
                all_claimed = false;
            }
            j = j + 1;
        }
        let creator = self.entries[i].campaign.creator;
        let currency = self.campaign_token_of(i);

        let ghost old_self = *self;
        self.entries[i].claimed_milestones.insert(milestone_id as u64, true);
        self.total_raised = total;
        if all_claimed {
            self.entries[i].campaign.funds_withdrawn = true;
            self.entries[i].campaign.is_active = false;
            self.active_count = self.active_count.saturating_sub(1);
        }
        proof {
            assert(self.entries@ =~= old_self.entries@.update(i as int, self.entries@[i as int]));
            assert(old_self.entries@[i as int].wf());
            lemma_entry_update_wf(old_self, *self, i as int);
        }

        let mut effects: Vec<Effect> = Vec::new();
        effects.push(Effect::RequireAuth(creator));
        if fee_claim > 0 {
            effects.push(
                Effect::Transfer {
                    token: currency,
                    from: Party::Contract,
                    to: Party::Account(self.config.admin),
                    amount: fee_claim,
                },
            );
        }
        effects.push(
            Effect::Transfer {
                token: currency,
                from: Party::Contract,
                to: Party::Account(creator),
                amount: claimable,
            },
        );
        effects.push(
            Effect::Emit(
                Event::MilestoneClaimed {
                    campaign_id,
                    milestone_id,
                    amount: claimable,
                    fee: fee_claim,
                },
            ),
        );
        proof {
            assert(old_self.milestone_paid(*self, campaign_id, milestone_id));
            if milestones_valid(old_self.entry(campaign_id).milestones@)
                && old_self.campaign(campaign_id).amount_raised > 0 {
                if old_self.others_claimed(campaign_id, milestone_id) {
                    crate::laws::lemma_last_milestone_takes_rest(old_self, campaign_id, milestone_id);
                } else {
                    crate::laws::lemma_milestone_claim_step(old_self, *self, campaign_id, milestone_id);
                }
            }
        }
        Ok(effects)
    }
}

} // verus!

verus! {

/// Sum of shares over one more milestone.
proof fn lemma_bps_sum_step(ms: Seq<Milestone>, k: int)
    requires
        0 <= k < ms.len(),
    ensures
        bps_sum(ms.subrange(0, k + 1)) == bps_sum(ms.subrange(0, k)) + ms[k].payout_bps,
{
    assert(ms.subrange(0, k + 1).drop_last() =~= ms.subrange(0, k));
}

impl Platform {
    /// The error `set_milestones` returns, or `None` when it succeeds.
    pub open spec fn set_milestones_error(&self, campaign_id: u32, ms: Seq<Milestone>) -> Option<
        Error,
    > {
        if !self.has_campaign(campaign_id) {
            Some(Error::CampaignNotFound)
        } else {
            let e = self.entry(campaign_id);
            if self.is_paused() {
                Some(Error::ContractPaused)
            } else if e.campaign.is_cancelled || e.campaign.funds_withdrawn {
                Some(Error::CampaignNotActive)
            } else if !milestones_valid(ms) || e.milestones@.len() != 0 {
                Some(Error::ValidationFailed)
            } else {
                None
            }
        }
    }

    /// The creator sets the milestone payouts of a campaign, once, before
    /// any is verified; every milestone is stored unverified.
    #[verifier::loop_isolation(false)]
    pub fn set_milestones(&mut self, campaign_id: u32, milestones: Vec<Milestone>) -> (r: Result<
        Vec<Effect>,
        Error,
    >)
        requires
            old(self).wf(),
        ensures
            final(self).wf(),
            match r {
                Ok(effects) => {
                    let e = old(self).entry(campaign_id);
                    let ne = final(self).entry(campaign_id);
                    let ms = milestones@;
                    &&& old(self).set_milestones_error(campaign_id, ms) is None
                    &&& old(self).with_entry(*final(self), campaign_id, ne)
                    &&& ne == CampaignEntry { milestones: ne.milestones, ..e }
                    &&& ne.milestones@.len() == ms.len()
                    &&& forall|k: int|
                        0 <= k < ms.len() ==> {
                            &&& (#[trigger] ne.milestones@[k]).id == ms[k].id
                            &&& ne.milestones@[k].payout_bps == ms[k].payout_bps
                            &&& ne.milestones@[k].description@ == ms[k].description@
                            &&& !ne.milestones@[k].verified
                        }
                    &&& effects@ == seq![
                        Effect::RequireAuth(e.campaign.creator),
                        Effect::Emit(Event::MilestonesSet { campaign_id, count: ms.len() as u32 }),
                    ]
                },
                Err(err) => {
                    &&& old(self).set_milestones_error(campaign_id, milestones@) == Some(err)
                    &&& *final(self) == *old(self)
                },
            },
    {
        let i = self.campaign_position(campaign_id)?;
        self.require_not_paused()?;
        if self.entries[i].campaign.is_cancelled || self.entries[i].campaign.funds_withdrawn {
            return Err(Error::CampaignNotActive);
        }
        if milestones.len() == 0 || milestones.len() > MAX_MILESTONES {
            return Err(Error::ValidationFailed);
        }
        if self.entries[i].milestones.len() != 0 {
            return Err(Error::ValidationFailed);
        }
        let mut total_bps: u32 = 0;
        let mut k: usize = 0;
        while k < milestones.len()
            invariant
                0 < milestones@.len() <= MAX_MILESTONES,
                k <= milestones@.len(),
                total_bps == bps_sum(milestones@.subrange(0, k as int)),
                total_bps <= k * BPS_DENOMINATOR,
                forall|a: int|
                    0 <= a < k ==> 0 < #[trigger] milestones@[a].payout_bps <= BPS_DENOMINATOR
                        && milestones@[a].description@.len() > 0,
                forall|a: int, b: int| 0 <= a < b < k ==> milestones@[a].id != milestones@[b].id,
            decreases milestones@.len() - k,
        {
            let m = &milestones[k];
            if m.payout_bps == 0 || m.payout_bps > BPS_DENOMINATOR {
                return Err(Error::ValidationFailed);
            }
            if m.description.len() == 0 {
                return Err(Error::ValidationFailed);
            }
            let mut j: usize = 0;
            while j < k
                invariant
                    k < milestones@.len(),
                    j <= k,
                    forall|a: int| 0 <= a < j ==> milestones@[a].id != milestones@[k as int].id,
                decreases k - j,
            {
                if milestones[j].id == milestones[k].id {
                    return Err(Error::ValidationFailed);
                }
                j = j + 1;
            }
            proof {
                lemma_bps_sum_step(milestones@, k as int);
            }
            total_bps = total_bps + m.payout_bps;
            k = k + 1;
        }
        assert(milestones@.subrange(0, k as int) =~= milestones@);
        if total_bps != BPS_DENOMINATOR {
            return Err(Error::ValidationFailed);
        }

        // Every milestone starts unverified, whatever the input says.
        let mut normalized: Vec<Milestone> = Vec::new();
        let mut k: usize = 0;
        while k < milestones.len()
            invariant
                k <= milestones@.len(),
                normalized@.len() == k,
                forall|a: int|
                    0 <= a < k ==> {
                        &&& (#[trigger] normalized@[a]).id == milestones@[a].id
                        &&& normalized@[a].payout_bps == milestones@[a].payout_bps
                        &&& normalized@[a].description@ == milestones@[a].description@
                        &&& !normalized@[a].verified
                    },
            decreases milestones@.len() - k,
        {
            let m = &milestones[k];
            normalized.push(
                Milestone {
                    id: m.id,
                    description: copy_bytes(&m.description),
                    payout_bps: m.payout_bps,
                    verified: false,
                },
            );
            k = k + 1;
        }
        let creator = self.entries[i].campaign.creator;
        let count = normalized.len() as u32;
        let ghost old_self = *self;
        self.entries[i].milestones = normalized;
        proof {
            assert(self.entries@ =~= old_self.entries@.update(i as int, self.entries@[i as int]));
            assert(old_self.entries@[i as int].wf());
            lemma_entry_update_wf(old_self, *self, i as int);
        }
        let mut effects: Vec<Effect> = Vec::new();
        effects.push(Effect::RequireAuth(creator));
        effects.push(Effect::Emit(Event::MilestonesSet { campaign_id, count }));
        Ok(effects)
    }

    /// The error `verify_milestone` returns, or `None` when it succeeds.
    pub open spec fn verify_milestone_error(
        &self,
        admin: AccountId,
        campaign_id: u32,
        milestone_id: u32,
    ) -> Option<Error> {
        if admin != self.config.admin {
            Some(Error::NotAuthorized)
        } else if self.is_paused() {
            Some(Error::ContractPaused)
        } else if !self.has_campaign(campaign_id) {
            Some(Error::CampaignNotFound)
        } else {
            let e = self.entry(campaign_id);
            let ms = e.milestones@;
            if e.campaign.is_cancelled {
                Some(Error::CampaignNotActive)
            } else if exists|k: int| 0 <= k < ms.len() && ms[k].id == milestone_id && ms[k].verified {
                Some(Error::ValidationFailed)
            } else if !(exists|k: int| 0 <= k < ms.len() && ms[k].id == milestone_id) {
                Some(Error::MilestoneNotFound)
            } else {
                None
            }
        }
    }

    /// The admin marks a milestone of a campaign as verified.
    #[verifier::loop_isolation(false)]
    pub fn verify_milestone(&mut self, admin: AccountId, campaign_id: u32, milestone_id: u32) -> (r:
        Result<Vec<Effect>, Error>)
        requires
            old(self).wf(),
        ensures
            final(self).wf(),
            match r {
                Ok(effects) => {
                    let e = old(self).entry(campaign_id);
                    let ne = final(self).entry(campaign_id);
                    let ms = e.milestones@;
                    &&& old(self).verify_milestone_error(admin, campaign_id, milestone_id) is None
                    &&& old(self).with_entry(*final(self), campaign_id, ne)
                    &&& ne == CampaignEntry { milestones: ne.milestones, ..e }
                    &&& ne.milestones@.len() == ms.len()
                    &&& forall|k: int|
                        0 <= k < ms.len() ==> #[trigger] ne.milestones@[k] == if ms[k].id
                            == milestone_id {
                            Milestone { verified: true, ..ms[k] }
                        } else {
                            ms[k]
                        }
                    &&& effects@ == seq![
                        Effect::RequireAuth(admin),
                        Effect::Emit(Event::MilestoneVerified { campaign_id, milestone_id }),
                    ]
                },
                Err(err) => {
                    &&& old(self).verify_milestone_error(admin, campaign_id, milestone_id) == Some(
                        err,
                    )
                    &&& *final(self) == *old(self)
                },
            },
    {
        self.assert_admin(admin)?;
        self.require_not_paused()?;
        let i = self.campaign_position(campaign_id)?;
        if self.entries[i].campaign.is_cancelled {
            return Err(Error::CampaignNotActive);
        }
        let n = self.entries[i].milestones.len();
        let mut found = false;
        let mut k: usize = 0;
        while k < n
            invariant
                i < self.entries@.len(),
                n == self.entries@[i as int].milestones@.len(),
                k <= n,
                found == exists|a: int|
                    0 <= a < k && self.entries@[i as int].milestones@[a].id == milestone_id,
                forall|a: int|
                    0 <= a < k && self.entries@[i as int].milestones@[a].id == milestone_id
                        ==> !self.entries@[i as int].milestones@[a].verified,
            decreases n - k,
        {
            if self.entries[i].milestones[k].id == milestone_id {
                if self.entries[i].milestones[k].verified {
                    return Err(Error::ValidationFailed);
                }
                found = true;
            }
            k = k + 1;
        }
        if !found {
            return Err(Error::MilestoneNotFound);
        }
        let ghost old_self = *self;
        let ghost ms = self.entries@[i as int].milestones@;
        let mut k: usize = 0;
        while k < n
            invariant
                i < self.entries@.len(),
                self.entries@ == old_self.entries@.update(i as int, self.entries@[i as int]),
                self.entries@[i as int] == (CampaignEntry {
                    milestones: self.entries@[i as int].milestones,
                    ..old_self.entries@[i as int]
                }),
                *self == (Platform { entries: self.entries, ..old_self }),
                n == ms.len(),
                self.entries@[i as int].milestones@.len() == n,
                k <= n,
                forall|a: int|
                    0 <= a < n ==> #[trigger] self.entries@[i as int].milestones@[a] == if a < k
                        && ms[a].id == milestone_id {
                        Milestone { verified: true, ..ms[a] }
                    } else {
                        ms[a]
                    },
            decreases n - k,
        {
            if self.entries[i].milestones[k].id == milestone_id {
                self.entries[i].milestones[k].verified = true;
            }
            proof {
                assert(self.entries@ =~= old_self.entries@.update(i as int, self.entries@[i as int]));
            }
            k = k + 1;
        }
        proof {
            assert(old_self.entries@[i as int].wf());
            lemma_entry_update_wf(old_self, *self, i as int);
        }
        let mut effects: Vec<Effect> = Vec::new();
        effects.push(Effect::RequireAuth(admin));
        effects.push(Effect::Emit(Event::MilestoneVerified { campaign_id, milestone_id }));
        Ok(effects)
    }
}

} // verus!
