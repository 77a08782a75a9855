//! Revenue sharing: the creator deposits post-campaign revenue, which is
//! split between the contributors (in proportion to their contributions)
//! and the creator.
//!
//! With a contributor share of `s` bps and a pool of `P`, the contributors
//! together are owed `P * s / 10_000` and the creator `P * (10_000 - s) /
//! 10_000`; a contributor who gave `c` out of an effective total of `E` is
//! owed `c * P * s / E / 10_000`. Every division comes last, so small pools
//! do not round to zero, and the last contributor to claim sweeps the dust
//! that the rounding of the others left in the contributor pool.

use vstd::prelude::*;

use crate::constants::BPS_DENOMINATOR;
use crate::errors::Error;
use crate::lifecycle::require_revenue_sharing;
use crate::state::{
    div_trunc, fits_i128, lemma_entry_update_wf, CampaignEntry, ContributorRecord, Effect, Event,
    Party, Platform,
};
use crate::laws::revenue_unswept;
use crate::table::inserted_entries;
use crate::types::{AccountId, Campaign};

verus! {

/// Rust's `i128::checked_div` quotient: rounded towards zero.
pub open spec fn quot_trunc(x: int, d: int) -> int {
    if x == 0 {
        0
    } else if x > 0 && d > 0 {
        x / d
    } else if x < 0 && d < 0 {
        (x * -1) / (d * -1)
    } else if x < 0 {
        ((x * -1) / d) * -1
    } else {
        (x / (d * -1)) * -1
    }
}

/// The currency of a campaign: its pinned token, or the platform token.
pub open spec fn campaign_token(e: CampaignEntry, platform_token: AccountId) -> AccountId {
    match e.token {
        Some(t) => t,
        None => platform_token,
    }
}

/// The creator's total entitlement out of `pool` for a contributor share of
/// `share` bps; `None` on overflow.
pub open spec fn creator_share_of(pool: int, share: u32) -> Option<int> {
    let prod = pool * (BPS_DENOMINATOR - share);
    if !fits_i128(prod) {
        None
    } else {
        Some(div_trunc(prod, BPS_DENOMINATOR as int))
    }
}

/// What a contributor who gave `contribution` is owed in total out of the
/// campaign's revenue pool; `None` on overflow.
pub open spec fn revenue_due(c: Campaign, pool: int, contribution: int) -> Option<int> {
    let p1 = contribution * pool;
    let p2 = p1 * c.revenue_share_percentage;
    let e = c.effective_amount_raised as int;
    if !fits_i128(p1) || !fits_i128(p2) || !fits_i128(quot_trunc(p2, e)) {
        None
    } else {
        Some(quot_trunc(quot_trunc(p2, e), BPS_DENOMINATOR as int))
    }
}

/// What a contributor who gave `contribution` is owed out of `pool`: their
/// part of the effective total, applied to the contributors' share of the
/// pool, rounded down.
pub open spec fn revenue_owed(c: Campaign, pool: int, contribution: int) -> int {
    let e = c.effective_amount_raised as int;
    if e <= 0 {
        0
    } else {
        (contribution * pool * c.revenue_share_percentage / e) / 10_000
    }
}

/// The due amount the claim computes is what the contributor is owed.
pub proof fn lemma_due_is_owed(c: Campaign, pool: int, ci: int)
    requires
        0 <= pool,
        0 <= ci,
        c.effective_amount_raised > 0,
    ensures
        revenue_due(c, pool, ci) matches Some(d) ==> d == revenue_owed(c, pool, ci),
{
    let ee = c.effective_amount_raised as int;
    let sh = c.revenue_share_percentage as int;
    let p2 = ci * pool * sh;
    assert(p2 >= 0 && p2 / ee >= 0) by (nonlinear_arith)
        requires
            p2 == ci * pool * sh,
            ci >= 0,
            pool >= 0,
            sh >= 0,
            ee > 0,
    ;
}

impl Platform {
    /// The error `deposit_revenue` returns, or `None` when it succeeds.
    pub open spec fn deposit_revenue_error(&self, campaign_id: u32, amount: i128) -> Option<Error> {
        if !self.has_campaign(campaign_id) {
            Some(Error::CampaignNotFound)
        } else {
            let e = self.entry(campaign_id);
            let c = e.campaign;
            if self.is_paused() {
                Some(Error::ContractPaused)
            } else if amount <= 0 {
                Some(Error::ValidationFailed)
            } else if c.is_cancelled {
                Some(Error::CampaignNotActive)
            } else if !c.funds_withdrawn {
                Some(Error::ValidationFailed)
            } else if !c.has_revenue_sharing {
                Some(Error::RevenueSharingNotEnabled)
            } else if c.amount_raised == 0 {
                Some(Error::AmountRaisedIsZero)
            } else if !fits_i128(e.revenue_pool + amount) {
                Some(Error::Overflow)
            } else {
                None
            }
        }
    }

    /// The creator deposits `amount` of revenue into a withdrawn
    /// revenue-sharing campaign's pool.
    pub fn deposit_revenue(&mut self, campaign_id: u32, amount: i128) -> (r: Result<
        Vec<Effect>,
        Error,
    >)
        requires
            old(self).wf(),
        ensures
            final(self).wf(),
            match r {
                Ok(effects) => {
                    let e = old(self).entry(campaign_id);
                    let ne = final(self).entry(campaign_id);
                    &&& old(self).deposit_revenue_error(campaign_id, amount) is None
                    &&& old(self).with_entry(*final(self), campaign_id, ne)
                    &&& ne == CampaignEntry {
                        revenue_pool: (e.revenue_pool + amount) as i128,
                        ..e
                    }
                    &&& effects@ == seq![
                        Effect::RequireAuth(e.campaign.creator),
                        Effect::Transfer {
                            token: campaign_token(e, old(self).config.token),
                            from: Party::Account(e.campaign.creator),
                            to: Party::Contract,
                            amount,
                        },
                        Effect::Emit(
                            Event::RevenueDeposited {
                                campaign_id,
                                creator: e.campaign.creator,
                                amount,
                            },
                        ),
                    ]
                },
                Err(err) => {
                    &&& old(self).deposit_revenue_error(campaign_id, amount) == Some(err)
                    &&& *final(self) == *old(self)
                },
            },
    {
        let i = self.campaign_position(campaign_id)?;
        self.require_not_paused()?;
        if amount <= 0 {
            return Err(Error::ValidationFailed);
        }
        let c = &self.entries[i].campaign;
        if c.is_cancelled {
            return Err(Error::CampaignNotActive);
        }
        if !c.funds_withdrawn {
            return Err(Error::ValidationFailed);
        }
        require_revenue_sharing(c, Error::RevenueSharingNotEnabled)?;
        if c.amount_raised == 0 {
            return Err(Error::AmountRaisedIsZero);
        }
        let pool = match self.entries[i].revenue_pool.checked_add(amount) {
            Some(v) => v,
            None => {
                return Err(Error::Overflow);
            },
        };
        let creator = self.entries[i].campaign.creator;
        let token = self.campaign_token_of(i);
        let ghost old_self = *self;
        self.entries[i].revenue_pool = pool;
        proof {
            assert(self.entries@ =~= old_self.entries@.update(i as int, self.entries@[i as int]));
            assert(old_self.entries@[i as int].wf());
            lemma_entry_update_wf(old_self, *self, i as int);
        }
        let mut effects: Vec<Effect> = Vec::new();
        effects.push(Effect::RequireAuth(creator));
        effects.push(
            Effect::Transfer {
                token,
                from: Party::Account(creator),
                to: Party::Contract,
                amount,
            },
        );
        effects.push(Effect::Emit(Event::RevenueDeposited { campaign_id, creator, amount }));
        Ok(effects)
    }

    /// The currency of the campaign stored at position `i`.
    pub fn campaign_token_of(&self, i: usize) -> (t: AccountId)
        requires
            i < self.entries@.len(),
        ensures
            t == campaign_token(self.entries@[i as int], self.config.token),
    {
        match self.entries[i].token {
            Some(t) => t,
            None => self.config.token,
        }
    }

    /// The checks of `claim_revenue` before any amount is computed: `None`
    /// when they pass.
    pub open spec fn claim_revenue_entry_error(&self, campaign_id: u32, contributor: AccountId) -> Option<
        Error,
    > {
        if self.is_paused() {
            Some(Error::ContractPaused)
        } else if !self.has_campaign(campaign_id) {
            Some(Error::CampaignNotFound)
        } else {
            let e = self.entry(campaign_id);
            let c = e.campaign;
            if c.is_cancelled {
                Some(Error::CampaignNotActive)
            } else if !c.has_revenue_sharing {
                Some(Error::ValidationFailed)
            } else if !c.funds_withdrawn {
                Some(Error::ValidationFailed)
            } else if e.record(contributor).contribution == 0 {
                Some(Error::ValidationFailed)
            } else if c.effective_amount_raised == 0 {
                Some(Error::AmountRaisedIsZero)
            } else {
                None
            }
        }
    }

    /// Whether this claim is the first claim of the last contributor who
    /// had not claimed yet.
    pub open spec fn is_last_claimant(&self, campaign_id: u32, contributor: AccountId) -> bool {
        let e = self.entry(campaign_id);
        &&& e.record(contributor).revenue_claimed == 0
        &&& e.contributor_count > 0
        &&& e.revenue_claimants + 1 >= e.contributor_count
    }

    /// What `claim_revenue` pays `contributor`, or its error.
    pub open spec fn claim_revenue_outcome(&self, campaign_id: u32, contributor: AccountId) -> Result<
        i128,
        Error,
    > {
        match self.claim_revenue_entry_error(campaign_id, contributor) {
            Some(err) => Err(err),
            None => {
                let e = self.entry(campaign_id);
                let c = e.campaign;
                let rec = e.record(contributor);
                let pool = e.revenue_pool as int;
                match revenue_due(c, pool, rec.contribution as int) {
                    None => Err(Error::Overflow),
                    Some(due) => {
                        let claimable = due - rec.revenue_claimed;
                        let is_first = rec.revenue_claimed == 0;
                        if !fits_i128(claimable) {
                            Err(Error::Overflow)
                        } else if claimable <= 0 {
                            Err(Error::NoFundsToWithdraw)
                        } else if is_first && e.contributor_count > 0 && e.revenue_claimants
                            == u32::MAX {
                            Err(Error::Overflow)
                        } else if self.is_last_claimant(campaign_id, contributor)
                            && creator_share_of(pool, c.revenue_share_percentage) is None {
                            Err(Error::Overflow)
                        } else if self.is_last_claimant(campaign_id, contributor) && (!fits_i128(
                            pool - creator_share_of(pool, c.revenue_share_percentage)->0,
                        ) || !fits_i128(
                            pool - creator_share_of(pool, c.revenue_share_percentage)->0
                                - e.revenue_distributed,
                        )) {
                            Err(Error::Overflow)
                        } else {
                            let amount = if self.is_last_claimant(campaign_id, contributor) {
                                let remaining = pool - creator_share_of(
                                    pool,
                                    c.revenue_share_percentage,
                                )->0 - e.revenue_distributed;
                                if remaining > claimable {
                                    remaining
                                } else {
                                    claimable
                                }
                            } else {
                                claimable
                            };
                            if amount <= 0 {
                                Err(Error::NoFundsToWithdraw)
                            } else if !fits_i128(rec.revenue_claimed + amount) || !fits_i128(
                                e.revenue_distributed + amount,
                            ) {
                                Err(Error::Overflow)
                            } else if is_first && e.revenue_claimants == u32::MAX {
                                Err(Error::Overflow)
                            } else {
                                Ok(amount as i128)
                            }
                        }
                    },
                }
            },
        }
    }

    /// The state after `contributor` was paid their revenue claim on
    /// campaign `campaign_id`: the payout is added to their record and to
    /// the campaign's distributed total, and a first claim counts one more
    /// claimant.
    pub open spec fn revenue_paid(&self, new: Platform, campaign_id: u32, contributor: AccountId) -> bool {
        let e = self.entry(campaign_id);
        let ne = new.entry(campaign_id);
        let rec = e.record(contributor);
        let amount = self.claim_revenue_outcome(campaign_id, contributor)->Ok_0;
        &&& self.with_entry(new, campaign_id, ne)
        &&& ne == CampaignEntry {
            contributors: ne.contributors,
            revenue_distributed: (e.revenue_distributed + amount) as i128,
            revenue_claimants: if rec.revenue_claimed == 0 {
                (e.revenue_claimants + 1) as u32
            } else {
                e.revenue_claimants
            },
            ..e
        }
        &&& ne.contributors@ == e.contributors@.insert(
            contributor as u64,
            ContributorRecord {
                revenue_claimed: (rec.revenue_claimed + amount) as i128,
                ..rec
            },
        )
        &&& ne.contributors.entries@ == inserted_entries(
            e.contributors.entries@,
            contributor as u64,
            ContributorRecord {
                revenue_claimed: (rec.revenue_claimed + amount) as i128,
                ..rec
            },
        )
    }

    /// A contributor claims their share of a withdrawn campaign's revenue
    /// pool, less what they already claimed; the last contributor to claim
    /// also takes the rounding dust of the contributor pool.
    pub fn claim_revenue(&mut self, campaign_id: u32, contributor: AccountId) -> (r: Result<
        Vec<Effect>,
        Error,
    >)
        requires
            old(self).wf(),
        ensures
            final(self).wf(),
            match r {
                Ok(effects) => {
                    let e = old(self).entry(campaign_id);
                    let amount = old(self).claim_revenue_outcome(campaign_id, contributor)->Ok_0;
                    &&& old(self).claim_revenue_outcome(campaign_id, contributor) is Ok
                    &&& old(self).revenue_paid(*final(self), campaign_id, contributor)
                    // Directly: a claim that does not sweep pays what the
                    // contributor is owed less what they were already paid;
                    // the sweep, while no one was paid more than owed, brings
                    // the distributed total to the contributors' part.
                    &&& (!old(self).is_last_claimant(campaign_id, contributor) && 0 <= e.revenue_pool
                        && 0 <= e.record(contributor).contribution && 0
                        < e.campaign.effective_amount_raised ==> amount == revenue_owed(
                        e.campaign,
                        e.revenue_pool as int,
                        e.record(contributor).contribution as int,
                    ) - e.record(contributor).revenue_claimed)
                    &&& (old(self).is_last_claimant(campaign_id, contributor) && revenue_unswept(e)
                        ==> final(self).entry(campaign_id).revenue_distributed == e.revenue_pool
                        - creator_share_of(e.revenue_pool as int, e.campaign.revenue_share_percentage)->0)
                    &&& effects@ == seq![
                        Effect::RequireAuth(contributor),
                        Effect::Transfer {
                            token: campaign_token(e, old(self).config.token),
                            from: Party::Contract,
                            to: Party::Account(contributor),
                            amount,
                        },
                        Effect::Emit(Event::RevenueClaimed { campaign_id, contributor, amount }),
                    ]
                },
                Err(err) => {
                    &&& old(self).claim_revenue_outcome(campaign_id, contributor) == Err::<
                        i128,
                        Error,
                    >(err)
                    &&& *final(self) == *old(self)
                },
            },
    {
        self.require_not_paused()?;
        let i = self.campaign_position(campaign_id)?;
        proof {
            assert(self.entries@[i as int].wf());
        }
        let c = &self.entries[i].campaign;
        if c.is_cancelled {
            return Err(Error::CampaignNotActive);
        }
        require_revenue_sharing(c, Error::ValidationFailed)?;
        // Claims wait for the withdrawal: until then the denominator can
        // still grow, and early claimers would be paid against a smaller one.
        if !c.funds_withdrawn {
            return Err(Error::ValidationFailed);
        }
        let rec = self.entries[i].record_of(contributor);
        let contribution = rec.contribution;
        if contribution == 0 {
            return Err(Error::ValidationFailed);
        }
        if c.effective_amount_raised == 0 {
            return Err(Error::AmountRaisedIsZero);
        }
        let total_pool = self.entries[i].revenue_pool;
        let p1 = match contribution.checked_mul(total_pool) {
            Some(v) => v,
            None => {
                return Err(Error::Overflow);
            },
        };
        let p2 = match p1.checked_mul(c.revenue_share_percentage as i128) {
            Some(v) => v,
            None => {
                return Err(Error::Overflow);
            },
        };
        let q = match p2.checked_div(c.effective_amount_raised) {
            Some(v) => v,
            None => {
                return Err(Error::Overflow);
            },
        };
        let total_due = match q.checked_div(BPS_DENOMINATOR as i128) {
            Some(v) => v,
            None => {
                return Err(Error::Overflow);
            },
        };
        let already_claimed = rec.revenue_claimed;
        let mut claimable = match total_due.checked_sub(already_claimed) {
            Some(v) => v,
            None => {
                return Err(Error::Overflow);
            },
        };
        if claimable <= 0 {
            return Err(Error::NoFundsToWithdraw);
        }
        let is_first_claim = already_claimed == 0;
        let claimants_so_far = self.entries[i].revenue_claimants;
        let total_contributors = self.entries[i].contributor_count;
        let is_last_claimant = if is_first_claim && total_contributors > 0 {
            match claimants_so_far.checked_add(1) {
                Some(n) => n >= total_contributors,
                None => {
                    return Err(Error::Overflow);
                },
            }
        } else {
            false
        };
        let distributed_so_far = self.entries[i].revenue_distributed;
        if is_last_claimant {
            let creator_share_bps = BPS_DENOMINATOR as i128 - c.revenue_share_percentage as i128;
            let creator_share_total = match total_pool.checked_mul(creator_share_bps) {
                Some(v) => v / (BPS_DENOMINATOR as i128),
                None => {
                    return Err(Error::Overflow);
                },
            };
            let contributor_pool_total = match total_pool.checked_sub(creator_share_total) {
                Some(v) => v,
                None => {
                    return Err(Error::Overflow);
                },
            };
            let pool_remaining = match contributor_pool_total.checked_sub(distributed_so_far) {
                Some(v) => v,
                None => {
                    return Err(Error::Overflow);
                },
            };
            if pool_remaining > claimable {
                claimable = pool_remaining;
            }
        }
        if claimable <= 0 {
            return Err(Error::NoFundsToWithdraw);
        }
        let new_claimed = match already_claimed.checked_add(claimable) {
            Some(v) => v,
            None => {
                return Err(Error::Overflow);
            },
        };
        let new_distributed = match distributed_so_far.checked_add(claimable) {
            Some(v) => v,
            None => {
                return Err(Error::Overflow);
            },
        };
        let new_claimants = if is_first_claim {
            match claimants_so_far.checked_add(1) {
                Some(v) => v,
                None => {
                    return Err(Error::Overflow);
                },
            }
        } else {
            claimants_so_far
        };
        let token = self.campaign_token_of(i);

        // State first, transfer after.
        let ghost old_self = *self;
        self.entries[i].contributors.insert(
            contributor,
            ContributorRecord { revenue_claimed: new_claimed, ..rec },
        );
        self.entries[i].revenue_distributed = new_distributed;
        self.entries[i].revenue_claimants = new_claimants;
        proof {
            assert(self.entries@ =~= old_self.entries@.update(i as int, self.entries@[i as int]));
            assert(old_self.entries@[i as int].wf());
            lemma_entry_update_wf(old_self, *self, i as int);
        }
        let mut effects: Vec<Effect> = Vec::new();
        effects.push(Effect::RequireAuth(contributor));
        effects.push(
            Effect::Transfer {
                token,
                from: Party::Contract,
                to: Party::Account(contributor),
                amount: claimable,
            },
        );
        effects.push(
            Effect::Emit(Event::RevenueClaimed { campaign_id, contributor, amount: claimable }),
        );
        proof {
            let e = old_self.entry(campaign_id);
            if 0 <= e.revenue_pool && 0 <= e.record(contributor).contribution && 0
                < e.campaign.effective_amount_raised {
                lemma_due_is_owed(e.campaign, e.revenue_pool as int, e.record(contributor).contribution as int);
            }
            assert(old_self.revenue_paid(*self, campaign_id, contributor));
            if old_self.is_last_claimant(campaign_id, contributor) && revenue_unswept(e) {
                crate::laws::lemma_sweep_completes_pool(old_self, *self, campaign_id, contributor);
            }
        }
        Ok(effects)
    }
}

} // verus!

verus! {

impl Platform {
    /// What `claim_creator_revenue` pays the creator, or its error.
    pub open spec fn claim_creator_revenue_outcome(&self, campaign_id: u32) -> Result<i128, Error> {
        if !self.has_campaign(campaign_id) {
            Err(Error::CampaignNotFound)
        } else {
            let e = self.entry(campaign_id);
            let c = e.campaign;
            if self.is_paused() {
                Err(Error::ContractPaused)
            } else if !c.has_revenue_sharing {
                Err(Error::ValidationFailed)
            } else if c.revenue_share_percentage > BPS_DENOMINATOR {
                Err(Error::ValidationFailed)
            } else {
                match creator_share_of(e.revenue_pool as int, c.revenue_share_percentage) {
                    None => Err(Error::Overflow),
                    Some(total) => {
                        let claimable = total - e.creator_revenue_claimed;
                        if !fits_i128(claimable) {
                            Err(Error::Overflow)
                        } else if claimable <= 0 {
                            Err(Error::NoFundsToWithdraw)
                        } else if !fits_i128(e.creator_revenue_claimed + claimable) {
                            Err(Error::Overflow)
                        } else {
                            Ok(claimable as i128)
                        }
                    },
                }
            }
        }
    }

    /// The creator claims their share of the revenue pool, computed directly
    /// from the pool (not as what the contributors leave), less what they
    /// already claimed.
    pub fn claim_creator_revenue(&mut self, campaign_id: u32) -> (r: Result<Vec<Effect>, Error>)
        requires
            old(self).wf(),
        ensures
            final(self).wf(),
            match r {
                Ok(effects) => {
                    let e = old(self).entry(campaign_id);
                    let ne = final(self).entry(campaign_id);
                    let amount = old(self).claim_creator_revenue_outcome(campaign_id)->Ok_0;
                    &&& old(self).claim_creator_revenue_outcome(campaign_id) is Ok
                    &&& old(self).with_entry(*final(self), campaign_id, ne)
                    &&& ne == CampaignEntry {
                        creator_revenue_claimed: (e.creator_revenue_claimed + amount) as i128,
                        ..e
                    }
                    &&& effects@ == seq![
                        Effect::RequireAuth(e.campaign.creator),
                        Effect::Transfer {
                            token: campaign_token(e, old(self).config.token),
                            from: Party::Contract,
                            to: Party::Account(e.campaign.creator),
                            amount,
                        },
                        Effect::Emit(
                            Event::CreatorRevenueClaimed {
                                campaign_id,
                                creator: e.campaign.creator,
                                amount,
                            },
                        ),
                    ]
                },
                Err(err) => {
                    &&& old(self).claim_creator_revenue_outcome(campaign_id) == Err::<i128, Error>(
                        err,
                    )
                    &&& *final(self) == *old(self)
                },
            },
    {
        let i = self.campaign_position(campaign_id)?;
        self.require_not_paused()?;
        let c = &self.entries[i].campaign;
        require_revenue_sharing(c, Error::ValidationFailed)?;
        if c.revenue_share_percentage > BPS_DENOMINATOR {
            return Err(Error::ValidationFailed);
        }
        let total_pool = self.entries[i].revenue_pool;
        let creator_share_bps = BPS_DENOMINATOR as i128 - c.revenue_share_percentage as i128;
        let creator_share_total = match total_pool.checked_mul(creator_share_bps) {
            Some(v) => v / (BPS_DENOMINATOR as i128),
            None => {
                return Err(Error::Overflow);
            },
        };
        let already_claimed = self.entries[i].creator_revenue_claimed;
        let claimable = match creator_share_total.checked_sub(already_claimed) {
            Some(v) => v,
            None => {
                return Err(Error::Overflow);
            },
        };
        if claimable <= 0 {
            return Err(Error::NoFundsToWithdraw);
        }
        let new_claimed = match already_claimed.checked_add(claimable) {
            Some(v) => v,
            None => {
                return Err(Error::Overflow);
            },
        };
        let creator = self.entries[i].campaign.creator;
        let token = self.campaign_token_of(i);
        let ghost old_self = *self;
        self.entries[i].creator_revenue_claimed = new_claimed;
        proof {
            assert(self.entries@ =~= old_self.entries@.update(i as int, self.entries@[i as int]));
            assert(old_self.entries@[i as int].wf());
            lemma_entry_update_wf(old_self, *self, i as int);
        }
        let mut effects: Vec<Effect> = Vec::new();
        effects.push(Effect::RequireAuth(creator));
        effects.push(
            Effect::Transfer {
                token,
                from: Party::Contract,
                to: Party::Account(creator),
                amount: claimable,
            },
        );
        effects.push(
            Effect::Emit(Event::CreatorRevenueClaimed { campaign_id, creator, amount: claimable }),
        );
        Ok(effects)
    }
}

} // verus!
