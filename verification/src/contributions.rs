//! Contributions, refunds and personal caps.

use vstd::prelude::*;

use crate::constants::{
    AUTO_PAUSE_BURST_CHECK_MIN_RAISED_BPS, AUTO_PAUSE_BURST_THRESHOLD,
    AUTO_PAUSE_SINGLE_CONTRIBUTION_BPS_THRESHOLD, BPS_DENOMINATOR,
};
use crate::errors::Error;
use crate::revenue::campaign_token;
use crate::lifecycle::{is_open, require_active_campaign};
use crate::state::{fits_i128, lemma_entry_update_wf, CampaignEntry, ContributorRecord, Effect, Event, LedgerInfo, Party, Platform};
use crate::types::{AccountId, Campaign};
use crate::table::{inserted_entries, lemma_to_map, Table};

verus! {

/// Whether the campaign's lifetime cap refuses `amount` more from a
/// contributor who has contributed `lifetime` so far. A cap of `0` means
/// "no cap".
pub open spec fn exceeds_cap(c: Campaign, lifetime: i128, amount: i128) -> bool {
    c.max_contribution_per_user > 0 && lifetime + amount > c.max_contribution_per_user
}

/// `ContributionCapExceeded` when the campaign's lifetime cap refuses
/// `amount` more from a contributor with the given lifetime total.
pub fn check_contribution_caps(
    campaign: &Campaign,
    current_lifetime_contribution: i128,
    amount: i128,
) -> (r: Result<(), Error>)
    ensures
        r is Ok <==> !exceeds_cap(*campaign, current_lifetime_contribution, amount),
        r is Err ==> r == Err::<(), Error>(Error::ContributionCapExceeded),
{
    let max = campaign.max_contribution_per_user;
    if max > 0 && exceeds_room(max, current_lifetime_contribution, amount) {
        return Err(Error::ContributionCapExceeded);
    }
    Ok(())
}

/// Whether `used + amount > limit`, computed without overflow.
pub fn exceeds_room(limit: i128, used: i128, amount: i128) -> (r: bool)
    ensures
        r == (used + amount > limit),
{
    match limit.checked_sub(used) {
        Some(room) => amount > room,
        None => used > limit,
    }
}

/// The anomaly guard's verdict on a contribution of `amount` in ledger
/// `sequence`: an error, or the burst counter to store (`None` when burst
/// detection does not run because the campaign has raised at most half of
/// its goal).
///
/// A single contribution above twice the goal, or more than
/// `AUTO_PAUSE_BURST_THRESHOLD` contributions to one campaign within one
/// ledger, is refused with `ContractPaused`.
pub open spec fn burst_outcome(e: CampaignEntry, amount: i128, sequence: u32) -> Result<
    Option<(u32, u32)>,
    Error,
> {
    let c = e.campaign;
    let amount_bps = amount * BPS_DENOMINATOR;
    let threshold = c.funding_goal * AUTO_PAUSE_SINGLE_CONTRIBUTION_BPS_THRESHOLD;
    let raised_bps = c.amount_raised * BPS_DENOMINATOR;
    let check_threshold = c.funding_goal * AUTO_PAUSE_BURST_CHECK_MIN_RAISED_BPS;
    if !fits_i128(amount_bps) || !fits_i128(threshold) {
        Err(Error::Overflow)
    } else if amount_bps > threshold {
        Err(Error::ContractPaused)
    } else if !fits_i128(raised_bps) || !fits_i128(check_threshold) {
        Err(Error::Overflow)
    } else if raised_bps <= check_threshold {
        Ok(None)
    } else {
        let count: int = if sequence == e.burst_ledger {
            e.burst_count + 1
        } else {
            1
        };
        if count > AUTO_PAUSE_BURST_THRESHOLD {
            Err(Error::ContractPaused)
        } else {
            Ok(Some((sequence, count as u32)))
        }
    }
}

/// Runs the anomaly guard of [`burst_outcome`] on campaign entry `e`.
///
/// Both refusals also raise the platform's auto-pause flag and publish an
/// `auto_paused` event; the failed call takes them back with everything else
/// it did, so neither is part of the result.
pub fn check_burst_guard(e: &CampaignEntry, amount: i128, sequence: u32) -> (r: Result<
    Option<(u32, u32)>,
    Error,
>)
    requires
        e.wf(),
    ensures
        r == burst_outcome(*e, amount, sequence),
        // Directly: with the products in range, a contribution above twice
        // the goal is refused; below that, a campaign that raised at most
        // half its goal is not checked, and otherwise the contribution is
        // counted in the ledger's burst.
        fits_i128(amount * 10_000) && fits_i128(e.campaign.funding_goal * 20_000) && fits_i128(
            e.campaign.amount_raised * 10_000,
        ) && fits_i128(e.campaign.funding_goal * 5_000) ==> {
            let goal = e.campaign.funding_goal as int;
            let count: int = if sequence == e.burst_ledger {
                e.burst_count + 1
            } else {
                1
            };
            &&& amount > 2 * goal ==> r == Err::<Option<(u32, u32)>, Error>(Error::ContractPaused)
            &&& amount <= 2 * goal && 2 * e.campaign.amount_raised <= goal ==> r == Ok::<
                Option<(u32, u32)>,
                Error,
            >(None)
            &&& amount <= 2 * goal && 2 * e.campaign.amount_raised > goal ==> r == if count > 10 {
                Err::<Option<(u32, u32)>, Error>(Error::ContractPaused)
            } else {
                Ok(Some((sequence, count as u32)))
            }
        },
{
    let amount_bps = match amount.checked_mul(BPS_DENOMINATOR as i128) {
        Some(v) => v,
        None => {
            return Err(Error::Overflow);
        },
    };
    let threshold = match e.campaign.funding_goal.checked_mul(
        AUTO_PAUSE_SINGLE_CONTRIBUTION_BPS_THRESHOLD,
    ) {
        Some(v) => v,
        None => {
            return Err(Error::Overflow);
        },
    };
    if amount_bps > threshold {
        return Err(Error::ContractPaused);
    }
    let raised_bps = match e.campaign.amount_raised.checked_mul(BPS_DENOMINATOR as i128) {
        Some(v) => v,
        None => {
            return Err(Error::Overflow);
        },
    };
    let burst_check_threshold = match e.campaign.funding_goal.checked_mul(
        AUTO_PAUSE_BURST_CHECK_MIN_RAISED_BPS,
    ) {
        Some(v) => v,
        None => {
            return Err(Error::Overflow);
        },
    };
    if raised_bps <= burst_check_threshold {
        return Ok(None);
    }
    let block_count: u32 = if sequence == e.burst_ledger {
        e.burst_count + 1
    } else {
        1
    };
    if block_count > AUTO_PAUSE_BURST_THRESHOLD {
        return Err(Error::ContractPaused);
    }
    Ok(Some((sequence, block_count)))
}

/// The escrowed contributions recorded in `s`, added up.
pub open spec fn contribution_sum(s: Seq<(u64, ContributorRecord)>) -> int
    decreases s.len(),
{
    if s.len() == 0 {
        0
    } else {
        contribution_sum(s.drop_last()) + s.last().1.contribution
    }
}

/// The escrowed contributions of a campaign's contributors, added up.
pub open spec fn contribution_total(t: Table<ContributorRecord>) -> int {
    contribution_sum(t.entries@)
}

/// Replacing one record changes the sum by the difference of the two.
pub proof fn lemma_contribution_sum_update(
    s: Seq<(u64, ContributorRecord)>,
    i: int,
    x: (u64, ContributorRecord),
)
    requires
        0 <= i < s.len(),
    ensures
        contribution_sum(s.update(i, x)) == contribution_sum(s) - s[i].1.contribution
            + x.1.contribution,
    decreases s.len(),
{
    let u = s.update(i, x);
    if i < s.len() - 1 {
        assert(u.drop_last() =~= s.drop_last().update(i, x));
        lemma_contribution_sum_update(s.drop_last(), i, x);
    } else {
        assert(u.drop_last() =~= s.drop_last());
    }
}

/// Setting `k`'s record to `x` changes the sum by `x`'s contribution less
/// what `k` had (nothing when `k` had no record).
pub proof fn lemma_contribution_total_insert(t: Table<ContributorRecord>, k: u64, x: ContributorRecord)
    requires
        t.wf(),
    ensures
        contribution_sum(inserted_entries(t.entries@, k, x)) == contribution_total(t) - (if t@.contains_key(
            k,
        ) {
            t@[k].contribution as int
        } else {
            0
        }) + x.contribution,
{
    let s = t.entries@;
    lemma_to_map(s);
    if exists|i: int| 0 <= i < s.len() && s[i].0 == k {
        let c = choose|i: int| 0 <= i < s.len() && s[i].0 == k;
        lemma_contribution_sum_update(s, c, (k, x));
        assert(t@[s[c].0] == s[c].1);
    } else {
        assert(s.push((k, x)).drop_last() =~= s);
        assert(!t@.contains_key(k));
    }
}

/// The campaign's top contributor once `contributor`'s escrowed
/// contribution has become `total`: they take the place when there is no
/// top contributor yet, or when they now hold more than the current one;
/// otherwise the current one stays.
pub open spec fn new_top_contributor(e: CampaignEntry, contributor: AccountId, total: int) -> Option<
    AccountId,
> {
    match e.top_contributor {
        None => Some(contributor),
        Some(t) => if t != contributor && total > e.record(t).contribution {
            Some(contributor)
        } else {
            Some(t)
        },
    }
}

impl Platform {
    /// The checks of `contribute` before the caps: `None` when they pass.
    pub open spec fn contribute_entry_error(
        &self,
        campaign_id: u32,
        contributor: AccountId,
        amount: i128,
        ledger: LedgerInfo,
    ) -> Option<Error> {
        if self.is_paused() {
            Some(Error::ContractPaused)
        } else if amount <= 0 {
            Some(Error::ContributionMustBePositive)
        } else if !self.has_campaign(campaign_id) {
            Some(Error::CampaignNotFound)
        } else {
            let c = self.campaign(campaign_id);
            if !c.is_verified {
                Some(Error::CampaignNotVerified)
            } else if !is_open(c) {
                Some(Error::CampaignNotActive)
            } else if contributor == c.creator {
                Some(Error::NotAuthorized)
            } else if ledger.timestamp > c.deadline {
                Some(Error::DeadlinePassed)
            } else {
                None
            }
        }
    }

    /// The error `contribute` returns, or `None` when it succeeds.
    pub open spec fn contribute_error(
        &self,
        campaign_id: u32,
        contributor: AccountId,
        amount: i128,
        ledger: LedgerInfo,
    ) -> Option<Error> {
        match self.contribute_entry_error(campaign_id, contributor, amount, ledger) {
            Some(e) => Some(e),
            None => {
                let e = self.entry(campaign_id);
                let rec = e.record(contributor);
                if exceeds_cap(e.campaign, rec.lifetime, amount) {
                    Some(Error::ContributionCapExceeded)
                } else if rec.personal_cap is Some && rec.contribution + amount
                    > rec.personal_cap->0 {
                    Some(Error::ContributionCapExceeded)
                } else {
                    match burst_outcome(e, amount, ledger.sequence) {
                        Err(err) => Some(err),
                        Ok(_) => if !fits_i128(e.campaign.amount_raised + amount) || !fits_i128(
                            e.campaign.effective_amount_raised + amount,
                        ) || !fits_i128(rec.contribution + amount) || !fits_i128(
                            rec.lifetime + amount,
                        ) || !fits_i128(self.total_raised + amount) {
                            Some(Error::Overflow)
                        } else {
                            None
                        },
                    }
                }
            },
        }
    }

    /// The state after a successful contribution.
    pub open spec fn contributed(
        &self,
        new: Platform,
        campaign_id: u32,
        contributor: AccountId,
        amount: i128,
        ledger: LedgerInfo,
    ) -> bool {
        let i = campaign_id - 1;
        let e = self.entry(campaign_id);
        let ne = new.entries@[i];
        let c = e.campaign;
        let rec = e.record(contributor);
        let burst = burst_outcome(e, amount, ledger.sequence)->Ok_0;
        let counter = burst->0;
        &&& new == Platform {
            entries: new.entries,
            total_raised: (self.total_raised + amount) as i128,
            ..*self
        }
        &&& new.entries@ == self.entries@.update(i, ne)
        &&& ne == CampaignEntry {
            campaign: Campaign {
                amount_raised: (c.amount_raised + amount) as i128,
                effective_amount_raised: (c.effective_amount_raised + amount) as i128,
                ..c
            },
            contributors: ne.contributors,
            contributor_count: if rec.lifetime == 0 {
                if e.contributor_count == u32::MAX {
                    e.contributor_count
                } else {
                    (e.contributor_count + 1) as u32
                }
            } else {
                e.contributor_count
            },
            burst_ledger: if burst is Some {
                counter.0
            } else {
                e.burst_ledger
            },
            burst_count: if burst is Some {
                counter.1
            } else {
                e.burst_count
            },
            top_contributor: new_top_contributor(e, contributor, (rec.contribution + amount) as int),
            last_contribution_time: ledger.timestamp,
            ..e
        }
        &&& ne.contributors@ == e.contributors@.insert(
            contributor as u64,
            ContributorRecord {
                contribution: (rec.contribution + amount) as i128,
                lifetime: (rec.lifetime + amount) as i128,
                ..rec
            },
        )
        &&& contribution_total(ne.contributors) == contribution_total(e.contributors) + amount
    }

    /// `contributor` puts `amount` of the campaign's currency into campaign
    /// `campaign_id`.
    ///
    /// Refused while the platform is paused, for a non-positive amount, an
    /// unknown, unverified or closed campaign, a contribution from the
    /// creator, after the deadline, above the campaign's lifetime cap or the
    /// contributor's personal cap, by the anomaly guard, and when a total
    /// would overflow. A contribution that goes through also records the
    /// ledger time as the campaign's last contribution time and updates its
    /// top contributor.
    pub fn contribute(
        &mut self,
        campaign_id: u32,
        contributor: AccountId,
        amount: i128,
        ledger: LedgerInfo,
    ) -> (r: Result<Vec<Effect>, Error>)
        requires
            old(self).wf(),
        ensures
            final(self).wf(),
            match r {
                Ok(effects) => {
                    &&& old(self).contribute_error(campaign_id, contributor, amount, ledger) is None
                    &&& old(self).contributed(
                        *final(self),
                        campaign_id,
                        contributor,
                        amount,
                        ledger,
                    )
                    &&& effects@ == seq![
                        Effect::RequireAuth(contributor),
                        Effect::Transfer {
                            token: campaign_token(old(self).entry(campaign_id), old(self).config.token),
                            from: Party::Account(contributor),
                            to: Party::Contract,
                            amount,
                        },
                        Effect::Emit(Event::ContributionMade { campaign_id, contributor, amount }),
                    ]
                },
                Err(err) => {
                    &&& old(self).contribute_error(campaign_id, contributor, amount, ledger)
                        == Some(err)
                    &&& *final(self) == *old(self)
                },
            },
    {
        self.require_not_paused()?;
        if amount <= 0 {
            return Err(Error::ContributionMustBePositive);
        }
        let i = self.campaign_position(campaign_id)?;
        if !self.entries[i].campaign.is_verified {
            return Err(Error::CampaignNotVerified);
        }
        require_active_campaign(&self.entries[i].campaign)?;
        if contributor == self.entries[i].campaign.creator {
            return Err(Error::NotAuthorized);
        }
        if ledger.timestamp > self.entries[i].campaign.deadline {
            return Err(Error::DeadlinePassed);
        }
        proof {
            assert(self.entries@[i as int].wf());
        }
        let rec = self.entries[i].record_of(contributor);
        check_contribution_caps(&self.entries[i].campaign, rec.lifetime, amount)?;
        if let Some(cap) = rec.personal_cap {
            if exceeds_room(cap, rec.contribution, amount) {
                return Err(Error::ContributionCapExceeded);
            }
        }
        let burst = check_burst_guard(&self.entries[i], amount, ledger.sequence)?;
        let raised = match self.entries[i].campaign.amount_raised.checked_add(amount) {
            Some(v) => v,
            None => {
                return Err(Error::Overflow);
            },
        };
        let effective = match self.entries[i].campaign.effective_amount_raised.checked_add(amount) {
            Some(v) => v,
            None => {
                return Err(Error::Overflow);
            },
        };
        let contribution = match rec.contribution.checked_add(amount) {
            Some(v) => v,
            None => {
                return Err(Error::Overflow);
            },
        };
        let lifetime = match rec.lifetime.checked_add(amount) {
            Some(v) => v,
            None => {
                return Err(Error::Overflow);
            },
        };
        let total = match self.total_raised.checked_add(amount) {
            Some(v) => v,
            None => {
                return Err(Error::Overflow);
            },
        };

        let currency = self.campaign_token_of(i);
        let top = match self.entries[i].top_contributor {
            None => Some(contributor),
            Some(t) => {
                if t != contributor && contribution > self.entries[i].record_of(t).contribution {
                    Some(contributor)
                } else {
                    Some(t)
                }
            },
        };
        // Accounting.
        let ghost old_self = *self;
        if let Some((seq, count)) = burst {
            self.entries[i].burst_ledger = seq;
            self.entries[i].burst_count = count;
        }
        self.entries[i].campaign.amount_raised = raised;
        self.entries[i].campaign.effective_amount_raised = effective;
        self.entries[i].top_contributor = top;
        self.entries[i].last_contribution_time = ledger.timestamp;
        proof {
            lemma_contribution_total_insert(
                self.entries@[i as int].contributors,
                contributor as u64,
                ContributorRecord { contribution, lifetime, ..rec },
            );
        }
        self.entries[i].contributors.insert(
            contributor,
            ContributorRecord { contribution, lifetime, ..rec },
        );
        if rec.lifetime == 0 {
            self.entries[i].contributor_count = self.entries[i].contributor_count.saturating_add(
                1,
            );
        }
        self.total_raised = total;
        proof {
            assert(self.entries@ == old_self.entries@.update(i as int, self.entries@[i as int]));
            assert forall|j: int| 0 <= j < self.entries@.len() implies #[trigger] self.entries@[j].wf()
                && self.entries@[j].campaign.id == j + 1 by {
                if j != i {
                    assert(self.entries@[j] == old_self.entries@[j]);
                }
            }
        }

        let mut effects: Vec<Effect> = Vec::new();
        effects.push(Effect::RequireAuth(contributor));
        effects.push(
            Effect::Transfer {
                token: currency,
                from: Party::Account(contributor),
                to: Party::Contract,
                amount,
            },
        );
        effects.push(Effect::Emit(Event::ContributionMade { campaign_id, contributor, amount }));
        Ok(effects)
    }
}

} // verus!

verus! {

impl Platform {
    /// The error `claim_refund` returns, or `None` when it succeeds.
    pub open spec fn claim_refund_error(
        &self,
        campaign_id: u32,
        contributor: AccountId,
        ledger: LedgerInfo,
    ) -> Option<Error> {
        if self.is_paused() {
            Some(Error::ContractPaused)
        } else if !self.has_campaign(campaign_id) {
            Some(Error::CampaignNotFound)
        } else {
            let e = self.entry(campaign_id);
            let c = e.campaign;
            let amount = e.record(contributor).contribution;
            let failed_due_to_goal = ledger.timestamp > c.deadline && c.amount_raised
                < c.funding_goal;
            if !(c.is_cancelled || failed_due_to_goal) {
                Some(Error::ValidationFailed)
            } else if amount == 0 {
                Some(Error::NoFundsToWithdraw)
            } else if !fits_i128(c.effective_amount_raised - amount) {
                Some(Error::Overflow)
            } else if !fits_i128(self.total_raised - amount) {
                Some(Error::Overflow)
            } else {
                None
            }
        }
    }

    /// The state after `contributor` was refunded on campaign `campaign_id`:
    /// the contribution, the revenue already claimed and the personal cap
    /// are cleared, the lifetime total stays, and the refunded amount leaves
    /// the campaign's effective total and the platform's total.
    pub open spec fn refunded(&self, new: Platform, campaign_id: u32, contributor: AccountId) -> bool {
        let e = self.entry(campaign_id);
        let ne = new.entry(campaign_id);
        let rec = e.record(contributor);
        let amount = rec.contribution;
        &&& new == Platform {
            entries: new.entries,
            total_raised: (self.total_raised - amount) as i128,
            ..*self
        }
        &&& new.entries@ == self.entries@.update(campaign_id - 1, ne)
        &&& ne == CampaignEntry {
            campaign: Campaign {
                effective_amount_raised: (e.campaign.effective_amount_raised - amount) as i128,
                ..e.campaign
            },
            contributors: ne.contributors,
            contributor_count: if e.contributor_count == 0 {
                0
            } else {
                (e.contributor_count - 1) as u32
            },
            ..e
        }
        &&& ne.contributors@ == e.contributors@.insert(
            contributor as u64,
            ContributorRecord { contribution: 0, personal_cap: None, revenue_claimed: 0, ..rec },
        )
        &&& contribution_total(ne.contributors) == contribution_total(e.contributors) - amount
    }

    /// `contributor` takes back their contribution to a campaign that was
    /// cancelled, or that missed its goal by its deadline.
    ///
    /// The contribution, the revenue already claimed and the personal cap are
    /// cleared; the lifetime total stays.
    pub fn claim_refund(&mut self, campaign_id: u32, contributor: AccountId, ledger: LedgerInfo) -> (r:
        Result<Vec<Effect>, Error>)
        requires
            old(self).wf(),
        ensures
            final(self).wf(),
            match r {
                Ok(effects) => {
                    let amount = old(self).entry(campaign_id).record(contributor).contribution;
                    &&& old(self).claim_refund_error(campaign_id, contributor, ledger) is None
                    &&& old(self).refunded(*final(self), campaign_id, contributor)
                    &&& effects@ == seq![
                        Effect::RequireAuth(contributor),
                        Effect::Transfer {
                            token: campaign_token(old(self).entry(campaign_id), old(self).config.token),
                            from: Party::Contract,
                            to: Party::Account(contributor),
                            amount,
                        },
                        Effect::Emit(Event::RefundClaimed { campaign_id, contributor, amount }),
                    ]
                },
                Err(err) => {
                    &&& old(self).claim_refund_error(campaign_id, contributor, ledger) == Some(err)
                    &&& *final(self) == *old(self)
                },
            },
    {
        self.require_not_paused()?;
        let i = self.campaign_position(campaign_id)?;
        proof {
            assert(self.entries@[i as int].wf());
        }
        let c = &self.entries[i].campaign;
        let failed_due_to_goal = ledger.timestamp > c.deadline && c.amount_raised
            < c.funding_goal;
        if !(c.is_cancelled || failed_due_to_goal) {
            return Err(Error::ValidationFailed);
        }
        let rec = self.entries[i].record_of(contributor);
        let amount = rec.contribution;
        if amount == 0 {
            return Err(Error::NoFundsToWithdraw);
        }
        let effective = match self.entries[i].campaign.effective_amount_raised.checked_sub(amount) {
            Some(v) => v,
            None => {
                return Err(Error::Overflow);
            },
        };
        let total = match self.total_raised.checked_sub(amount) {
            Some(v) => v,
            None => {
                return Err(Error::Overflow);
            },
        };

        let currency = self.campaign_token_of(i);
        let ghost old_self = *self;
        proof {
            lemma_contribution_total_insert(
                self.entries@[i as int].contributors,
                contributor as u64,
                ContributorRecord { contribution: 0, personal_cap: None, revenue_claimed: 0, ..rec },
            );
        }
        self.entries[i].contributors.insert(
            contributor,
            ContributorRecord { contribution: 0, personal_cap: None, revenue_claimed: 0, ..rec },
        );
        self.entries[i].contributor_count = self.entries[i].contributor_count.saturating_sub(1);
        self.entries[i].campaign.effective_amount_raised = effective;
        self.total_raised = total;
        proof {
            assert(self.entries@ =~= old_self.entries@.update(i as int, self.entries@[i as int]));
            lemma_entry_update_wf(old_self, *self, i as int);
        }

        let mut effects: Vec<Effect> = Vec::new();
        effects.push(Effect::RequireAuth(contributor));
        effects.push(
            Effect::Transfer {
                token: currency,
                from: Party::Contract,
                to: Party::Account(contributor),
                amount,
            },
        );
        effects.push(Effect::Emit(Event::RefundClaimed { campaign_id, contributor, amount }));
        Ok(effects)
    }

    /// The state after `contributor`'s personal cap on campaign
    /// `campaign_id` became `cap`, nothing else changed.
    pub open spec fn cap_changed(
        &self,
        new: Platform,
        campaign_id: u32,
        contributor: AccountId,
        cap: Option<i128>,
    ) -> bool {
        let e = self.entry(campaign_id);
        let ne = new.entry(campaign_id);
        &&& self.with_entry(new, campaign_id, ne)
        &&& ne == CampaignEntry { contributors: ne.contributors, ..e }
        &&& ne.contributors@ == e.contributors@.insert(
            contributor as u64,
            ContributorRecord { personal_cap: cap, ..e.record(contributor) },
        )
        &&& contribution_total(ne.contributors) == contribution_total(e.contributors)
    }

    /// The error `set_personal_cap` returns, or `None` when it succeeds.
    pub open spec fn set_personal_cap_error(
        &self,
        campaign_id: u32,
        contributor: AccountId,
        amount: i128,
    ) -> Option<Error> {
        if amount < 0 {
            Some(Error::ValidationFailed)
        } else if !self.has_campaign(campaign_id) {
            Some(Error::CampaignNotFound)
        } else {
            let c = self.campaign(campaign_id);
            if !is_open(c) {
                Some(Error::CampaignNotActive)
            } else if c.max_contribution_per_user > 0 && amount > c.max_contribution_per_user {
                Some(Error::ValidationFailed)
            } else if amount < self.entry(campaign_id).record(contributor).lifetime {
                Some(Error::ValidationFailed)
            } else {
                None
            }
        }
    }

    /// `contributor` caps their own contribution to an open campaign at
    /// `amount`, which must be non-negative, within the campaign's cap and
    /// no less than what the contributor has contributed over its lifetime.
    pub fn set_personal_cap(&mut self, campaign_id: u32, contributor: AccountId, amount: i128) -> (r:
        Result<Vec<Effect>, Error>)
        requires
            old(self).wf(),
        ensures
            final(self).wf(),
            match r {
                Ok(effects) => {
                    &&& old(self).set_personal_cap_error(campaign_id, contributor, amount) is None
                    &&& old(self).cap_changed(*final(self), campaign_id, contributor, Some(amount))
                    &&& effects@ == seq![
                        Effect::RequireAuth(contributor),
                        Effect::Emit(Event::PersonalCapSet { campaign_id, contributor, amount }),
                    ]
                },
                Err(err) => {
                    &&& old(self).set_personal_cap_error(campaign_id, contributor, amount) == Some(err)
                    &&& *final(self) == *old(self)
                },
            },
    {
        if amount < 0 {
            return Err(Error::ValidationFailed);
        }
        let i = self.campaign_position(campaign_id)?;
        require_active_campaign(&self.entries[i].campaign)?;
        let max = self.entries[i].campaign.max_contribution_per_user;
        if max > 0 && amount > max {
            return Err(Error::ValidationFailed);
        }
        proof {
            assert(self.entries@[i as int].wf());
        }
        let rec = self.entries[i].record_of(contributor);
        // A cap below what the contributor already gave could never be met.
        if amount < rec.lifetime {
            return Err(Error::ValidationFailed);
        }
        let ghost old_self = *self;
        proof {
            lemma_contribution_total_insert(
                self.entries@[i as int].contributors,
                contributor as u64,
                ContributorRecord { personal_cap: Some(amount), ..rec },
            );
        }
        self.entries[i].contributors.insert(
            contributor,
            ContributorRecord { personal_cap: Some(amount), ..rec },
        );
        proof {
            assert(self.entries@ =~= old_self.entries@.update(i as int, self.entries@[i as int]));
            lemma_entry_update_wf(old_self, *self, i as int);
        }
        let mut effects: Vec<Effect> = Vec::new();
        effects.push(Effect::RequireAuth(contributor));
        effects.push(Effect::Emit(Event::PersonalCapSet { campaign_id, contributor, amount }));
        Ok(effects)
    }

    /// Whether `contributor` has a personal cap on campaign `campaign_id`.
    pub open spec fn has_personal_cap(&self, campaign_id: u32, contributor: AccountId) -> bool {
        self.has_campaign(campaign_id) && self.entry(campaign_id).record(contributor).personal_cap is Some
    }

    /// `contributor` removes their personal cap on a campaign;
    /// `PersonalCapNotFound` when they never set one.
    pub fn remove_personal_cap(&mut self, campaign_id: u32, contributor: AccountId) -> (r: Result<
        Vec<Effect>,
        Error,
    >)
        requires
            old(self).wf(),
        ensures
            final(self).wf(),
            r is Ok <==> old(self).has_personal_cap(campaign_id, contributor),
            match r {
                Ok(effects) => {
                    &&& old(self).cap_changed(*final(self), campaign_id, contributor, None)
                    &&& effects@ == seq![
                        Effect::RequireAuth(contributor),
                        Effect::Emit(Event::PersonalCapRemoved { campaign_id, contributor }),
                    ]
                },
                Err(err) => {
                    &&& err == Error::PersonalCapNotFound
                    &&& *final(self) == *old(self)
                },
            },
    {
        if campaign_id == 0 || campaign_id as usize > self.entries.len() {
            return Err(Error::PersonalCapNotFound);
        }
        let i = (campaign_id - 1) as usize;
        proof {
            assert(self.entries@[i as int].wf());
        }
        let rec = self.entries[i].record_of(contributor);
        if rec.personal_cap.is_none() {
            return Err(Error::PersonalCapNotFound);
        }
        let ghost old_self = *self;
        proof {
            lemma_contribution_total_insert(
                self.entries@[i as int].contributors,
                contributor as u64,
                ContributorRecord { personal_cap: None, ..rec },
            );
        }
        self.entries[i].contributors.insert(contributor, ContributorRecord { personal_cap: None, ..rec });
        proof {
            assert(self.entries@ =~= old_self.entries@.update(i as int, self.entries@[i as int]));
            lemma_entry_update_wf(old_self, *self, i as int);
        }
        let mut effects: Vec<Effect> = Vec::new();
        effects.push(Effect::RequireAuth(contributor));
        effects.push(Effect::Emit(Event::PersonalCapRemoved { campaign_id, contributor }));
        Ok(effects)
    }
}

} // verus!

verus! {

impl Platform {
    /// What `contributor` currently has in escrow in campaign `campaign_id`
    /// (0 for an unknown campaign).
    pub fn get_contribution(&self, campaign_id: u32, contributor: AccountId) -> (r: i128)
        requires
            self.wf(),
        ensures
            r == if self.has_campaign(campaign_id) {
                self.entry(campaign_id).record(contributor).contribution
            } else {
                0
            },
    {
        match self.campaign_position(campaign_id) {
            Ok(i) => {
                proof {
                    assert(self.entries@[i as int].wf());
                }
                self.entries[i].record_of(contributor).contribution
            },
            Err(_) => 0,
        }
    }

    /// The revenue `contributor` has been paid from campaign `campaign_id`
    /// (0 for an unknown campaign).
    pub fn get_revenue_claimed(&self, campaign_id: u32, contributor: AccountId) -> (r: i128)
        requires
            self.wf(),
        ensures
            r == if self.has_campaign(campaign_id) {
                self.entry(campaign_id).record(contributor).revenue_claimed
            } else {
                0
            },
    {
        match self.campaign_position(campaign_id) {
            Ok(i) => {
                proof {
                    assert(self.entries@[i as int].wf());
                }
                self.entries[i].record_of(contributor).revenue_claimed
            },
            Err(_) => 0,
        }
    }

    /// Everything `contributor` ever put into campaign `campaign_id`,
    /// refunds notwithstanding (0 for an unknown campaign).
    pub fn get_lifetime_contribution(&self, campaign_id: u32, contributor: AccountId) -> (r: i128)
        requires
            self.wf(),
        ensures
            r == if self.has_campaign(campaign_id) {
                self.entry(campaign_id).record(contributor).lifetime
            } else {
                0
            },
    {
        match self.campaign_position(campaign_id) {
            Ok(i) => {
                proof {
                    assert(self.entries@[i as int].wf());
                }
                self.entries[i].record_of(contributor).lifetime
            },
            Err(_) => 0,
        }
    }

    /// The personal cap `contributor` set on campaign `campaign_id`, if any.
    pub fn get_personal_cap(&self, campaign_id: u32, contributor: AccountId) -> (r: Option<i128>)
        requires
            self.wf(),
        ensures
            r == if self.has_campaign(campaign_id) {
                self.entry(campaign_id).record(contributor).personal_cap
            } else {
                None
            },
    {
        match self.campaign_position(campaign_id) {
            Ok(i) => {
                proof {
                    assert(self.entries@[i as int].wf());
                }
                self.entries[i].record_of(contributor).personal_cap
            },
            Err(_) => None,
        }
    }
}

} // verus!
