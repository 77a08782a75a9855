//! Campaign creation.

use vstd::prelude::*;

use crate::constants::{
    CAMPAIGN_DESCRIPTION_MAX_LEN, CAMPAIGN_DESCRIPTION_MIN_LEN, CAMPAIGN_DURATION_MAX_DAYS,
    CAMPAIGN_DURATION_MIN_DAYS, CAMPAIGN_FUNDING_GOAL_MAX, CAMPAIGN_FUNDING_GOAL_MIN,
    CAMPAIGN_TITLE_MAX_LEN, CAMPAIGN_TITLE_MIN_LEN, CATEGORY_CAMPAIGNS_BUCKET_SIZE,
    CREATOR_CAMPAIGNS_BUCKET_SIZE, REVENUE_SHARE_MAX_BPS,
};
use crate::errors::Error;
use crate::index::{can_append, append_to_index, idx_can_append, table_appended};
use crate::lifecycle::{calculate_deadline, deadline_after};
use crate::revenue::campaign_token;
use crate::state::{
    category_index, category_slot, CampaignEntry, Config, ContributorRecord, Effect, Event, LedgerInfo, Platform,
};
use crate::table::Table;
use crate::types::{copy_bytes, AccountId, Campaign, Category, CreateCampaignParams};

verus! {

impl Platform {
    /// The lowest funding goal in force.
    pub open spec fn min_goal(&self) -> i128 {
        match self.config.min_funding_goal {
            Some(m) => m,
            None => CAMPAIGN_FUNDING_GOAL_MIN,
        }
    }

    /// The highest funding goal in force.
    pub open spec fn max_goal(&self) -> i128 {
        match self.config.max_funding_goal {
            Some(m) => m,
            None => CAMPAIGN_FUNDING_GOAL_MAX,
        }
    }

    /// The longest duration, in days, of a campaign in category `c`.
    pub open spec fn duration_cap(&self, c: Category) -> u64 {
        match self.config.duration_caps[category_slot(c) as int] {
            Some(d) => d,
            None => CAMPAIGN_DURATION_MAX_DAYS,
        }
    }

    /// The currency a campaign created with `token` is pinned to: `None`
    /// (the platform token) unless a different token is named.
    pub open spec fn pinned_token(&self, token: Option<AccountId>) -> Option<AccountId> {
        match token {
            Some(t) => if t != self.config.token {
                Some(t)
            } else {
                None
            },
            None => None,
        }
    }

    /// The checks of campaign creation: `None` when they all pass.
    pub open spec fn create_validation_error(
        &self,
        p: CreateCampaignParams,
        token: Option<AccountId>,
    ) -> Option<Error> {
        let share = if p.has_revenue_sharing {
            p.revenue_share_percentage
        } else {
            0
        };
        if self.is_paused() {
            Some(Error::ContractPaused)
        } else if self.config.creation_disabled {
            Some(Error::CreationDisabled)
        } else if p.funding_goal <= 0 {
            Some(Error::FundingGoalMustBePositive)
        } else if p.funding_goal < self.min_goal() {
            Some(Error::FundingGoalTooLow)
        } else if p.funding_goal > self.max_goal() {
            Some(Error::FundingGoalTooHigh)
        } else if self.config.category_goal_caps[category_slot(p.category) as int] matches Some(
            cap,
        ) && p.funding_goal > cap {
            Some(Error::FundingGoalTooHigh)
        } else if !(CAMPAIGN_DURATION_MIN_DAYS <= p.duration_days <= self.duration_cap(
            p.category,
        )) {
            Some(Error::InvalidDuration)
        } else if p.title@.len() < CAMPAIGN_TITLE_MIN_LEN || p.title@.len()
            > CAMPAIGN_TITLE_MAX_LEN {
            Some(Error::ValidationFailed)
        } else if p.description@.len() < CAMPAIGN_DESCRIPTION_MIN_LEN || p.description@.len()
            > CAMPAIGN_DESCRIPTION_MAX_LEN {
            Some(Error::ValidationFailed)
        } else if p.category != Category::EducationalStartup && p.has_revenue_sharing {
            Some(Error::RevenueShareOnlyForStartup)
        } else if share > REVENUE_SHARE_MAX_BPS {
            Some(Error::InvalidRevenueShare)
        } else if p.has_revenue_sharing && share == 0 {
            Some(Error::InvalidRevenueShare)
        } else if p.max_contribution_per_user < 0 {
            Some(Error::ValidationFailed)
        } else if self.pinned_token(token) is Some && !self.config.allowed_tokens@.contains(
            self.pinned_token(token)->0,
        ) {
            Some(Error::ValidationFailed)
        } else {
            None
        }
    }

    /// The error campaign creation returns, or `None` when it succeeds.
    pub open spec fn create_error(
        &self,
        p: CreateCampaignParams,
        token: Option<AccountId>,
        ledger: LedgerInfo,
    ) -> Option<Error> {
        match self.create_validation_error(p, token) {
            Some(e) => Some(e),
            None => if deadline_after(ledger.timestamp, p.duration_days) is None {
                Some(Error::ValidationFailed)
            } else if self.entries@.len() >= u32::MAX {
                Some(Error::Overflow)
            } else if !idx_can_append(
                self.category_index,
                category_slot(p.category),
                CATEGORY_CAMPAIGNS_BUCKET_SIZE,
            ) {
                Some(Error::Overflow)
            } else if !idx_can_append(
                self.creator_index,
                p.creator as u64,
                CREATOR_CAMPAIGNS_BUCKET_SIZE,
            ) {
                Some(Error::Overflow)
            } else {
                None
            },
        }
    }

    /// What creating a campaign from `p` in currency `token` did: `new` is
    /// the state after the call and `r` its result.
    pub open spec fn create_outcome(
        &self,
        new: Platform,
        p: CreateCampaignParams,
        token: Option<AccountId>,
        ledger: LedgerInfo,
        r: Result<(u32, Vec<Effect>), Error>,
    ) -> bool {
        match r {
            Ok((id, effects)) => {
                let n = self.entries@.len();
                let ne = new.entries@[n as int];
                let c = ne.campaign;
                let pinned = self.pinned_token(token);
                &&& self.create_error(p, token, ledger) is None
                &&& id == n + 1
                &&& new.entries@.len() == n + 1
                &&& new.entries@.subrange(0, n as int) == self.entries@
                &&& c == Campaign {
                    title: c.title,
                    description: c.description,
                    ..Campaign {
                        id,
                        creator: p.creator,
                        first_creator: p.creator,
                        pending_creator: None,
                        title: p.title,
                        description: p.description,
                        funding_goal: p.funding_goal,
                        deadline: deadline_after(ledger.timestamp, p.duration_days)->0,
                        amount_raised: 0,
                        is_active: true,
                        funds_withdrawn: false,
                        is_cancelled: false,
                        is_verified: false,
                        category: p.category,
                        has_revenue_sharing: p.has_revenue_sharing,
                        revenue_share_percentage: if p.has_revenue_sharing {
                            p.revenue_share_percentage
                        } else {
                            0
                        },
                        max_contribution_per_user: p.max_contribution_per_user,
                        fee_override: None,
                        deadline_extended: false,
                        effective_amount_raised: 0,
                    }
                }
                &&& c.title@ == p.title@
                &&& c.description@ == p.description@
                &&& ne.start_time == ledger.timestamp
                &&& ne.token == pinned
                &&& ne.vesting_delay_days == self.config.withdraw_release_delay_days
                &&& ne.vesting_bps == self.config.withdraw_reserve_bps
                &&& ne.revenue_pool == 0
                &&& ne.contributors@ == Map::<u64, ContributorRecord>::empty()
                &&& ne.contributor_count == 0
                &&& ne.burst_ledger == 0
                &&& ne.burst_count == 0
                &&& ne.milestones@.len() == 0
                &&& ne.claimed_milestones@ == Map::<u64, bool>::empty()
                &&& ne.creator_revenue_claimed == 0
                &&& ne.revenue_distributed == 0
                &&& ne.revenue_claimants == 0
                &&& ne.approve_votes == 0
                &&& ne.reject_votes == 0
                &&& ne.comment_count == 0
                &&& ne.removed_comments@ == Map::<u64, bool>::empty()
                &&& ne.censures@.len() == 0
                &&& ne.censured_count == 0
                &&& ne.tags@.len() == 0
                &&& ne.top_contributor is None
                &&& ne.last_contribution_time == 0
                &&& new == Platform {
                    entries: new.entries,
                    active_count: if self.active_count == u32::MAX {
                        u32::MAX
                    } else {
                        (self.active_count + 1) as u32
                    },
                    category_index: new.category_index,
                    creator_index: new.creator_index,
                    ..*self
                }
                &&& table_appended(
                    self.category_index,
                    new.category_index,
                    category_slot(p.category),
                    id,
                    CATEGORY_CAMPAIGNS_BUCKET_SIZE,
                    false,
                )
                &&& table_appended(
                    self.creator_index,
                    new.creator_index,
                    p.creator as u64,
                    id,
                    CREATOR_CAMPAIGNS_BUCKET_SIZE,
                    true,
                )
                &&& effects@ == if pinned is Some {
                    seq![
                        Effect::RequireAuth(p.creator),
                        Effect::Emit(Event::CampaignTokenSet { campaign_id: id, token: pinned->0 }),
                        Effect::Emit(
                            Event::CampaignCreated {
                                campaign_id: id,
                                creator: p.creator,
                                title: p.title,
                                category: p.category,
                            },
                        ),
                    ]
                } else {
                    seq![
                        Effect::RequireAuth(p.creator),
                        Effect::Emit(
                            Event::CampaignCreated {
                                campaign_id: id,
                                creator: p.creator,
                                title: p.title,
                                category: p.category,
                            },
                        ),
                    ]
                }
            },
            Err(err) => {
                &&& self.create_error(p, token, ledger) == Some(err)
                &&& new == *self
            },
        }
    }

    /// Creates a campaign denominated in the platform token and returns its
    /// id.
    pub fn create_campaign(&mut self, params: CreateCampaignParams, ledger: LedgerInfo) -> (r:
        Result<(u32, Vec<Effect>), Error>)
        requires
            old(self).wf(),
        ensures
            final(self).wf(),
            old(self).create_outcome(*final(self), params, None, ledger, r),
    {
        self.create_campaign_inner(params, None, ledger)
    }

    /// Creates a campaign denominated in `token`, which must be the platform
    /// token or one the admin allowed, and returns its id. The currency is
    /// pinned for the campaign's whole life.
    pub fn create_campaign_with_token(
        &mut self,
        params: CreateCampaignParams,
        token: AccountId,
        ledger: LedgerInfo,
    ) -> (r: Result<(u32, Vec<Effect>), Error>)
        requires
            old(self).wf(),
        ensures
            final(self).wf(),
            old(self).create_outcome(*final(self), params, Some(token), ledger, r),
    {
        self.create_campaign_inner(params, Some(token), ledger)
    }

    /// The shared body of campaign creation; `token` is `None` for the
    /// platform token.
    pub fn create_campaign_inner(
        &mut self,
        params: CreateCampaignParams,
        token: Option<AccountId>,
        ledger: LedgerInfo,
    ) -> (r: Result<(u32, Vec<Effect>), Error>)
        requires
            old(self).wf(),
        ensures
            final(self).wf(),
            old(self).create_outcome(*final(self), params, token, ledger, r),
    {
        let ghost p = params;
        self.require_not_paused()?;
        if self.config.creation_disabled {
            return Err(Error::CreationDisabled);
        }
        let CreateCampaignParams {
            creator,
            title,
            description,
            funding_goal,
            duration_days,
            category,
            has_revenue_sharing,
            revenue_share_percentage,
            max_contribution_per_user,
        } = params;

        if funding_goal <= 0 {
            return Err(Error::FundingGoalMustBePositive);
        }
        let min_goal = match self.config.min_funding_goal {
            Some(m) => m,
            None => CAMPAIGN_FUNDING_GOAL_MIN,
        };
        if funding_goal < min_goal {
            return Err(Error::FundingGoalTooLow);
        }
        let max_goal = match self.config.max_funding_goal {
            Some(m) => m,
            None => CAMPAIGN_FUNDING_GOAL_MAX,
        };
        if funding_goal > max_goal {
            return Err(Error::FundingGoalTooHigh);
        }
        let slot = category_index(category);
        if let Some(cap) = self.config.category_goal_caps[slot] {
            if funding_goal > cap {
                return Err(Error::FundingGoalTooHigh);
            }
        }
        let duration_max = match self.config.duration_caps[slot] {
            Some(d) => d,
            None => CAMPAIGN_DURATION_MAX_DAYS,
        };
        if !(CAMPAIGN_DURATION_MIN_DAYS <= duration_days && duration_days <= duration_max) {
            return Err(Error::InvalidDuration);
        }
        if title.len() < CAMPAIGN_TITLE_MIN_LEN || title.len() > CAMPAIGN_TITLE_MAX_LEN {
            return Err(Error::ValidationFailed);
        }
        if description.len() < CAMPAIGN_DESCRIPTION_MIN_LEN || description.len()
            > CAMPAIGN_DESCRIPTION_MAX_LEN {
            return Err(Error::ValidationFailed);
        }
        if category != Category::EducationalStartup && has_revenue_sharing {
            return Err(Error::RevenueShareOnlyForStartup);
        }
        // Normalise: the share is 0 whenever revenue sharing is off, so the
        // stored pair is always coherent.
        let revenue_share_percentage = if !has_revenue_sharing {
            0u32
        } else {
            revenue_share_percentage
        };
        if revenue_share_percentage > REVENUE_SHARE_MAX_BPS {
            return Err(Error::InvalidRevenueShare);
        }
        if has_revenue_sharing && revenue_share_percentage == 0 {
            return Err(Error::InvalidRevenueShare);
        }
        // `0` means "no per-user cap"; only negative caps are refused.
        if max_contribution_per_user < 0 {
            return Err(Error::ValidationFailed);
        }
        let pinned_token: Option<AccountId> = match token {
            Some(t) => {
                if t != self.config.token {
                    if !self.token_allowed(t) {
                        return Err(Error::ValidationFailed);
                    }
                    Some(t)
                } else {
                    None
                }
            },
            None => None,
        };

        let deadline = calculate_deadline(ledger.timestamp, duration_days)?;
        // The campaign counter and both index counters must have room.
        if self.entries.len() >= u32::MAX as usize {
            return Err(Error::Overflow);
        }
        if !can_append(&self.category_index, category_slot_exec(category), CATEGORY_CAMPAIGNS_BUCKET_SIZE) {
            return Err(Error::Overflow);
        }
        if !can_append(&self.creator_index, creator, CREATOR_CAMPAIGNS_BUCKET_SIZE) {
            return Err(Error::Overflow);
        }
        let count: u32 = self.entries.len() as u32 + 1;

        let campaign = Campaign {
            id: count,
            creator,
            first_creator: creator,
            pending_creator: None,
            title: copy_bytes(&title),
            description,
            funding_goal,
            deadline,
            amount_raised: 0,
            is_active: true,
            funds_withdrawn: false,
            is_cancelled: false,
            is_verified: false,
            category,
            has_revenue_sharing,
            revenue_share_percentage,
            max_contribution_per_user,
            fee_override: None,
            deadline_extended: false,
            effective_amount_raised: 0,
        };
        let entry = CampaignEntry {
            campaign,
            start_time: ledger.timestamp,
            token: pinned_token,
            // Vesting parameters are snapshotted so later changes do not
            // reach campaigns already created.
            vesting_delay_days: self.config.withdraw_release_delay_days,
            vesting_bps: self.config.withdraw_reserve_bps,
            revenue_pool: 0,
            contributors: Table::new(),
            contributor_count: 0,
            burst_ledger: 0,
            burst_count: 0,
            milestones: Vec::new(),
            claimed_milestones: Table::new(),
            creator_revenue_claimed: 0,
            revenue_distributed: 0,
            revenue_claimants: 0,
            approve_votes: 0,
            reject_votes: 0,
            comment_count: 0,
            removed_comments: Table::new(),
            censures: Vec::new(),
            censured_count: 0,
            tags: Vec::new(),
            top_contributor: None,
            last_contribution_time: 0,
        };

        let ghost old_self = *self;
        self.entries.push(entry);
        self.active_count = self.active_count.saturating_add(1);
        append_to_index(
            &mut self.category_index,
            category_slot_exec(category),
            count,
            CATEGORY_CAMPAIGNS_BUCKET_SIZE,
            false,
        );
        append_to_index(
            &mut self.creator_index,
            creator,
            count,
            CREATOR_CAMPAIGNS_BUCKET_SIZE,
            true,
        );
        proof {
            assert(self.entries@.subrange(0, old_self.entries@.len() as int) =~= old_self.entries@);
            assert forall|j: int| 0 <= j < self.entries@.len() implies #[trigger] self.entries@[j].wf()
                && self.entries@[j].campaign.id == j + 1 by {
                if j < old_self.entries@.len() {
                    assert(self.entries@[j] == old_self.entries@[j]);
                }
            }
        }

        let mut effects: Vec<Effect> = Vec::new();
        effects.push(Effect::RequireAuth(creator));
        if let Some(t) = pinned_token {
            effects.push(Effect::Emit(Event::CampaignTokenSet { campaign_id: count, token: t }));
        }
        let ghost created = Effect::Emit(
            Event::CampaignCreated { campaign_id: count, creator, title, category },
        );
        effects.push(
            Effect::Emit(Event::CampaignCreated { campaign_id: count, creator, title, category }),
        );
        proof {
            if pinned_token is Some {
                assert(effects@ =~= seq![
                    Effect::RequireAuth(creator),
                    Effect::Emit(
                        Event::CampaignTokenSet { campaign_id: count, token: pinned_token->0 },
                    ),
                    created,
                ]);
            } else {
                assert(effects@ =~= seq![Effect::RequireAuth(creator), created]);
            }
        }
        Ok((count, effects))
    }

    /// Whether a campaign may be denominated in `t`: the platform token
    /// always, any other token only when the admin allowed it.
    pub fn is_token_allowed(&self, t: AccountId) -> (r: bool)
        ensures
            r == (t == self.config.token || self.config.allowed_tokens@.contains(t)),
    {
        t == self.config.token || self.token_allowed(t)
    }

    /// The currency of campaign `campaign_id`; the platform token for an
    /// unknown campaign.
    pub fn get_campaign_token(&self, campaign_id: u32) -> (r: AccountId)
        ensures
            r == if self.has_campaign(campaign_id) {
                campaign_token(self.entry(campaign_id), self.config.token)
            } else {
                self.config.token
            },
    {
        if campaign_id >= 1 && (campaign_id as usize) <= self.entries.len() {
            self.campaign_token_of((campaign_id - 1) as usize)
        } else {
            self.config.token
        }
    }

    /// Whether `t` is on the admin's list of allowed campaign currencies.
    pub fn token_allowed(&self, t: AccountId) -> (r: bool)
        ensures
            r == self.config.allowed_tokens@.contains(t),
    {
        let mut i: usize = 0;
        while i < self.config.allowed_tokens.len()
            invariant
                i <= self.config.allowed_tokens@.len(),
                forall|j: int| 0 <= j < i ==> self.config.allowed_tokens@[j] != t,
            decreases self.config.allowed_tokens@.len() - i,
        {
            if self.config.allowed_tokens[i] == t {
                assert(self.config.allowed_tokens@[i as int] == t);
                return true;
            }
            i = i + 1;
        }
        false
    }
}

/// The index key of category `c`.
pub fn category_slot_exec(c: Category) -> (k: u64)
    ensures
        k == category_slot(c),
{
    category_index(c) as u64
}

impl Platform {
    /// The funding goal cap in force for category `c`: its own cap, bounded
    /// by the global highest goal, or the global highest goal alone.
    pub open spec fn goal_cap(&self, c: Category) -> i128 {
        match self.config.category_goal_caps[category_slot(c) as int] {
            Some(cap) => if cap < self.max_goal() {
                cap
            } else {
                self.max_goal()
            },
            None => self.max_goal(),
        }
    }

    /// The funding goal cap in force for category `category`.
    pub fn get_category_funding_goal_cap(&self, category: Category) -> (r: i128)
        ensures
            r == self.goal_cap(category),
    {
        let max_goal = match self.config.max_funding_goal {
            Some(m) => m,
            None => CAMPAIGN_FUNDING_GOAL_MAX,
        };
        match self.config.category_goal_caps[category_index(category)] {
            Some(cap) => if cap < max_goal {
                cap
            } else {
                max_goal
            },
            None => max_goal,
        }
    }

    /// The error `set_category_funding_goal_cap` returns, or `None`.
    pub open spec fn goal_cap_error(&self, admin: AccountId, cap: i128) -> Option<Error> {
        if admin != self.config.admin {
            Some(Error::NotAuthorized)
        } else if cap <= 0 {
            Some(Error::FundingGoalMustBePositive)
        } else if cap < self.min_goal() || cap > self.max_goal() {
            Some(Error::ValidationFailed)
        } else {
            None
        }
    }

    /// The admin caps the funding goal of campaigns created in `category`
    /// (`Some`), or lifts the cap (`None`). A cap must be positive and lie
    /// within the global goal bounds.
    pub fn set_category_funding_goal_cap(
        &mut self,
        admin: AccountId,
        category: Category,
        cap: Option<i128>,
    ) -> (r: Result<Vec<Effect>, Error>)
        requires
            old(self).wf(),
        ensures
            final(self).wf(),
            match r {
                Ok(effects) => {
                    &&& cap matches Some(c) ==> old(self).goal_cap_error(admin, c) is None
                    &&& admin == old(self).config.admin
                    &&& *final(self) == Platform {
                        config: Config { category_goal_caps: final(self).config.category_goal_caps, ..old(self).config },
                        ..*old(self)
                    }
                    &&& forall|k: int|
                        0 <= k < 4 ==> #[trigger] final(self).config.category_goal_caps[k] == if k
                            == category_slot(category) {
                            cap
                        } else {
                            old(self).config.category_goal_caps[k]
                        }
                    &&& effects@ == seq![Effect::RequireAuth(admin)]
                },
                Err(err) => {
                    &&& match cap {
                        Some(c) => old(self).goal_cap_error(admin, c) == Some(err),
                        None => admin != old(self).config.admin && err == Error::NotAuthorized,
                    }
                    &&& *final(self) == *old(self)
                },
            },
    {
        self.assert_admin(admin)?;
        if let Some(c) = cap {
            if c <= 0 {
                return Err(Error::FundingGoalMustBePositive);
            }
            let min_goal = match self.config.min_funding_goal {
                Some(m) => m,
                None => CAMPAIGN_FUNDING_GOAL_MIN,
            };
            let max_goal = match self.config.max_funding_goal {
                Some(m) => m,
                None => CAMPAIGN_FUNDING_GOAL_MAX,
            };
            if c < min_goal || c > max_goal {
                return Err(Error::ValidationFailed);
            }
        }
        let slot = category_index(category);
        let old_caps = self.config.category_goal_caps;
        let caps: [Option<i128>; 4] = [
            if slot == 0 { cap } else { old_caps[0] },
            if slot == 1 { cap } else { old_caps[1] },
            if slot == 2 { cap } else { old_caps[2] },
            if slot == 3 { cap } else { old_caps[3] },
        ];
        self.config.category_goal_caps = caps;
        let mut effects: Vec<Effect> = Vec::new();
        effects.push(Effect::RequireAuth(admin));
        Ok(effects)
    }
}

} // verus!
