//! The platform's data types.

use vstd::prelude::*;

verus! {

/// An account on the ledger (a wallet, a token contract or the platform
/// itself), identified by a number that the host assigns to each address.
pub type AccountId = u64;

/// The kind of education campaign.
#[derive(Clone, Copy, Debug, PartialEq, Eq, Structural)]
pub enum Category {
    Learner,
    Educator,
    Publisher,
    EducationalStartup,
}

/// A fundraising campaign.
#[derive(Clone, Debug)]
pub struct Campaign {
    pub id: u32,
    pub creator: AccountId,
    pub first_creator: AccountId,
    /// The account nominated to take the campaign over, if any.
    pub pending_creator: Option<AccountId>,
    pub title: Vec<u8>,
    pub description: Vec<u8>,
    pub funding_goal: i128,
    pub deadline: u64,
    pub amount_raised: i128,
    pub is_active: bool,
    pub funds_withdrawn: bool,
    pub is_cancelled: bool,
    pub is_verified: bool,
    pub category: Category,
    pub has_revenue_sharing: bool,
    /// Contributors' share of deposited revenue, in basis points.
    pub revenue_share_percentage: u32,
    /// Per-contributor lifetime cap; `0` means "no cap".
    pub max_contribution_per_user: i128,
    /// A platform fee for this campaign that replaces the global one.
    pub fee_override: Option<u32>,
    pub deadline_extended: bool,
    /// Amount raised minus the refunds paid out.
    pub effective_amount_raised: i128,
}

impl Campaign {
    /// The two campaigns hold the same values, texts compared by content.
    pub open spec fn same(&self, other: Campaign) -> bool {
        &&& self.id == other.id
        &&& self.creator == other.creator
        &&& self.first_creator == other.first_creator
        &&& self.pending_creator == other.pending_creator
        &&& self.title@ == other.title@
        &&& self.description@ == other.description@
        &&& self.funding_goal == other.funding_goal
        &&& self.deadline == other.deadline
        &&& self.amount_raised == other.amount_raised
        &&& self.is_active == other.is_active
        &&& self.funds_withdrawn == other.funds_withdrawn
        &&& self.is_cancelled == other.is_cancelled
        &&& self.is_verified == other.is_verified
        &&& self.category == other.category
        &&& self.has_revenue_sharing == other.has_revenue_sharing
        &&& self.revenue_share_percentage == other.revenue_share_percentage
        &&& self.max_contribution_per_user == other.max_contribution_per_user
        &&& self.fee_override == other.fee_override
        &&& self.deadline_extended == other.deadline_extended
        &&& self.effective_amount_raised == other.effective_amount_raised
    }

    /// A copy of this campaign.
    pub fn duplicate(&self) -> (c: Campaign)
        ensures
            c.same(*self),
    {
        let title = copy_bytes(&self.title);
        let description = copy_bytes(&self.description);
        Campaign {
            id: self.id,
            creator: self.creator,
            first_creator: self.first_creator,
            pending_creator: self.pending_creator,
            title,
            description,
            funding_goal: self.funding_goal,
            deadline: self.deadline,
            amount_raised: self.amount_raised,
            is_active: self.is_active,
            funds_withdrawn: self.funds_withdrawn,
            is_cancelled: self.is_cancelled,
            is_verified: self.is_verified,
            category: self.category,
            has_revenue_sharing: self.has_revenue_sharing,
            revenue_share_percentage: self.revenue_share_percentage,
            max_contribution_per_user: self.max_contribution_per_user,
            fee_override: self.fee_override,
            deadline_extended: self.deadline_extended,
            effective_amount_raised: self.effective_amount_raised,
        }
    }
}

/// A copy of a byte string.
pub fn copy_bytes(b: &Vec<u8>) -> (c: Vec<u8>)
    ensures
        c@ == b@,
{
    let mut c: Vec<u8> = Vec::new();
    let mut i: usize = 0;
    while i < b.len()
        invariant
            i <= b.len(),
            c@ == b@.subrange(0, i as int),
        decreases b.len() - i,
    {
        c.push(b[i]);
        i = i + 1;
    }
    assert(c@ =~= b@);
    c
}

/// Whether two byte strings are equal.
pub fn bytes_equal(a: &Vec<u8>, b: &Vec<u8>) -> (r: bool)
    ensures
        r == (a@ == b@),
{
    if a.len() != b.len() {
        return false;
    }
    let mut i: usize = 0;
    while i < a.len()
        invariant
            a.len() == b.len(),
            i <= a.len(),
            forall|j: int| 0 <= j < i ==> a@[j] == b@[j],
        decreases a.len() - i,
    {
        if a[i] != b[i] {
            return false;
        }
        i = i + 1;
    }
    assert(a@ =~= b@);
    true
}

/// The inputs of campaign creation.
#[derive(Clone, Debug)]
pub struct CreateCampaignParams {
    pub creator: AccountId,
    pub title: Vec<u8>,
    pub description: Vec<u8>,
    pub funding_goal: i128,
    pub duration_days: u64,
    pub category: Category,
    pub has_revenue_sharing: bool,
    pub revenue_share_percentage: u32,
    pub max_contribution_per_user: i128,
}

/// A payout stage of a campaign.
#[derive(Clone, Debug)]
pub struct Milestone {
    pub id: u32,
    pub description: Vec<u8>,
    /// Share of the withdrawable funds, in basis points.
    pub payout_bps: u32,
    pub verified: bool,
}

/// Contribution statistics of one campaign.
#[derive(Clone, Copy, Debug, PartialEq, Eq, Structural)]
pub struct CampaignStats {
    pub contributor_count: u32,
    pub top_contributor: Option<AccountId>,
    pub avg_contribution: i128,
    pub last_contribution_time: u64,
}

/// Aggregates over the campaigns of one creator.
#[derive(Clone, Copy, Debug, PartialEq, Eq, Structural)]
pub struct CreatorStats {
    pub total_campaigns: u32,
    pub active_campaigns: u32,
    pub total_raised: i128,
    pub total_contributors: u32,
}

/// Platform-wide counters.
#[derive(Clone, Copy, Debug, PartialEq, Eq, Structural)]
pub struct PlatformStats {
    pub total_campaigns: u32,
    pub active_campaigns: u32,
    pub verified_campaigns: u32,
    pub cancelled_campaigns: u32,
    pub total_amount_raised: i128,
    pub stats_are_partial: bool,
    pub scanned_up_to: u32,
}

/// Every key platform metric in one record.
#[derive(Clone, Copy, Debug, PartialEq, Eq, Structural)]
pub struct PlatformReport {
    pub total_campaigns: u32,
    pub active_campaigns: u32,
    pub total_raised: i128,
    pub total_contributors: u32,
    pub platform_fee_bps: u32,
    pub is_paused: bool,
    pub token: AccountId,
}

/// The record of an admin's censure of an off-chain comment.
#[derive(Clone, Debug)]
pub struct CommentCensure {
    pub reason: Vec<u8>,
    pub censured_at: u64,
    pub admin: AccountId,
}

/// A community vote on a campaign.
#[derive(Clone, Copy, Debug, PartialEq, Eq, Structural)]
pub struct Vote {
    pub voter: AccountId,
    pub campaign_id: u64,
    pub approve: bool,
    pub timestamp: u64,
}

} // verus!
