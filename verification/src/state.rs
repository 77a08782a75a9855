//! The platform's ledger state, and the effects an operation asks the host
//! to carry out.

use vstd::prelude::*;

use crate::constants::{AUTO_PAUSE_BURST_THRESHOLD, CAMPAIGN_DURATION_MAX_DAYS};
use crate::errors::Error;
use crate::index::{indexes_wf, BucketIndex};
use crate::table::Table;
use crate::types::{AccountId, Campaign, Category, CommentCensure, Milestone, Vote};

verus! {

/// Whether an integer fits in an `i128`.
pub open spec fn fits_i128(x: int) -> bool {
    i128::MIN <= x <= i128::MAX
}

/// Rust's `/` on integers: the quotient rounded towards zero.
pub open spec fn div_trunc(x: int, d: int) -> int {
    if x >= 0 {
        x / d
    } else {
        -((-x) / d)
    }
}

/// The block-chain context an operation runs in.
#[derive(Clone, Copy, Debug, PartialEq, Eq, Structural)]
pub struct LedgerInfo {
    /// Ledger close time, in seconds.
    pub timestamp: u64,
    /// Ledger sequence number.
    pub sequence: u32,
}

/// The side of a token transfer.
#[derive(Clone, Copy, Debug, PartialEq, Eq, Structural)]
pub enum Party {
    /// The platform's own account, which escrows funds.
    Contract,
    /// Any other account.
    Account(AccountId),
}

/// An event the platform publishes for indexers and clients.
#[derive(Clone, Debug, PartialEq, Eq)]
pub enum Event {
    ContributionMade { campaign_id: u32, contributor: AccountId, amount: i128 },
    RefundClaimed { campaign_id: u32, contributor: AccountId, amount: i128 },
    PersonalCapSet { campaign_id: u32, contributor: AccountId, amount: i128 },
    PersonalCapRemoved { campaign_id: u32, contributor: AccountId },
    CampaignTokenSet { campaign_id: u32, token: AccountId },
    CampaignCreated { campaign_id: u32, creator: AccountId, title: Vec<u8>, category: Category },
    TransferInitiated { campaign_id: u32, creator: AccountId, new_creator: AccountId },
    TransferCompleted { campaign_id: u32, old_creator: AccountId, new_creator: AccountId },
    TransferCancelled { campaign_id: u32, pending_creator: AccountId },
    MetadataUpdated {
        campaign_id: u32,
        old_title: Vec<u8>,
        old_description: Vec<u8>,
        new_title: Vec<u8>,
        new_description: Vec<u8>,
    },
    VerificationRevoked { campaign_id: u32, creator: AccountId },
    DeadlineExtended {
        campaign_id: u32,
        old_deadline: u64,
        new_deadline: u64,
        additional_days: u64,
        total_duration_days: u64,
    },
    CommentAdded { campaign_id: u32, comment_id: u32, commenter: AccountId, comment_hash: Vec<u8> },
    CommentRemoved { campaign_id: u32, comment_id: u32, caller: AccountId },
    CommentCensured {
        campaign_id: u32,
        comment_hash: [u8; 32],
        admin: AccountId,
        reason: Vec<u8>,
        censured_at: u64,
    },
    CommentUncensured { campaign_id: u32, comment_hash: [u8; 32], admin: AccountId, at: u64 },
    CampaignBookmarked { user: AccountId, campaign_id: u32 },
    CampaignUnbookmarked { user: AccountId, campaign_id: u32 },
    MilestonesSet { campaign_id: u32, count: u32 },
    MilestoneVerified { campaign_id: u32, milestone_id: u32 },
    MilestoneClaimed { campaign_id: u32, milestone_id: u32, amount: i128, fee: i128 },
    RevenueDeposited { campaign_id: u32, creator: AccountId, amount: i128 },
    RevenueClaimed { campaign_id: u32, contributor: AccountId, amount: i128 },
    CreatorRevenueClaimed { campaign_id: u32, creator: AccountId, amount: i128 },
    TagAdded { campaign_id: u32, tag: Vec<u8> },
    ScanWindowExhausted { start: u32, current_id: u32, collected: u32, limit: u32 },
    VoteCast { campaign_id: u64, voter: AccountId, approve: bool },
}

/// What the host must do for an operation that succeeded, in order: check
/// an account's authorization (and abort the whole call if it is missing),
/// move tokens, or publish an event.
#[derive(Clone, Debug, PartialEq, Eq)]
pub enum Effect {
    RequireAuth(AccountId),
    Transfer { token: AccountId, from: Party, to: Party, amount: i128 },
    Emit(Event),
}

/// Platform settings.
#[derive(Clone, Debug)]
pub struct Config {
    pub admin: AccountId,
    /// The platform token, in which campaigns are denominated by default.
    pub token: AccountId,
    /// Other tokens a campaign may be denominated in.
    pub allowed_tokens: Vec<AccountId>,
    /// Platform fee, in basis points of the amount raised.
    pub platform_fee_bps: u32,
    pub paused: bool,
    /// Set by the anomaly guards.
    pub auto_paused: bool,
    pub creation_disabled: bool,
    /// Configured lowest funding goal; the default applies when `None`.
    pub min_funding_goal: Option<i128>,
    /// Configured highest funding goal; the default applies when `None`.
    pub max_funding_goal: Option<i128>,
    /// Per-category longest duration in days, for Learner, Educator,
    /// Publisher and EducationalStartup.
    pub duration_caps: [Option<u64>; 4],
    /// Per-category highest funding goal, in the same category order; the
    /// global bound alone applies when `None`.
    pub category_goal_caps: [Option<i128>; 4],
    /// Vesting parameters snapshotted into each new campaign.
    pub withdraw_release_delay_days: u64,
    pub withdraw_reserve_bps: u32,
}

impl Config {
    /// Category duration caps never exceed the platform-wide maximum.
    pub open spec fn caps_valid(&self) -> bool {
        forall|k: int|
            0 <= k < 4 && (#[trigger] self.duration_caps[k]) is Some ==> self.duration_caps[k]->0
                <= CAMPAIGN_DURATION_MAX_DAYS
    }
}

/// The position of a category in per-category settings and indexes.
pub open spec fn category_slot(c: Category) -> u64 {
    match c {
        Category::Learner => 0,
        Category::Educator => 1,
        Category::Publisher => 2,
        Category::EducationalStartup => 3,
    }
}

/// The position of a category in per-category settings and indexes.
pub fn category_index(c: Category) -> (i: usize)
    ensures
        i == category_slot(c),
        i < 4,
{
    match c {
        Category::Learner => 0,
        Category::Educator => 1,
        Category::Publisher => 2,
        Category::EducationalStartup => 3,
    }
}

/// What the platform records about one contributor to one campaign.
#[derive(Clone, Copy, Debug, PartialEq, Eq, Structural)]
pub struct ContributorRecord {
    /// Currently escrowed contribution (cleared by a refund).
    pub contribution: i128,
    /// Everything ever contributed (never cleared).
    pub lifetime: i128,
    /// Cap the contributor set on their own contribution.
    pub personal_cap: Option<i128>,
    /// Revenue already paid out to the contributor.
    pub revenue_claimed: i128,
}

/// The record of an account that never contributed.
pub open spec fn no_record() -> ContributorRecord {
    ContributorRecord { contribution: 0, lifetime: 0, personal_cap: None, revenue_claimed: 0 }
}

/// Everything the platform stores about one campaign.
pub struct CampaignEntry {
    pub campaign: Campaign,
    pub start_time: u64,
    /// The campaign's own currency; the platform token when `None`.
    pub token: Option<AccountId>,
    pub vesting_delay_days: u64,
    pub vesting_bps: u32,
    /// Revenue deposited by the creator.
    pub revenue_pool: i128,
    pub contributors: Table<ContributorRecord>,
    pub contributor_count: u32,
    /// Ledger of the last contribution seen by burst detection, and how many
    /// contributions that ledger has carried.
    pub burst_ledger: u32,
    pub burst_count: u32,
    pub milestones: Vec<Milestone>,
    /// Ids of the milestones already paid out.
    pub claimed_milestones: Table<bool>,
    pub creator_revenue_claimed: i128,
    /// Revenue paid out to contributors so far, and to how many of them.
    pub revenue_distributed: i128,
    pub revenue_claimants: u32,
    /// Community vote tallies.
    pub approve_votes: u32,
    pub reject_votes: u32,
    pub comment_count: u32,
    pub removed_comments: Table<bool>,
    pub censures: Vec<([u8; 32], CommentCensure)>,
    pub censured_count: u32,
    pub tags: Vec<Vec<u8>>,
    pub top_contributor: Option<AccountId>,
    pub last_contribution_time: u64,
}

impl CampaignEntry {
    pub open spec fn wf(&self) -> bool {
        &&& self.contributors.wf()
        &&& self.claimed_milestones.wf()
        &&& self.removed_comments.wf()
        &&& self.burst_count <= AUTO_PAUSE_BURST_THRESHOLD
        &&& forall|a: int, b: int|
            0 <= a < b < self.censures@.len() ==> self.censures@[a].0@ != self.censures@[b].0@
    }

    /// The record of `who`, or an empty one.
    pub open spec fn record(&self, who: AccountId) -> ContributorRecord {
        if self.contributors@.contains_key(who) {
            self.contributors@[who]
        } else {
            no_record()
        }
    }

    /// The record of `who`, or an empty one.
    pub fn record_of(&self, who: AccountId) -> (r: ContributorRecord)
        requires
            self.wf(),
        ensures
            r == self.record(who),
    {
        match self.contributors.get(who) {
            Some(r) => *r,
            None => ContributorRecord {
                contribution: 0,
                lifetime: 0,
                personal_cap: None,
                revenue_claimed: 0,
            },
        }
    }
}

/// The whole ledger state of the platform.
pub struct Platform {
    pub config: Config,
    /// Campaign `id` is stored at position `id - 1`.
    pub entries: Vec<CampaignEntry>,
    /// Funds currently raised across all campaigns.
    pub total_raised: i128,
    pub active_count: u32,
    pub verified_count: u32,
    pub cancelled_count: u32,
    /// Campaign ids by category slot.
    pub category_index: Table<BucketIndex>,
    /// Campaign ids by creator.
    pub creator_index: Table<BucketIndex>,
    /// Known tags; tag `n` is indexed under key `n` of `tag_index`.
    pub tag_names: Vec<Vec<u8>>,
    pub tag_index: Table<BucketIndex>,
    /// Saved campaign ids by wallet.
    pub bookmarks: Table<Vec<u32>>,
    /// Votes by campaign id, then by voter.
    pub votes: Table<Table<Vote>>,
}

/// Replacing one campaign's stored data, with its id and well-formedness
/// kept, keeps the platform well formed.
pub proof fn lemma_entry_update_wf(p: Platform, q: Platform, i: int)
    requires
        p.wf(),
        0 <= i < p.entries@.len(),
        q.entries@ == p.entries@.update(i, q.entries@[i]),
        q.entries@[i].wf(),
        q.entries@[i].campaign.id == p.entries@[i].campaign.id,
        q.category_index == p.category_index,
        q.creator_index == p.creator_index,
        q.tag_index == p.tag_index,
        q.bookmarks == p.bookmarks,
        q.config == p.config,
        q.votes == p.votes,
        q.tag_names == p.tag_names,
    ensures
        q.wf(),
{
    assert forall|j: int| 0 <= j < q.entries@.len() implies #[trigger] q.entries@[j].wf()
        && q.entries@[j].campaign.id == j + 1 by {
        if j != i {
            assert(q.entries@[j] == p.entries@[j]);
        }
    }
}

impl Platform {
    /// The platform with campaign `campaign_id`'s stored data replaced by
    /// `ne` and nothing else changed.
    pub open spec fn with_entry(&self, new: Platform, campaign_id: u32, ne: CampaignEntry) -> bool {
        &&& new == Platform { entries: new.entries, ..*self }
        &&& new.entries@ == self.entries@.update(campaign_id - 1, ne)
    }

    pub open spec fn wf(&self) -> bool {
        &&& self.entries@.len() <= u32::MAX
        &&& forall|i: int|
            0 <= i < self.entries@.len() ==> #[trigger] self.entries@[i].campaign.id == i + 1
        &&& forall|i: int| 0 <= i < self.entries@.len() ==> #[trigger] self.entries@[i].wf()
        &&& indexes_wf(self.category_index)
        &&& indexes_wf(self.creator_index)
        &&& indexes_wf(self.tag_index)
        &&& self.bookmarks.wf()
        &&& self.votes.wf()
        &&& forall|k: u64| #[trigger] self.votes@.contains_key(k) ==> self.votes@[k].wf()
        &&& forall|a: int, b: int|
            0 <= a < b < self.tag_names@.len() ==> self.tag_names@[a]@ != self.tag_names@[b]@
        &&& forall|k: u64| #[trigger] self.tag_index@.contains_key(k) ==> k < self.tag_names@.len()
        &&& self.config.caps_valid()
    }

    /// Whether campaign `id` exists.
    pub open spec fn has_campaign(&self, id: u32) -> bool {
        1 <= id <= self.entries@.len()
    }

    /// The stored data of campaign `id`.
    pub open spec fn entry(&self, id: u32) -> CampaignEntry {
        self.entries@[id - 1]
    }

    /// Campaign `id`.
    pub open spec fn campaign(&self, id: u32) -> Campaign {
        self.entries@[id - 1].campaign
    }

    /// Whether the admin or an anomaly guard paused the platform.
    pub open spec fn is_paused(&self) -> bool {
        self.config.paused || self.config.auto_paused
    }

    /// A platform with no campaigns.
    pub fn new(config: Config) -> (p: Platform)
        requires
            config.caps_valid(),
        ensures
            p.wf(),
            p.config == config,
            p.entries@.len() == 0,
            p.total_raised == 0,
            p.active_count == 0,
            p.verified_count == 0,
            p.cancelled_count == 0,
            p.category_index@ == Map::<u64, BucketIndex>::empty(),
            p.creator_index@ == Map::<u64, BucketIndex>::empty(),
            p.tag_names@.len() == 0,
            p.tag_index@ == Map::<u64, BucketIndex>::empty(),
            p.bookmarks@ == Map::<u64, Vec<u32>>::empty(),
            p.votes@ == Map::<u64, Table<Vote>>::empty(),
    {
        Platform {
            config,
            entries: Vec::new(),
            total_raised: 0,
            active_count: 0,
            verified_count: 0,
            cancelled_count: 0,
            category_index: Table::new(),
            creator_index: Table::new(),
            tag_names: Vec::new(),
            tag_index: Table::new(),
            bookmarks: Table::new(),
            votes: Table::new(),
        }
    }

    /// Fails with `ContractPaused` while the platform is paused.
    pub fn require_not_paused(&self) -> (r: Result<(), Error>)
        ensures
            r is Ok <==> !self.is_paused(),
            r is Err ==> r == Err::<(), Error>(Error::ContractPaused),
    {
        if self.config.paused || self.config.auto_paused {
            return Err(Error::ContractPaused);
        }
        Ok(())
    }

    /// The position of campaign `id`; `CampaignNotFound` when there is none.
    pub fn campaign_position(&self, id: u32) -> (r: Result<usize, Error>)
        ensures
            r is Ok <==> self.has_campaign(id),
            r matches Ok(i) ==> i == id - 1,
            r is Err ==> r == Err::<usize, Error>(Error::CampaignNotFound),
    {
        if id == 0 || id as usize > self.entries.len() {
            return Err(Error::CampaignNotFound);
        }
        Ok((id - 1) as usize)
    }

    /// Fails with `NotAuthorized` unless `caller` is the admin.
    pub fn assert_admin(&self, caller: AccountId) -> (r: Result<(), Error>)
        ensures
            r is Ok <==> caller == self.config.admin,
            r is Err ==> r == Err::<(), Error>(Error::NotAuthorized),
    {
        if caller != self.config.admin {
            return Err(Error::NotAuthorized);
        }
        Ok(())
    }
}

} // verus!
