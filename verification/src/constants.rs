//! Named constants shared across the platform.

use vstd::prelude::*;

verus! {

/// Basis-point denominator: 10_000 bps == 100%.
pub const BPS_DENOMINATOR: u32 = 10_000;

/// Offset added to a numerator before dividing by [`BPS_DENOMINATOR`] for
/// ceiling division: `ceil(a / b) == (a + b - 1) / b`.
pub const BPS_CEIL_OFFSET: i128 = 9_999;

/// Number of seconds in one day.
pub const SECONDS_PER_DAY: u64 = 86_400;

/// Maximum days a single deadline extension may add.
pub const MAX_EXTENSION_DAYS: u64 = 30;

/// Longest start-to-deadline span a campaign may reach by extension, in days.
pub const CAMPAIGN_EXTENSION_MAX_DAYS: u64 = 365;

/// Shortest campaign duration, in days.
pub const CAMPAIGN_DURATION_MIN_DAYS: u64 = 1;

/// Longest campaign duration when its category sets no cap, in days.
pub const CAMPAIGN_DURATION_MAX_DAYS: u64 = 365;

/// Title length bounds, in bytes.
pub const CAMPAIGN_TITLE_MIN_LEN: usize = 1;
pub const CAMPAIGN_TITLE_MAX_LEN: usize = 100;

/// Description length bounds, in bytes.
pub const CAMPAIGN_DESCRIPTION_MIN_LEN: usize = 1;
pub const CAMPAIGN_DESCRIPTION_MAX_LEN: usize = 2_000;

/// Default lowest funding goal, used until the admin configures one.
pub const CAMPAIGN_FUNDING_GOAL_MIN: i128 = 1;

/// Default highest funding goal (anti-spam), used until the admin configures one.
pub const CAMPAIGN_FUNDING_GOAL_MAX: i128 = 1_000_000_000_000_000;

/// Highest contributor revenue share, in basis points (50%).
pub const REVENUE_SHARE_MAX_BPS: u32 = 5_000;

/// A single contribution above this share of the goal (in bps of the goal)
/// trips the auto-pause: 200%.
pub const AUTO_PAUSE_SINGLE_CONTRIBUTION_BPS_THRESHOLD: i128 = 20_000;

/// Burst detection only runs once a campaign has raised more than this share
/// of its goal, in bps: 50%.
pub const AUTO_PAUSE_BURST_CHECK_MIN_RAISED_BPS: i128 = 5_000;

/// More contributions than this to one campaign in one ledger trip the
/// auto-pause.
pub const AUTO_PAUSE_BURST_THRESHOLD: u32 = 10;

/// Largest page any list query returns.
pub const LIST_MAX_LIMIT: u32 = 50;

/// Most campaign ids one `list_active_campaigns` call scans.
pub const MAX_SCAN_WINDOW: u32 = 200;

/// Bucket sizes of the category, creator and tag indexes.
pub const CATEGORY_CAMPAIGNS_BUCKET_SIZE: u32 = 50;
pub const CREATOR_CAMPAIGNS_BUCKET_SIZE: u32 = 50;
pub const TAG_CAMPAIGNS_BUCKET_SIZE: u32 = 50;

/// Tag length bounds, in bytes, and the most tags one campaign carries.
pub const CAMPAIGN_TAG_MIN_LEN: usize = 1;
pub const CAMPAIGN_TAG_MAX_LEN: usize = 32;
pub const MAX_TAGS_PER_CAMPAIGN: usize = 5;

/// Most campaigns one wallet may keep saved.
pub const MAX_BOOKMARKS: usize = 50;

/// Longest accepted censure reason, in bytes.
pub const CENSURE_REASON_MAX_LEN: usize = 200;

/// Most milestones one campaign may have.
pub const MAX_MILESTONES: usize = 10;

} // verus!
