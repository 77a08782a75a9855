use proof_of_heart::errors::Error;
use proof_of_heart::state::{Config, Effect, Event, LedgerInfo, Platform};
use proof_of_heart::types::{Category, CreateCampaignParams};

const ADMIN: u64 = 1;
const CREATOR: u64 = 2;
const OTHER: u64 = 3;
const NEW_OWNER: u64 = 5;
const TOKEN: u64 = 100;
const DAY: u64 = 86_400;
const START: u64 = 10_000;
const MAX_EXTENSION_DAYS: u64 = 30;
const CAMPAIGN_DURATION_MAX_DAYS: u64 = 365;

fn config() -> Config {
    Config {
        admin: ADMIN,
        token: TOKEN,
        allowed_tokens: vec![200],
        platform_fee_bps: 0,
        paused: false,
        auto_paused: false,
        creation_disabled: false,
        min_funding_goal: None,
        max_funding_goal: None,
        duration_caps: [None; 4],
        category_goal_caps: [None; 4],
        withdraw_release_delay_days: 3,
        withdraw_reserve_bps: 1_000,
    }
}

fn at(timestamp: u64) -> LedgerInfo {
    LedgerInfo { timestamp, sequence: 1 }
}

fn params(duration_days: u64, category: Category) -> CreateCampaignParams {
    CreateCampaignParams {
        creator: CREATOR,
        title: b"Campaign Title".to_vec(),
        description: b"Campaign Description".to_vec(),
        funding_goal: 1000,
        duration_days,
        category,
        has_revenue_sharing: false,
        revenue_share_percentage: 0,
        max_contribution_per_user: 0,
    }
}

fn campaign(p: &mut Platform, duration_days: u64) -> u32 {
    p.create_campaign(params(duration_days, Category::Educator), at(START)).unwrap().0
}

#[test]
fn test_extension_is_capped_per_call() {
    let mut p = Platform::new(config());
    let id = campaign(&mut p, 30);

    let res = p.extend_campaign_deadline(id, MAX_EXTENSION_DAYS + 1, at(START));
    assert_eq!(res.unwrap_err(), Error::ExtensionTooLong);

    // The boundary value itself is accepted.
    p.extend_campaign_deadline(id, MAX_EXTENSION_DAYS, at(START)).unwrap();
    assert!(p.entries[0].campaign.deadline_extended);
}

#[test]
fn test_zero_day_extension_is_rejected() {
    let mut p = Platform::new(config());
    let id = campaign(&mut p, 30);
    let res = p.extend_campaign_deadline(id, 0, at(START));
    assert_eq!(res.unwrap_err(), Error::ExtensionTooLong);
    assert!(!p.entries[0].campaign.deadline_extended);
}

#[test]
fn test_extension_cannot_be_repeated() {
    let mut p = Platform::new(config());
    let id = campaign(&mut p, 30);
    p.extend_campaign_deadline(id, 10, at(START)).unwrap();
    let res = p.extend_campaign_deadline(id, 10, at(START));
    assert_eq!(res.unwrap_err(), Error::DeadlineAlreadyExtended);
}

#[test]
fn test_extension_cannot_push_total_span_past_the_absolute_maximum() {
    let mut p = Platform::new(config());
    let id = campaign(&mut p, CAMPAIGN_DURATION_MAX_DAYS);
    let res = p.extend_campaign_deadline(id, 1, at(START));
    assert_eq!(res.unwrap_err(), Error::InvalidDuration);
    assert!(!p.entries[0].campaign.deadline_extended);
}

#[test]
fn test_extension_moves_the_deadline_by_exactly_the_requested_days() {
    let mut p = Platform::new(config());
    let id = campaign(&mut p, 30);
    let before = p.entries[0].campaign.deadline;
    let effects = p.extend_campaign_deadline(id, 7, at(START)).unwrap();
    let after = p.entries[0].campaign.deadline;
    assert_eq!(after - before, 7 * DAY);
    assert_eq!(
        effects[1],
        Effect::Emit(Event::DeadlineExtended {
            campaign_id: id,
            old_deadline: before,
            new_deadline: after,
            additional_days: 7,
            total_duration_days: 37,
        })
    );
}

#[test]
fn test_expired_campaign_cannot_be_extended() {
    let mut p = Platform::new(config());
    let id = campaign(&mut p, 30);
    let res = p.extend_campaign_deadline(id, 5, at(START + 31 * DAY));
    assert_eq!(res.unwrap_err(), Error::DeadlinePassed);
}

#[test]
fn test_category_duration_cap_bounds_extensions() {
    let mut cfg = config();
    cfg.duration_caps[1] = Some(40); // Educator
    let mut p = Platform::new(cfg);
    let id = campaign(&mut p, 30);

    // 30 + 20 = 50 days total, past the 40-day category cap.
    let res = p.extend_campaign_deadline(id, 20, at(START));
    assert_eq!(res.unwrap_err(), Error::InvalidDuration);

    // 30 + 10 = 40 fits exactly.
    p.extend_campaign_deadline(id, 10, at(START)).unwrap();
    assert!(p.entries[0].campaign.deadline_extended);
}

#[test]
fn test_description_edit_revokes_verification() {
    let mut p = Platform::new(config());
    let id = campaign(&mut p, 30);
    p.entries[0].campaign.is_verified = true;
    p.verified_count = 1;

    let effects = p.update_campaign_description(id, b"A different pitch entirely".to_vec()).unwrap();
    assert!(!p.entries[0].campaign.is_verified);
    assert_eq!(p.get_platform_stats().verified_campaigns, 0);
    assert_eq!(effects[1], Effect::Emit(Event::VerificationRevoked { campaign_id: id, creator: CREATOR }));
}

#[test]
fn test_description_edit_clears_stale_votes() {
    let mut p = Platform::new(config());
    let id = campaign(&mut p, 30);
    p.entries[0].approve_votes = 2;
    p.entries[0].campaign.is_verified = true;
    p.verified_count = 1;
    p.update_campaign_description(id, b"Rewritten after approval".to_vec()).unwrap();
    assert_eq!(p.entries[0].approve_votes, 0);
    assert_eq!(p.entries[0].reject_votes, 0);
}

#[test]
fn test_description_edit_on_unverified_campaign_keeps_votes() {
    let mut p = Platform::new(config());
    let id = campaign(&mut p, 30);
    p.entries[0].approve_votes = 1;
    let effects = p.update_campaign_description(id, b"Fresh pitch".to_vec()).unwrap();
    assert_eq!(effects.len(), 2);
    assert_eq!(p.entries[0].approve_votes, 1);
    assert_eq!(p.entries[0].campaign.description, b"Fresh pitch".to_vec());
}

#[test]
fn test_update_campaign_still_rejects_edits_after_verification() {
    let mut p = Platform::new(config());
    let id = campaign(&mut p, 30);
    p.entries[0].campaign.is_verified = true;
    let res = p.update_campaign(id, b"New".to_vec(), b"New desc".to_vec());
    assert_eq!(res.unwrap_err(), Error::CampaignAlreadyVerified);
}

#[test]
fn unchanged_description_is_a_no_op() {
    let mut p = Platform::new(config());
    let id = campaign(&mut p, 30);
    p.entries[0].campaign.is_verified = true;
    let effects = p.update_campaign_description(id, b"Campaign Description".to_vec()).unwrap();
    assert_eq!(effects, vec![Effect::RequireAuth(CREATOR)]);
    assert!(p.entries[0].campaign.is_verified);
}

#[test]
fn update_campaign_replaces_title_and_description() {
    let mut p = Platform::new(config());
    let id = campaign(&mut p, 30);
    p.update_campaign(id, b"New".to_vec(), b"New desc".to_vec()).unwrap();
    assert_eq!(p.entries[0].campaign.title, b"New".to_vec());
    assert_eq!(p.entries[0].campaign.description, b"New desc".to_vec());
    assert_eq!(p.update_campaign(id, Vec::new(), b"x".to_vec()), Err(Error::ValidationFailed));
    p.entries[0].campaign.amount_raised = 5;
    assert_eq!(p.update_campaign(id, b"A".to_vec(), b"B".to_vec()), Err(Error::ValidationFailed));
}

#[test]
fn created_campaign_reads_back() {
    let mut p = Platform::new(config());
    let (id, effects) = p.create_campaign(params(30, Category::Learner), at(START)).unwrap();
    assert_eq!(id, 1);
    let e = &p.entries[0];
    assert_eq!(e.campaign.id, 1);
    assert_eq!(e.campaign.creator, CREATOR);
    assert_eq!(e.campaign.first_creator, CREATOR);
    assert_eq!(e.campaign.deadline, START + 30 * DAY);
    assert!(e.campaign.is_active && !e.campaign.is_verified && !e.campaign.is_cancelled);
    assert_eq!(e.start_time, START);
    assert_eq!(e.vesting_delay_days, 3);
    assert_eq!(e.vesting_bps, 1_000);
    assert_eq!(e.token, None);
    assert_eq!(p.active_count, 1);
    assert_eq!(
        effects,
        vec![
            Effect::RequireAuth(CREATOR),
            Effect::Emit(Event::CampaignCreated {
                campaign_id: 1,
                creator: CREATOR,
                title: b"Campaign Title".to_vec(),
                category: Category::Learner,
            }),
        ]
    );
    let (id2, _) = p.create_campaign(params(30, Category::Learner), at(START)).unwrap();
    assert_eq!(id2, 2);
}

#[test]
fn creation_refusals_name_their_cause() {
    let mut p = Platform::new(config());
    let mut bad = params(30, Category::Learner);
    bad.funding_goal = 0;
    assert_eq!(p.create_campaign(bad, at(START)), Err(Error::FundingGoalMustBePositive));
    let mut bad = params(30, Category::Learner);
    bad.funding_goal = 1_000_000_000_000_001;
    assert_eq!(p.create_campaign(bad, at(START)), Err(Error::FundingGoalTooHigh));
    assert_eq!(p.create_campaign(params(0, Category::Learner), at(START)), Err(Error::InvalidDuration));
    assert_eq!(p.create_campaign(params(366, Category::Learner), at(START)), Err(Error::InvalidDuration));
    let mut bad = params(30, Category::Learner);
    bad.title = Vec::new();
    assert_eq!(p.create_campaign(bad, at(START)), Err(Error::ValidationFailed));
    let mut bad = params(30, Category::Learner);
    bad.description = vec![b'x'; 2_001];
    assert_eq!(p.create_campaign(bad, at(START)), Err(Error::ValidationFailed));
    let mut bad = params(30, Category::Learner);
    bad.has_revenue_sharing = true;
    bad.revenue_share_percentage = 1_000;
    assert_eq!(p.create_campaign(bad, at(START)), Err(Error::RevenueShareOnlyForStartup));
    let mut bad = params(30, Category::EducationalStartup);
    bad.has_revenue_sharing = true;
    bad.revenue_share_percentage = 5_001;
    assert_eq!(p.create_campaign(bad, at(START)), Err(Error::InvalidRevenueShare));
    let mut bad = params(30, Category::EducationalStartup);
    bad.has_revenue_sharing = true;
    assert_eq!(p.create_campaign(bad, at(START)), Err(Error::InvalidRevenueShare));
    let mut bad = params(30, Category::Learner);
    bad.max_contribution_per_user = -1;
    assert_eq!(p.create_campaign(bad, at(START)), Err(Error::ValidationFailed));
    assert_eq!(p.entries.len(), 0);

    let mut cfg = config();
    cfg.min_funding_goal = Some(5_000);
    let mut p2 = Platform::new(cfg);
    assert_eq!(p2.create_campaign(params(30, Category::Learner), at(START)), Err(Error::FundingGoalTooLow));
    p2.config.creation_disabled = true;
    assert_eq!(p2.create_campaign(params(30, Category::Learner), at(START)), Err(Error::CreationDisabled));
    p2.config.paused = true;
    assert_eq!(p2.create_campaign(params(30, Category::Learner), at(START)), Err(Error::ContractPaused));
}

#[test]
fn campaign_currency_must_be_allowed() {
    let mut p = Platform::new(config());
    assert_eq!(
        p.create_campaign_with_token(params(30, Category::Learner), 300, at(START)),
        Err(Error::ValidationFailed)
    );
    let (id, effects) = p.create_campaign_with_token(params(30, Category::Learner), 200, at(START)).unwrap();
    assert_eq!(p.entries[0].token, Some(200));
    assert_eq!(effects[1], Effect::Emit(Event::CampaignTokenSet { campaign_id: id, token: 200 }));
    let (_, effects) = p.create_campaign_with_token(params(30, Category::Learner), TOKEN, at(START)).unwrap();
    assert_eq!(p.entries[1].token, None);
    assert_eq!(effects.len(), 2);
}

#[test]
fn transfer_moves_the_campaign_to_the_new_creator() {
    let mut p = Platform::new(config());
    let id = campaign(&mut p, 30);
    assert_eq!(p.accept_campaign_transfer(id), Err(Error::NoTransferPending));
    assert_eq!(p.initiate_campaign_transfer(id, CREATOR), Err(Error::InvalidNewOwner));
    p.initiate_campaign_transfer(id, NEW_OWNER).unwrap();
    assert_eq!(p.initiate_campaign_transfer(id, OTHER), Err(Error::TransferAlreadyPending));
    let effects = p.accept_campaign_transfer(id).unwrap();
    assert_eq!(
        effects,
        vec![
            Effect::RequireAuth(NEW_OWNER),
            Effect::Emit(Event::TransferCompleted { campaign_id: id, old_creator: CREATOR, new_creator: NEW_OWNER }),
        ]
    );
    let c = &p.entries[0].campaign;
    assert_eq!(c.creator, NEW_OWNER);
    assert_eq!(c.first_creator, CREATOR);
    assert_eq!(c.pending_creator, None);
    let (mine, _) = p.get_creator_campaigns(NEW_OWNER, 0, 10).unwrap();
    assert_eq!(mine.len(), 1);
    let (theirs, _) = p.get_creator_campaigns(CREATOR, 0, 10).unwrap();
    assert_eq!(theirs.len(), 0);
}

#[test]
fn withdrawn_nomination_restores_the_campaign() {
    let mut p = Platform::new(config());
    let id = campaign(&mut p, 30);
    assert_eq!(p.cancel_campaign_transfer(id), Err(Error::NoTransferPending));
    p.initiate_campaign_transfer(id, NEW_OWNER).unwrap();
    let effects = p.cancel_campaign_transfer(id).unwrap();
    assert_eq!(effects[1], Effect::Emit(Event::TransferCancelled { campaign_id: id, pending_creator: NEW_OWNER }));
    assert_eq!(p.entries[0].campaign.pending_creator, None);
    assert_eq!(p.entries[0].campaign.creator, CREATOR);
    assert_eq!(p.accept_campaign_transfer(id), Err(Error::NoTransferPending));
}

#[test]
fn test_add_and_remove_comment() {
    let mut p = Platform::new(config());
    let id = campaign(&mut p, 30);
    let (c1, _) = p.add_campaign_comment(id, OTHER, b"hash-1".to_vec()).unwrap();
    let (c2, _) = p.add_campaign_comment(id, OTHER, b"hash-2".to_vec()).unwrap();
    assert_eq!((c1, c2), (1, 2));
    let effects = p.remove_campaign_comment(id, c1, CREATOR).unwrap();
    assert_eq!(effects[1], Effect::Emit(Event::CommentRemoved { campaign_id: id, comment_id: 1, caller: CREATOR }));
    assert_eq!(p.remove_campaign_comment(id, c1, CREATOR), Err(Error::ValidationFailed));
    assert!(p.remove_campaign_comment(id, c2, ADMIN).is_ok());
    assert_eq!(p.remove_campaign_comment(id, 3, ADMIN), Err(Error::ValidationFailed));
    assert_eq!(p.add_campaign_comment(9, OTHER, b"h".to_vec()), Err(Error::CampaignNotFound));
}

#[test]
fn test_remove_comment_unauthorized() {
    let mut p = Platform::new(config());
    let id = campaign(&mut p, 30);
    let (c1, _) = p.add_campaign_comment(id, OTHER, b"hash".to_vec()).unwrap();
    assert_eq!(p.remove_campaign_comment(id, c1, OTHER), Err(Error::NotAuthorized));
}

#[test]
fn test_extension_one_second_over_category_cap_is_rejected() {
    let mut cfg = config();
    cfg.duration_caps[1] = Some(40); // Educator
    let mut p = Platform::new(cfg);
    // Start one second past a day boundary.
    let start = START + 1;
    let id = p.create_campaign(params(30, Category::Educator), at(start)).unwrap().0;
    // 30 + 10 = 40 days, exactly the cap: accepted.
    p.extend_campaign_deadline(id, 10, at(start)).unwrap();
    assert!(p.entries[0].campaign.deadline_extended);

    let id2 = p.create_campaign(params(30, Category::Educator), at(start + 1)).unwrap().0;
    let res = p.extend_campaign_deadline(id2, 11, at(start + 1));
    assert_eq!(res.unwrap_err(), Error::InvalidDuration);
    assert!(!p.entries[1].campaign.deadline_extended);
}

#[test]
fn test_extension_rejects_duration_one_second_over_cap_in_seconds() {
    let mut cfg = config();
    cfg.duration_caps[1] = Some(31); // Educator
    let mut p = Platform::new(cfg);
    let start = START + 43_201;
    let id = p.create_campaign(params(30, Category::Educator), at(start)).unwrap().0;
    p.extend_campaign_deadline(id, 1, at(start)).unwrap();
    assert!(p.entries[0].campaign.deadline_extended);

    let id2 = p.create_campaign(params(30, Category::Educator), at(start + 1)).unwrap().0;
    let res = p.extend_campaign_deadline(id2, 2, at(start + 1));
    assert_eq!(res.unwrap_err(), Error::InvalidDuration);
    assert!(!p.entries[1].campaign.deadline_extended);
}

fn goal_params(goal: i128, category: Category) -> CreateCampaignParams {
    let mut p = params(30, category);
    p.funding_goal = goal;
    p
}

#[test]
fn test_category_funding_goal_cap_enforced() {
    let mut p = Platform::new(config());
    p.set_category_funding_goal_cap(ADMIN, Category::Educator, Some(500)).unwrap();
    assert_eq!(p.get_category_funding_goal_cap(Category::Educator), 500);

    let res = p.create_campaign(goal_params(501, Category::Educator), at(START));
    assert_eq!(res.unwrap_err(), Error::FundingGoalTooHigh);

    let (id, _) = p.create_campaign(goal_params(500, Category::Educator), at(START)).unwrap();
    assert_eq!(id, 1);
}

#[test]
fn test_category_funding_goal_cap_other_categories_unaffected() {
    let mut p = Platform::new(config());
    p.set_category_funding_goal_cap(ADMIN, Category::Learner, Some(500)).unwrap();
    let (educator_id, _) = p.create_campaign(goal_params(1_000, Category::Educator), at(START)).unwrap();
    assert_eq!(educator_id, 1);
    let res = p.create_campaign(goal_params(501, Category::Learner), at(START));
    assert_eq!(res.unwrap_err(), Error::FundingGoalTooHigh);
}

#[test]
fn test_remove_category_funding_goal_cap_reverts_to_global_max() {
    let mut p = Platform::new(config());
    p.set_category_funding_goal_cap(ADMIN, Category::Publisher, Some(500)).unwrap();
    p.set_category_funding_goal_cap(ADMIN, Category::Publisher, None).unwrap();
    assert_eq!(p.get_category_funding_goal_cap(Category::Publisher), 1_000_000_000_000_000);
    let (id, _) = p.create_campaign(goal_params(1_000, Category::Publisher), at(START)).unwrap();
    assert_eq!(id, 1);
}

#[test]
fn test_category_funding_goal_cap_respects_lower_global_max() {
    let mut p = Platform::new(config());
    p.set_category_funding_goal_cap(ADMIN, Category::Learner, Some(1_000)).unwrap();
    p.config.max_funding_goal = Some(800);
    assert_eq!(p.get_category_funding_goal_cap(Category::Learner), 800);
    let res = p.create_campaign(goal_params(801, Category::Learner), at(START));
    assert_eq!(res.unwrap_err(), Error::FundingGoalTooHigh);
}

#[test]
fn test_category_funding_goal_cap_validation() {
    let mut p = Platform::new(config());
    let zero = p.set_category_funding_goal_cap(ADMIN, Category::Learner, Some(0));
    assert_eq!(zero.unwrap_err(), Error::FundingGoalMustBePositive);

    p.config.min_funding_goal = Some(100);
    let below_min = p.set_category_funding_goal_cap(ADMIN, Category::Learner, Some(99));
    assert_eq!(below_min.unwrap_err(), Error::ValidationFailed);

    p.config.max_funding_goal = Some(800);
    let above_global = p.set_category_funding_goal_cap(ADMIN, Category::Learner, Some(801));
    assert_eq!(above_global.unwrap_err(), Error::ValidationFailed);
}

#[test]
fn test_category_funding_goal_cap_non_admin_rejected() {
    let mut p = Platform::new(config());
    let res = p.set_category_funding_goal_cap(OTHER, Category::Learner, Some(500));
    assert_eq!(res.unwrap_err(), Error::NotAuthorized);
    assert_eq!(p.set_category_funding_goal_cap(OTHER, Category::Learner, None), Err(Error::NotAuthorized));
}

/// Puts `count` in the index under `key`, as if that many campaigns had
/// been indexed there.
fn set_index_count(t: &mut proof_of_heart::table::Table<proof_of_heart::index::BucketIndex>, key: u64, count: u32) {
    let mut index = proof_of_heart::index::BucketIndex::new();
    index.count = count;
    t.insert(key, index);
}

fn counter_params(title: &str, category: Category, creator: u64) -> CreateCampaignParams {
    let mut p = params(30, category);
    p.title = title.as_bytes().to_vec();
    p.creator = creator;
    p
}

#[test]
fn test_category_counter_at_max_returns_overflow() {
    let mut p = Platform::new(config());
    set_index_count(&mut p.category_index, 0, u32::MAX);
    let res = p.create_campaign(counter_params("At max", Category::Learner, CREATOR), at(START));
    assert_eq!(res, Err(Error::Overflow));
    assert_eq!(p.entries.len(), 0);
    assert_eq!(Platform::index_count(&p.category_index, 0), u32::MAX);
}

#[test]
fn test_category_counter_one_below_max_still_succeeds() {
    let mut p = Platform::new(config());
    set_index_count(&mut p.category_index, 0, u32::MAX - 1);
    let (id, _) = p.create_campaign(counter_params("Last slot", Category::Learner, CREATOR), at(START)).unwrap();
    assert_eq!(id, 1);
    assert_eq!(Platform::index_count(&p.category_index, 0), u32::MAX);
    let res = p.create_campaign(counter_params("One too many", Category::Learner, CREATOR), at(START));
    assert_eq!(res, Err(Error::Overflow));
}

#[test]
fn test_category_counter_overflow_is_scoped_to_its_category() {
    let mut p = Platform::new(config());
    set_index_count(&mut p.category_index, 0, u32::MAX);
    let (id, _) = p.create_campaign(counter_params("Other", Category::Educator, CREATOR), at(START)).unwrap();
    assert_eq!(id, 1);
}

#[test]
fn test_creator_counter_at_max_returns_overflow() {
    let mut p = Platform::new(config());
    set_index_count(&mut p.creator_index, CREATOR, u32::MAX);
    let res = p.create_campaign(counter_params("At max", Category::Learner, CREATOR), at(START));
    assert_eq!(res, Err(Error::Overflow));
    assert_eq!(p.entries.len(), 0);
    assert_eq!(Platform::index_count(&p.creator_index, CREATOR), u32::MAX);
}

#[test]
fn test_creator_counter_one_below_max_still_succeeds() {
    let mut p = Platform::new(config());
    set_index_count(&mut p.creator_index, CREATOR, u32::MAX - 1);
    let (id, _) = p.create_campaign(counter_params("Last slot", Category::Learner, CREATOR), at(START)).unwrap();
    assert_eq!(id, 1);
    let res = p.create_campaign(counter_params("One too many", Category::Learner, CREATOR), at(START));
    assert_eq!(res, Err(Error::Overflow));
}

#[test]
fn test_creator_counter_overflow_is_scoped_to_its_creator() {
    let mut p = Platform::new(config());
    set_index_count(&mut p.creator_index, CREATOR, u32::MAX);
    let (id, _) = p.create_campaign(counter_params("Other", Category::Learner, OTHER), at(START)).unwrap();
    assert_eq!(id, 1);
}

fn learner_campaign(p: &mut Platform, duration_days: u64) -> u32 {
    let mut params = params(duration_days, Category::Learner);
    params.funding_goal = 100;
    p.create_campaign(params, at(START)).unwrap().0
}

#[test]
fn test_extend_deadline_blocked_when_new_total_exceeds_category_cap() {
    let mut cfg = config();
    // A tight 90-day cap on the category.
    cfg.duration_caps[0] = Some(90);
    let mut p = Platform::new(cfg);
    let id = learner_campaign(&mut p, 60);

    // Adding 31 days would make total = 91 days > cap. Must be rejected.
    let res = p.extend_campaign_deadline(id, 31, at(START));
    assert!(res.is_err(), "extension beyond category cap must be rejected");
}

#[test]
fn test_extend_deadline_allowed_within_category_cap() {
    let mut cfg = config();
    // 120-day cap: adding 30 days (total = 90) is within the cap.
    cfg.duration_caps[0] = Some(120);
    let mut p = Platform::new(cfg);
    let id = learner_campaign(&mut p, 60);

    p.extend_campaign_deadline(id, 30, at(START)).unwrap();
    assert!(p.entries[(id - 1) as usize].campaign.deadline_extended);
}
