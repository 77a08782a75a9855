use proof_of_heart::state::{Config, LedgerInfo, Platform};
use proof_of_heart::types::{CampaignStats, Category, CreateCampaignParams, CreatorStats, PlatformReport, PlatformStats};

const ADMIN: u64 = 1;
const CREATOR: u64 = 2;
const C1: u64 = 3;
const C2: u64 = 4;
const TOKEN: u64 = 100;
const DAY: u64 = 86_400;
const START: u64 = 1_000;

fn setup() -> Platform {
    Platform::new(Config {
        admin: ADMIN,
        token: TOKEN,
        allowed_tokens: Vec::new(),
        platform_fee_bps: 300,
        paused: false,
        auto_paused: false,
        creation_disabled: false,
        min_funding_goal: None,
        max_funding_goal: None,
        duration_caps: [None; 4],
        category_goal_caps: [None; 4],
        withdraw_release_delay_days: 0,
        withdraw_reserve_bps: 0,
    })
}

fn at(t: u64) -> LedgerInfo {
    LedgerInfo { timestamp: t, sequence: 1 }
}

fn create(p: &mut Platform, goal: i128) -> u32 {
    let params = CreateCampaignParams {
        creator: CREATOR,
        title: b"Stats".to_vec(),
        description: b"s".to_vec(),
        funding_goal: goal,
        duration_days: 30,
        category: Category::Learner,
        has_revenue_sharing: false,
        revenue_share_percentage: 0,
        max_contribution_per_user: 0,
    };
    let (id, _) = p.create_campaign(params, at(START)).unwrap();
    p.entries[(id - 1) as usize].campaign.is_verified = true;
    id
}

#[test]
fn platform_stats_read_the_counters() {
    let mut p = setup();
    let c1 = create(&mut p, 500);
    let c2 = create(&mut p, 500);
    p.contribute(c1, C1, 400, at(START)).unwrap();
    p.contribute(c2, C2, 300, at(START)).unwrap();
    p.verified_count = 2;
    let stats = p.get_platform_stats();
    assert_eq!(
        stats,
        PlatformStats {
            total_campaigns: 2,
            active_campaigns: 2,
            verified_campaigns: 2,
            cancelled_campaigns: 0,
            total_amount_raised: 700,
            stats_are_partial: false,
            scanned_up_to: 2,
        }
    );
}

#[test]
fn campaign_stats_average_rounds_towards_zero() {
    let mut p = setup();
    let id = create(&mut p, 10_000);
    p.contribute(id, C1, 100, at(START)).unwrap();
    p.contribute(id, C2, 201, at(START)).unwrap();
    p.entries[0].last_contribution_time = 777;
    p.entries[0].top_contributor = Some(C2);
    assert_eq!(
        p.get_campaign_stats(id),
        CampaignStats { contributor_count: 2, top_contributor: Some(C2), avg_contribution: 150, last_contribution_time: 777 }
    );
    assert_eq!(
        p.get_campaign_stats(42),
        CampaignStats { contributor_count: 0, top_contributor: None, avg_contribution: 0, last_contribution_time: 0 }
    );
}

#[test]
fn creator_stats_aggregate_every_campaign() {
    let mut p = setup();
    let a = create(&mut p, 10_000);
    let b = create(&mut p, 10_000);
    let c = create(&mut p, 10_000);
    p.contribute(a, C1, 100, at(START)).unwrap();
    p.contribute(b, C1, 50, at(START)).unwrap();
    p.contribute(b, C2, 50, at(START)).unwrap();
    p.contribute(c, C2, 70, at(START)).unwrap();
    let e = &mut p.entries[(c - 1) as usize].campaign;
    e.is_cancelled = true;
    assert_eq!(
        p.get_creator_stats(CREATOR).unwrap(),
        CreatorStats { total_campaigns: 3, active_campaigns: 2, total_raised: 200, total_contributors: 4 }
    );
    assert_eq!(
        p.get_creator_stats(C1).unwrap(),
        CreatorStats { total_campaigns: 0, active_campaigns: 0, total_raised: 0, total_contributors: 0 }
    );
}

#[test]
fn platform_report_gathers_every_metric() {
    let mut p = setup();
    let a = create(&mut p, 10_000);
    let b = create(&mut p, 10_000);
    p.contribute(a, C1, 10, at(START)).unwrap();
    p.contribute(a, C2, 10, at(START)).unwrap();
    p.contribute(b, C2, 10, at(START)).unwrap();
    p.config.auto_paused = true;
    assert_eq!(
        p.get_platform_report().unwrap(),
        PlatformReport {
            total_campaigns: 2,
            active_campaigns: 2,
            total_raised: 30,
            total_contributors: 3,
            platform_fee_bps: 300,
            is_paused: true,
            token: TOKEN,
        }
    );
}

#[test]
fn portfolio_lists_backed_campaigns_with_status() {
    let mut p = setup();
    let a = create(&mut p, 10_000);
    let b = create(&mut p, 10_000);
    let c = create(&mut p, 10_000);
    let d = create(&mut p, 100);
    p.contribute(a, C1, 10, at(START)).unwrap();
    p.contribute(c, C1, 30, at(START)).unwrap();
    p.contribute(d, C1, 100, at(START)).unwrap();
    p.contribute(b, C2, 20, at(START)).unwrap();
    p.entries[(c - 1) as usize].campaign.is_cancelled = true;

    let rows = p.get_contributor_portfolio(C1, 0, 10, at(START));
    assert_eq!(rows.len(), 3);
    assert_eq!(rows[0], (a, 10, "verified".to_string(), false));
    assert_eq!(rows[1], (c, 30, "cancelled".to_string(), true));
    assert_eq!(rows[2], (d, 100, "verified".to_string(), false));

    // After the deadline, a campaign short of its goal becomes refundable.
    let later = p.get_contributor_portfolio(C1, 0, 10, at(START + 31 * DAY));
    assert_eq!(later[0], (a, 10, "verified".to_string(), true));
    assert_eq!(later[2], (d, 100, "verified".to_string(), false));

    // Paging: an exclusive campaign-id cursor and a limit.
    let page = p.get_contributor_portfolio(C1, 1, 1, at(START));
    assert_eq!(page, vec![(c, 30, "cancelled".to_string(), true)]);
    assert!(p.get_contributor_portfolio(C1, 4, 10, at(START)).is_empty());
    assert!(p.get_contributor_portfolio(C1, 0, 0, at(START)).is_empty());

    p.entries[(a - 1) as usize].campaign.is_verified = false;
    p.entries[(d - 1) as usize].campaign.funds_withdrawn = true;
    p.entries[(b - 1) as usize].campaign.is_active = false;
    let rows = p.get_contributor_portfolio(C1, 0, 10, at(START));
    assert_eq!(rows[0].2, "active");
    assert_eq!(rows[2].2, "withdrawn");
    assert_eq!(p.get_contributor_portfolio(C2, 0, 10, at(START))[0].2, "inactive");
}

#[test]
fn aggregates_that_overflow_report_it() {
    let mut p = setup();
    let a = create(&mut p, 10_000);
    let b = create(&mut p, 10_000);
    p.entries[(a - 1) as usize].contributor_count = u32::MAX;
    p.entries[(b - 1) as usize].contributor_count = 1;
    assert_eq!(p.get_platform_report(), Err(proof_of_heart::errors::Error::Overflow));
    assert_eq!(p.get_creator_stats(CREATOR), Err(proof_of_heart::errors::Error::Overflow));
}
