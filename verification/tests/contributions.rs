use proof_of_heart::errors::Error;
use proof_of_heart::state::{Config, Effect, Event, LedgerInfo, Party, Platform};
use proof_of_heart::types::{Category, CreateCampaignParams};

const ADMIN: u64 = 1;
const CREATOR: u64 = 2;
const CONTRIBUTOR1: u64 = 3;
const CONTRIBUTOR2: u64 = 4;
const TOKEN: u64 = 100;
const DAY: u64 = 86_400;
const START: u64 = 1_000;

fn platform() -> Platform {
    Platform::new(Config {
        admin: ADMIN,
        token: TOKEN,
        allowed_tokens: Vec::new(),
        platform_fee_bps: 0,
        paused: false,
        auto_paused: false,
        creation_disabled: false,
        min_funding_goal: None,
        max_funding_goal: None,
        duration_caps: [None; 4],
        category_goal_caps: [None; 4],
        withdraw_release_delay_days: 0,
        withdraw_reserve_bps: 0,
    })
}

fn at(timestamp: u64) -> LedgerInfo {
    LedgerInfo { timestamp, sequence: 1 }
}

fn params(goal: i128, days: u64, category: Category, max_per_user: i128) -> CreateCampaignParams {
    CreateCampaignParams {
        creator: CREATOR,
        title: b"Campaign".to_vec(),
        description: b"Desc".to_vec(),
        funding_goal: goal,
        duration_days: days,
        category,
        has_revenue_sharing: false,
        revenue_share_percentage: 0,
        max_contribution_per_user: max_per_user,
    }
}

/// Creates a campaign and marks it verified, as an admin would.
fn verified_campaign(p: &mut Platform, goal: i128, days: u64, max_per_user: i128) -> u32 {
    let (id, _) = p.create_campaign(params(goal, days, Category::Learner, max_per_user), at(START)).unwrap();
    p.entries[(id - 1) as usize].campaign.is_verified = true;
    id
}

#[test]
fn test_contributions_test_contribution_cap_persists_across_refund_recontribution_cycles() {
    let mut p = platform();
    let campaign_id = verified_campaign(&mut p, 2_000, 1, 1_000);

    p.contribute(campaign_id, CONTRIBUTOR1, 900, at(START)).unwrap();
    // The campaign misses its goal by the deadline, which opens refunds.
    p.claim_refund(campaign_id, CONTRIBUTOR1, at(START + 2 * DAY)).unwrap();
    assert_eq!(p.get_contribution(campaign_id, CONTRIBUTOR1), 0);
    assert_eq!(p.get_lifetime_contribution(campaign_id, CONTRIBUTOR1), 900);
}

#[test]
fn test_contribute_caps_test_contribution_cap_persists_across_refund_recontribution_cycles() {
    let mut p = platform();
    let campaign_id = verified_campaign(&mut p, 2_000, 1, 1_000);

    p.contribute(campaign_id, CONTRIBUTOR1, 900, at(START)).unwrap();
    // The campaign misses its goal by the deadline, which opens refunds.
    p.claim_refund(campaign_id, CONTRIBUTOR1, at(START + 2 * DAY)).unwrap();
    assert_eq!(p.get_contribution(campaign_id, CONTRIBUTOR1), 0);
    assert_eq!(p.get_lifetime_contribution(campaign_id, CONTRIBUTOR1), 900);
}

#[test]
fn test_contributions_test_max_contribution_per_user_enforced_across_multiple_transactions() {
    let mut p = platform();
    let campaign_id = verified_campaign(&mut p, 5_000, 30, 1_000);

    p.contribute(campaign_id, CONTRIBUTOR1, 600, at(START)).unwrap();
    let res = p.contribute(campaign_id, CONTRIBUTOR1, 600, at(START));
    assert_eq!(res.unwrap_err(), Error::ContributionCapExceeded);
    assert_eq!(p.get_contribution(campaign_id, CONTRIBUTOR1), 600);
    assert_eq!(p.get_lifetime_contribution(campaign_id, CONTRIBUTOR1), 600);
}

#[test]
fn test_contribute_caps_test_max_contribution_per_user_enforced_across_multiple_transactions() {
    let mut p = platform();
    let campaign_id = verified_campaign(&mut p, 5_000, 30, 1_000);

    p.contribute(campaign_id, CONTRIBUTOR1, 600, at(START)).unwrap();
    let res = p.contribute(campaign_id, CONTRIBUTOR1, 600, at(START));
    assert_eq!(res.unwrap_err(), Error::ContributionCapExceeded);
    assert_eq!(p.get_contribution(campaign_id, CONTRIBUTOR1), 600);
    assert_eq!(p.get_lifetime_contribution(campaign_id, CONTRIBUTOR1), 600);
}

#[test]
fn test_contributions_test_personal_cap_enforcement() {
    let mut p = platform();
    let campaign_id = verified_campaign(&mut p, 5_000, 30, 1_000);

    p.set_personal_cap(campaign_id, CONTRIBUTOR1, 500).unwrap();
    assert_eq!(p.get_personal_cap(campaign_id, CONTRIBUTOR1), Some(500));

    p.contribute(campaign_id, CONTRIBUTOR1, 400, at(START)).unwrap();
    let res = p.contribute(campaign_id, CONTRIBUTOR1, 200, at(START));
    assert_eq!(res.unwrap_err(), Error::ContributionCapExceeded);

    let res_set = p.set_personal_cap(campaign_id, CONTRIBUTOR1, 2_000);
    assert_eq!(res_set.unwrap_err(), Error::ValidationFailed);

    p.set_personal_cap(campaign_id, CONTRIBUTOR1, 1_000).unwrap();
    p.contribute(campaign_id, CONTRIBUTOR1, 500, at(START)).unwrap();
    let res = p.contribute(campaign_id, CONTRIBUTOR1, 200, at(START));
    assert_eq!(res.unwrap_err(), Error::ContributionCapExceeded);
}

#[test]
fn test_contribute_caps_test_personal_cap_enforcement() {
    let mut p = platform();
    let campaign_id = verified_campaign(&mut p, 5_000, 30, 1_000);

    p.set_personal_cap(campaign_id, CONTRIBUTOR1, 500).unwrap();
    assert_eq!(p.get_personal_cap(campaign_id, CONTRIBUTOR1), Some(500));

    p.contribute(campaign_id, CONTRIBUTOR1, 400, at(START)).unwrap();
    let res = p.contribute(campaign_id, CONTRIBUTOR1, 200, at(START));
    assert_eq!(res.unwrap_err(), Error::ContributionCapExceeded);

    let res_set = p.set_personal_cap(campaign_id, CONTRIBUTOR1, 2_000);
    assert_eq!(res_set.unwrap_err(), Error::ValidationFailed);

    p.set_personal_cap(campaign_id, CONTRIBUTOR1, 1_000).unwrap();
    p.contribute(campaign_id, CONTRIBUTOR1, 500, at(START)).unwrap();
    let res = p.contribute(campaign_id, CONTRIBUTOR1, 200, at(START));
    assert_eq!(res.unwrap_err(), Error::ContributionCapExceeded);
}

#[test]
fn test_anomaly_rejects_huge_contribution() {
    let mut p = platform();
    let campaign_id = verified_campaign(&mut p, 2_000, 30, 0);

    let res = p.contribute(campaign_id, CONTRIBUTOR1, 4_001, at(START));
    assert_eq!(res.unwrap_err(), Error::ContractPaused);
    // Rejected, not paused: a refused call leaves the state untouched.
    assert!(!p.config.paused && !p.config.auto_paused);
    assert_eq!(p.get_contribution(campaign_id, CONTRIBUTOR1), 0);

    p.contribute(campaign_id, CONTRIBUTOR1, 100, at(START)).unwrap();
    assert_eq!(p.get_contribution(campaign_id, CONTRIBUTOR1), 100);
}

#[test]
fn test_huge_contribution_is_rejected() {
    let mut p = platform();
    let campaign_id = verified_campaign(&mut p, 1_000, 30, 0);
    let res = p.contribute(campaign_id, CONTRIBUTOR1, 2_001, at(START));
    assert_eq!(res.unwrap_err(), Error::ContractPaused);
}

#[test]
fn test_set_personal_cap_below_lifetime_contribution_rejected() {
    let mut p = platform();
    let campaign_id = verified_campaign(&mut p, 10_000, 30, 0);

    p.contribute(campaign_id, CONTRIBUTOR1, 1_000, at(START)).unwrap();
    assert_eq!(p.get_lifetime_contribution(campaign_id, CONTRIBUTOR1), 1_000);

    for below in [0, 1, 500, 999] {
        let res = p.set_personal_cap(campaign_id, CONTRIBUTOR1, below);
        assert_eq!(res.unwrap_err(), Error::ValidationFailed);
    }

    assert!(p.set_personal_cap(campaign_id, CONTRIBUTOR1, 1_000).is_ok());
    let res_contrib = p.contribute(campaign_id, CONTRIBUTOR1, 1, at(START));
    assert_eq!(res_contrib.unwrap_err(), Error::ContributionCapExceeded);

    assert!(p.set_personal_cap(campaign_id, CONTRIBUTOR1, 2_500).is_ok());
    p.contribute(campaign_id, CONTRIBUTOR1, 500, at(START)).unwrap();
    assert_eq!(p.get_lifetime_contribution(campaign_id, CONTRIBUTOR1), 1_500);

    let res = p.set_personal_cap(campaign_id, CONTRIBUTOR1, 1_499);
    assert_eq!(res.unwrap_err(), Error::ValidationFailed);
    assert!(p.set_personal_cap(campaign_id, CONTRIBUTOR1, 1_500).is_ok());
}

#[test]
fn test_set_personal_cap_before_any_contributions() {
    let mut p = platform();
    let campaign_id = verified_campaign(&mut p, 10_000, 30, 5_000);
    assert_eq!(p.get_lifetime_contribution(campaign_id, CONTRIBUTOR1), 0);

    let res_neg = p.set_personal_cap(campaign_id, CONTRIBUTOR1, -1);
    assert_eq!(res_neg.unwrap_err(), Error::ValidationFailed);

    let res_above = p.set_personal_cap(campaign_id, CONTRIBUTOR1, 5_001);
    assert_eq!(res_above.unwrap_err(), Error::ValidationFailed);

    assert!(p.set_personal_cap(campaign_id, CONTRIBUTOR1, 2_000).is_ok());
    assert_eq!(p.get_personal_cap(campaign_id, CONTRIBUTOR1), Some(2_000));
}

#[test]
fn contribution_moves_funds_into_escrow_and_is_published() {
    let mut p = platform();
    let id = verified_campaign(&mut p, 5_000, 30, 0);
    let effects = p.contribute(id, CONTRIBUTOR1, 250, at(START)).unwrap();
    assert_eq!(
        effects,
        vec![
            Effect::RequireAuth(CONTRIBUTOR1),
            Effect::Transfer { token: TOKEN, from: Party::Account(CONTRIBUTOR1), to: Party::Contract, amount: 250 },
            Effect::Emit(Event::ContributionMade { campaign_id: id, contributor: CONTRIBUTOR1, amount: 250 }),
        ]
    );
    let e = &p.entries[(id - 1) as usize];
    assert_eq!(e.campaign.amount_raised, 250);
    assert_eq!(e.campaign.effective_amount_raised, 250);
    assert_eq!(e.contributor_count, 1);
    assert_eq!(p.total_raised, 250);
}

#[test]
fn second_contribution_does_not_count_the_contributor_twice() {
    let mut p = platform();
    let id = verified_campaign(&mut p, 5_000, 30, 0);
    p.contribute(id, CONTRIBUTOR1, 100, at(START)).unwrap();
    p.contribute(id, CONTRIBUTOR1, 100, at(START)).unwrap();
    p.contribute(id, CONTRIBUTOR2, 100, at(START)).unwrap();
    assert_eq!(p.entries[0].contributor_count, 2);
    assert_eq!(p.get_contribution(id, CONTRIBUTOR1), 200);
}

#[test]
fn contribution_refusals_name_their_cause() {
    let mut p = platform();
    let (unverified, _) = p.create_campaign(params(5_000, 30, Category::Learner, 0), at(START)).unwrap();
    let id = verified_campaign(&mut p, 5_000, 30, 0);
    assert_eq!(p.contribute(id, CONTRIBUTOR1, 0, at(START)), Err(Error::ContributionMustBePositive));
    assert_eq!(p.contribute(99, CONTRIBUTOR1, 10, at(START)), Err(Error::CampaignNotFound));
    assert_eq!(p.contribute(unverified, CONTRIBUTOR1, 10, at(START)), Err(Error::CampaignNotVerified));
    assert_eq!(p.contribute(id, CREATOR, 10, at(START)), Err(Error::NotAuthorized));
    assert_eq!(
        p.contribute(id, CONTRIBUTOR1, 10, at(START + 31 * DAY)),
        Err(Error::DeadlinePassed)
    );
    p.config.paused = true;
    assert_eq!(p.contribute(id, CONTRIBUTOR1, 10, at(START)), Err(Error::ContractPaused));
    p.config.paused = false;
    p.entries[(id - 1) as usize].campaign.is_cancelled = true;
    assert_eq!(p.contribute(id, CONTRIBUTOR1, 10, at(START)), Err(Error::CampaignNotActive));
    assert_eq!(p.total_raised, 0);
}

#[test]
fn contribution_one_second_before_deadline_is_accepted() {
    let mut p = platform();
    let id = verified_campaign(&mut p, 5_000, 30, 0);
    let deadline = p.entries[0].campaign.deadline;
    assert_eq!(deadline, START + 30 * DAY);
    assert!(p.contribute(id, CONTRIBUTOR1, 10, at(deadline - 1)).is_ok());
    assert!(p.contribute(id, CONTRIBUTOR1, 10, at(deadline)).is_ok());
    assert_eq!(p.contribute(id, CONTRIBUTOR1, 10, at(deadline + 1)), Err(Error::DeadlinePassed));
}

#[test]
fn burst_of_contributions_in_one_ledger_is_refused() {
    let mut p = platform();
    let id = verified_campaign(&mut p, 1_000, 30, 0);
    // Past half of the goal, burst detection runs.
    p.contribute(id, CONTRIBUTOR1, 600, at(START)).unwrap();
    let ledger = LedgerInfo { timestamp: START, sequence: 7 };
    for _ in 0..10 {
        p.contribute(id, CONTRIBUTOR1, 1, ledger).unwrap();
    }
    assert_eq!(p.contribute(id, CONTRIBUTOR1, 1, ledger), Err(Error::ContractPaused));
    assert_eq!(p.get_contribution(id, CONTRIBUTOR1), 610);
    // The next ledger starts a fresh count.
    let next = LedgerInfo { timestamp: START, sequence: 8 };
    assert!(p.contribute(id, CONTRIBUTOR1, 1, next).is_ok());
}

#[test]
fn refund_is_paid_once_and_returns_the_escrow() {
    let mut p = platform();
    let id = verified_campaign(&mut p, 5_000, 1, 0);
    p.contribute(id, CONTRIBUTOR1, 300, at(START)).unwrap();
    p.contribute(id, CONTRIBUTOR2, 200, at(START)).unwrap();

    assert_eq!(p.claim_refund(id, CONTRIBUTOR1, at(START)), Err(Error::ValidationFailed));

    let later = at(START + 2 * DAY);
    let effects = p.claim_refund(id, CONTRIBUTOR1, later).unwrap();
    assert_eq!(
        effects[1],
        Effect::Transfer { token: TOKEN, from: Party::Contract, to: Party::Account(CONTRIBUTOR1), amount: 300 }
    );
    assert_eq!(p.total_raised, 200);
    assert_eq!(p.entries[0].campaign.effective_amount_raised, 200);
    assert_eq!(p.entries[0].campaign.amount_raised, 500);
    assert_eq!(p.entries[0].contributor_count, 1);
    assert_eq!(p.claim_refund(id, CONTRIBUTOR1, later), Err(Error::NoFundsToWithdraw));
    assert_eq!(p.get_contribution(id, CONTRIBUTOR2), 200);
}

#[test]
fn refund_of_cancelled_campaign_is_open_at_once() {
    let mut p = platform();
    let id = verified_campaign(&mut p, 5_000, 30, 0);
    p.contribute(id, CONTRIBUTOR1, 300, at(START)).unwrap();
    p.entries[0].campaign.is_cancelled = true;
    assert!(p.claim_refund(id, CONTRIBUTOR1, at(START)).is_ok());
    assert_eq!(p.claim_refund(id, CONTRIBUTOR2, at(START)), Err(Error::NoFundsToWithdraw));
}

#[test]
fn refund_clears_the_personal_cap() {
    let mut p = platform();
    let id = verified_campaign(&mut p, 5_000, 1, 0);
    p.set_personal_cap(id, CONTRIBUTOR1, 400).unwrap();
    p.contribute(id, CONTRIBUTOR1, 300, at(START)).unwrap();
    p.claim_refund(id, CONTRIBUTOR1, at(START + 2 * DAY)).unwrap();
    assert_eq!(p.get_personal_cap(id, CONTRIBUTOR1), None);
}

#[test]
fn personal_cap_can_be_removed_once() {
    let mut p = platform();
    let id = verified_campaign(&mut p, 5_000, 30, 0);
    assert_eq!(p.remove_personal_cap(id, CONTRIBUTOR1), Err(Error::PersonalCapNotFound));
    p.set_personal_cap(id, CONTRIBUTOR1, 100).unwrap();
    let effects = p.remove_personal_cap(id, CONTRIBUTOR1).unwrap();
    assert_eq!(
        effects,
        vec![
            Effect::RequireAuth(CONTRIBUTOR1),
            Effect::Emit(Event::PersonalCapRemoved { campaign_id: id, contributor: CONTRIBUTOR1 }),
        ]
    );
    assert_eq!(p.get_personal_cap(id, CONTRIBUTOR1), None);
    assert_eq!(p.remove_personal_cap(id, CONTRIBUTOR1), Err(Error::PersonalCapNotFound));
    assert_eq!(p.remove_personal_cap(77, CONTRIBUTOR1), Err(Error::PersonalCapNotFound));
    // Without the cap, contributions above the old cap go through.
    assert!(p.contribute(id, CONTRIBUTOR1, 150, at(START)).is_ok());
}

#[test]
fn personal_cap_needs_an_open_campaign() {
    let mut p = platform();
    let id = verified_campaign(&mut p, 5_000, 30, 0);
    assert_eq!(p.set_personal_cap(9, CONTRIBUTOR1, 10), Err(Error::CampaignNotFound));
    p.entries[0].campaign.is_active = false;
    assert_eq!(p.set_personal_cap(id, CONTRIBUTOR1, 10), Err(Error::CampaignNotActive));
}

#[test]
fn refund_undoes_the_contribution_in_the_totals() {
    let mut p = platform();
    let id = verified_campaign(&mut p, 5_000, 1, 0);
    p.contribute(id, CONTRIBUTOR2, 40, at(START)).unwrap();
    let total_before = p.total_raised;
    let effective_before = p.entries[0].campaign.effective_amount_raised;
    p.contribute(id, CONTRIBUTOR1, 300, at(START)).unwrap();
    p.claim_refund(id, CONTRIBUTOR1, at(START + 2 * DAY)).unwrap();
    assert_eq!(p.total_raised, total_before);
    assert_eq!(p.entries[0].campaign.effective_amount_raised, effective_before);
    assert_eq!(p.get_contribution(id, CONTRIBUTOR1), 0);
}

/// Marks a campaign cancelled, as its creator's cancellation would.
fn cancel(p: &mut Platform, id: u32) {
    let c = &mut p.entries[(id - 1) as usize].campaign;
    c.is_cancelled = true;
    c.is_active = false;
}

#[test]
fn test_creator_cannot_contribute_to_own_campaign() {
    let mut p = platform();
    let campaign_id = verified_campaign(&mut p, 1000, 30, 0);
    let res = p.contribute(campaign_id, CREATOR, 100, at(START));
    assert_eq!(res.unwrap_err(), Error::NotAuthorized);
}

#[test]
fn test_deadline_boundary() {
    let mut p = platform();
    let campaign_id = verified_campaign(&mut p, 1000, 2, 0);
    let deadline = p.entries[0].campaign.deadline;
    p.contribute(campaign_id, CONTRIBUTOR1, 500, at(deadline)).unwrap();
    assert_eq!(p.get_contribution(campaign_id, CONTRIBUTOR1), 500);
    let res = p.contribute(campaign_id, CONTRIBUTOR1, 500, at(deadline + 1));
    assert_eq!(res.unwrap_err(), Error::DeadlinePassed);
}

#[test]
fn test_contribution_accounting_invariant() {
    let mut p = platform();
    let contributor3 = 9;
    let campaign_id = verified_campaign(&mut p, 5000, 30, 0);
    p.contribute(campaign_id, CONTRIBUTOR1, 500, at(START)).unwrap();
    p.contribute(campaign_id, CONTRIBUTOR2, 750, at(START)).unwrap();
    p.contribute(campaign_id, contributor3, 250, at(START)).unwrap();
    p.contribute(campaign_id, CONTRIBUTOR1, 300, at(START)).unwrap();
    p.contribute(campaign_id, CONTRIBUTOR2, 200, at(START)).unwrap();

    let c1 = p.get_contribution(campaign_id, CONTRIBUTOR1);
    let c2 = p.get_contribution(campaign_id, CONTRIBUTOR2);
    let c3 = p.get_contribution(campaign_id, contributor3);
    assert_eq!(c1, 800);
    assert_eq!(c2, 950);
    assert_eq!(c3, 250);
    assert_eq!(c1 + c2 + c3, p.entries[0].campaign.amount_raised);
}

#[test]
fn test_contribute_one_second_before_deadline() {
    let mut p = platform();
    let campaign_id = verified_campaign(&mut p, 1000, 1, 0);
    let deadline = p.entries[0].campaign.deadline;
    p.contribute(campaign_id, CONTRIBUTOR1, 500, at(deadline - 1)).unwrap();
    assert_eq!(p.get_contribution(campaign_id, CONTRIBUTOR1), 500);
}

#[test]
fn test_contribute_overflow_returns_error_not_panic() {
    let mut p = platform();
    let campaign_id = verified_campaign(&mut p, 1000, 30, 0);
    // i128::MAX * 10000 overflows: the guard reports it instead of trapping.
    let res = p.contribute(campaign_id, CONTRIBUTOR1, i128::MAX, at(START));
    assert_eq!(res.unwrap_err(), Error::Overflow);
}

#[test]
fn test_low_activity_campaign_skips_burst_check() {
    let mut p = platform();
    let campaign_id = verified_campaign(&mut p, 1_000_000, 30, 0);
    // 15 contributions in the same ledger, well under 50% of the goal.
    for _ in 0..15 {
        p.contribute(campaign_id, CONTRIBUTOR1, 10, at(START)).unwrap();
    }
    assert_eq!(p.get_contribution(campaign_id, CONTRIBUTOR1), 150);
    assert!(!p.config.paused && !p.config.auto_paused);
}

#[test]
fn test_double_refund_prevention() {
    let mut p = platform();
    let campaign_id = verified_campaign(&mut p, 5000, 10, 0);
    p.contribute(campaign_id, CONTRIBUTOR1, 1000, at(START)).unwrap();
    cancel(&mut p, campaign_id);

    let effects = p.claim_refund(campaign_id, CONTRIBUTOR1, at(START)).unwrap();
    assert_eq!(
        effects[1],
        Effect::Transfer { token: TOKEN, from: Party::Contract, to: Party::Account(CONTRIBUTOR1), amount: 1000 }
    );
    let res = p.claim_refund(campaign_id, CONTRIBUTOR1, at(START));
    assert_eq!(res.unwrap_err(), Error::NoFundsToWithdraw);
}

#[test]
fn test_refund_requires_deadline_passed_and_goal_missed() {
    let mut p = platform();
    let campaign_id = verified_campaign(&mut p, 10_000, 1, 0);
    p.contribute(campaign_id, CONTRIBUTOR1, 500, at(START)).unwrap();

    let res = p.claim_refund(campaign_id, CONTRIBUTOR1, at(START));
    assert_eq!(res.unwrap_err(), Error::ValidationFailed);

    let deadline = p.entries[0].campaign.deadline;
    p.claim_refund(campaign_id, CONTRIBUTOR1, at(deadline + 1)).unwrap();
    assert_eq!(p.get_contribution(campaign_id, CONTRIBUTOR1), 0);
}

#[test]
fn test_no_refund_when_goal_reached() {
    let mut p = platform();
    let campaign_id = verified_campaign(&mut p, 500, 1, 0);
    p.contribute(campaign_id, CONTRIBUTOR1, 500, at(START)).unwrap();
    let deadline = p.entries[0].campaign.deadline;
    let res = p.claim_refund(campaign_id, CONTRIBUTOR1, at(deadline + 1));
    assert_eq!(res.unwrap_err(), Error::ValidationFailed);
}

#[test]
fn test_claim_refund_multiple_contributors_isolation() {
    let mut p = platform();
    let campaign_id = verified_campaign(&mut p, 10000, 10, 0);
    p.contribute(campaign_id, CONTRIBUTOR1, 2000, at(START)).unwrap();
    p.contribute(campaign_id, CONTRIBUTOR2, 1500, at(START)).unwrap();
    cancel(&mut p, campaign_id);

    p.claim_refund(campaign_id, CONTRIBUTOR1, at(START)).unwrap();
    assert_eq!(p.get_contribution(campaign_id, CONTRIBUTOR1), 0);
    assert_eq!(p.get_contribution(campaign_id, CONTRIBUTOR2), 1500);

    let effects = p.claim_refund(campaign_id, CONTRIBUTOR2, at(START)).unwrap();
    assert_eq!(
        effects[1],
        Effect::Transfer { token: TOKEN, from: Party::Contract, to: Party::Account(CONTRIBUTOR2), amount: 1500 }
    );
    assert_eq!(p.get_contribution(campaign_id, CONTRIBUTOR2), 0);
}

#[test]
fn test_claim_refund_preserves_lifetime_contribution() {
    let mut p = platform();
    let campaign_id = verified_campaign(&mut p, 2000, 1, 1_000);
    p.contribute(campaign_id, CONTRIBUTOR1, 900, at(START)).unwrap();
    cancel(&mut p, campaign_id);
    p.claim_refund(campaign_id, CONTRIBUTOR1, at(START)).unwrap();
    assert_eq!(
        p.get_lifetime_contribution(campaign_id, CONTRIBUTOR1),
        900,
        "LifetimeContribution should persist after refund for cap enforcement"
    );
}

const USDC: u64 = 200;

fn usdc_campaign(p: &mut Platform, goal: i128, days: u64) -> u32 {
    p.config.allowed_tokens.push(USDC);
    let (id, _) = p
        .create_campaign_with_token(params(goal, days, Category::Learner, 0), USDC, at(START))
        .unwrap();
    p.entries[(id - 1) as usize].campaign.is_verified = true;
    id
}

#[test]
fn test_contribution_moves_the_campaign_currency() {
    let mut p = platform();
    let id = usdc_campaign(&mut p, 5_000, 30);
    let effects = p.contribute(id, CONTRIBUTOR1, 1000, at(START)).unwrap();
    assert_eq!(
        effects[1],
        Effect::Transfer { token: USDC, from: Party::Account(CONTRIBUTOR1), to: Party::Contract, amount: 1000 }
    );
    // The platform token is not touched.
    assert!(!effects.iter().any(|e| matches!(e, Effect::Transfer { token: TOKEN, .. })));
}

#[test]
fn test_refund_returns_the_campaign_currency() {
    let mut p = platform();
    let id = usdc_campaign(&mut p, 5_000, 30);
    p.contribute(id, CONTRIBUTOR1, 1000, at(START)).unwrap();
    cancel(&mut p, id);
    let effects = p.claim_refund(id, CONTRIBUTOR1, at(START)).unwrap();
    assert_eq!(
        effects[1],
        Effect::Transfer { token: USDC, from: Party::Contract, to: Party::Account(CONTRIBUTOR1), amount: 1000 }
    );
}

#[test]
fn cap_check_cannot_overflow() {
    let mut p = platform();
    let id = verified_campaign(&mut p, 10_000, 30, 1_000);
    p.contribute(id, CONTRIBUTOR1, 600, at(START)).unwrap();
    // 600 + i128::MAX exceeds the cap of 1_000 as an integer.
    assert_eq!(p.contribute(id, CONTRIBUTOR1, i128::MAX, at(START)), Err(Error::ContributionCapExceeded));
    p.set_personal_cap(id, CONTRIBUTOR2, 700).unwrap();
    assert_eq!(p.contribute(id, CONTRIBUTOR2, i128::MAX, at(START)), Err(Error::ContributionCapExceeded));
}

#[test]
fn contribution_that_would_overflow_the_totals_is_refused() {
    let mut p = platform();
    let mut params = params(1_000_000_000_000_000, 30, Category::Learner, 0);
    params.funding_goal = 1_000_000_000_000_000;
    let (id, _) = p.create_campaign(params, at(START)).unwrap();
    p.entries[0].campaign.is_verified = true;
    p.total_raised = i128::MAX - 5;
    assert_eq!(p.contribute(id, CONTRIBUTOR1, 10, at(START)), Err(Error::Overflow));
    assert_eq!(p.get_contribution(id, CONTRIBUTOR1), 0);
    assert_eq!(p.total_raised, i128::MAX - 5);
}

#[test]
fn escrowed_contributions_add_up_to_the_effective_total() {
    let mut p = platform();
    let campaign_id = verified_campaign(&mut p, 10_000, 10, 0);
    p.contribute(campaign_id, CONTRIBUTOR1, 500, at(START)).unwrap();
    p.contribute(campaign_id, CONTRIBUTOR2, 300, at(START)).unwrap();
    p.contribute(campaign_id, CONTRIBUTOR1, 200, at(START)).unwrap();
    let sum = p.get_contribution(campaign_id, CONTRIBUTOR1) + p.get_contribution(campaign_id, CONTRIBUTOR2);
    assert_eq!(sum, 1_000);
    assert_eq!(p.entries[0].campaign.effective_amount_raised, 1_000);

    // The goal is missed: a refund takes the escrow out of both sides.
    let after_deadline = at(START + 10 * DAY + 1);
    p.claim_refund(campaign_id, CONTRIBUTOR2, after_deadline).unwrap();
    let sum = p.get_contribution(campaign_id, CONTRIBUTOR1) + p.get_contribution(campaign_id, CONTRIBUTOR2);
    assert_eq!(sum, 700);
    assert_eq!(p.entries[0].campaign.effective_amount_raised, 700);
    assert_eq!(p.entries[0].campaign.amount_raised, 1_000);
    assert_eq!(p.total_raised, 700);
}

#[test]
fn test_burst_guard_block_counts_are_per_campaign_not_global() {
    let mut p = platform();
    // goal = 1_000; burst checks start above 50% = 500 raised.
    let id_a = verified_campaign(&mut p, 1_000, 30, 0);
    let (id_b, _) = p.create_campaign(params(1_000, 30, Category::Educator, 0), at(START)).unwrap();
    p.entries[(id_b - 1) as usize].campaign.is_verified = true;

    // First contribution to each: nothing raised yet, so no count is kept.
    p.contribute(id_a, CONTRIBUTOR1, 600, at(START)).unwrap();
    p.contribute(id_b, CONTRIBUTOR1, 600, at(START)).unwrap();

    // Second contributions in the same ledger: each campaign counts its own.
    p.contribute(id_a, CONTRIBUTOR2, 1, at(START)).unwrap();
    p.contribute(id_b, CONTRIBUTOR2, 1, at(START)).unwrap();

    assert_eq!(p.entries[(id_a - 1) as usize].burst_count, 1, "campaign A count must be 1 (per-campaign, not global)");
    assert_eq!(p.entries[(id_b - 1) as usize].burst_count, 1, "campaign B count must be 1 (per-campaign, not global)");
}

#[test]
fn test_claim_refund_expired_campaign() {
    let mut p = platform();
    let duration_days = 2;
    let campaign_id = verified_campaign(&mut p, 10_000, duration_days, 0);
    p.contribute(campaign_id, CONTRIBUTOR1, 1_000, at(START)).unwrap();

    let effects = p.claim_refund(campaign_id, CONTRIBUTOR1, at(START + duration_days * 86_450)).unwrap();
    assert_eq!(p.get_contribution(campaign_id, CONTRIBUTOR1), 0);
    assert_eq!(
        effects[1],
        Effect::Transfer { token: TOKEN, from: Party::Contract, to: Party::Account(CONTRIBUTOR1), amount: 1_000 }
    );
    assert_eq!(p.get_revenue_claimed(campaign_id, CONTRIBUTOR1), 0);
}

#[test]
fn test_claim_refund_clears_existing_revenue_claimed_key() {
    let mut p = platform();
    let (campaign_id, _) = p
        .create_campaign(
            CreateCampaignParams {
                creator: CREATOR,
                title: b"Refund Cleans Revenue Claim".to_vec(),
                description: b"Ensure RevenueClaimed key is removed".to_vec(),
                funding_goal: 5_000,
                duration_days: 2,
                category: Category::EducationalStartup,
                has_revenue_sharing: true,
                revenue_share_percentage: 2_000,
                max_contribution_per_user: 0,
            },
            at(START),
        )
        .unwrap();
    p.entries[(campaign_id - 1) as usize].campaign.is_verified = true;
    p.contribute(campaign_id, CONTRIBUTOR1, 1_000, at(START)).unwrap();

    // Mark the funds as withdrawn so deposit and claim are open.
    p.entries[(campaign_id - 1) as usize].campaign.funds_withdrawn = true;

    p.deposit_revenue(campaign_id, 1_000).unwrap();
    p.claim_revenue(campaign_id, CONTRIBUTOR1).unwrap();

    let claimed_before_refund = p.get_revenue_claimed(campaign_id, CONTRIBUTOR1);
    assert!(claimed_before_refund > 0);

    // Past the deadline with the goal missed, the refund clears the claim.
    p.claim_refund(campaign_id, CONTRIBUTOR1, at(START + 2 * 86_450)).unwrap();

    assert_eq!(p.get_revenue_claimed(campaign_id, CONTRIBUTOR1), 0);
}

#[test]
fn contribution_records_its_time_and_the_top_contributor() {
    let mut p = platform();
    let campaign_id = verified_campaign(&mut p, 1_000, 30, 0);
    let stats = p.get_campaign_stats(campaign_id);
    assert_eq!(stats.top_contributor, None);
    assert_eq!(stats.last_contribution_time, 0);

    p.contribute(campaign_id, CONTRIBUTOR1, 400, at(START + 5)).unwrap();
    p.contribute(campaign_id, CONTRIBUTOR2, 100, at(START + 9)).unwrap();
    let stats = p.get_campaign_stats(campaign_id);
    assert_eq!(stats.top_contributor, Some(CONTRIBUTOR1));
    assert_eq!(stats.last_contribution_time, START + 9);

    // Overtaking the top contributor takes the place.
    p.contribute(campaign_id, CONTRIBUTOR2, 301, at(START + 12)).unwrap();
    let stats = p.get_campaign_stats(campaign_id);
    assert_eq!(stats.top_contributor, Some(CONTRIBUTOR2));
    assert_eq!(stats.last_contribution_time, START + 12);
}

#[test]
fn test_default_campaign_uses_the_platform_token() {
    let mut p = platform();
    let (id, _) = p.create_campaign(params(1_000, 30, Category::Learner, 0), at(START)).unwrap();
    assert_eq!(p.get_campaign_token(id), TOKEN);
}

#[test]
fn test_explicit_platform_token_is_equivalent_to_the_default() {
    let mut p = platform();
    let (id, _) = p
        .create_campaign_with_token(params(1_000, 30, Category::Learner, 0), TOKEN, at(START))
        .unwrap();
    assert_eq!(p.get_campaign_token(id), TOKEN);
    // No currency of its own is stored for the campaign.
    assert_eq!(p.entries[(id - 1) as usize].token, None);
}

#[test]
fn test_campaign_can_use_an_allowlisted_token() {
    let mut p = platform();
    let id = usdc_campaign(&mut p, 1_000, 30);
    assert_eq!(p.get_campaign_token(id), USDC);
    assert_ne!(p.get_campaign_token(id), TOKEN);
}

#[test]
fn test_campaign_cannot_use_an_unallowlisted_token() {
    let mut p = platform();
    let rogue = 300;
    let res = p.create_campaign_with_token(params(1_000, 30, Category::Learner, 0), rogue, at(START));
    assert_eq!(res.unwrap_err(), Error::ValidationFailed);
    // No campaign was created.
    assert_eq!(p.entries.len(), 0);
}

#[test]
fn test_platform_token_is_allowed_without_an_entry() {
    let p = platform();
    assert!(p.is_token_allowed(TOKEN));
}

#[test]
fn test_arbitrary_address_is_not_a_currency() {
    let mut p = platform();
    let not_a_token = 301;
    assert!(!p.is_token_allowed(not_a_token));
    let res = p.create_campaign_with_token(params(1_000, 30, Category::Learner, 0), not_a_token, at(START));
    assert_eq!(res.unwrap_err(), Error::ValidationFailed);
}

#[test]
fn test_unknown_campaign_reads_as_the_platform_token() {
    let p = platform();
    assert_eq!(p.get_campaign_token(42), TOKEN);
}

#[test]
fn test_multi_contribution_accumulation_in_single_currency() {
    let mut p = platform();
    let id = usdc_campaign(&mut p, 10_000, 30);
    let mut into_escrow = 0i128;
    for (who, amount) in [(CONTRIBUTOR1, 1000), (CONTRIBUTOR1, 2000), (CONTRIBUTOR2, 3000)] {
        let effects = p.contribute(id, who, amount, at(START)).unwrap();
        for effect in &effects {
            if let Effect::Transfer { token: USDC, to: Party::Contract, amount, .. } = effect {
                into_escrow += amount;
            }
        }
    }
    assert_eq!(p.entries[(id - 1) as usize].campaign.amount_raised, 6000);
    assert_eq!(into_escrow, 6000);
    assert_eq!(p.get_contribution(id, CONTRIBUTOR1), 3000);
    assert_eq!(p.get_contribution(id, CONTRIBUTOR2), 3000);
}

#[test]
fn test_concurrent_refunds_in_campaign_currency() {
    let mut p = platform();
    let id = usdc_campaign(&mut p, 10_000, 30);
    p.contribute(id, CONTRIBUTOR1, 2000, at(START)).unwrap();
    p.contribute(id, CONTRIBUTOR2, 3000, at(START)).unwrap();
    cancel(&mut p, id);
    let mut refunded = Vec::new();
    for who in [CONTRIBUTOR1, CONTRIBUTOR2] {
        let effects = p.claim_refund(id, who, at(START)).unwrap();
        for effect in &effects {
            if let Effect::Transfer { token, from: Party::Contract, to: Party::Account(to), amount } = effect {
                refunded.push((*token, *to, *amount));
            }
        }
    }
    assert_eq!(refunded, vec![(USDC, CONTRIBUTOR1, 2000), (USDC, CONTRIBUTOR2, 3000)]);
    assert_eq!(p.total_raised, 0);
}
