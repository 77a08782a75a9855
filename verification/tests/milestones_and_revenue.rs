use proof_of_heart::errors::Error;
use proof_of_heart::state::{Config, Effect, Event, LedgerInfo, Party, Platform};
use proof_of_heart::types::{Category, CreateCampaignParams, Milestone};

const ADMIN: u64 = 1;
const CREATOR: u64 = 2;
const C1: u64 = 3;
const C2: u64 = 4;
const TOKEN: u64 = 100;
const START: u64 = 5_000;

fn platform(fee_bps: u32) -> Platform {
    Platform::new(Config {
        admin: ADMIN,
        token: TOKEN,
        allowed_tokens: Vec::new(),
        platform_fee_bps: fee_bps,
        paused: false,
        auto_paused: false,
        creation_disabled: false,
        min_funding_goal: None,
        max_funding_goal: None,
        duration_caps: [None; 4],
        category_goal_caps: [None; 4],
        withdraw_release_delay_days: 0,
        withdraw_reserve_bps: 0,
    })
}

fn at(t: u64) -> LedgerInfo {
    LedgerInfo { timestamp: t, sequence: 1 }
}

fn create(p: &mut Platform, goal: i128, category: Category, share: u32) -> u32 {
    let params = CreateCampaignParams {
        creator: CREATOR,
        title: b"C".to_vec(),
        description: b"D".to_vec(),
        funding_goal: goal,
        duration_days: 30,
        category,
        has_revenue_sharing: share > 0,
        revenue_share_percentage: share,
        max_contribution_per_user: 0,
    };
    p.create_campaign(params, at(START)).unwrap().0
}

fn milestone(id: u32, payout_bps: u32) -> Milestone {
    Milestone { id, description: format!("m{}", id).into_bytes(), payout_bps, verified: false }
}

fn make_milestones() -> Vec<Milestone> {
    vec![milestone(1, 5_000), milestone(2, 5_000)]
}

#[test]
fn test_milestone_flow_proportional_payout() {
    let mut p = platform(0);
    let id = create(&mut p, 1000, Category::Learner, 0);
    p.entries[0].campaign.is_verified = true;
    p.contribute(id, C1, 1000, at(START)).unwrap();
    p.set_milestones(id, make_milestones()).unwrap();
    p.verify_milestone(ADMIN, id, 1).unwrap();
    let first = p.claim_milestone(id, 1).unwrap();
    assert!(first.contains(&Effect::Transfer {
        token: TOKEN,
        from: Party::Contract,
        to: Party::Account(CREATOR),
        amount: 500
    }));
    assert_eq!(p.claim_milestone(id, 2), Err(Error::MilestoneNotVerified));
    p.verify_milestone(ADMIN, id, 2).unwrap();
    p.claim_milestone(id, 2).unwrap();
    let camp = &p.entries[0].campaign;
    assert!(camp.funds_withdrawn);
    assert!(!camp.is_active);
}

#[test]
fn test_set_milestones_requires_bps_sum_10000() {
    let mut p = platform(0);
    let id = create(&mut p, 1000, Category::Learner, 0);
    let bad = vec![milestone(1, 4000), milestone(2, 4000)];
    assert!(p.set_milestones(id, bad).is_err());
}

#[test]
fn milestone_payouts_add_up_to_the_funds_after_fee() {
    // 1_001 raised at a 2.5% fee: the fee rounds up to 26, leaving 975.
    let mut p = platform(250);
    let id = create(&mut p, 1_001, Category::Learner, 0);
    p.entries[0].campaign.is_verified = true;
    p.contribute(id, C1, 1_001, at(START)).unwrap();
    p.set_milestones(id, vec![milestone(1, 3_333), milestone(2, 3_333), milestone(3, 3_334)]).unwrap();
    let mut paid = 0i128;
    let mut fees = 0i128;
    for m in 1..=3 {
        p.verify_milestone(ADMIN, id, m).unwrap();
        let effects = p.claim_milestone(id, m).unwrap();
        match effects.last() {
            Some(Effect::Emit(Event::MilestoneClaimed { amount, fee, .. })) => {
                paid += amount;
                fees += fee;
            }
            other => panic!("unexpected last effect {:?}", other),
        }
    }
    assert_eq!(paid, 975);
    assert_eq!(fees, 26);
    assert_eq!(p.claim_milestone(id, 3), Err(Error::FundsAlreadyWithdrawn));
}

#[test]
fn milestone_refusals_name_their_cause() {
    let mut p = platform(0);
    let id = create(&mut p, 1000, Category::Learner, 0);
    assert_eq!(p.claim_milestone(id, 1), Err(Error::CampaignNotVerified));
    p.entries[0].campaign.is_verified = true;
    assert_eq!(p.claim_milestone(id, 1), Err(Error::NoFundsToWithdraw));
    p.contribute(id, C1, 400, at(START)).unwrap();
    assert_eq!(p.claim_milestone(id, 1), Err(Error::FundingGoalNotReached));
    p.contribute(id, C2, 600, at(START)).unwrap();
    assert_eq!(p.claim_milestone(id, 1), Err(Error::MilestoneNotFound));
    p.set_milestones(id, make_milestones()).unwrap();
    assert_eq!(p.set_milestones(id, make_milestones()), Err(Error::ValidationFailed));
    assert_eq!(p.verify_milestone(C1, id, 1), Err(Error::NotAuthorized));
    assert_eq!(p.verify_milestone(ADMIN, id, 9), Err(Error::MilestoneNotFound));
    p.verify_milestone(ADMIN, id, 1).unwrap();
    assert_eq!(p.verify_milestone(ADMIN, id, 1), Err(Error::ValidationFailed));
    p.claim_milestone(id, 1).unwrap();
    assert_eq!(p.claim_milestone(id, 1), Err(Error::MilestoneAlreadyClaimed));
}

/// A withdrawn revenue-sharing campaign with two contributors.
fn revenue_campaign(p: &mut Platform, share: u32) -> u32 {
    let id = create(p, 1_000, Category::EducationalStartup, share);
    p.entries[0].campaign.is_verified = true;
    p.contribute(id, C1, 600, at(START)).unwrap();
    p.contribute(id, C2, 400, at(START)).unwrap();
    p.entries[0].campaign.funds_withdrawn = true;
    id
}

#[test]
fn revenue_is_split_between_contributors_and_creator() {
    let mut p = platform(0);
    let id = revenue_campaign(&mut p, 2_000);
    let effects = p.deposit_revenue(id, 1_000).unwrap();
    assert_eq!(
        effects[1],
        Effect::Transfer { token: TOKEN, from: Party::Account(CREATOR), to: Party::Contract, amount: 1_000 }
    );
    // Contributors share 20% of 1_000 in proportion 600:400.
    let e1 = p.claim_revenue(id, C1).unwrap();
    assert_eq!(e1[1], Effect::Transfer { token: TOKEN, from: Party::Contract, to: Party::Account(C1), amount: 120 });
    let e2 = p.claim_revenue(id, C2).unwrap();
    assert_eq!(e2[1], Effect::Transfer { token: TOKEN, from: Party::Contract, to: Party::Account(C2), amount: 80 });
    let ec = p.claim_creator_revenue(id).unwrap();
    assert_eq!(ec[1], Effect::Transfer { token: TOKEN, from: Party::Contract, to: Party::Account(CREATOR), amount: 800 });
    // Nothing more until a new deposit.
    assert_eq!(p.claim_revenue(id, C1), Err(Error::NoFundsToWithdraw));
    assert_eq!(p.claim_creator_revenue(id), Err(Error::NoFundsToWithdraw));
    p.deposit_revenue(id, 500).unwrap();
    let e3 = p.claim_revenue(id, C1).unwrap();
    assert_eq!(e3[1], Effect::Transfer { token: TOKEN, from: Party::Contract, to: Party::Account(C1), amount: 60 });
}

#[test]
fn last_claimant_sweeps_the_rounding_dust() {
    let mut p = platform(0);
    let id = create(&mut p, 1_000, Category::EducationalStartup, 5_000);
    p.entries[0].campaign.is_verified = true;
    p.contribute(id, C1, 333, at(START)).unwrap();
    p.contribute(id, C2, 667, at(START)).unwrap();
    p.entries[0].campaign.funds_withdrawn = true;
    p.deposit_revenue(id, 7).unwrap();
    // The creator is owed 7 * 5000 / 10000 = 3 (rounded down), the contributors 4.
    let e1 = p.claim_revenue(id, C1).unwrap();
    let e2 = p.claim_revenue(id, C2).unwrap();
    let amount = |e: &Vec<Effect>| match &e[1] {
        Effect::Transfer { amount, .. } => *amount,
        _ => panic!("no transfer"),
    };
    // 333 * 7 * 5000 / 1000 / 10000 = 1; the last claimant takes the rest of the pool share.
    assert_eq!(amount(&e1), 1);
    assert_eq!(amount(&e1) + amount(&e2), 7 - 3);
    assert_eq!(p.entries[0].revenue_distributed, 4);
}

#[test]
fn revenue_refusals_name_their_cause() {
    let mut p = platform(0);
    let plain = create(&mut p, 1_000, Category::Learner, 0);
    p.entries[0].campaign.funds_withdrawn = true;
    assert_eq!(p.deposit_revenue(plain, 10), Err(Error::RevenueSharingNotEnabled));
    let id = create(&mut p, 1_000, Category::EducationalStartup, 1_000);
    assert_eq!(p.deposit_revenue(id, 0), Err(Error::ValidationFailed));
    assert_eq!(p.deposit_revenue(id, 10), Err(Error::ValidationFailed));
    p.entries[1].campaign.funds_withdrawn = true;
    assert_eq!(p.deposit_revenue(id, 10), Err(Error::AmountRaisedIsZero));
    assert_eq!(p.deposit_revenue(99, 10), Err(Error::CampaignNotFound));
    assert_eq!(p.claim_revenue(id, C1), Err(Error::ValidationFailed));
    assert_eq!(p.claim_creator_revenue(plain), Err(Error::ValidationFailed));
}

#[test]
fn test_claim_revenue_amount_raised_zero_guard() {
    let mut p = platform(0);
    let campaign_id = create(&mut p, 1_000, Category::EducationalStartup, 2000);
    p.entries[0].campaign.is_verified = true;
    p.contribute(campaign_id, C1, 500, at(START)).unwrap();

    // Zero the raised totals while the contribution stays, and mark the funds
    // withdrawn, so the claim reaches the zero-total guard.
    let c = &mut p.entries[0].campaign;
    c.amount_raised = 0;
    c.effective_amount_raised = 0;
    c.funds_withdrawn = true;

    let res = p.claim_revenue(campaign_id, C1);
    assert_eq!(res.unwrap_err(), Error::AmountRaisedIsZero);
}

#[test]
fn milestone_payouts_move_the_campaign_currency() {
    let mut p = platform(100);
    p.config.allowed_tokens.push(200);
    let params = CreateCampaignParams {
        creator: CREATOR,
        title: b"C".to_vec(),
        description: b"D".to_vec(),
        funding_goal: 1000,
        duration_days: 30,
        category: Category::Learner,
        has_revenue_sharing: false,
        revenue_share_percentage: 0,
        max_contribution_per_user: 0,
    };
    let (id, _) = p.create_campaign_with_token(params, 200, at(START)).unwrap();
    p.entries[0].campaign.is_verified = true;
    p.contribute(id, C1, 1000, at(START)).unwrap();
    p.set_milestones(id, make_milestones()).unwrap();
    p.verify_milestone(ADMIN, id, 1).unwrap();
    let effects = p.claim_milestone(id, 1).unwrap();
    let transfers: Vec<&Effect> = effects.iter().filter(|e| matches!(e, Effect::Transfer { .. })).collect();
    assert_eq!(transfers.len(), 2);
    for t in transfers {
        match t {
            Effect::Transfer { token, amount, .. } => {
                assert_eq!(*token, 200);
                assert!(*amount > 0 && *amount <= 500);
            }
            _ => unreachable!(),
        }
    }
    assert_eq!(p.claim_milestone(id, 1), Err(Error::MilestoneAlreadyClaimed));
}

#[test]
fn milestones_claimed_out_of_order_pay_floor_shares_and_the_last_takes_the_rest() {
    // 1_001 raised at a 2.5% fee: the fee rounds up to 26, leaving 975.
    let mut p = platform(250);
    let id = create(&mut p, 1_001, Category::Learner, 0);
    p.entries[0].campaign.is_verified = true;
    p.contribute(id, C1, 1_001, at(START)).unwrap();
    p.set_milestones(id, vec![milestone(1, 3_333), milestone(2, 3_333), milestone(3, 3_334)]).unwrap();
    let mut payouts = Vec::new();
    for m in [3u32, 1, 2] {
        p.verify_milestone(ADMIN, id, m).unwrap();
        let effects = p.claim_milestone(id, m).unwrap();
        match effects.last() {
            Some(Effect::Emit(Event::MilestoneClaimed { amount, fee, .. })) => payouts.push((*amount, *fee)),
            other => panic!("unexpected last effect {:?}", other),
        }
    }
    // floor(975 * 3_334 / 10_000) = 325 and floor(26 * 3_334 / 10_000) = 8;
    // floor(975 * 3_333 / 10_000) = 324 and floor(26 * 3_333 / 10_000) = 8;
    // the last claim takes 975 - 649 = 326 and the fee's rest, 26 - 16 = 10.
    assert_eq!(payouts, vec![(325, 8), (324, 8), (326, 10)]);
    assert_eq!(p.total_raised, 0);
    assert!(p.entries[0].campaign.funds_withdrawn);
    assert!(!p.entries[0].campaign.is_active);
}

#[test]
fn test_control_unarmed_milestone_claim_pays_its_share() {
    const GOAL: i128 = 1000;
    const CURRENCY: u64 = 777;
    let mut p = platform(0);
    let campaign_id = create(&mut p, GOAL, Category::Learner, 0);
    p.entries[0].campaign.is_verified = true;
    p.contribute(campaign_id, C1, GOAL, at(START)).unwrap();
    // The campaign's currency is then a token of its own.
    p.entries[0].token = Some(CURRENCY);
    p.set_milestones(campaign_id, make_milestones()).unwrap();
    p.verify_milestone(ADMIN, campaign_id, 1).unwrap();
    p.verify_milestone(ADMIN, campaign_id, 2).unwrap();

    let effects = p.claim_milestone(campaign_id, 1).unwrap();

    let mut transfers = 0;
    let mut moved = 0i128;
    for effect in &effects {
        if let Effect::Transfer { token, amount, .. } = effect {
            if *token == CURRENCY {
                transfers += 1;
                moved += amount;
            }
        }
    }
    assert!(transfers >= 1);
    assert!(moved > 0 && moved <= GOAL / 2);
    assert_eq!(p.claim_milestone(campaign_id, 1), Err(Error::MilestoneAlreadyClaimed));
}
