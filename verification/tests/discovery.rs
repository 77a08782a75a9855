use proof_of_heart::errors::Error;
use proof_of_heart::state::{Config, Effect, Event, LedgerInfo, Platform};
use proof_of_heart::types::{Campaign, Category, CreateCampaignParams};

const ADMIN: u64 = 1;
const CREATOR: u64 = 2;
const CREATOR2: u64 = 6;
const START: u64 = 1_000;

fn setup() -> Platform {
    Platform::new(Config {
        admin: ADMIN,
        token: 100,
        allowed_tokens: Vec::new(),
        platform_fee_bps: 300,
        paused: false,
        auto_paused: false,
        creation_disabled: false,
        min_funding_goal: None,
        max_funding_goal: None,
        duration_caps: [None; 4],
        category_goal_caps: [None; 4],
        withdraw_release_delay_days: 0,
        withdraw_reserve_bps: 0,
    })
}

fn at(t: u64) -> LedgerInfo {
    LedgerInfo { timestamp: t, sequence: 1 }
}

fn create_as(p: &mut Platform, creator: u64, goal: i128, category: Category, title: &str) -> u32 {
    let params = CreateCampaignParams {
        creator,
        title: title.as_bytes().to_vec(),
        description: b"Desc".to_vec(),
        funding_goal: goal,
        duration_days: 30,
        category,
        has_revenue_sharing: false,
        revenue_share_percentage: 0,
        max_contribution_per_user: 0,
    };
    p.create_campaign(params, at(START)).unwrap().0
}

fn create(p: &mut Platform, idx: u32) -> u32 {
    create_as(p, CREATOR, 1_000 + idx as i128, Category::Learner, "Campaign")
}

fn ids(v: &[Campaign]) -> Vec<u32> {
    v.iter().map(|c| c.id).collect()
}

fn cancel(p: &mut Platform, id: u32) {
    let c = &mut p.entries[(id - 1) as usize].campaign;
    c.is_cancelled = true;
    c.is_active = false;
}

#[test]
fn list_campaigns_boundary_cases() {
    let mut p = setup();
    for idx in 0..3 {
        let id = create(&mut p, idx);
        assert_eq!(id, idx + 1);
    }
    let first_page = p.list_campaigns(0, 2);
    assert_eq!(ids(&first_page), vec![1, 2]);

    let all = p.list_campaigns(0, u32::MAX);
    assert_eq!(ids(&all), vec![1, 2, 3]);

    let total = p.entries.len() as u32;
    assert_eq!(p.list_campaigns(total, 5).len(), 0);
    assert_eq!(p.list_campaigns(total + 1, 5).len(), 0);
    assert_eq!(p.list_campaigns(0, 0).len(), 0);
}

#[test]
fn list_active_campaigns_boundary_cases_and_sparse_results() {
    let mut p = setup();
    for idx in 0..5 {
        create(&mut p, idx);
    }
    cancel(&mut p, 2);
    cancel(&mut p, 4);

    let first_page = p.list_active_campaigns(0, 2);
    assert_eq!(ids(&first_page.0), vec![1, 3]);

    let sparse_page = p.list_active_campaigns(1, 2);
    assert_eq!(ids(&sparse_page.0), vec![3, 5]);

    let all = p.list_active_campaigns(0, u32::MAX);
    assert_eq!(ids(&all.0), vec![1, 3, 5]);

    let total = p.entries.len() as u32;
    assert_eq!(p.list_active_campaigns(total, 5).0.len(), 0);
    assert_eq!(p.list_active_campaigns(total + 1, 5).0.len(), 0);
    assert_eq!(p.list_active_campaigns(0, 0).0.len(), 0);
}

#[test]
fn test_list_campaigns_exclusive_cursor_semantics() {
    let mut p = setup();
    for i in 0..3 {
        assert_eq!(create(&mut p, i), i + 1);
    }
    assert_eq!(ids(&p.list_campaigns(0, 2)), vec![1, 2]);
    assert_eq!(ids(&p.list_campaigns(2, 2)), vec![3]);
}

#[test]
fn test_list_active_campaigns_exclusive_cursor_semantics() {
    let mut p = setup();
    for i in 0..4 {
        create(&mut p, i);
    }
    cancel(&mut p, 2);
    let (active1, next1, _) = p.list_active_campaigns(0, 2);
    assert_eq!(ids(&active1), vec![1, 3]);
    assert_eq!(next1, 4);
    let (active2, next2, _) = p.list_active_campaigns(3, 2);
    assert_eq!(ids(&active2), vec![4]);
    assert_eq!(next2, 0);
}

#[test]
fn active_scan_stops_at_its_window_and_says_so() {
    let mut p = setup();
    for i in 0..205 {
        create(&mut p, i);
    }
    for id in 1..=200 {
        cancel(&mut p, id);
    }
    let (page, next, effects) = p.list_active_campaigns(0, 10);
    assert!(page.is_empty());
    assert_eq!(next, 201);
    assert_eq!(
        effects,
        vec![Effect::Emit(Event::ScanWindowExhausted { start: 0, current_id: 201, collected: 0, limit: 10 })]
    );
    let (page, next, effects) = p.list_active_campaigns(next - 1, 10);
    assert_eq!(ids(&page), vec![201, 202, 203, 204, 205]);
    assert_eq!(next, 0);
    assert!(effects.is_empty());
}

#[test]
fn test_get_campaigns_by_category_with_pagination() {
    let mut p = setup();
    let id1 = create_as(&mut p, CREATOR, 100, Category::Learner, "Learner 1");
    let _id2 = create_as(&mut p, CREATOR, 100, Category::Publisher, "Publisher 1");
    let id3 = create_as(&mut p, CREATOR, 100, Category::Learner, "Learner 2");

    let (page1, next1) = p.get_campaigns_by_category(Category::Learner, 0, 1).unwrap();
    assert_eq!(ids(&page1), vec![id1]);
    assert_eq!(next1, 1);
    let (page2, _) = p.get_campaigns_by_category(Category::Learner, 1, 1).unwrap();
    assert_eq!(ids(&page2), vec![id3]);
    let (publisher, _) = p.get_campaigns_by_category(Category::Publisher, 0, 10).unwrap();
    assert_eq!(publisher.len(), 1);
    assert_eq!(publisher[0].category, Category::Publisher);
    let (none, next) = p.get_campaigns_by_category(Category::Educator, 3, 10).unwrap();
    assert!(none.is_empty());
    assert_eq!(next, 3);
}

#[test]
fn category_pages_cross_bucket_boundaries() {
    let mut p = setup();
    for i in 0..120 {
        create(&mut p, i);
    }
    let (page, next) = p.get_campaigns_by_category(Category::Learner, 45, 10).unwrap();
    assert_eq!(ids(&page), (46..=55).collect::<Vec<u32>>());
    assert_eq!(next, 55);
    let (page, next) = p.get_campaigns_by_category(Category::Learner, 110, 50).unwrap();
    assert_eq!(ids(&page), (111..=120).collect::<Vec<u32>>());
    assert_eq!(next, 120);
}

#[test]
fn test_creator_campaigns_listing_and_transfer() {
    let mut p = setup();
    let id1 = create_as(&mut p, CREATOR, 1000, Category::Educator, "Campaign 1");
    let id2 = create_as(&mut p, CREATOR, 2000, Category::Learner, "Campaign 2");

    assert_eq!(ids(&p.get_creator_campaigns(CREATOR, 0, 10).unwrap().0), vec![id1, id2]);
    assert_eq!(ids(&p.get_creator_campaigns(CREATOR, 0, 1).unwrap().0), vec![id1]);
    assert_eq!(ids(&p.get_creator_campaigns(CREATOR, 1, 1).unwrap().0), vec![id2]);
    assert_eq!(p.get_creator_campaigns(CREATOR2, 0, 10).unwrap().0.len(), 0);

    p.initiate_campaign_transfer(id1, CREATOR2).unwrap();
    p.accept_campaign_transfer(id1).unwrap();

    assert_eq!(ids(&p.get_creator_campaigns(CREATOR, 0, 10).unwrap().0), vec![id2]);
    assert_eq!(ids(&p.get_creator_campaigns(CREATOR2, 0, 10).unwrap().0), vec![id1]);
}

#[test]
fn test_creator_campaigns_pagination_within_bucket() {
    let mut p = setup();
    for i in 0..50 {
        create(&mut p, i);
    }
    let (page0, _) = p.get_creator_campaigns(CREATOR, 0, 20).unwrap();
    assert_eq!(page0.len(), 20);
    assert_eq!(page0[0].id, 1);
    assert_eq!(page0[19].id, 20);
    let (page1, _) = p.get_creator_campaigns(CREATOR, 20, 30).unwrap();
    assert_eq!(page1.len(), 30);
    assert_eq!(page1[0].id, 21);
    let (out, _) = p.get_creator_campaigns(CREATOR, 50, 10).unwrap();
    assert_eq!(out.len(), 0);
}

#[test]
fn test_creator_campaigns_limit_capped_at_list_max_limit() {
    let mut p = setup();
    for i in 0..60 {
        create(&mut p, i);
    }
    let (result, _) = p.get_creator_campaigns(CREATOR, 0, 100).unwrap();
    assert_eq!(result.len(), 50);
    assert_eq!(result[0].id, 1);
    assert_eq!(result[49].id, 50);
}

#[test]
fn test_creator_campaigns_transfer_within_bucket() {
    let mut p = setup();
    for i in 0..10 {
        create(&mut p, i);
    }
    assert_eq!(p.get_creator_campaigns(CREATOR, 0, 20).unwrap().0.len(), 10);
    p.initiate_campaign_transfer(1, CREATOR2).unwrap();
    p.accept_campaign_transfer(1).unwrap();
    assert_eq!(p.get_creator_campaigns(CREATOR, 0, 20).unwrap().0.len(), 9);
    assert_eq!(ids(&p.get_creator_campaigns(CREATOR2, 0, 10).unwrap().0), vec![1]);
}

#[test]
fn transfer_out_of_a_full_bucket_breaks_the_walk() {
    // Taking a campaign out of a bucket that is not the last one leaves that
    // bucket short of its share of positions; the walk reports it.
    let mut p = setup();
    for i in 0..60 {
        create(&mut p, i);
    }
    p.initiate_campaign_transfer(1, CREATOR2).unwrap();
    p.accept_campaign_transfer(1).unwrap();
    assert_eq!(p.get_creator_campaigns(CREATOR, 0, 49).unwrap().0.len(), 49);
    assert!(matches!(p.get_creator_campaigns(CREATOR, 0, 50), Err(Error::InvariantBroken)));
    assert!(matches!(p.get_creator_campaigns(CREATOR, 49, 10), Err(Error::InvariantBroken)));
    // The new creator's index is intact.
    assert_eq!(ids(&p.get_creator_campaigns(CREATOR2, 0, 10).unwrap().0), vec![1]);
}

#[test]
fn tags_index_campaigns() {
    let mut p = setup();
    let a = create(&mut p, 0);
    let b = create(&mut p, 1);
    p.add_campaign_tag(a, b"stem".to_vec()).unwrap();
    p.add_campaign_tag(a, b"africa".to_vec()).unwrap();
    let effects = p.add_campaign_tag(b, b"stem".to_vec()).unwrap();
    assert_eq!(effects[1], Effect::Emit(Event::TagAdded { campaign_id: b, tag: b"stem".to_vec() }));

    let (stem, next) = p.get_campaigns_by_tag(&b"stem".to_vec(), 0, 10).unwrap();
    assert_eq!(ids(&stem), vec![a, b]);
    assert_eq!(next, 2);
    assert_eq!(ids(&p.get_campaigns_by_tag(&b"africa".to_vec(), 0, 10).unwrap().0), vec![a]);
    let (unknown, cursor) = p.get_campaigns_by_tag(&b"unknown".to_vec(), 4, 10).unwrap();
    assert!(unknown.is_empty());
    assert_eq!(cursor, 4);
    let (empty, cursor) = p.get_campaigns_by_tag(&Vec::new(), 2, 10).unwrap();
    assert!(empty.is_empty());
    assert_eq!(cursor, 2);
    assert_eq!(p.get_campaign_tag_list(a), vec![b"stem".to_vec(), b"africa".to_vec()]);
    assert!(p.get_campaign_tag_list(99).is_empty());
}

#[test]
fn tag_refusals_name_their_cause() {
    let mut p = setup();
    let a = create(&mut p, 0);
    p.add_campaign_tag(a, b"stem".to_vec()).unwrap();
    assert_eq!(p.add_campaign_tag(a, b"stem".to_vec()), Err(Error::ValidationFailed));
    assert_eq!(p.add_campaign_tag(a, Vec::new()), Err(Error::ValidationFailed));
    assert_eq!(p.add_campaign_tag(a, vec![b'x'; 33]), Err(Error::ValidationFailed));
    for t in ["b", "c", "d", "e"] {
        p.add_campaign_tag(a, t.as_bytes().to_vec()).unwrap();
    }
    assert_eq!(p.add_campaign_tag(a, b"f".to_vec()), Err(Error::ValidationFailed));
    assert_eq!(p.add_campaign_tag(9, b"g".to_vec()), Err(Error::CampaignNotFound));
    cancel(&mut p, a);
    assert_eq!(p.add_campaign_tag(a, b"g".to_vec()), Err(Error::CampaignNotActive));
}

#[test]
fn test_censure_comment_sets_flag_and_emits_event() {
    let mut p = setup();
    let id = create(&mut p, 0);
    let hash = [7u8; 32];
    assert!(!p.comment_is_censured(id, hash));
    let effects = p.censure_comment(ADMIN, id, hash, b"spam".to_vec(), at(500)).unwrap();
    assert!(p.comment_is_censured(id, hash));
    assert_eq!(
        effects.last(),
        Some(&Effect::Emit(Event::CommentCensured {
            campaign_id: id,
            comment_hash: hash,
            admin: ADMIN,
            reason: b"spam".to_vec(),
            censured_at: 500,
        }))
    );
    let record = p.comment_censure_record(id, hash).unwrap();
    assert_eq!(record.reason, b"spam".to_vec());
    assert_eq!(record.censured_at, 500);
    assert_eq!(record.admin, ADMIN);
    assert_eq!(p.campaign_censured_comment_count(id), 1);
}

#[test]
fn test_censure_comment_non_admin_fails() {
    let mut p = setup();
    let id = create(&mut p, 0);
    let hash = [1u8; 32];
    let result = p.censure_comment(CREATOR, id, hash, b"r".to_vec(), at(1));
    assert_eq!(result.unwrap_err(), Error::NotAuthorized);
    assert!(!p.comment_is_censured(id, hash));
}

#[test]
fn test_censure_comment_missing_campaign_fails() {
    let mut p = setup();
    let result = p.censure_comment(ADMIN, 999, [2u8; 32], b"r".to_vec(), at(1));
    assert_eq!(result.unwrap_err(), Error::CampaignNotFound);
}

#[test]
fn test_comment_censure_is_scoped_per_campaign_and_hash() {
    let mut p = setup();
    let a = create(&mut p, 0);
    let b = create(&mut p, 1);
    let hash_a = [4u8; 32];
    let hash_b = [5u8; 32];
    p.censure_comment(ADMIN, a, hash_a, b"r".to_vec(), at(1)).unwrap();
    assert!(p.comment_is_censured(a, hash_a));
    assert!(!p.comment_is_censured(a, hash_b));
    assert!(!p.comment_is_censured(b, hash_a));
}

// A second censure of the same comment is a no-op that succeeds: the first
// reason stays, no second event is published and the censured count is not
// raised again, so a retried admin call cannot count a suppression twice.
#[test]
fn censure_is_idempotent_and_can_be_lifted() {
    let mut p = setup();
    let id = create(&mut p, 0);
    let hash = [9u8; 32];
    p.censure_comment(ADMIN, id, hash, b"first".to_vec(), at(1)).unwrap();
    let again = p.censure_comment(ADMIN, id, hash, b"second".to_vec(), at(2)).unwrap();
    assert_eq!(again, vec![Effect::RequireAuth(ADMIN)]);
    assert_eq!(p.campaign_censured_comment_count(id), 1);
    assert_eq!(p.comment_censure_record(id, hash).unwrap().reason, b"first".to_vec());
    assert_eq!(p.censure_comment(ADMIN, id, [1u8; 32], Vec::new(), at(3)), Err(Error::ValidationFailed));
    assert_eq!(p.censure_comment(ADMIN, id, [1u8; 32], vec![b'r'; 201], at(3)), Err(Error::ValidationFailed));

    let lifted = p.uncensure_comment(ADMIN, id, hash, at(4)).unwrap();
    assert_eq!(lifted[1], Effect::Emit(Event::CommentUncensured { campaign_id: id, comment_hash: hash, admin: ADMIN, at: 4 }));
    assert!(!p.comment_is_censured(id, hash));
    assert_eq!(p.campaign_censured_comment_count(id), 0);
    assert!(p.comment_censure_record(id, hash).is_none());
    assert_eq!(p.uncensure_comment(ADMIN, id, hash, at(5)).unwrap(), vec![Effect::RequireAuth(ADMIN)]);
    assert_eq!(p.uncensure_comment(CREATOR, id, hash, at(5)), Err(Error::NotAuthorized));
}

#[test]
fn short_page_means_the_listing_is_done() {
    let mut p = setup();
    for i in 0..7 {
        create(&mut p, i);
    }
    let mut start = 0u32;
    let mut seen = Vec::new();
    loop {
        let page = p.list_campaigns(start, 3);
        seen.extend(ids(&page));
        if page.len() < 3 {
            break;
        }
        start = page.last().unwrap().id;
    }
    assert_eq!(seen, (1..=7).collect::<Vec<u32>>());
    // A limit above the cap gives short pages that are not the last.
    let mut p = setup();
    for i in 0..60 {
        create(&mut p, i);
    }
    assert_eq!(p.list_campaigns(0, 100).len(), 50);
    assert_eq!(p.list_campaigns(50, 100).len(), 10);
}
