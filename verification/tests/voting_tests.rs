use proof_of_heart::state::{Config, Effect, Event, LedgerInfo, Platform};
use proof_of_heart::voting::cast_vote;

const ADMIN: u64 = 1;
const TOKEN: u64 = 100;

fn platform() -> Platform {
    Platform::new(Config {
        admin: ADMIN,
        token: TOKEN,
        allowed_tokens: Vec::new(),
        platform_fee_bps: 0,
        paused: false,
        auto_paused: false,
        creation_disabled: false,
        min_funding_goal: None,
        max_funding_goal: None,
        duration_caps: [None; 4],
        category_goal_caps: [None; 4],
        withdraw_release_delay_days: 0,
        withdraw_reserve_bps: 0,
    })
}

fn ledger(timestamp: u64) -> LedgerInfo {
    LedgerInfo { timestamp, sequence: 1 }
}

fn events(effects: &[Effect]) -> usize {
    effects.iter().filter(|e| matches!(e, Effect::Emit(_))).count()
}

#[test]
fn test_cast_vote_no_op_does_not_emit_duplicate_events() {
    let mut p = platform();
    let voter = 42;
    let campaign_id = 1_u64;

    // First vote: cast initial approval
    let first = cast_vote(&mut p, voter, campaign_id, true, ledger(10)).unwrap();
    let initial_event_count = events(&first);

    // Second vote: duplicate identical vote (no-op update)
    let second = cast_vote(&mut p, voter, campaign_id, true, ledger(20)).unwrap();
    let final_event_count = initial_event_count + events(&second);

    // Assert that no new event was emitted for the no-op
    assert_eq!(initial_event_count, final_event_count);
    assert_eq!(second, vec![Effect::RequireAuth(voter)]);
}

#[test]
fn first_vote_is_recorded_and_published() {
    let mut p = platform();
    let effects = cast_vote(&mut p, 5, 3, false, ledger(77)).unwrap();
    assert_eq!(
        effects,
        vec![
            Effect::RequireAuth(5),
            Effect::Emit(Event::VoteCast { campaign_id: 3, voter: 5, approve: false }),
        ]
    );
    let ballots = p.votes.get(3).unwrap();
    let vote = ballots.get(5).unwrap();
    assert!(!vote.approve);
    assert_eq!(vote.timestamp, 77);
}

#[test]
fn changed_vote_is_recorded_with_new_time() {
    let mut p = platform();
    cast_vote(&mut p, 5, 3, true, ledger(10)).unwrap();
    let effects = cast_vote(&mut p, 5, 3, false, ledger(30)).unwrap();
    assert_eq!(events(&effects), 1);
    let vote = *p.votes.get(3).unwrap().get(5).unwrap();
    assert!(!vote.approve);
    assert_eq!(vote.timestamp, 30);
}

#[test]
fn repeated_vote_keeps_the_first_timestamp() {
    let mut p = platform();
    cast_vote(&mut p, 9, 4, true, ledger(10)).unwrap();
    cast_vote(&mut p, 9, 4, true, ledger(99)).unwrap();
    assert_eq!(p.votes.get(4).unwrap().get(9).unwrap().timestamp, 10);
}

#[test]
fn votes_are_kept_per_voter_and_campaign() {
    let mut p = platform();
    cast_vote(&mut p, 1, 1, true, ledger(1)).unwrap();
    cast_vote(&mut p, 2, 1, false, ledger(2)).unwrap();
    cast_vote(&mut p, 1, 2, false, ledger(3)).unwrap();
    assert!(p.votes.get(1).unwrap().get(1).unwrap().approve);
    assert!(!p.votes.get(1).unwrap().get(2).unwrap().approve);
    assert!(!p.votes.get(2).unwrap().get(1).unwrap().approve);
    assert!(p.votes.get(2).unwrap().get(2).is_none());
}
