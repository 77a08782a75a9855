//! Community votes on campaigns.

use vstd::prelude::*;

use crate::errors::Error;
use crate::state::{Effect, Event, LedgerInfo, Platform};
use crate::table::Table;
use crate::types::{AccountId, Vote};

verus! {

impl Platform {
    /// The vote `voter` cast on campaign `campaign_id`, if any.
    pub open spec fn vote_of(&self, campaign_id: u64, voter: AccountId) -> Option<Vote> {
        if self.votes@.contains_key(campaign_id) && self.votes@[campaign_id]@.contains_key(
            voter as u64,
        ) {
            Some(self.votes@[campaign_id]@[voter as u64])
        } else {
            None
        }
    }
}

/// The state `new` and effects after `voter` cast a vote on campaign
/// `campaign_id` in state `old` at time `now`: nothing changes and only the
/// authorization is checked when it repeats the voter's current vote;
/// otherwise the vote is recorded, no other vote changes, and it is
/// published.
pub open spec fn vote_cast(
    old: Platform,
    new: Platform,
    effects: Seq<Effect>,
    voter: AccountId,
    campaign_id: u64,
    approve: bool,
    now: u64,
) -> bool {
    match old.vote_of(campaign_id, voter) {
        Some(v) if v.approve == approve => {
            &&& new == old
            &&& effects == seq![Effect::RequireAuth(voter)]
        },
        _ => {
            &&& new == Platform { votes: new.votes, ..old }
            &&& new.vote_of(campaign_id, voter) == Some(
                Vote { voter, campaign_id, approve, timestamp: now },
            )
            &&& forall|c: u64, w: AccountId|
                !(c == campaign_id && w == voter) ==> #[trigger] new.vote_of(c, w) == old.vote_of(
                    c,
                    w,
                )
            &&& effects == seq![
                Effect::RequireAuth(voter),
                Effect::Emit(Event::VoteCast { campaign_id, voter, approve }),
            ]
        },
    }
}

/// `voter` votes for (`approve`) or against a campaign. Repeating one's
/// current vote is a no-op that records and publishes nothing; a changed or
/// new vote is recorded with the ledger time and published.
pub fn cast_vote(
    platform: &mut Platform,
    voter: AccountId,
    campaign_id: u64,
    approve: bool,
    ledger: LedgerInfo,
) -> (r: Result<Vec<Effect>, Error>)
    requires
        old(platform).wf(),
    ensures
        final(platform).wf(),
        r matches Ok(effects) && vote_cast(
            *old(platform),
            *final(platform),
            effects@,
            voter,
            campaign_id,
            approve,
            ledger.timestamp,
        ),
{
    let mut effects: Vec<Effect> = Vec::new();
    effects.push(Effect::RequireAuth(voter));
    if let Some(ballots) = platform.votes.get(campaign_id) {
        proof {
            assert(ballots.wf());
        }
        if let Some(existing_vote) = ballots.get(voter) {
            // An identical vote changes nothing and publishes nothing.
            if existing_vote.approve == approve {
                assert(effects@ =~= seq![Effect::RequireAuth(voter)]);
                return Ok(effects);
            }
        }
    }
    let ghost old_p = *platform;
    let mut ballots = match platform.votes.take(campaign_id) {
        Some(t) => t,
        None => Table::new(),
    };
    let ghost t0 = ballots;
    ballots.insert(voter, Vote { voter, campaign_id, approve, timestamp: ledger.timestamp });
    platform.votes.insert(campaign_id, ballots);
    proof {
        assert forall|c: u64, w: AccountId|
            !(c == campaign_id && w == voter) implies #[trigger] platform.vote_of(c, w)
            == old_p.vote_of(c, w) by {
            if c == campaign_id {
                assert(ballots@ == t0@.insert(voter as u64, Vote { voter, campaign_id, approve, timestamp: ledger.timestamp }));
            }
        }
        assert forall|k: u64| #[trigger] platform.votes@.contains_key(k) implies platform.votes@[k].wf() by {
            if k != campaign_id {
                assert(old_p.votes@.contains_key(k));
            }
        }
    }
    effects.push(Effect::Emit(Event::VoteCast { campaign_id, voter, approve }));
    assert(effects@ =~= seq![
        Effect::RequireAuth(voter),
        Effect::Emit(Event::VoteCast { campaign_id, voter, approve }),
    ]);
    Ok(effects)
}

} // verus!
