//! A campaign's lifecycle and the guards shared by the operations.

use vstd::prelude::*;

use crate::constants::SECONDS_PER_DAY;
use crate::errors::Error;
use crate::types::Campaign;

verus! {

/// A campaign's position in its lifecycle, derived from its stored flags.
///
/// `is_active` and `is_verified` are independent flags on a campaign, so
/// [`CampaignState::of`] derives one dominant state by priority: a cancelled
/// or withdrawn campaign is always terminal whatever its other flags say.
#[derive(Clone, Copy, Debug, PartialEq, Eq, Structural)]
pub enum CampaignState {
    /// Accepting contributions; not yet verified.
    Active,
    /// Verified (by admin or community vote); still open for withdrawal.
    Verified,
    /// Creator has withdrawn funds. Terminal.
    Withdrawn,
    /// Cancelled by the creator. Terminal.
    Cancelled,
}

/// The dominant state of a campaign: `Cancelled` > `Withdrawn` > `Verified`
/// > `Active`.
pub open spec fn state_of(c: Campaign) -> CampaignState {
    if c.is_cancelled {
        CampaignState::Cancelled
    } else if c.funds_withdrawn {
        CampaignState::Withdrawn
    } else if c.is_verified {
        CampaignState::Verified
    } else {
        CampaignState::Active
    }
}

/// The lifecycle changes that are allowed: `Active -> Verified`,
/// `Active -> Cancelled`, `Verified -> Cancelled` and `Verified -> Withdrawn`.
pub open spec fn transition_allowed(from: CampaignState, to: CampaignState) -> bool {
    ||| (from == CampaignState::Active && to == CampaignState::Verified)
    ||| (from == CampaignState::Active && to == CampaignState::Cancelled)
    ||| (from == CampaignState::Verified && to == CampaignState::Cancelled)
    ||| (from == CampaignState::Verified && to == CampaignState::Withdrawn)
}

impl CampaignState {
    /// Derives the dominant lifecycle state from a campaign's flags, in
    /// priority order: `Cancelled` > `Withdrawn` > `Verified` > `Active`.
    pub fn of(campaign: &Campaign) -> (s: CampaignState)
        ensures
            s == state_of(*campaign),
    {
        if campaign.is_cancelled {
            CampaignState::Cancelled
        } else if campaign.funds_withdrawn {
            CampaignState::Withdrawn
        } else if campaign.is_verified {
            CampaignState::Verified
        } else {
            CampaignState::Active
        }
    }
}

/// Validates a lifecycle transition, returning `InvalidStateTransition` when
/// `to` is not reachable from `from`.
pub fn transition(from: CampaignState, to: CampaignState) -> (r: Result<(), Error>)
    ensures
        r is Ok <==> transition_allowed(from, to),
        r is Err ==> r == Err::<(), Error>(Error::InvalidStateTransition),
{
    let allowed = match (from, to) {
        (CampaignState::Active, CampaignState::Verified) => true,
        (CampaignState::Active, CampaignState::Cancelled) => true,
        (CampaignState::Verified, CampaignState::Cancelled) => true,
        (CampaignState::Verified, CampaignState::Withdrawn) => true,
        _ => false,
    };
    if allowed {
        Ok(())
    } else {
        Err(Error::InvalidStateTransition)
    }
}

/// A campaign that is neither cancelled nor closed.
pub open spec fn is_open(c: Campaign) -> bool {
    !c.is_cancelled && c.is_active
}

/// Fails with `CampaignNotActive` unless the campaign is open.
pub fn require_active_campaign(campaign: &Campaign) -> (r: Result<(), Error>)
    ensures
        r is Ok <==> is_open(*campaign),
        r is Err ==> r == Err::<(), Error>(Error::CampaignNotActive),
{
    if campaign.is_cancelled || !campaign.is_active {
        return Err(Error::CampaignNotActive);
    }
    Ok(())
}

/// Fails with `CampaignAlreadyVerified` when the campaign is verified.
pub fn require_unverified_campaign(campaign: &Campaign) -> (r: Result<(), Error>)
    ensures
        r is Ok <==> !campaign.is_verified,
        r is Err ==> r == Err::<(), Error>(Error::CampaignAlreadyVerified),
{
    if campaign.is_verified {
        return Err(Error::CampaignAlreadyVerified);
    }
    Ok(())
}

/// Fails with `error` when the campaign does not share revenue.
pub fn require_revenue_sharing(campaign: &Campaign, error: Error) -> (r: Result<(), Error>)
    ensures
        r is Ok <==> campaign.has_revenue_sharing,
        r is Err ==> r == Err::<(), Error>(error),
{
    if !campaign.has_revenue_sharing {
        return Err(error);
    }
    Ok(())
}

/// The deadline `duration_days` days after `current_time`, or `None` when it
/// does not fit in a `u64`.
pub open spec fn deadline_after(current_time: u64, duration_days: u64) -> Option<u64> {
    let end = current_time + duration_days * SECONDS_PER_DAY;
    if duration_days * SECONDS_PER_DAY <= u64::MAX && end <= u64::MAX {
        Some(end as u64)
    } else {
        None
    }
}

/// The deadline `duration_days` days after `current_time`; `ValidationFailed`
/// when it does not fit in a `u64`.
pub fn calculate_deadline(current_time: u64, duration_days: u64) -> (r: Result<u64, Error>)
    ensures
        match deadline_after(current_time, duration_days) {
            Some(d) => r == Ok::<u64, Error>(d),
            None => r == Err::<u64, Error>(Error::ValidationFailed),
        },
{
    let seconds_in_duration = match duration_days.checked_mul(SECONDS_PER_DAY) {
        Some(s) => s,
        None => {
            return Err(Error::ValidationFailed);
        },
    };
    match current_time.checked_add(seconds_in_duration) {
        Some(d) => Ok(d),
        None => Err(Error::ValidationFailed),
    }
}

/// `Withdrawn` and `Cancelled` are terminal: no transition leaves them.
pub proof fn lemma_terminal_states(to: CampaignState)
    ensures
        !transition_allowed(CampaignState::Withdrawn, to),
        !transition_allowed(CampaignState::Cancelled, to),
{
}

/// No transition leads back to `Active`.
pub proof fn lemma_no_transition_to_active(from: CampaignState)
    ensures
        !transition_allowed(from, CampaignState::Active),
{
}

/// Funds can only be withdrawn from a verified campaign.
pub proof fn lemma_withdrawal_needs_verification(from: CampaignState)
    ensures
        transition_allowed(from, CampaignState::Withdrawn) ==> from == CampaignState::Verified,
{
}

/// A cancelled campaign is `Cancelled` whatever its other flags; one that is
/// not cancelled but withdrawn is `Withdrawn`.
pub proof fn lemma_state_priority(c: Campaign)
    ensures
        c.is_cancelled ==> state_of(c) == CampaignState::Cancelled,
        !c.is_cancelled && c.funds_withdrawn ==> state_of(c) == CampaignState::Withdrawn,
        state_of(c) == CampaignState::Active ==> !c.is_cancelled && !c.funds_withdrawn
            && !c.is_verified,
{
}

} // verus!
