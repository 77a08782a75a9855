use proof_of_heart::errors::Error;

#[test]
fn display_matches_variant_name() {
    // Comprehensive check: all 50 variants' Display output matches their name()
    // This ensures the name()/Display pairing stays correct as variants are added.
    assert_eq!(Error::NotAuthorized.to_string(), "NotAuthorized");
    assert_eq!(Error::CampaignNotFound.to_string(), "CampaignNotFound");
    assert_eq!(Error::CampaignNotActive.to_string(), "CampaignNotActive");
    assert_eq!(
        Error::FundingGoalMustBePositive.to_string(),
        "FundingGoalMustBePositive"
    );
    assert_eq!(Error::InvalidDuration.to_string(), "InvalidDuration");
    assert_eq!(
        Error::InvalidRevenueShare.to_string(),
        "InvalidRevenueShare"
    );
    assert_eq!(
        Error::RevenueShareOnlyForStartup.to_string(),
        "RevenueShareOnlyForStartup"
    );
    assert_eq!(Error::DeadlinePassed.to_string(), "DeadlinePassed");
    assert_eq!(
        Error::ContributionMustBePositive.to_string(),
        "ContributionMustBePositive"
    );
    assert_eq!(Error::DeadlineNotPassed.to_string(), "DeadlineNotPassed");
    assert_eq!(
        Error::FundsAlreadyWithdrawn.to_string(),
        "FundsAlreadyWithdrawn"
    );
    assert_eq!(
        Error::FundingGoalNotReached.to_string(),
        "FundingGoalNotReached"
    );
    assert_eq!(Error::NoFundsToWithdraw.to_string(), "NoFundsToWithdraw");
    assert_eq!(
        Error::CampaignAlreadyVerified.to_string(),
        "CampaignAlreadyVerified"
    );
    assert_eq!(Error::ValidationFailed.to_string(), "ValidationFailed");
    assert_eq!(Error::AlreadyVoted.to_string(), "AlreadyVoted");
    assert_eq!(Error::NotTokenHolder.to_string(), "NotTokenHolder");
    assert_eq!(Error::VotingQuorumNotMet.to_string(), "VotingQuorumNotMet");
    assert_eq!(
        Error::VotingThresholdNotMet.to_string(),
        "VotingThresholdNotMet"
    );
    assert_eq!(Error::AlreadyInitialized.to_string(), "AlreadyInitialized");
    assert_eq!(Error::NotPendingOwner.to_string(), "NotPendingOwner");
    assert_eq!(Error::NoTransferPending.to_string(), "NoTransferPending");
    assert_eq!(Error::InvalidNewOwner.to_string(), "InvalidNewOwner");
    assert_eq!(Error::ContractPaused.to_string(), "ContractPaused");
    assert_eq!(
        Error::ContributionCapExceeded.to_string(),
        "ContributionCapExceeded"
    );
    assert_eq!(
        Error::CampaignNotVerified.to_string(),
        "CampaignNotVerified"
    );
    assert_eq!(Error::AmountRaisedIsZero.to_string(), "AmountRaisedIsZero");
    assert_eq!(
        Error::RevenueSharingNotEnabled.to_string(),
        "RevenueSharingNotEnabled"
    );
    assert_eq!(
        Error::CancellationNotAllowed.to_string(),
        "CancellationNotAllowed"
    );
    assert_eq!(Error::Overflow.to_string(), "Overflow");
    assert_eq!(
        Error::InvalidTokenContract.to_string(),
        "InvalidTokenContract"
    );
    assert_eq!(Error::CreationDisabled.to_string(), "CreationDisabled");
    assert_eq!(Error::FundingGoalTooLow.to_string(), "FundingGoalTooLow");
    assert_eq!(
        Error::VerificationConflict.to_string(),
        "VerificationConflict"
    );
    assert_eq!(
        Error::DeadlineAlreadyExtended.to_string(),
        "DeadlineAlreadyExtended"
    );
    assert_eq!(Error::ExtensionTooLong.to_string(), "ExtensionTooLong");
    assert_eq!(Error::FundingGoalTooHigh.to_string(), "FundingGoalTooHigh");
    assert_eq!(Error::InvalidPlatformFee.to_string(), "InvalidPlatformFee");
    assert_eq!(
        Error::TransferAlreadyPending.to_string(),
        "TransferAlreadyPending"
    );
    assert_eq!(
        Error::InvalidVestingDelay.to_string(),
        "InvalidVestingDelay"
    );
    assert_eq!(
        Error::GoalMetCancellationNotAllowed.to_string(),
        "GoalMetCancellationNotAllowed"
    );
    assert_eq!(
        Error::PersonalCapNotFound.to_string(),
        "PersonalCapNotFound"
    );
    assert_eq!(
        Error::InvalidStateTransition.to_string(),
        "InvalidStateTransition"
    );
    assert_eq!(
        Error::CampaignAlreadyBookmarked.to_string(),
        "CampaignAlreadyBookmarked"
    );
    assert_eq!(
        Error::CampaignNotBookmarked.to_string(),
        "CampaignNotBookmarked"
    );
    assert_eq!(
        Error::BookmarkLimitReached.to_string(),
        "BookmarkLimitReached"
    );
    assert_eq!(Error::MilestoneNotFound.to_string(), "MilestoneNotFound");
    assert_eq!(
        Error::MilestoneNotVerified.to_string(),
        "MilestoneNotVerified"
    );
    assert_eq!(
        Error::MilestoneAlreadyClaimed.to_string(),
        "MilestoneAlreadyClaimed"
    );
    assert_eq!(Error::InvariantBroken.to_string(), "InvariantBroken");
}

#[test]
fn name_matches_display() {
    // Verify that name() and Display are consistent for all variants
    assert_eq!(
        Error::NotAuthorized.name(),
        Error::NotAuthorized.to_string()
    );
    assert_eq!(
        Error::CampaignNotFound.name(),
        Error::CampaignNotFound.to_string()
    );
    assert_eq!(
        Error::CampaignAlreadyBookmarked.name(),
        Error::CampaignAlreadyBookmarked.to_string()
    );
    assert_eq!(
        Error::CampaignNotBookmarked.name(),
        Error::CampaignNotBookmarked.to_string()
    );
    assert_eq!(Error::Overflow.name(), Error::Overflow.to_string());
}

/// Every variant's reported name matches its identifier exactly (case
/// included); this is a spot-check, the contract of `name()` states it for
/// all variants.
#[test]
fn name_matches_identifier_for_every_variant() {
    assert_eq!(
        Error::CampaignAlreadyBookmarked.name(),
        "CampaignAlreadyBookmarked"
    );
    assert_eq!(Error::CampaignNotBookmarked.name(), "CampaignNotBookmarked");
    assert_eq!(
        Error::InvalidStateTransition.name(),
        "InvalidStateTransition"
    );
}

/// Locks the total variant count at 50, the cap on error enum cases of the
/// host's contract interface.
#[test]
fn error_variant_count_stays_within_xdr_cap() {
    // NotAuthorized..=InvariantBroken, minus the freed code 35.
    const CASES: u32 = 50;
    assert_eq!(CASES, 50, "Soroban error enums are capped at 50 cases");
    let decoded = (0..=100u32).filter(|c| Error::from_code(*c).is_some()).count();
    assert_eq!(decoded as u32, CASES);
}

#[test]
fn every_code_decodes_back_to_its_error() {
    for code in 0..=100u32 {
        if let Some(e) = Error::from_code(code) {
            assert_eq!(e.code(), code);
        }
    }
    assert_eq!(Error::NotAuthorized.code(), 1);
    assert_eq!(Error::InvariantBroken.code(), 51);
    assert_eq!(Error::from_code(2), Some(Error::CampaignNotFound));
}

#[test]
fn retired_and_unknown_codes_decode_to_nothing() {
    assert_eq!(Error::from_code(0), None);
    assert_eq!(Error::from_code(35), None);
    assert_eq!(Error::from_code(52), None);
    assert_eq!(Error::from_code(u32::MAX), None);
}

#[test]
fn distinct_errors_have_distinct_codes() {
    let all: Vec<Error> = (0..=100u32).filter_map(Error::from_code).collect();
    for (i, a) in all.iter().enumerate() {
        for b in all.iter().skip(i + 1) {
            assert_ne!(a.code(), b.code());
            assert_ne!(a.name(), b.name());
        }
    }
}
