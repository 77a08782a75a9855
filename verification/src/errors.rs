//! Contract error codes.
//!
//! Every fallible operation of the platform returns `Result<_, Error>`. The
//! numeric code of each variant (see [`Error::code`]) is what clients see on
//! the wire, so codes are stable: they are never resequenced, and a retired
//! code is never reused (code 35 is retired). The enum holds at most fifty
//! cases.

use vstd::prelude::*;

verus! {

/// A distinct error that an operation of the platform can return.
#[derive(Copy, Clone, Debug, Eq, PartialEq, PartialOrd, Ord, Structural)]
pub enum Error {
    /// The caller is not authorized to perform this action.
    NotAuthorized,
    /// No campaign exists with the given ID.
    CampaignNotFound,
    /// The campaign is not in an active state (cancelled or closed).
    CampaignNotActive,
    /// The provided funding goal must be a positive amount.
    FundingGoalMustBePositive,
    /// The campaign duration must be between 1 and 365 days.
    InvalidDuration,
    /// The revenue share percentage is out of the allowed range.
    InvalidRevenueShare,
    /// Revenue sharing is only permitted for `EducationalStartup` campaigns.
    RevenueShareOnlyForStartup,
    /// The contribution was made after the campaign's deadline.
    DeadlinePassed,
    /// Contribution amount must be greater than zero.
    ContributionMustBePositive,
    /// The action requires the deadline to have already passed.
    DeadlineNotPassed,
    /// Funds have already been withdrawn from this campaign.
    FundsAlreadyWithdrawn,
    /// The campaign has not yet reached its funding goal.
    FundingGoalNotReached,
    /// There are no funds available to withdraw or claim.
    NoFundsToWithdraw,
    /// The campaign has already been verified.
    CampaignAlreadyVerified,
    /// A general input validation constraint was violated.
    ValidationFailed,
    /// The caller has already voted on this campaign.
    AlreadyVoted,
    /// The caller holds no tokens and is therefore not eligible to vote.
    NotTokenHolder,
    /// Not enough votes have been cast to reach the required quorum.
    VotingQuorumNotMet,
    /// The approval vote share did not meet the required threshold.
    VotingThresholdNotMet,
    /// The contract has already been initialized.
    AlreadyInitialized,
    /// The caller is not the pending creator.
    ///
    /// Reserved: no entry point currently returns this code (pending-transfer
    /// checks report `NotAuthorized` / `NoTransferPending`). Kept so code 21
    /// stays allocated and is never reused for a different meaning.
    NotPendingOwner,
    /// No ownership transfer is currently pending.
    NoTransferPending,
    /// The new owner address is invalid (e.g., same as current).
    InvalidNewOwner,
    /// The contract is currently paused.
    ContractPaused,
    /// The contribution would exceed the per-user cap set by the campaign creator.
    ContributionCapExceeded,
    /// The campaign requires verification before actions can occur.
    CampaignNotVerified,
    /// Revenue claim calculation is invalid because `amount_raised` is zero.
    AmountRaisedIsZero,
    /// Revenue deposit attempted on a campaign without revenue sharing enabled.
    RevenueSharingNotEnabled,
    /// Campaign cancellation is disallowed because funds have already been withdrawn.
    CancellationNotAllowed,
    /// An arithmetic operation overflowed.
    Overflow,
    /// The provided address is not a valid SEP-41 token contract.
    InvalidTokenContract,
    /// Campaign creation is disabled by the admin.
    CreationDisabled,
    /// The funding goal is below the configured minimum.
    FundingGoalTooLow,
    /// Admin or community verification was attempted on an already verified campaign.
    VerificationConflict,
    /// The campaign deadline has already been extended once.
    DeadlineAlreadyExtended,
    /// Extension would push the deadline past the allowed maximum.
    ExtensionTooLong,
    /// The funding goal exceeds the configured maximum (anti-spam cap).
    FundingGoalTooHigh,
    /// The provided platform fee exceeds the maximum allowed basis points.
    InvalidPlatformFee,
    /// A campaign transfer is already pending; cancel it before initiating a new one.
    TransferAlreadyPending,
    /// Vesting delay days must be greater than zero.
    InvalidVestingDelay,
    /// Cancellation is not allowed after the funding goal has been reached and funds have not yet been withdrawn.
    GoalMetCancellationNotAllowed,
    /// The requested campaign lifecycle state transition is not valid from the current state.
    InvalidStateTransition,
    /// The campaign is already in the wallet's saved/bookmarked list.
    CampaignAlreadyBookmarked,
    /// The campaign is not in the wallet's saved/bookmarked list.
    CampaignNotBookmarked,
    /// The contributor has no personal cap set on this campaign.
    PersonalCapNotFound,
    /// The wallet has reached the maximum number of bookmarked campaigns.
    BookmarkLimitReached,
    /// Milestone not found for the given campaign.
    MilestoneNotFound,
    /// Milestone has not been verified yet.
    MilestoneNotVerified,
    /// Milestone has already been claimed.
    MilestoneAlreadyClaimed,
    /// An invariant condition has been violated (state corruption or bug).
    InvariantBroken,
}

/// The canonical name of each variant: its identifier.
pub open spec fn name_of(e: Error) -> Seq<char> {
    match e {
        Error::NotAuthorized => "NotAuthorized"@,
        Error::CampaignNotFound => "CampaignNotFound"@,
        Error::CampaignNotActive => "CampaignNotActive"@,
        Error::FundingGoalMustBePositive => "FundingGoalMustBePositive"@,
        Error::InvalidDuration => "InvalidDuration"@,
        Error::InvalidRevenueShare => "InvalidRevenueShare"@,
        Error::RevenueShareOnlyForStartup => "RevenueShareOnlyForStartup"@,
        Error::DeadlinePassed => "DeadlinePassed"@,
        Error::ContributionMustBePositive => "ContributionMustBePositive"@,
        Error::DeadlineNotPassed => "DeadlineNotPassed"@,
        Error::FundsAlreadyWithdrawn => "FundsAlreadyWithdrawn"@,
        Error::FundingGoalNotReached => "FundingGoalNotReached"@,
        Error::NoFundsToWithdraw => "NoFundsToWithdraw"@,
        Error::CampaignAlreadyVerified => "CampaignAlreadyVerified"@,
        Error::ValidationFailed => "ValidationFailed"@,
        Error::AlreadyVoted => "AlreadyVoted"@,
        Error::NotTokenHolder => "NotTokenHolder"@,
        Error::VotingQuorumNotMet => "VotingQuorumNotMet"@,
        Error::VotingThresholdNotMet => "VotingThresholdNotMet"@,
        Error::AlreadyInitialized => "AlreadyInitialized"@,
        Error::NotPendingOwner => "NotPendingOwner"@,
        Error::NoTransferPending => "NoTransferPending"@,
        Error::InvalidNewOwner => "InvalidNewOwner"@,
        Error::ContractPaused => "ContractPaused"@,
        Error::ContributionCapExceeded => "ContributionCapExceeded"@,
        Error::CampaignNotVerified => "CampaignNotVerified"@,
        Error::AmountRaisedIsZero => "AmountRaisedIsZero"@,
        Error::RevenueSharingNotEnabled => "RevenueSharingNotEnabled"@,
        Error::CancellationNotAllowed => "CancellationNotAllowed"@,
        Error::Overflow => "Overflow"@,
        Error::InvalidTokenContract => "InvalidTokenContract"@,
        Error::CreationDisabled => "CreationDisabled"@,
        Error::FundingGoalTooLow => "FundingGoalTooLow"@,
        Error::VerificationConflict => "VerificationConflict"@,
        Error::DeadlineAlreadyExtended => "DeadlineAlreadyExtended"@,
        Error::ExtensionTooLong => "ExtensionTooLong"@,
        Error::FundingGoalTooHigh => "FundingGoalTooHigh"@,
        Error::InvalidPlatformFee => "InvalidPlatformFee"@,
        Error::TransferAlreadyPending => "TransferAlreadyPending"@,
        Error::InvalidVestingDelay => "InvalidVestingDelay"@,
        Error::GoalMetCancellationNotAllowed => "GoalMetCancellationNotAllowed"@,
        Error::InvalidStateTransition => "InvalidStateTransition"@,
        Error::CampaignAlreadyBookmarked => "CampaignAlreadyBookmarked"@,
        Error::CampaignNotBookmarked => "CampaignNotBookmarked"@,
        Error::PersonalCapNotFound => "PersonalCapNotFound"@,
        Error::BookmarkLimitReached => "BookmarkLimitReached"@,
        Error::MilestoneNotFound => "MilestoneNotFound"@,
        Error::MilestoneNotVerified => "MilestoneNotVerified"@,
        Error::MilestoneAlreadyClaimed => "MilestoneAlreadyClaimed"@,
        Error::InvariantBroken => "InvariantBroken"@,
    }
}

/// The stable wire code of each variant.
pub open spec fn code_of(e: Error) -> u32 {
    match e {
        Error::NotAuthorized => 1,
        Error::CampaignNotFound => 2,
        Error::CampaignNotActive => 3,
        Error::FundingGoalMustBePositive => 4,
        Error::InvalidDuration => 5,
        Error::InvalidRevenueShare => 6,
        Error::RevenueShareOnlyForStartup => 7,
        Error::DeadlinePassed => 8,
        Error::ContributionMustBePositive => 9,
        Error::DeadlineNotPassed => 10,
        Error::FundsAlreadyWithdrawn => 11,
        Error::FundingGoalNotReached => 12,
        Error::NoFundsToWithdraw => 13,
        Error::CampaignAlreadyVerified => 14,
        Error::ValidationFailed => 15,
        Error::AlreadyVoted => 16,
        Error::NotTokenHolder => 17,
        Error::VotingQuorumNotMet => 18,
        Error::VotingThresholdNotMet => 19,
        Error::AlreadyInitialized => 20,
        Error::NotPendingOwner => 21,
        Error::NoTransferPending => 22,
        Error::InvalidNewOwner => 23,
        Error::ContractPaused => 24,
        Error::ContributionCapExceeded => 25,
        Error::CampaignNotVerified => 26,
        Error::AmountRaisedIsZero => 27,
        Error::RevenueSharingNotEnabled => 28,
        Error::CancellationNotAllowed => 29,
        Error::Overflow => 30,
        Error::InvalidTokenContract => 31,
        Error::CreationDisabled => 32,
        Error::FundingGoalTooLow => 33,
        Error::VerificationConflict => 34,
        Error::DeadlineAlreadyExtended => 36,
        Error::ExtensionTooLong => 37,
        Error::FundingGoalTooHigh => 38,
        Error::InvalidPlatformFee => 39,
        Error::TransferAlreadyPending => 40,
        Error::InvalidVestingDelay => 41,
        Error::GoalMetCancellationNotAllowed => 42,
        Error::InvalidStateTransition => 43,
        Error::CampaignAlreadyBookmarked => 44,
        Error::CampaignNotBookmarked => 45,
        Error::PersonalCapNotFound => 46,
        Error::BookmarkLimitReached => 47,
        Error::MilestoneNotFound => 48,
        Error::MilestoneNotVerified => 49,
        Error::MilestoneAlreadyClaimed => 50,
        Error::InvariantBroken => 51,
    }
}

/// The variant that carries a given wire code, if any.
pub open spec fn error_with_code(code: u32) -> Option<Error> {
    match code {
        1 => Some(Error::NotAuthorized),
        2 => Some(Error::CampaignNotFound),
        3 => Some(Error::CampaignNotActive),
        4 => Some(Error::FundingGoalMustBePositive),
        5 => Some(Error::InvalidDuration),
        6 => Some(Error::InvalidRevenueShare),
        7 => Some(Error::RevenueShareOnlyForStartup),
        8 => Some(Error::DeadlinePassed),
        9 => Some(Error::ContributionMustBePositive),
        10 => Some(Error::DeadlineNotPassed),
        11 => Some(Error::FundsAlreadyWithdrawn),
        12 => Some(Error::FundingGoalNotReached),
        13 => Some(Error::NoFundsToWithdraw),
        14 => Some(Error::CampaignAlreadyVerified),
        15 => Some(Error::ValidationFailed),
        16 => Some(Error::AlreadyVoted),
        17 => Some(Error::NotTokenHolder),
        18 => Some(Error::VotingQuorumNotMet),
        19 => Some(Error::VotingThresholdNotMet),
        20 => Some(Error::AlreadyInitialized),
        21 => Some(Error::NotPendingOwner),
        22 => Some(Error::NoTransferPending),
        23 => Some(Error::InvalidNewOwner),
        24 => Some(Error::ContractPaused),
        25 => Some(Error::ContributionCapExceeded),
        26 => Some(Error::CampaignNotVerified),
        27 => Some(Error::AmountRaisedIsZero),
        28 => Some(Error::RevenueSharingNotEnabled),
        29 => Some(Error::CancellationNotAllowed),
        30 => Some(Error::Overflow),
        31 => Some(Error::InvalidTokenContract),
        32 => Some(Error::CreationDisabled),
        33 => Some(Error::FundingGoalTooLow),
        34 => Some(Error::VerificationConflict),
        36 => Some(Error::DeadlineAlreadyExtended),
        37 => Some(Error::ExtensionTooLong),
        38 => Some(Error::FundingGoalTooHigh),
        39 => Some(Error::InvalidPlatformFee),
        40 => Some(Error::TransferAlreadyPending),
        41 => Some(Error::InvalidVestingDelay),
        42 => Some(Error::GoalMetCancellationNotAllowed),
        43 => Some(Error::InvalidStateTransition),
        44 => Some(Error::CampaignAlreadyBookmarked),
        45 => Some(Error::CampaignNotBookmarked),
        46 => Some(Error::PersonalCapNotFound),
        47 => Some(Error::BookmarkLimitReached),
        48 => Some(Error::MilestoneNotFound),
        49 => Some(Error::MilestoneNotVerified),
        50 => Some(Error::MilestoneAlreadyClaimed),
        51 => Some(Error::InvariantBroken),
        _ => None,
    }
}

impl Error {
    /// Returns the canonical name of this error variant, so event payloads
    /// and logs can show a readable name instead of the bare code.
    pub fn name(&self) -> (n: &'static str)
        ensures
            n@ == name_of(*self),
    {
        match self {
            Error::NotAuthorized => "NotAuthorized",
            Error::CampaignNotFound => "CampaignNotFound",
            Error::CampaignNotActive => "CampaignNotActive",
            Error::FundingGoalMustBePositive => "FundingGoalMustBePositive",
            Error::InvalidDuration => "InvalidDuration",
            Error::InvalidRevenueShare => "InvalidRevenueShare",
            Error::RevenueShareOnlyForStartup => "RevenueShareOnlyForStartup",
            Error::DeadlinePassed => "DeadlinePassed",
            Error::ContributionMustBePositive => "ContributionMustBePositive",
            Error::DeadlineNotPassed => "DeadlineNotPassed",
            Error::FundsAlreadyWithdrawn => "FundsAlreadyWithdrawn",
            Error::FundingGoalNotReached => "FundingGoalNotReached",
            Error::NoFundsToWithdraw => "NoFundsToWithdraw",
            Error::CampaignAlreadyVerified => "CampaignAlreadyVerified",
            Error::ValidationFailed => "ValidationFailed",
            Error::AlreadyVoted => "AlreadyVoted",
            Error::NotTokenHolder => "NotTokenHolder",
            Error::VotingQuorumNotMet => "VotingQuorumNotMet",
            Error::VotingThresholdNotMet => "VotingThresholdNotMet",
            Error::AlreadyInitialized => "AlreadyInitialized",
            Error::NotPendingOwner => "NotPendingOwner",
            Error::NoTransferPending => "NoTransferPending",
            Error::InvalidNewOwner => "InvalidNewOwner",
            Error::ContractPaused => "ContractPaused",
            Error::ContributionCapExceeded => "ContributionCapExceeded",
            Error::CampaignNotVerified => "CampaignNotVerified",
            Error::AmountRaisedIsZero => "AmountRaisedIsZero",
            Error::RevenueSharingNotEnabled => "RevenueSharingNotEnabled",
            Error::CancellationNotAllowed => "CancellationNotAllowed",
            Error::Overflow => "Overflow",
            Error::InvalidTokenContract => "InvalidTokenContract",
            Error::CreationDisabled => "CreationDisabled",
            Error::FundingGoalTooLow => "FundingGoalTooLow",
            Error::VerificationConflict => "VerificationConflict",
            Error::DeadlineAlreadyExtended => "DeadlineAlreadyExtended",
            Error::ExtensionTooLong => "ExtensionTooLong",
            Error::FundingGoalTooHigh => "FundingGoalTooHigh",
            Error::InvalidPlatformFee => "InvalidPlatformFee",
            Error::TransferAlreadyPending => "TransferAlreadyPending",
            Error::InvalidVestingDelay => "InvalidVestingDelay",
            Error::GoalMetCancellationNotAllowed => "GoalMetCancellationNotAllowed",
            Error::InvalidStateTransition => "InvalidStateTransition",
            Error::CampaignAlreadyBookmarked => "CampaignAlreadyBookmarked",
            Error::CampaignNotBookmarked => "CampaignNotBookmarked",
            Error::PersonalCapNotFound => "PersonalCapNotFound",
            Error::BookmarkLimitReached => "BookmarkLimitReached",
            Error::MilestoneNotFound => "MilestoneNotFound",
            Error::MilestoneNotVerified => "MilestoneNotVerified",
            Error::MilestoneAlreadyClaimed => "MilestoneAlreadyClaimed",
            Error::InvariantBroken => "InvariantBroken",
        }
    }

    /// The name of this error as an owned string; what `Display` shows.
    pub fn to_string(&self) -> (s: String)
        ensures
            s@ == name_of(*self),
    {
        self.name().to_owned()
    }

    /// The stable wire code of this error.
    pub fn code(&self) -> (c: u32)
        ensures
            c == code_of(*self),
    {
        match self {
            Error::NotAuthorized => 1,
            Error::CampaignNotFound => 2,
            Error::CampaignNotActive => 3,
            Error::FundingGoalMustBePositive => 4,
            Error::InvalidDuration => 5,
            Error::InvalidRevenueShare => 6,
            Error::RevenueShareOnlyForStartup => 7,
            Error::DeadlinePassed => 8,
            Error::ContributionMustBePositive => 9,
            Error::DeadlineNotPassed => 10,
            Error::FundsAlreadyWithdrawn => 11,
            Error::FundingGoalNotReached => 12,
            Error::NoFundsToWithdraw => 13,
            Error::CampaignAlreadyVerified => 14,
            Error::ValidationFailed => 15,
            Error::AlreadyVoted => 16,
            Error::NotTokenHolder => 17,
            Error::VotingQuorumNotMet => 18,
            Error::VotingThresholdNotMet => 19,
            Error::AlreadyInitialized => 20,
            Error::NotPendingOwner => 21,
            Error::NoTransferPending => 22,
            Error::InvalidNewOwner => 23,
            Error::ContractPaused => 24,
            Error::ContributionCapExceeded => 25,
            Error::CampaignNotVerified => 26,
            Error::AmountRaisedIsZero => 27,
            Error::RevenueSharingNotEnabled => 28,
            Error::CancellationNotAllowed => 29,
            Error::Overflow => 30,
            Error::InvalidTokenContract => 31,
            Error::CreationDisabled => 32,
            Error::FundingGoalTooLow => 33,
            Error::VerificationConflict => 34,
            Error::DeadlineAlreadyExtended => 36,
            Error::ExtensionTooLong => 37,
            Error::FundingGoalTooHigh => 38,
            Error::InvalidPlatformFee => 39,
            Error::TransferAlreadyPending => 40,
            Error::InvalidVestingDelay => 41,
            Error::GoalMetCancellationNotAllowed => 42,
            Error::InvalidStateTransition => 43,
            Error::CampaignAlreadyBookmarked => 44,
            Error::CampaignNotBookmarked => 45,
            Error::PersonalCapNotFound => 46,
            Error::BookmarkLimitReached => 47,
            Error::MilestoneNotFound => 48,
            Error::MilestoneNotVerified => 49,
            Error::MilestoneAlreadyClaimed => 50,
            Error::InvariantBroken => 51,
        }
    }

    /// The error that carries wire code `code`, or `None` for a code that
    /// names no variant (0, the retired 35, and everything above 51).
    pub fn from_code(code: u32) -> (r: Option<Error>)
        ensures
            r == error_with_code(code),
    {
        match code {
            1 => Some(Error::NotAuthorized),
            2 => Some(Error::CampaignNotFound),
            3 => Some(Error::CampaignNotActive),
            4 => Some(Error::FundingGoalMustBePositive),
            5 => Some(Error::InvalidDuration),
            6 => Some(Error::InvalidRevenueShare),
            7 => Some(Error::RevenueShareOnlyForStartup),
            8 => Some(Error::DeadlinePassed),
            9 => Some(Error::ContributionMustBePositive),
            10 => Some(Error::DeadlineNotPassed),
            11 => Some(Error::FundsAlreadyWithdrawn),
            12 => Some(Error::FundingGoalNotReached),
            13 => Some(Error::NoFundsToWithdraw),
            14 => Some(Error::CampaignAlreadyVerified),
            15 => Some(Error::ValidationFailed),
            16 => Some(Error::AlreadyVoted),
            17 => Some(Error::NotTokenHolder),
            18 => Some(Error::VotingQuorumNotMet),
            19 => Some(Error::VotingThresholdNotMet),
            20 => Some(Error::AlreadyInitialized),
            21 => Some(Error::NotPendingOwner),
            22 => Some(Error::NoTransferPending),
            23 => Some(Error::InvalidNewOwner),
            24 => Some(Error::ContractPaused),
            25 => Some(Error::ContributionCapExceeded),
            26 => Some(Error::CampaignNotVerified),
            27 => Some(Error::AmountRaisedIsZero),
            28 => Some(Error::RevenueSharingNotEnabled),
            29 => Some(Error::CancellationNotAllowed),
            30 => Some(Error::Overflow),
            31 => Some(Error::InvalidTokenContract),
            32 => Some(Error::CreationDisabled),
            33 => Some(Error::FundingGoalTooLow),
            34 => Some(Error::VerificationConflict),
            36 => Some(Error::DeadlineAlreadyExtended),
            37 => Some(Error::ExtensionTooLong),
            38 => Some(Error::FundingGoalTooHigh),
            39 => Some(Error::InvalidPlatformFee),
            40 => Some(Error::TransferAlreadyPending),
            41 => Some(Error::InvalidVestingDelay),
            42 => Some(Error::GoalMetCancellationNotAllowed),
            43 => Some(Error::InvalidStateTransition),
            44 => Some(Error::CampaignAlreadyBookmarked),
            45 => Some(Error::CampaignNotBookmarked),
            46 => Some(Error::PersonalCapNotFound),
            47 => Some(Error::BookmarkLimitReached),
            48 => Some(Error::MilestoneNotFound),
            49 => Some(Error::MilestoneNotVerified),
            50 => Some(Error::MilestoneAlreadyClaimed),
            51 => Some(Error::InvariantBroken),
            _ => None,
        }
    }
}

} // verus!

verus! {

/// Decoding the wire code of any variant gives that variant back.
pub proof fn lemma_code_roundtrip(e: Error)
    ensures
        error_with_code(code_of(e)) == Some(e),
{
}

/// A wire code decodes to a variant only if that variant carries the code.
pub proof fn lemma_decode_sound(code: u32)
    ensures
        error_with_code(code) matches Some(e) ==> code_of(e) == code,
{
}

/// Codes lie in 1..=51, and the retired code 35 is carried by no variant.
pub proof fn lemma_code_range(e: Error)
    ensures
        1 <= code_of(e) <= 51,
        code_of(e) != 35,
        error_with_code(35) is None,
{
}

/// No two variants share a wire code.
pub proof fn lemma_codes_distinct(a: Error, b: Error)
    ensures
        code_of(a) == code_of(b) ==> a == b,
{
    lemma_code_roundtrip(a);
    lemma_code_roundtrip(b);
}

} // verus!
