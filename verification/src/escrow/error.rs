//! Why the escrow contract refuses a call.

use vstd::prelude::*;

verus! {

/// The errors that the escrow contract reports by number.
#[derive(Clone, Copy, Debug, PartialEq, Eq, Structural)]
pub enum EscrowError {
    // Initialization
    AlreadyInitialized,
    AdminSetMustNotBeEmpty,
    ThresholdMustBeBetweenOneAndAdminCount,
    NotInitialized,
    JobCountAlreadyInitialized,
    // Job creation
    AmountMustBePositive,
    ReleaseAfterBelowMinimum,
    JobAlreadyExists,
    MilestonesMustSumTo100,
    ReleaseAfterExceedsDeadline,
    MilestonePercentageZero,
    MilestoneNameTooLong,
    JobIdTooLong,
    MilestoneVectorEmpty,
    DuplicateMilestoneName,
    // Job amendment
    OnlyJobClientCanAmend,
    OnlyJobFreelancerCanAmend,
    AmendmentOnlyBeforeRelease,
    NewMilestonesMustNotBeReleasedOrDisputed,
    AmendmentCountOverflow,
    ClientAddressMismatch,
    FreelancerAddressMismatch,
    // Milestone release
    OnlyClientCanRelease,
    JobDisputedAdminMustResolve,
    InvalidMilestoneIndex,
    MilestoneIsDisputed,
    MilestoneAlreadyReleased,
    MilestoneNotVerifiedByOracle,
    ReleasedCountOverflow,
    ReleaseAmountCalculationFailed,
    // Oracle proof submission / verification
    OnlyAssignedFreelancerCanSubmitProof,
    MilestoneAlreadyCompleted,
    MilestoneHasNoOracleConfigured,
    OnlyConfiguredOracleCanVerify,
    NoProofSubmittedYet,
    OracleAddressInvalid,
    ProofHashInvalid,
    ProofVerificationFailed,
    // Dispute resolution
    JobIsNotDisputed,
    MilestoneAlreadyDisputed,
    MilestoneIsNotDisputed,
    InsufficientAdminSignatures,
    DisputeResolutionFailed,
    MilestoneDisputedCannotClaimMilestone,
    JobDisputedCannotClaimMilestone,
    DisputeJobAlreadyDisputed,
    // Refund & claims
    OnlyClientCanRequestRefund,
    JobDeadlineHasNotPassed,
    CannotRefundMilestonesClaimed,
    OnlyJobFreelancerCanClaim,
    ReleasePeriodNotReached,
    RefundTransferFailed,
    ClaimTransferFailed,
    RefundAmountCalculationFailed,
    ClaimAmountCalculationFailed,
    // Admin management
    NewReleaseAfterMustExtendCurrent,
    AddressAlreadyAdmin,
    AddressNotAdmin,
    CannotRemoveLastAdmin,
    ThresholdExceedsAdminCount,
    AdminTransferInProgress,
    AdminSetUpdateFailed,
}

impl EscrowError {
    /// The numeric code of an error.
    pub open spec fn spec_code(self) -> u32 {
        match self {
            EscrowError::AlreadyInitialized => 1,
            EscrowError::AdminSetMustNotBeEmpty => 2,
            EscrowError::ThresholdMustBeBetweenOneAndAdminCount => 3,
            EscrowError::NotInitialized => 4,
            EscrowError::JobCountAlreadyInitialized => 5,
            EscrowError::AmountMustBePositive => 6,
            EscrowError::ReleaseAfterBelowMinimum => 7,
            EscrowError::JobAlreadyExists => 8,
            EscrowError::MilestonesMustSumTo100 => 9,
            EscrowError::ReleaseAfterExceedsDeadline => 10,
            EscrowError::MilestonePercentageZero => 11,
            EscrowError::MilestoneNameTooLong => 12,
            EscrowError::JobIdTooLong => 13,
            EscrowError::MilestoneVectorEmpty => 14,
            EscrowError::DuplicateMilestoneName => 15,
            EscrowError::OnlyJobClientCanAmend => 16,
            EscrowError::OnlyJobFreelancerCanAmend => 17,
            EscrowError::AmendmentOnlyBeforeRelease => 18,
            EscrowError::NewMilestonesMustNotBeReleasedOrDisputed => 19,
            EscrowError::AmendmentCountOverflow => 20,
            EscrowError::ClientAddressMismatch => 21,
            EscrowError::FreelancerAddressMismatch => 22,
            EscrowError::OnlyClientCanRelease => 23,
            EscrowError::JobDisputedAdminMustResolve => 24,
            EscrowError::InvalidMilestoneIndex => 25,
            EscrowError::MilestoneIsDisputed => 26,
            EscrowError::MilestoneAlreadyReleased => 27,
            EscrowError::MilestoneNotVerifiedByOracle => 28,
            EscrowError::ReleasedCountOverflow => 29,
            EscrowError::ReleaseAmountCalculationFailed => 30,
            EscrowError::OnlyAssignedFreelancerCanSubmitProof => 31,
            EscrowError::MilestoneAlreadyCompleted => 32,
            EscrowError::MilestoneHasNoOracleConfigured => 33,
            EscrowError::OnlyConfiguredOracleCanVerify => 34,
            EscrowError::NoProofSubmittedYet => 35,
            EscrowError::OracleAddressInvalid => 36,
            EscrowError::ProofHashInvalid => 37,
            EscrowError::ProofVerificationFailed => 38,
            EscrowError::JobIsNotDisputed => 39,
            EscrowError::MilestoneAlreadyDisputed => 40,
            EscrowError::MilestoneIsNotDisputed => 41,
            EscrowError::InsufficientAdminSignatures => 42,
            EscrowError::DisputeResolutionFailed => 43,
            EscrowError::MilestoneDisputedCannotClaimMilestone => 44,
            EscrowError::JobDisputedCannotClaimMilestone => 45,
            EscrowError::DisputeJobAlreadyDisputed => 46,
            EscrowError::OnlyClientCanRequestRefund => 47,
            EscrowError::JobDeadlineHasNotPassed => 48,
            EscrowError::CannotRefundMilestonesClaimed => 49,
            EscrowError::OnlyJobFreelancerCanClaim => 50,
            EscrowError::ReleasePeriodNotReached => 51,
            EscrowError::RefundTransferFailed => 52,
            EscrowError::ClaimTransferFailed => 53,
            EscrowError::RefundAmountCalculationFailed => 54,
            EscrowError::ClaimAmountCalculationFailed => 55,
            EscrowError::NewReleaseAfterMustExtendCurrent => 56,
            EscrowError::AddressAlreadyAdmin => 57,
            EscrowError::AddressNotAdmin => 58,
            EscrowError::CannotRemoveLastAdmin => 59,
            EscrowError::ThresholdExceedsAdminCount => 60,
            EscrowError::AdminTransferInProgress => 61,
            EscrowError::AdminSetUpdateFailed => 62,
        }
    }

    /// The error that a numeric code stands for.
    pub open spec fn spec_from_code(code: u32) -> Option<EscrowError> {
        if code == 1 {
            Some(EscrowError::AlreadyInitialized)
        } else if code == 2 {
            Some(EscrowError::AdminSetMustNotBeEmpty)
        } else if code == 3 {
            Some(EscrowError::ThresholdMustBeBetweenOneAndAdminCount)
        } else if code == 4 {
            Some(EscrowError::NotInitialized)
        } else if code == 5 {
            Some(EscrowError::JobCountAlreadyInitialized)
        } else if code == 6 {
            Some(EscrowError::AmountMustBePositive)
        } else if code == 7 {
            Some(EscrowError::ReleaseAfterBelowMinimum)
        } else if code == 8 {
            Some(EscrowError::JobAlreadyExists)
        } else if code == 9 {
            Some(EscrowError::MilestonesMustSumTo100)
        } else if code == 10 {
            Some(EscrowError::ReleaseAfterExceedsDeadline)
        } else if code == 11 {
            Some(EscrowError::MilestonePercentageZero)
        } else if code == 12 {
            Some(EscrowError::MilestoneNameTooLong)
        } else if code == 13 {
            Some(EscrowError::JobIdTooLong)
        } else if code == 14 {
            Some(EscrowError::MilestoneVectorEmpty)
        } else if code == 15 {
            Some(EscrowError::DuplicateMilestoneName)
        } else if code == 16 {
            Some(EscrowError::OnlyJobClientCanAmend)
        } else if code == 17 {
            Some(EscrowError::OnlyJobFreelancerCanAmend)
        } else if code == 18 {
            Some(EscrowError::AmendmentOnlyBeforeRelease)
        } else if code == 19 {
            Some(EscrowError::NewMilestonesMustNotBeReleasedOrDisputed)
        } else if code == 20 {
            Some(EscrowError::AmendmentCountOverflow)
        } else if code == 21 {
            Some(EscrowError::ClientAddressMismatch)
        } else if code == 22 {
            Some(EscrowError::FreelancerAddressMismatch)
        } else if code == 23 {
            Some(EscrowError::OnlyClientCanRelease)
        } else if code == 24 {
            Some(EscrowError::JobDisputedAdminMustResolve)
        } else if code == 25 {
            Some(EscrowError::InvalidMilestoneIndex)
        } else if code == 26 {
            Some(EscrowError::MilestoneIsDisputed)
        } else if code == 27 {
            Some(EscrowError::MilestoneAlreadyReleased)
        } else if code == 28 {
            Some(EscrowError::MilestoneNotVerifiedByOracle)
        } else if code == 29 {
            Some(EscrowError::ReleasedCountOverflow)
        } else if code == 30 {
            Some(EscrowError::ReleaseAmountCalculationFailed)
        } else if code == 31 {
            Some(EscrowError::OnlyAssignedFreelancerCanSubmitProof)
        } else if code == 32 {
            Some(EscrowError::MilestoneAlreadyCompleted)
        } else if code == 33 {
            Some(EscrowError::MilestoneHasNoOracleConfigured)
        } else if code == 34 {
            Some(EscrowError::OnlyConfiguredOracleCanVerify)
        } else if code == 35 {
            Some(EscrowError::NoProofSubmittedYet)
        } else if code == 36 {
            Some(EscrowError::OracleAddressInvalid)
        } else if code == 37 {
            Some(EscrowError::ProofHashInvalid)
        } else if code == 38 {
            Some(EscrowError::ProofVerificationFailed)
        } else if code == 39 {
            Some(EscrowError::JobIsNotDisputed)
        } else if code == 40 {
            Some(EscrowError::MilestoneAlreadyDisputed)
        } else if code == 41 {
            Some(EscrowError::MilestoneIsNotDisputed)
        } else if code == 42 {
            Some(EscrowError::InsufficientAdminSignatures)
        } else if code == 43 {
            Some(EscrowError::DisputeResolutionFailed)
        } else if code == 44 {
            Some(EscrowError::MilestoneDisputedCannotClaimMilestone)
        } else if code == 45 {
            Some(EscrowError::JobDisputedCannotClaimMilestone)
        } else if code == 46 {
            Some(EscrowError::DisputeJobAlreadyDisputed)
        } else if code == 47 {
            Some(EscrowError::OnlyClientCanRequestRefund)
        } else if code == 48 {
            Some(EscrowError::JobDeadlineHasNotPassed)
        } else if code == 49 {
            Some(EscrowError::CannotRefundMilestonesClaimed)
        } else if code == 50 {
            Some(EscrowError::OnlyJobFreelancerCanClaim)
        } else if code == 51 {
            Some(EscrowError::ReleasePeriodNotReached)
        } else if code == 52 {
            Some(EscrowError::RefundTransferFailed)
        } else if code == 53 {
            Some(EscrowError::ClaimTransferFailed)
        } else if code == 54 {
            Some(EscrowError::RefundAmountCalculationFailed)
        } else if code == 55 {
            Some(EscrowError::ClaimAmountCalculationFailed)
        } else if code == 56 {
            Some(EscrowError::NewReleaseAfterMustExtendCurrent)
        } else if code == 57 {
            Some(EscrowError::AddressAlreadyAdmin)
        } else if code == 58 {
            Some(EscrowError::AddressNotAdmin)
        } else if code == 59 {
            Some(EscrowError::CannotRemoveLastAdmin)
        } else if code == 60 {
            Some(EscrowError::ThresholdExceedsAdminCount)
        } else if code == 61 {
            Some(EscrowError::AdminTransferInProgress)
        } else if code == 62 {
            Some(EscrowError::AdminSetUpdateFailed)
        } else {
            None
        }
    }

    /// The numeric code of this error.
    pub fn code(self) -> (r: u32)
        ensures
            r == self.spec_code(),
    {
        match self {
            EscrowError::AlreadyInitialized => 1,
            EscrowError::AdminSetMustNotBeEmpty => 2,
            EscrowError::ThresholdMustBeBetweenOneAndAdminCount => 3,
            EscrowError::NotInitialized => 4,
            EscrowError::JobCountAlreadyInitialized => 5,
            EscrowError::AmountMustBePositive => 6,
            EscrowError::ReleaseAfterBelowMinimum => 7,
            EscrowError::JobAlreadyExists => 8,
            EscrowError::MilestonesMustSumTo100 => 9,
            EscrowError::ReleaseAfterExceedsDeadline => 10,
            EscrowError::MilestonePercentageZero => 11,
            EscrowError::MilestoneNameTooLong => 12,
            EscrowError::JobIdTooLong => 13,
            EscrowError::MilestoneVectorEmpty => 14,
            EscrowError::DuplicateMilestoneName => 15,
            EscrowError::OnlyJobClientCanAmend => 16,
            EscrowError::OnlyJobFreelancerCanAmend => 17,
            EscrowError::AmendmentOnlyBeforeRelease => 18,
            EscrowError::NewMilestonesMustNotBeReleasedOrDisputed => 19,
            EscrowError::AmendmentCountOverflow => 20,
            EscrowError::ClientAddressMismatch => 21,
            EscrowError::FreelancerAddressMismatch => 22,
            EscrowError::OnlyClientCanRelease => 23,
            EscrowError::JobDisputedAdminMustResolve => 24,
            EscrowError::InvalidMilestoneIndex => 25,
            EscrowError::MilestoneIsDisputed => 26,
            EscrowError::MilestoneAlreadyReleased => 27,
            EscrowError::MilestoneNotVerifiedByOracle => 28,
            EscrowError::ReleasedCountOverflow => 29,
            EscrowError::ReleaseAmountCalculationFailed => 30,
            EscrowError::OnlyAssignedFreelancerCanSubmitProof => 31,
            EscrowError::MilestoneAlreadyCompleted => 32,
            EscrowError::MilestoneHasNoOracleConfigured => 33,
            EscrowError::OnlyConfiguredOracleCanVerify => 34,
            EscrowError::NoProofSubmittedYet => 35,
            EscrowError::OracleAddressInvalid => 36,
            EscrowError::ProofHashInvalid => 37,
            EscrowError::ProofVerificationFailed => 38,
            EscrowError::JobIsNotDisputed => 39,
            EscrowError::MilestoneAlreadyDisputed => 40,
            EscrowError::MilestoneIsNotDisputed => 41,
            EscrowError::InsufficientAdminSignatures => 42,
            EscrowError::DisputeResolutionFailed => 43,
            EscrowError::MilestoneDisputedCannotClaimMilestone => 44,
            EscrowError::JobDisputedCannotClaimMilestone => 45,
            EscrowError::DisputeJobAlreadyDisputed => 46,
            EscrowError::OnlyClientCanRequestRefund => 47,
            EscrowError::JobDeadlineHasNotPassed => 48,
            EscrowError::CannotRefundMilestonesClaimed => 49,
            EscrowError::OnlyJobFreelancerCanClaim => 50,
            EscrowError::ReleasePeriodNotReached => 51,
            EscrowError::RefundTransferFailed => 52,
            EscrowError::ClaimTransferFailed => 53,
            EscrowError::RefundAmountCalculationFailed => 54,
            EscrowError::ClaimAmountCalculationFailed => 55,
            EscrowError::NewReleaseAfterMustExtendCurrent => 56,
            EscrowError::AddressAlreadyAdmin => 57,
            EscrowError::AddressNotAdmin => 58,
            EscrowError::CannotRemoveLastAdmin => 59,
            EscrowError::ThresholdExceedsAdminCount => 60,
            EscrowError::AdminTransferInProgress => 61,
            EscrowError::AdminSetUpdateFailed => 62,
        }
    }

    /// The error with the given numeric code.
    pub fn from_code(code: u32) -> (r: Option<EscrowError>)
        ensures
            r == Self::spec_from_code(code),
    {
        match code {
            1 => Some(EscrowError::AlreadyInitialized),
            2 => Some(EscrowError::AdminSetMustNotBeEmpty),
            3 => Some(EscrowError::ThresholdMustBeBetweenOneAndAdminCount),
            4 => Some(EscrowError::NotInitialized),
            5 => Some(EscrowError::JobCountAlreadyInitialized),
            6 => Some(EscrowError::AmountMustBePositive),
            7 => Some(EscrowError::ReleaseAfterBelowMinimum),
            8 => Some(EscrowError::JobAlreadyExists),
            9 => Some(EscrowError::MilestonesMustSumTo100),
            10 => Some(EscrowError::ReleaseAfterExceedsDeadline),
            11 => Some(EscrowError::MilestonePercentageZero),
            12 => Some(EscrowError::MilestoneNameTooLong),
            13 => Some(EscrowError::JobIdTooLong),
            14 => Some(EscrowError::MilestoneVectorEmpty),
            15 => Some(EscrowError::DuplicateMilestoneName),
            16 => Some(EscrowError::OnlyJobClientCanAmend),
            17 => Some(EscrowError::OnlyJobFreelancerCanAmend),
            18 => Some(EscrowError::AmendmentOnlyBeforeRelease),
            19 => Some(EscrowError::NewMilestonesMustNotBeReleasedOrDisputed),
            20 => Some(EscrowError::AmendmentCountOverflow),
            21 => Some(EscrowError::ClientAddressMismatch),
            22 => Some(EscrowError::FreelancerAddressMismatch),
            23 => Some(EscrowError::OnlyClientCanRelease),
            24 => Some(EscrowError::JobDisputedAdminMustResolve),
            25 => Some(EscrowError::InvalidMilestoneIndex),
            26 => Some(EscrowError::MilestoneIsDisputed),
            27 => Some(EscrowError::MilestoneAlreadyReleased),
            28 => Some(EscrowError::MilestoneNotVerifiedByOracle),
            29 => Some(EscrowError::ReleasedCountOverflow),
            30 => Some(EscrowError::ReleaseAmountCalculationFailed),
            31 => Some(EscrowError::OnlyAssignedFreelancerCanSubmitProof),
            32 => Some(EscrowError::MilestoneAlreadyCompleted),
            33 => Some(EscrowError::MilestoneHasNoOracleConfigured),
            34 => Some(EscrowError::OnlyConfiguredOracleCanVerify),
            35 => Some(EscrowError::NoProofSubmittedYet),
            36 => Some(EscrowError::OracleAddressInvalid),
            37 => Some(EscrowError::ProofHashInvalid),
            38 => Some(EscrowError::ProofVerificationFailed),
            39 => Some(EscrowError::JobIsNotDisputed),
            40 => Some(EscrowError::MilestoneAlreadyDisputed),
            41 => Some(EscrowError::MilestoneIsNotDisputed),
            42 => Some(EscrowError::InsufficientAdminSignatures),
            43 => Some(EscrowError::DisputeResolutionFailed),
            44 => Some(EscrowError::MilestoneDisputedCannotClaimMilestone),
            45 => Some(EscrowError::JobDisputedCannotClaimMilestone),
            46 => Some(EscrowError::DisputeJobAlreadyDisputed),
            47 => Some(EscrowError::OnlyClientCanRequestRefund),
            48 => Some(EscrowError::JobDeadlineHasNotPassed),
            49 => Some(EscrowError::CannotRefundMilestonesClaimed),
            50 => Some(EscrowError::OnlyJobFreelancerCanClaim),
            51 => Some(EscrowError::ReleasePeriodNotReached),
            52 => Some(EscrowError::RefundTransferFailed),
            53 => Some(EscrowError::ClaimTransferFailed),
            54 => Some(EscrowError::RefundAmountCalculationFailed),
            55 => Some(EscrowError::ClaimAmountCalculationFailed),
            56 => Some(EscrowError::NewReleaseAfterMustExtendCurrent),
            57 => Some(EscrowError::AddressAlreadyAdmin),
            58 => Some(EscrowError::AddressNotAdmin),
            59 => Some(EscrowError::CannotRemoveLastAdmin),
            60 => Some(EscrowError::ThresholdExceedsAdminCount),
            61 => Some(EscrowError::AdminTransferInProgress),
            62 => Some(EscrowError::AdminSetUpdateFailed),
            _ => None,
        }
    }
}

/// Every error has its own code, between 1 and 62, from which it can be told.
pub proof fn law_escrow_codes_identify_errors(e: EscrowError)
    ensures
        1 <= e.spec_code() <= 62,
        EscrowError::spec_from_code(e.spec_code()) == Some(e),
{
}

/// Every number between 1 and 62 is the code of an error, and no other number is.
pub proof fn law_escrow_codes_are_contiguous(code: u32)
    ensures
        EscrowError::spec_from_code(code) is Some <==> 1 <= code <= 62,
        EscrowError::spec_from_code(code) matches Some(e) ==> e.spec_code() == code,
{
}

/// Two errors with the same code are the same error.
pub proof fn law_escrow_codes_are_unique(a: EscrowError, b: EscrowError)
    requires
        a.spec_code() == b.spec_code(),
    ensures
        a == b,
{
    law_escrow_codes_identify_errors(a);
    law_escrow_codes_identify_errors(b);
}

/// Conditions on which the escrow contract aborts with a message and without an error number.
#[derive(Clone, Copy, Debug, PartialEq, Eq, Structural)]
pub enum EscrowTrap {
    NotInitialized,
    JobNotFound,
    MilestonePercentageOverflow,
    LedgerSequenceOverflow,
    TotalJobsOverflow,
    DisputedJobsOverflow,
    CompletedJobsOverflow,
    TotalValueCompletedOverflow,
    OnTimeCompletionsOverflow,
    JobCountOverflow,
    AmendmentCountOverflow,
}

impl EscrowTrap {
    /// The message of an abort.
    pub open spec fn spec_message(self) -> Seq<char> {
        match self {
            EscrowTrap::NotInitialized => "Not initialized"@,
            EscrowTrap::JobNotFound => "Job not found"@,
            EscrowTrap::MilestonePercentageOverflow => "Milestone percentage overflow"@,
            EscrowTrap::LedgerSequenceOverflow => "attempt to add with overflow"@,
            EscrowTrap::TotalJobsOverflow => "Freelancer total_jobs overflow"@,
            EscrowTrap::DisputedJobsOverflow => "Freelancer disputed_jobs overflow"@,
            EscrowTrap::CompletedJobsOverflow => "Freelancer completed_jobs overflow"@,
            EscrowTrap::TotalValueCompletedOverflow => "Freelancer total_value_completed overflow"@,
            EscrowTrap::OnTimeCompletionsOverflow => "Freelancer on_time_completions overflow"@,
            EscrowTrap::JobCountOverflow => "JobCount overflow"@,
            EscrowTrap::AmendmentCountOverflow => "AmendmentCount overflow"@,
        }
    }

    /// The message that goes with this abort.
    pub fn message(self) -> (r: &'static str)
        ensures
            r@ == self.spec_message(),
    {
        match self {
            EscrowTrap::NotInitialized => "Not initialized",
            EscrowTrap::JobNotFound => "Job not found",
            EscrowTrap::MilestonePercentageOverflow => "Milestone percentage overflow",
            EscrowTrap::LedgerSequenceOverflow => "attempt to add with overflow",
            EscrowTrap::TotalJobsOverflow => "Freelancer total_jobs overflow",
            EscrowTrap::DisputedJobsOverflow => "Freelancer disputed_jobs overflow",
            EscrowTrap::CompletedJobsOverflow => "Freelancer completed_jobs overflow",
            EscrowTrap::TotalValueCompletedOverflow => "Freelancer total_value_completed overflow",
            EscrowTrap::OnTimeCompletionsOverflow => "Freelancer on_time_completions overflow",
            EscrowTrap::JobCountOverflow => "JobCount overflow",
            EscrowTrap::AmendmentCountOverflow => "AmendmentCount overflow",
        }
    }
}

/// Why a call is refused. A refused call changes nothing.
#[derive(Clone, Copy, Debug, PartialEq, Eq, Structural)]
pub enum EscrowFailure {
    Error(EscrowError),
    Trap(EscrowTrap),
}

/// The number of each error, by which callers and indexers tell them apart.
pub proof fn law_escrow_numbers()
    ensures
        EscrowError::AlreadyInitialized.spec_code() == 1,
        EscrowError::AdminSetMustNotBeEmpty.spec_code() == 2,
        EscrowError::ThresholdMustBeBetweenOneAndAdminCount.spec_code() == 3,
        EscrowError::NotInitialized.spec_code() == 4,
        EscrowError::JobCountAlreadyInitialized.spec_code() == 5,
        EscrowError::AmountMustBePositive.spec_code() == 6,
        EscrowError::ReleaseAfterBelowMinimum.spec_code() == 7,
        EscrowError::JobAlreadyExists.spec_code() == 8,
        EscrowError::MilestonesMustSumTo100.spec_code() == 9,
        EscrowError::ReleaseAfterExceedsDeadline.spec_code() == 10,
        EscrowError::MilestonePercentageZero.spec_code() == 11,
        EscrowError::MilestoneNameTooLong.spec_code() == 12,
        EscrowError::JobIdTooLong.spec_code() == 13,
        EscrowError::MilestoneVectorEmpty.spec_code() == 14,
        EscrowError::DuplicateMilestoneName.spec_code() == 15,
        EscrowError::OnlyJobClientCanAmend.spec_code() == 16,
        EscrowError::OnlyJobFreelancerCanAmend.spec_code() == 17,
        EscrowError::AmendmentOnlyBeforeRelease.spec_code() == 18,
        EscrowError::NewMilestonesMustNotBeReleasedOrDisputed.spec_code() == 19,
        EscrowError::AmendmentCountOverflow.spec_code() == 20,
        EscrowError::ClientAddressMismatch.spec_code() == 21,
        EscrowError::FreelancerAddressMismatch.spec_code() == 22,
        EscrowError::OnlyClientCanRelease.spec_code() == 23,
        EscrowError::JobDisputedAdminMustResolve.spec_code() == 24,
        EscrowError::InvalidMilestoneIndex.spec_code() == 25,
        EscrowError::MilestoneIsDisputed.spec_code() == 26,
        EscrowError::MilestoneAlreadyReleased.spec_code() == 27,
        EscrowError::MilestoneNotVerifiedByOracle.spec_code() == 28,
        EscrowError::ReleasedCountOverflow.spec_code() == 29,
        EscrowError::ReleaseAmountCalculationFailed.spec_code() == 30,
        EscrowError::OnlyAssignedFreelancerCanSubmitProof.spec_code() == 31,
        EscrowError::MilestoneAlreadyCompleted.spec_code() == 32,
        EscrowError::MilestoneHasNoOracleConfigured.spec_code() == 33,
        EscrowError::OnlyConfiguredOracleCanVerify.spec_code() == 34,
        EscrowError::NoProofSubmittedYet.spec_code() == 35,
        EscrowError::OracleAddressInvalid.spec_code() == 36,
        EscrowError::ProofHashInvalid.spec_code() == 37,
        EscrowError::ProofVerificationFailed.spec_code() == 38,
        EscrowError::JobIsNotDisputed.spec_code() == 39,
        EscrowError::MilestoneAlreadyDisputed.spec_code() == 40,
        EscrowError::MilestoneIsNotDisputed.spec_code() == 41,
        EscrowError::InsufficientAdminSignatures.spec_code() == 42,
        EscrowError::DisputeResolutionFailed.spec_code() == 43,
        EscrowError::MilestoneDisputedCannotClaimMilestone.spec_code() == 44,
        EscrowError::JobDisputedCannotClaimMilestone.spec_code() == 45,
        EscrowError::DisputeJobAlreadyDisputed.spec_code() == 46,
        EscrowError::OnlyClientCanRequestRefund.spec_code() == 47,
        EscrowError::JobDeadlineHasNotPassed.spec_code() == 48,
        EscrowError::CannotRefundMilestonesClaimed.spec_code() == 49,
        EscrowError::OnlyJobFreelancerCanClaim.spec_code() == 50,
        EscrowError::ReleasePeriodNotReached.spec_code() == 51,
        EscrowError::RefundTransferFailed.spec_code() == 52,
        EscrowError::ClaimTransferFailed.spec_code() == 53,
        EscrowError::RefundAmountCalculationFailed.spec_code() == 54,
        EscrowError::ClaimAmountCalculationFailed.spec_code() == 55,
        EscrowError::NewReleaseAfterMustExtendCurrent.spec_code() == 56,
        EscrowError::AddressAlreadyAdmin.spec_code() == 57,
        EscrowError::AddressNotAdmin.spec_code() == 58,
        EscrowError::CannotRemoveLastAdmin.spec_code() == 59,
        EscrowError::ThresholdExceedsAdminCount.spec_code() == 60,
        EscrowError::AdminTransferInProgress.spec_code() == 61,
        EscrowError::AdminSetUpdateFailed.spec_code() == 62,
{
}

/// The message of each abort.
pub proof fn law_escrow_messages()
    ensures
        EscrowTrap::NotInitialized.spec_message() == "Not initialized"@,
        EscrowTrap::JobNotFound.spec_message() == "Job not found"@,
        EscrowTrap::MilestonePercentageOverflow.spec_message() == "Milestone percentage overflow"@,
        EscrowTrap::LedgerSequenceOverflow.spec_message() == "attempt to add with overflow"@,
        EscrowTrap::TotalJobsOverflow.spec_message() == "Freelancer total_jobs overflow"@,
        EscrowTrap::DisputedJobsOverflow.spec_message() == "Freelancer disputed_jobs overflow"@,
        EscrowTrap::CompletedJobsOverflow.spec_message() == "Freelancer completed_jobs overflow"@,
        EscrowTrap::TotalValueCompletedOverflow.spec_message() == "Freelancer total_value_completed overflow"@,
        EscrowTrap::OnTimeCompletionsOverflow.spec_message() == "Freelancer on_time_completions overflow"@,
        EscrowTrap::JobCountOverflow.spec_message() == "JobCount overflow"@,
        EscrowTrap::AmendmentCountOverflow.spec_message() == "AmendmentCount overflow"@,
{
}

} // verus!
