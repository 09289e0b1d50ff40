//! Why the price oracle refuses a call.

use vstd::prelude::*;

verus! {

/// The errors that the price oracle reports by number.
#[derive(Clone, Copy, Debug, PartialEq, Eq, Structural)]
pub enum OracleError {
    // Initialization & admin
    ContractAlreadyInitialized,
    OnlyAdminCanPerformThisAction,
    OracleNotInitialized,
    UnauthorizedReporterManagement,
    UnauthorizedStakingConfig,
    // Staking
    MinimumStakeMustBePositive,
    UnstakeCooldownMustBePositive,
    StakeAmountMustBePositive,
    NotAnAuthorisedReporter,
    StakingNotConfigured,
    NoReporterStake,
    UnstakeCooldownNotReached,
    StakeCooldownNotSet,
    SlashAmountMustBePositive,
    SlashAmountExceedsReporterStake,
    StakeTreasuryNotConfigured,
    // Price reporting
    ReporterStakeBelowMinimum,
    PriceMustBePositive,
    FallbackPriceMustBePositive,
    OracleHasNoObservationsAndNoFallback,
    OraclePriceStaleAndNoFallbackConfigured,
    ZeroWeightTwapFallbackRequired,
    PriceDeviationExceedsThreshold,
    InvalidPriceObservation,
    ObservationStorageFailed,
    // Configuration
    TwapWindowMustBeAtLeastOne,
    TwapWindowExceedsMaximum,
    TwapWindowExceedsStalenessThreshold,
    StalenessThresholdMustBeAtLeastTwapWindow,
    InvalidConfiguration,
    ConfigurationStorageFailed,
    FallbackPriceNotConfigured,
    // Source oracles
    CannotRegisterOracleAsItsOwnSource,
    SourceOracleLimitExceeded,
    SourceOracleNotRegistered,
    SourceOracleAlreadyRegistered,
    InvalidSourceOracleAddress,
    SourceOracleAggregationFailed,
    NoSourceOraclesConfigured,
    SourceOracleUnresponsive,
    SourceOracleReturnedInvalidPrice,
    SourceOracleReturnedUnexpectedType,
    // Aggregation & computation
    AggregationOverflow,
    TwapMultiplicationOverflow,
    TwapAdditionOverflow,
    TotalWeightOverflow,
    ObservationMissing,
    UnauthorizedAggregationAccess,
    MedianCalculationFailed,
    AggregationResultInvalid,
}

impl OracleError {
    /// The numeric code of an error.
    pub open spec fn spec_code(self) -> u32 {
        match self {
            OracleError::ContractAlreadyInitialized => 1,
            OracleError::OnlyAdminCanPerformThisAction => 2,
            OracleError::OracleNotInitialized => 3,
            OracleError::UnauthorizedReporterManagement => 4,
            OracleError::UnauthorizedStakingConfig => 5,
            OracleError::MinimumStakeMustBePositive => 6,
            OracleError::UnstakeCooldownMustBePositive => 7,
            OracleError::StakeAmountMustBePositive => 8,
            OracleError::NotAnAuthorisedReporter => 9,
            OracleError::StakingNotConfigured => 10,
            OracleError::NoReporterStake => 11,
            OracleError::UnstakeCooldownNotReached => 12,
            OracleError::StakeCooldownNotSet => 13,
            OracleError::SlashAmountMustBePositive => 14,
            OracleError::SlashAmountExceedsReporterStake => 15,
            OracleError::StakeTreasuryNotConfigured => 16,
            OracleError::ReporterStakeBelowMinimum => 17,
            OracleError::PriceMustBePositive => 18,
            OracleError::FallbackPriceMustBePositive => 19,
            OracleError::OracleHasNoObservationsAndNoFallback => 20,
            OracleError::OraclePriceStaleAndNoFallbackConfigured => 21,
            OracleError::ZeroWeightTwapFallbackRequired => 22,
            OracleError::PriceDeviationExceedsThreshold => 23,
            OracleError::InvalidPriceObservation => 24,
            OracleError::ObservationStorageFailed => 25,
            OracleError::TwapWindowMustBeAtLeastOne => 26,
            OracleError::TwapWindowExceedsMaximum => 27,
            OracleError::TwapWindowExceedsStalenessThreshold => 28,
            OracleError::StalenessThresholdMustBeAtLeastTwapWindow => 29,
            OracleError::InvalidConfiguration => 30,
            OracleError::ConfigurationStorageFailed => 31,
            OracleError::FallbackPriceNotConfigured => 32,
            OracleError::CannotRegisterOracleAsItsOwnSource => 33,
            OracleError::SourceOracleLimitExceeded => 34,
            OracleError::SourceOracleNotRegistered => 35,
            OracleError::SourceOracleAlreadyRegistered => 36,
            OracleError::InvalidSourceOracleAddress => 37,
            OracleError::SourceOracleAggregationFailed => 38,
            OracleError::NoSourceOraclesConfigured => 39,
            OracleError::SourceOracleUnresponsive => 40,
            OracleError::SourceOracleReturnedInvalidPrice => 41,
            OracleError::SourceOracleReturnedUnexpectedType => 42,
            OracleError::AggregationOverflow => 43,
            OracleError::TwapMultiplicationOverflow => 44,
            OracleError::TwapAdditionOverflow => 45,
            OracleError::TotalWeightOverflow => 46,
            OracleError::ObservationMissing => 47,
            OracleError::UnauthorizedAggregationAccess => 48,
            OracleError::MedianCalculationFailed => 49,
            OracleError::AggregationResultInvalid => 50,
        }
    }

    /// The error that a numeric code stands for.
    pub open spec fn spec_from_code(code: u32) -> Option<OracleError> {
        if code == 1 {
            Some(OracleError::ContractAlreadyInitialized)
        } else if code == 2 {
            Some(OracleError::OnlyAdminCanPerformThisAction)
        } else if code == 3 {
            Some(OracleError::OracleNotInitialized)
        } else if code == 4 {
            Some(OracleError::UnauthorizedReporterManagement)
        } else if code == 5 {
            Some(OracleError::UnauthorizedStakingConfig)
        } else if code == 6 {
            Some(OracleError::MinimumStakeMustBePositive)
        } else if code == 7 {
            Some(OracleError::UnstakeCooldownMustBePositive)
        } else if code == 8 {
            Some(OracleError::StakeAmountMustBePositive)
        } else if code == 9 {
            Some(OracleError::NotAnAuthorisedReporter)
        } else if code == 10 {
            Some(OracleError::StakingNotConfigured)
        } else if code == 11 {
            Some(OracleError::NoReporterStake)
        } else if code == 12 {
            Some(OracleError::UnstakeCooldownNotReached)
        } else if code == 13 {
            Some(OracleError::StakeCooldownNotSet)
        } else if code == 14 {
            Some(OracleError::SlashAmountMustBePositive)
        } else if code == 15 {
            Some(OracleError::SlashAmountExceedsReporterStake)
        } else if code == 16 {
            Some(OracleError::StakeTreasuryNotConfigured)
        } else if code == 17 {
            Some(OracleError::ReporterStakeBelowMinimum)
        } else if code == 18 {
            Some(OracleError::PriceMustBePositive)
        } else if code == 19 {
            Some(OracleError::FallbackPriceMustBePositive)
        } else if code == 20 {
            Some(OracleError::OracleHasNoObservationsAndNoFallback)
        } else if code == 21 {
            Some(OracleError::OraclePriceStaleAndNoFallbackConfigured)
        } else if code == 22 {
            Some(OracleError::ZeroWeightTwapFallbackRequired)
        } else if code == 23 {
            Some(OracleError::PriceDeviationExceedsThreshold)
        } else if code == 24 {
            Some(OracleError::InvalidPriceObservation)
        } else if code == 25 {
            Some(OracleError::ObservationStorageFailed)
        } else if code == 26 {
            Some(OracleError::TwapWindowMustBeAtLeastOne)
        } else if code == 27 {
            Some(OracleError::TwapWindowExceedsMaximum)
        } else if code == 28 {
            Some(OracleError::TwapWindowExceedsStalenessThreshold)
        } else if code == 29 {
            Some(OracleError::StalenessThresholdMustBeAtLeastTwapWindow)
        } else if code == 30 {
            Some(OracleError::InvalidConfiguration)
        } else if code == 31 {
            Some(OracleError::ConfigurationStorageFailed)
        } else if code == 32 {
            Some(OracleError::FallbackPriceNotConfigured)
        } else if code == 33 {
            Some(OracleError::CannotRegisterOracleAsItsOwnSource)
        } else if code == 34 {
            Some(OracleError::SourceOracleLimitExceeded)
        } else if code == 35 {
            Some(OracleError::SourceOracleNotRegistered)
        } else if code == 36 {
            Some(OracleError::SourceOracleAlreadyRegistered)
        } else if code == 37 {
            Some(OracleError::InvalidSourceOracleAddress)
        } else if code == 38 {
            Some(OracleError::SourceOracleAggregationFailed)
        } else if code == 39 {
            Some(OracleError::NoSourceOraclesConfigured)
        } else if code == 40 {
            Some(OracleError::SourceOracleUnresponsive)
        } else if code == 41 {
            Some(OracleError::SourceOracleReturnedInvalidPrice)
        } else if code == 42 {
            Some(OracleError::SourceOracleReturnedUnexpectedType)
        } else if code == 43 {
            Some(OracleError::AggregationOverflow)
        } else if code == 44 {
            Some(OracleError::TwapMultiplicationOverflow)
        } else if code == 45 {
            Some(OracleError::TwapAdditionOverflow)
        } else if code == 46 {
            Some(OracleError::TotalWeightOverflow)
        } else if code == 47 {
            Some(OracleError::ObservationMissing)
        } else if code == 48 {
            Some(OracleError::UnauthorizedAggregationAccess)
        } else if code == 49 {
            Some(OracleError::MedianCalculationFailed)
        } else if code == 50 {
            Some(OracleError::AggregationResultInvalid)
        } else {
            None
        }
    }

    /// The numeric code of this error.
    pub fn code(self) -> (r: u32)
        ensures
            r == self.spec_code(),
    {
        match self {
            OracleError::ContractAlreadyInitialized => 1,
            OracleError::OnlyAdminCanPerformThisAction => 2,
            OracleError::OracleNotInitialized => 3,
            OracleError::UnauthorizedReporterManagement => 4,
            OracleError::UnauthorizedStakingConfig => 5,
            OracleError::MinimumStakeMustBePositive => 6,
            OracleError::UnstakeCooldownMustBePositive => 7,
            OracleError::StakeAmountMustBePositive => 8,
            OracleError::NotAnAuthorisedReporter => 9,
            OracleError::StakingNotConfigured => 10,
            OracleError::NoReporterStake => 11,
            OracleError::UnstakeCooldownNotReached => 12,
            OracleError::StakeCooldownNotSet => 13,
            OracleError::SlashAmountMustBePositive => 14,
            OracleError::SlashAmountExceedsReporterStake => 15,
            OracleError::StakeTreasuryNotConfigured => 16,
            OracleError::ReporterStakeBelowMinimum => 17,
            OracleError::PriceMustBePositive => 18,
            OracleError::FallbackPriceMustBePositive => 19,
            OracleError::OracleHasNoObservationsAndNoFallback => 20,
            OracleError::OraclePriceStaleAndNoFallbackConfigured => 21,
            OracleError::ZeroWeightTwapFallbackRequired => 22,
            OracleError::PriceDeviationExceedsThreshold => 23,
            OracleError::InvalidPriceObservation => 24,
            OracleError::ObservationStorageFailed => 25,
            OracleError::TwapWindowMustBeAtLeastOne => 26,
            OracleError::TwapWindowExceedsMaximum => 27,
            OracleError::TwapWindowExceedsStalenessThreshold => 28,
            OracleError::StalenessThresholdMustBeAtLeastTwapWindow => 29,
            OracleError::InvalidConfiguration => 30,
            OracleError::ConfigurationStorageFailed => 31,
            OracleError::FallbackPriceNotConfigured => 32,
            OracleError::CannotRegisterOracleAsItsOwnSource => 33,
            OracleError::SourceOracleLimitExceeded => 34,
            OracleError::SourceOracleNotRegistered => 35,
            OracleError::SourceOracleAlreadyRegistered => 36,
            OracleError::InvalidSourceOracleAddress => 37,
            OracleError::SourceOracleAggregationFailed => 38,
            OracleError::NoSourceOraclesConfigured => 39,
            OracleError::SourceOracleUnresponsive => 40,
            OracleError::SourceOracleReturnedInvalidPrice => 41,
            OracleError::SourceOracleReturnedUnexpectedType => 42,
            OracleError::AggregationOverflow => 43,
            OracleError::TwapMultiplicationOverflow => 44,
            OracleError::TwapAdditionOverflow => 45,
            OracleError::TotalWeightOverflow => 46,
            OracleError::ObservationMissing => 47,
            OracleError::UnauthorizedAggregationAccess => 48,
            OracleError::MedianCalculationFailed => 49,
            OracleError::AggregationResultInvalid => 50,
        }
    }

    /// The error with the given numeric code.
    pub fn from_code(code: u32) -> (r: Option<OracleError>)
        ensures
            r == Self::spec_from_code(code),
    {
        match code {
            1 => Some(OracleError::ContractAlreadyInitialized),
            2 => Some(OracleError::OnlyAdminCanPerformThisAction),
            3 => Some(OracleError::OracleNotInitialized),
            4 => Some(OracleError::UnauthorizedReporterManagement),
            5 => Some(OracleError::UnauthorizedStakingConfig),
            6 => Some(OracleError::MinimumStakeMustBePositive),
            7 => Some(OracleError::UnstakeCooldownMustBePositive),
            8 => Some(OracleError::StakeAmountMustBePositive),
            9 => Some(OracleError::NotAnAuthorisedReporter),
            10 => Some(OracleError::StakingNotConfigured),
            11 => Some(OracleError::NoReporterStake),
            12 => Some(OracleError::UnstakeCooldownNotReached),
            13 => Some(OracleError::StakeCooldownNotSet),
            14 => Some(OracleError::SlashAmountMustBePositive),
            15 => Some(OracleError::SlashAmountExceedsReporterStake),
            16 => Some(OracleError::StakeTreasuryNotConfigured),
            17 => Some(OracleError::ReporterStakeBelowMinimum),
            18 => Some(OracleError::PriceMustBePositive),
            19 => Some(OracleError::FallbackPriceMustBePositive),
            20 => Some(OracleError::OracleHasNoObservationsAndNoFallback),
            21 => Some(OracleError::OraclePriceStaleAndNoFallbackConfigured),
            22 => Some(OracleError::ZeroWeightTwapFallbackRequired),
            23 => Some(OracleError::PriceDeviationExceedsThreshold),
            24 => Some(OracleError::InvalidPriceObservation),
            25 => Some(OracleError::ObservationStorageFailed),
            26 => Some(OracleError::TwapWindowMustBeAtLeastOne),
            27 => Some(OracleError::TwapWindowExceedsMaximum),
            28 => Some(OracleError::TwapWindowExceedsStalenessThreshold),
            29 => Some(OracleError::StalenessThresholdMustBeAtLeastTwapWindow),
            30 => Some(OracleError::InvalidConfiguration),
            31 => Some(OracleError::ConfigurationStorageFailed),
            32 => Some(OracleError::FallbackPriceNotConfigured),
            33 => Some(OracleError::CannotRegisterOracleAsItsOwnSource),
            34 => Some(OracleError::SourceOracleLimitExceeded),
            35 => Some(OracleError::SourceOracleNotRegistered),
            36 => Some(OracleError::SourceOracleAlreadyRegistered),
            37 => Some(OracleError::InvalidSourceOracleAddress),
            38 => Some(OracleError::SourceOracleAggregationFailed),
            39 => Some(OracleError::NoSourceOraclesConfigured),
            40 => Some(OracleError::SourceOracleUnresponsive),
            41 => Some(OracleError::SourceOracleReturnedInvalidPrice),
            42 => Some(OracleError::SourceOracleReturnedUnexpectedType),
            43 => Some(OracleError::AggregationOverflow),
            44 => Some(OracleError::TwapMultiplicationOverflow),
            45 => Some(OracleError::TwapAdditionOverflow),
            46 => Some(OracleError::TotalWeightOverflow),
            47 => Some(OracleError::ObservationMissing),
            48 => Some(OracleError::UnauthorizedAggregationAccess),
            49 => Some(OracleError::MedianCalculationFailed),
            50 => Some(OracleError::AggregationResultInvalid),
            _ => None,
        }
    }
}

/// Every error has its own code, between 1 and 50, from which it can be told.
pub proof fn law_oracle_codes_identify_errors(e: OracleError)
    ensures
        1 <= e.spec_code() <= 50,
        OracleError::spec_from_code(e.spec_code()) == Some(e),
{
}

/// Every number between 1 and 50 is the code of an error, and no other number is.
pub proof fn law_oracle_codes_are_contiguous(code: u32)
    ensures
        OracleError::spec_from_code(code) is Some <==> 1 <= code <= 50,
        OracleError::spec_from_code(code) matches Some(e) ==> e.spec_code() == code,
{
}

/// Two errors with the same code are the same error.
pub proof fn law_oracle_codes_are_unique(a: OracleError, b: OracleError)
    requires
        a.spec_code() == b.spec_code(),
    ensures
        a == b,
{
    law_oracle_codes_identify_errors(a);
    law_oracle_codes_identify_errors(b);
}

/// Conditions on which the price oracle aborts with a message and without an error number.
#[derive(Clone, Copy, Debug, PartialEq, Eq, Structural)]
pub enum OracleTrap {
    NotInitialized,
    StakingNotConfigured,
    ReporterStakeOverflow,
    StakeCooldownOverflow,
    StakeCooldownNotSet,
    NoObservationsAndNoFallback,
    StaleAndNoFallback,
    ZeroWeightAndNoFallback,
    TwapMultiplicationOverflow,
    TwapOverflow,
    SourceIsNoContract,
}

impl OracleTrap {
    /// The message of an abort.
    pub open spec fn spec_message(self) -> Seq<char> {
        match self {
            OracleTrap::NotInitialized => "Oracle not initialized"@,
            OracleTrap::StakingNotConfigured => "Staking not configured"@,
            OracleTrap::ReporterStakeOverflow => "Reporter stake overflow"@,
            OracleTrap::StakeCooldownOverflow => "Stake cooldown overflow"@,
            OracleTrap::StakeCooldownNotSet => "Stake cooldown not set"@,
            OracleTrap::NoObservationsAndNoFallback => "Oracle has no observations and no fallback"@,
            OracleTrap::StaleAndNoFallback => "Oracle price is stale and no fallback configured"@,
            OracleTrap::ZeroWeightAndNoFallback => "Zero-weight TWAP — fallback required"@,
            OracleTrap::TwapMultiplicationOverflow => "TWAP mul overflow"@,
            OracleTrap::TwapOverflow => "TWAP overflow"@,
            OracleTrap::SourceIsNoContract => "source is not a contract"@,
        }
    }

    /// The message that goes with this abort.
    pub fn message(self) -> (r: &'static str)
        ensures
            r@ == self.spec_message(),
    {
        match self {
            OracleTrap::NotInitialized => "Oracle not initialized",
            OracleTrap::StakingNotConfigured => "Staking not configured",
            OracleTrap::ReporterStakeOverflow => "Reporter stake overflow",
            OracleTrap::StakeCooldownOverflow => "Stake cooldown overflow",
            OracleTrap::StakeCooldownNotSet => "Stake cooldown not set",
            OracleTrap::NoObservationsAndNoFallback => "Oracle has no observations and no fallback",
            OracleTrap::StaleAndNoFallback => "Oracle price is stale and no fallback configured",
            OracleTrap::ZeroWeightAndNoFallback => "Zero-weight TWAP — fallback required",
            OracleTrap::TwapMultiplicationOverflow => "TWAP mul overflow",
            OracleTrap::TwapOverflow => "TWAP overflow",
            OracleTrap::SourceIsNoContract => "source is not a contract",
        }
    }
}

/// Why a call is refused. A refused call changes nothing.
#[derive(Clone, Copy, Debug, PartialEq, Eq, Structural)]
pub enum OracleFailure {
    Error(OracleError),
    Trap(OracleTrap),
}

/// The number of each error, by which callers and indexers tell them apart.
pub proof fn law_oracle_numbers()
    ensures
        OracleError::ContractAlreadyInitialized.spec_code() == 1,
        OracleError::OnlyAdminCanPerformThisAction.spec_code() == 2,
        OracleError::OracleNotInitialized.spec_code() == 3,
        OracleError::UnauthorizedReporterManagement.spec_code() == 4,
        OracleError::UnauthorizedStakingConfig.spec_code() == 5,
        OracleError::MinimumStakeMustBePositive.spec_code() == 6,
        OracleError::UnstakeCooldownMustBePositive.spec_code() == 7,
        OracleError::StakeAmountMustBePositive.spec_code() == 8,
        OracleError::NotAnAuthorisedReporter.spec_code() == 9,
        OracleError::StakingNotConfigured.spec_code() == 10,
        OracleError::NoReporterStake.spec_code() == 11,
        OracleError::UnstakeCooldownNotReached.spec_code() == 12,
        OracleError::StakeCooldownNotSet.spec_code() == 13,
        OracleError::SlashAmountMustBePositive.spec_code() == 14,
        OracleError::SlashAmountExceedsReporterStake.spec_code() == 15,
        OracleError::StakeTreasuryNotConfigured.spec_code() == 16,
        OracleError::ReporterStakeBelowMinimum.spec_code() == 17,
        OracleError::PriceMustBePositive.spec_code() == 18,
        OracleError::FallbackPriceMustBePositive.spec_code() == 19,
        OracleError::OracleHasNoObservationsAndNoFallback.spec_code() == 20,
        OracleError::OraclePriceStaleAndNoFallbackConfigured.spec_code() == 21,
        OracleError::ZeroWeightTwapFallbackRequired.spec_code() == 22,
        OracleError::PriceDeviationExceedsThreshold.spec_code() == 23,
        OracleError::InvalidPriceObservation.spec_code() == 24,
        OracleError::ObservationStorageFailed.spec_code() == 25,
        OracleError::TwapWindowMustBeAtLeastOne.spec_code() == 26,
        OracleError::TwapWindowExceedsMaximum.spec_code() == 27,
        OracleError::TwapWindowExceedsStalenessThreshold.spec_code() == 28,
        OracleError::StalenessThresholdMustBeAtLeastTwapWindow.spec_code() == 29,
        OracleError::InvalidConfiguration.spec_code() == 30,
        OracleError::ConfigurationStorageFailed.spec_code() == 31,
        OracleError::FallbackPriceNotConfigured.spec_code() == 32,
        OracleError::CannotRegisterOracleAsItsOwnSource.spec_code() == 33,
        OracleError::SourceOracleLimitExceeded.spec_code() == 34,
        OracleError::SourceOracleNotRegistered.spec_code() == 35,
        OracleError::SourceOracleAlreadyRegistered.spec_code() == 36,
        OracleError::InvalidSourceOracleAddress.spec_code() == 37,
        OracleError::SourceOracleAggregationFailed.spec_code() == 38,
        OracleError::NoSourceOraclesConfigured.spec_code() == 39,
        OracleError::SourceOracleUnresponsive.spec_code() == 40,
        OracleError::SourceOracleReturnedInvalidPrice.spec_code() == 41,
        OracleError::SourceOracleReturnedUnexpectedType.spec_code() == 42,
        OracleError::AggregationOverflow.spec_code() == 43,
        OracleError::TwapMultiplicationOverflow.spec_code() == 44,
        OracleError::TwapAdditionOverflow.spec_code() == 45,
        OracleError::TotalWeightOverflow.spec_code() == 46,
        OracleError::ObservationMissing.spec_code() == 47,
        OracleError::UnauthorizedAggregationAccess.spec_code() == 48,
        OracleError::MedianCalculationFailed.spec_code() == 49,
        OracleError::AggregationResultInvalid.spec_code() == 50,
{
}

/// The message of each abort.
pub proof fn law_oracle_messages()
    ensures
        OracleTrap::NotInitialized.spec_message() == "Oracle not initialized"@,
        OracleTrap::StakingNotConfigured.spec_message() == "Staking not configured"@,
        OracleTrap::ReporterStakeOverflow.spec_message() == "Reporter stake overflow"@,
        OracleTrap::StakeCooldownOverflow.spec_message() == "Stake cooldown overflow"@,
        OracleTrap::StakeCooldownNotSet.spec_message() == "Stake cooldown not set"@,
        OracleTrap::NoObservationsAndNoFallback.spec_message() == "Oracle has no observations and no fallback"@,
        OracleTrap::StaleAndNoFallback.spec_message() == "Oracle price is stale and no fallback configured"@,
        OracleTrap::ZeroWeightAndNoFallback.spec_message() == "Zero-weight TWAP — fallback required"@,
        OracleTrap::TwapMultiplicationOverflow.spec_message() == "TWAP mul overflow"@,
        OracleTrap::TwapOverflow.spec_message() == "TWAP overflow"@,
        OracleTrap::SourceIsNoContract.spec_message() == "source is not a contract"@,
{
}

} // verus!
