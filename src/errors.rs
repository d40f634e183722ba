//! Error values returned by the market ledger.

use vstd::prelude::*;

verus! {

/// Every failure the ledger can report. Each variant carries a stable numeric
/// code (see [`Error::as_u32`]) grouped by area: user operations in the 100s,
/// oracle problems in the 200s, input validation in the 300s, general and
/// dispute errors in the 400s, audit errors in the 500s and dispute-window
/// errors in the 600s. Variants are declared in ascending code order, so the
/// derived ordering agrees with the codes.
#[derive(Clone, Copy, Debug, PartialEq, Eq, PartialOrd, Ord, Hash, Structural)]
pub enum Error {
    /// User is not authorized to perform this action
    Unauthorized,
    /// Market not found
    MarketNotFound,
    /// Market is closed (has ended)
    MarketClosed,
    /// Market is already resolved
    MarketAlreadyResolved,
    /// Market is not resolved yet
    MarketNotResolved,
    /// User has nothing to claim
    NothingToClaim,
    /// User has already claimed
    AlreadyClaimed,
    /// Insufficient stake amount
    InsufficientStake,
    /// Invalid outcome choice
    InvalidOutcome,
    /// User has already voted in this market
    AlreadyVoted,
    /// Oracle is unavailable
    OracleUnavailable,
    /// Invalid oracle configuration
    InvalidOracleConfig,
    /// Oracle price is outside the accepted range
    OraclePriceOutOfRange,
    /// Invalid question format
    InvalidQuestion,
    /// Invalid outcomes provided
    InvalidOutcomes,
    /// Invalid duration specified
    InvalidDuration,
    /// Invalid threshold value
    InvalidThreshold,
    /// Invalid comparison operator
    InvalidComparison,
    /// Invalid state
    InvalidState,
    /// Invalid input
    InvalidInput,
    /// Invalid fee configuration
    InvalidFeeConfig,
    /// Configuration not found
    ConfigurationNotFound,
    /// Already disputed
    AlreadyDisputed,
    /// Dispute voting period expired
    DisputeVotingPeriodExpired,
    /// Dispute voting not allowed
    DisputeVotingNotAllowed,
    /// Already voted in dispute
    DisputeAlreadyVoted,
    /// Dispute resolution conditions not met
    DisputeResolutionConditionsNotMet,
    /// Dispute fee distribution failed
    DisputeFeeDistributionFailed,
    /// Dispute escalation not allowed
    DisputeEscalationNotAllowed,
    /// Threshold below minimum
    ThresholdBelowMinimum,
    /// Threshold exceeds maximum
    ThresholdExceedsMaximum,
    /// Fee already collected
    FeeAlreadyCollected,
    /// Invalid oracle feed
    InvalidOracleFeed,
    /// No fees to collect
    NoFeesToCollect,
    /// Invalid extension days
    InvalidExtensionDays,
    /// Extension days exceeded
    ExtensionDaysExceeded,
    /// Market extension not allowed
    MarketExtensionNotAllowed,
    /// Extension fee insufficient
    ExtensionFeeInsufficient,
    /// Admin address is not set (initialization missing)
    AdminNotSet,
    /// Audit not initialized
    AuditNotInitialized,
    /// Audit item not found
    AuditItemNotFound,
    /// Audit already completed
    AuditAlreadyCompleted,
    /// Audit requirements not met
    AuditRequirementsNotMet,
    /// Invalid audit category
    InvalidAuditCategory,
    /// Invalid audit priority
    InvalidAuditPriority,
    /// Audit permission denied
    AuditPermissionDenied,
    /// Audit validation failed
    AuditValidationFailed,
    /// Invalid timeout hours
    InvalidTimeoutHours,
    /// Dispute timeout not expired
    DisputeTimeoutNotExpired,
    /// Dispute timeout extension not allowed
    DisputeTimeoutExtensionNotAllowed,
    /// Dispute timeout not set
    DisputeTimeoutNotSet,
}

/// The numeric code of an error.
pub open spec fn spec_error_number(e: Error) -> u32 {
    match e {
        Error::Unauthorized => 100,
        Error::MarketNotFound => 101,
        Error::MarketClosed => 102,
        Error::MarketAlreadyResolved => 103,
        Error::MarketNotResolved => 104,
        Error::NothingToClaim => 105,
        Error::AlreadyClaimed => 106,
        Error::InsufficientStake => 107,
        Error::InvalidOutcome => 108,
        Error::AlreadyVoted => 109,
        Error::OracleUnavailable => 200,
        Error::InvalidOracleConfig => 201,
        Error::OraclePriceOutOfRange => 202,
        Error::InvalidQuestion => 300,
        Error::InvalidOutcomes => 301,
        Error::InvalidDuration => 302,
        Error::InvalidThreshold => 303,
        Error::InvalidComparison => 304,
        Error::InvalidState => 400,
        Error::InvalidInput => 401,
        Error::InvalidFeeConfig => 402,
        Error::ConfigurationNotFound => 403,
        Error::AlreadyDisputed => 404,
        Error::DisputeVotingPeriodExpired => 405,
        Error::DisputeVotingNotAllowed => 406,
        Error::DisputeAlreadyVoted => 407,
        Error::DisputeResolutionConditionsNotMet => 408,
        Error::DisputeFeeDistributionFailed => 409,
        Error::DisputeEscalationNotAllowed => 410,
        Error::ThresholdBelowMinimum => 411,
        Error::ThresholdExceedsMaximum => 412,
        Error::FeeAlreadyCollected => 413,
        Error::InvalidOracleFeed => 414,
        Error::NoFeesToCollect => 415,
        Error::InvalidExtensionDays => 416,
        Error::ExtensionDaysExceeded => 417,
        Error::MarketExtensionNotAllowed => 418,
        Error::ExtensionFeeInsufficient => 419,
        Error::AdminNotSet => 420,
        Error::AuditNotInitialized => 500,
        Error::AuditItemNotFound => 501,
        Error::AuditAlreadyCompleted => 502,
        Error::AuditRequirementsNotMet => 503,
        Error::InvalidAuditCategory => 504,
        Error::InvalidAuditPriority => 505,
        Error::AuditPermissionDenied => 506,
        Error::AuditValidationFailed => 507,
        Error::InvalidTimeoutHours => 600,
        Error::DisputeTimeoutNotExpired => 601,
        Error::DisputeTimeoutExtensionNotAllowed => 602,
        Error::DisputeTimeoutNotSet => 603,
    }
}

/// The human-readable description of an error.
pub open spec fn spec_error_description(e: Error) -> Seq<char> {
    match e {
        Error::Unauthorized => "User is not authorized to perform this action"@,
        Error::MarketNotFound => "Market not found"@,
        Error::MarketClosed => "Market is closed"@,
        Error::MarketAlreadyResolved => "Market is already resolved"@,
        Error::MarketNotResolved => "Market is not resolved yet"@,
        Error::NothingToClaim => "User has nothing to claim"@,
        Error::AlreadyClaimed => "User has already claimed"@,
        Error::InsufficientStake => "Insufficient stake amount"@,
        Error::InvalidOutcome => "Invalid outcome choice"@,
        Error::AlreadyVoted => "User has already voted"@,
        Error::OracleUnavailable => "Oracle is unavailable"@,
        Error::InvalidOracleConfig => "Invalid oracle configuration"@,
        Error::OraclePriceOutOfRange => "Oracle price is out of range"@,
        Error::InvalidQuestion => "Invalid question format"@,
        Error::InvalidOutcomes => "Invalid outcomes provided"@,
        Error::InvalidDuration => "Invalid duration specified"@,
        Error::InvalidThreshold => "Invalid threshold value"@,
        Error::InvalidComparison => "Invalid comparison operator"@,
        Error::InvalidState => "Invalid state"@,
        Error::InvalidInput => "Invalid input"@,
        Error::InvalidFeeConfig => "Invalid fee configuration"@,
        Error::ConfigurationNotFound => "Configuration not found"@,
        Error::AlreadyDisputed => "Already disputed"@,
        Error::DisputeVotingPeriodExpired => "Dispute voting period expired"@,
        Error::DisputeVotingNotAllowed => "Dispute voting not allowed"@,
        Error::DisputeAlreadyVoted => "Already voted in dispute"@,
        Error::DisputeResolutionConditionsNotMet => "Dispute resolution conditions not met"@,
        Error::DisputeFeeDistributionFailed => "Dispute fee distribution failed"@,
        Error::DisputeEscalationNotAllowed => "Dispute escalation not allowed"@,
        Error::ThresholdBelowMinimum => "Threshold below minimum"@,
        Error::ThresholdExceedsMaximum => "Threshold exceeds maximum"@,
        Error::FeeAlreadyCollected => "Fee already collected"@,
        Error::InvalidOracleFeed => "Invalid oracle feed"@,
        Error::NoFeesToCollect => "No fees to collect"@,
        Error::InvalidExtensionDays => "Invalid extension days"@,
        Error::ExtensionDaysExceeded => "Extension days exceeded"@,
        Error::MarketExtensionNotAllowed => "Market extension not allowed"@,
        Error::ExtensionFeeInsufficient => "Extension fee insufficient"@,
        Error::AdminNotSet => "Admin address is not set (initialization missing)"@,
        Error::AuditNotInitialized => "Audit system is not initialized"@,
        Error::AuditItemNotFound => "Audit item not found"@,
        Error::AuditAlreadyCompleted => "Audit is already completed"@,
        Error::AuditRequirementsNotMet => "Audit requirements not met for deployment"@,
        Error::InvalidAuditCategory => "Invalid audit category"@,
        Error::InvalidAuditPriority => "Invalid audit priority"@,
        Error::AuditPermissionDenied => "Permission denied for audit operation"@,
        Error::AuditValidationFailed => "Audit validation failed"@,
        Error::InvalidTimeoutHours => "Invalid timeout hours specified"@,
        Error::DisputeTimeoutNotExpired => "Dispute timeout period has not expired yet"@,
        Error::DisputeTimeoutExtensionNotAllowed => "Dispute timeout extension is not allowed"@,
        Error::DisputeTimeoutNotSet => "Dispute timeout is not set"@,
    }
}

/// The upper-case code string of an error.
pub open spec fn spec_error_code(e: Error) -> Seq<char> {
    match e {
        Error::Unauthorized => "UNAUTHORIZED"@,
        Error::MarketNotFound => "MARKET_NOT_FOUND"@,
        Error::MarketClosed => "MARKET_CLOSED"@,
        Error::MarketAlreadyResolved => "MARKET_ALREADY_RESOLVED"@,
        Error::MarketNotResolved => "MARKET_NOT_RESOLVED"@,
        Error::NothingToClaim => "NOTHING_TO_CLAIM"@,
        Error::AlreadyClaimed => "ALREADY_CLAIMED"@,
        Error::InsufficientStake => "INSUFFICIENT_STAKE"@,
        Error::InvalidOutcome => "INVALID_OUTCOME"@,
        Error::AlreadyVoted => "ALREADY_VOTED"@,
        Error::OracleUnavailable => "ORACLE_UNAVAILABLE"@,
        Error::InvalidOracleConfig => "INVALID_ORACLE_CONFIG"@,
        Error::OraclePriceOutOfRange => "ORACLE_PRICE_OUT_OF_RANGE"@,
        Error::InvalidQuestion => "INVALID_QUESTION"@,
        Error::InvalidOutcomes => "INVALID_OUTCOMES"@,
        Error::InvalidDuration => "INVALID_DURATION"@,
        Error::InvalidThreshold => "INVALID_THRESHOLD"@,
        Error::InvalidComparison => "INVALID_COMPARISON"@,
        Error::InvalidState => "INVALID_STATE"@,
        Error::InvalidInput => "INVALID_INPUT"@,
        Error::InvalidFeeConfig => "INVALID_FEE_CONFIG"@,
        Error::ConfigurationNotFound => "CONFIGURATION_NOT_FOUND"@,
        Error::AlreadyDisputed => "ALREADY_DISPUTED"@,
        Error::DisputeVotingPeriodExpired => "DISPUTE_VOTING_PERIOD_EXPIRED"@,
        Error::DisputeVotingNotAllowed => "DISPUTE_VOTING_NOT_ALLOWED"@,
        Error::DisputeAlreadyVoted => "DISPUTE_ALREADY_VOTED"@,
        Error::DisputeResolutionConditionsNotMet => "DISPUTE_RESOLUTION_CONDITIONS_NOT_MET"@,
        Error::DisputeFeeDistributionFailed => "DISPUTE_FEE_DISTRIBUTION_FAILED"@,
        Error::DisputeEscalationNotAllowed => "DISPUTE_ESCALATION_NOT_ALLOWED"@,
        Error::ThresholdBelowMinimum => "THRESHOLD_BELOW_MINIMUM"@,
        Error::ThresholdExceedsMaximum => "THRESHOLD_EXCEEDS_MAXIMUM"@,
        Error::FeeAlreadyCollected => "FEE_ALREADY_COLLECTED"@,
        Error::InvalidOracleFeed => "INVALID_ORACLE_FEED"@,
        Error::NoFeesToCollect => "NO_FEES_TO_COLLECT"@,
        Error::InvalidExtensionDays => "INVALID_EXTENSION_DAYS"@,
        Error::ExtensionDaysExceeded => "EXTENSION_DAYS_EXCEEDED"@,
        Error::MarketExtensionNotAllowed => "MARKET_EXTENSION_NOT_ALLOWED"@,
        Error::ExtensionFeeInsufficient => "EXTENSION_FEE_INSUFFICIENT"@,
        Error::AdminNotSet => "ADMIN_NOT_SET"@,
        Error::AuditNotInitialized => "AUDIT_NOT_INITIALIZED"@,
        Error::AuditItemNotFound => "AUDIT_ITEM_NOT_FOUND"@,
        Error::AuditAlreadyCompleted => "AUDIT_ALREADY_COMPLETED"@,
        Error::AuditRequirementsNotMet => "AUDIT_REQUIREMENTS_NOT_MET"@,
        Error::InvalidAuditCategory => "INVALID_AUDIT_CATEGORY"@,
        Error::InvalidAuditPriority => "INVALID_AUDIT_PRIORITY"@,
        Error::AuditPermissionDenied => "AUDIT_PERMISSION_DENIED"@,
        Error::AuditValidationFailed => "AUDIT_VALIDATION_FAILED"@,
        Error::InvalidTimeoutHours => "INVALID_TIMEOUT_HOURS"@,
        Error::DisputeTimeoutNotExpired => "DISPUTE_TIMEOUT_NOT_EXPIRED"@,
        Error::DisputeTimeoutExtensionNotAllowed => "DISPUTE_TIMEOUT_EXTENSION_NOT_ALLOWED"@,
        Error::DisputeTimeoutNotSet => "DISPUTE_TIMEOUT_NOT_SET"@,
    }
}

impl Error {
    /// A human-readable description of the error.
    pub fn description(&self) -> (r: &'static str)
        ensures
            r@ == spec_error_description(*self),
    {
        match self {
            Error::Unauthorized => "User is not authorized to perform this action",
            Error::MarketNotFound => "Market not found",
            Error::MarketClosed => "Market is closed",
            Error::MarketAlreadyResolved => "Market is already resolved",
            Error::MarketNotResolved => "Market is not resolved yet",
            Error::NothingToClaim => "User has nothing to claim",
            Error::AlreadyClaimed => "User has already claimed",
            Error::InsufficientStake => "Insufficient stake amount",
            Error::InvalidOutcome => "Invalid outcome choice",
            Error::AlreadyVoted => "User has already voted",
            Error::OracleUnavailable => "Oracle is unavailable",
            Error::InvalidOracleConfig => "Invalid oracle configuration",
            Error::OraclePriceOutOfRange => "Oracle price is out of range",
            Error::InvalidQuestion => "Invalid question format",
            Error::InvalidOutcomes => "Invalid outcomes provided",
            Error::InvalidDuration => "Invalid duration specified",
            Error::InvalidThreshold => "Invalid threshold value",
            Error::InvalidComparison => "Invalid comparison operator",
            Error::InvalidState => "Invalid state",
            Error::InvalidInput => "Invalid input",
            Error::InvalidFeeConfig => "Invalid fee configuration",
            Error::ConfigurationNotFound => "Configuration not found",
            Error::AlreadyDisputed => "Already disputed",
            Error::DisputeVotingPeriodExpired => "Dispute voting period expired",
            Error::DisputeVotingNotAllowed => "Dispute voting not allowed",
            Error::DisputeAlreadyVoted => "Already voted in dispute",
            Error::DisputeResolutionConditionsNotMet => "Dispute resolution conditions not met",
            Error::DisputeFeeDistributionFailed => "Dispute fee distribution failed",
            Error::DisputeEscalationNotAllowed => "Dispute escalation not allowed",
            Error::ThresholdBelowMinimum => "Threshold below minimum",
            Error::ThresholdExceedsMaximum => "Threshold exceeds maximum",
            Error::FeeAlreadyCollected => "Fee already collected",
            Error::InvalidOracleFeed => "Invalid oracle feed",
            Error::NoFeesToCollect => "No fees to collect",
            Error::InvalidExtensionDays => "Invalid extension days",
            Error::ExtensionDaysExceeded => "Extension days exceeded",
            Error::MarketExtensionNotAllowed => "Market extension not allowed",
            Error::ExtensionFeeInsufficient => "Extension fee insufficient",
            Error::AdminNotSet => "Admin address is not set (initialization missing)",
            Error::AuditNotInitialized => "Audit system is not initialized",
            Error::AuditItemNotFound => "Audit item not found",
            Error::AuditAlreadyCompleted => "Audit is already completed",
            Error::AuditRequirementsNotMet => "Audit requirements not met for deployment",
            Error::InvalidAuditCategory => "Invalid audit category",
            Error::InvalidAuditPriority => "Invalid audit priority",
            Error::AuditPermissionDenied => "Permission denied for audit operation",
            Error::AuditValidationFailed => "Audit validation failed",
            Error::InvalidTimeoutHours => "Invalid timeout hours specified",
            Error::DisputeTimeoutNotExpired => "Dispute timeout period has not expired yet",
            Error::DisputeTimeoutExtensionNotAllowed => "Dispute timeout extension is not allowed",
            Error::DisputeTimeoutNotSet => "Dispute timeout is not set",
        }
    }

    /// The error's code as an upper-case string.
    pub fn code(&self) -> (r: &'static str)
        ensures
            r@ == spec_error_code(*self),
    {
        match self {
            Error::Unauthorized => "UNAUTHORIZED",
            Error::MarketNotFound => "MARKET_NOT_FOUND",
            Error::MarketClosed => "MARKET_CLOSED",
            Error::MarketAlreadyResolved => "MARKET_ALREADY_RESOLVED",
            Error::MarketNotResolved => "MARKET_NOT_RESOLVED",
            Error::NothingToClaim => "NOTHING_TO_CLAIM",
            Error::AlreadyClaimed => "ALREADY_CLAIMED",
            Error::InsufficientStake => "INSUFFICIENT_STAKE",
            Error::InvalidOutcome => "INVALID_OUTCOME",
            Error::AlreadyVoted => "ALREADY_VOTED",
            Error::OracleUnavailable => "ORACLE_UNAVAILABLE",
            Error::InvalidOracleConfig => "INVALID_ORACLE_CONFIG",
            Error::OraclePriceOutOfRange => "ORACLE_PRICE_OUT_OF_RANGE",
            Error::InvalidQuestion => "INVALID_QUESTION",
            Error::InvalidOutcomes => "INVALID_OUTCOMES",
            Error::InvalidDuration => "INVALID_DURATION",
            Error::InvalidThreshold => "INVALID_THRESHOLD",
            Error::InvalidComparison => "INVALID_COMPARISON",
            Error::InvalidState => "INVALID_STATE",
            Error::InvalidInput => "INVALID_INPUT",
            Error::InvalidFeeConfig => "INVALID_FEE_CONFIG",
            Error::ConfigurationNotFound => "CONFIGURATION_NOT_FOUND",
            Error::AlreadyDisputed => "ALREADY_DISPUTED",
            Error::DisputeVotingPeriodExpired => "DISPUTE_VOTING_PERIOD_EXPIRED",
            Error::DisputeVotingNotAllowed => "DISPUTE_VOTING_NOT_ALLOWED",
            Error::DisputeAlreadyVoted => "DISPUTE_ALREADY_VOTED",
            Error::DisputeResolutionConditionsNotMet => "DISPUTE_RESOLUTION_CONDITIONS_NOT_MET",
            Error::DisputeFeeDistributionFailed => "DISPUTE_FEE_DISTRIBUTION_FAILED",
            Error::DisputeEscalationNotAllowed => "DISPUTE_ESCALATION_NOT_ALLOWED",
            Error::ThresholdBelowMinimum => "THRESHOLD_BELOW_MINIMUM",
            Error::ThresholdExceedsMaximum => "THRESHOLD_EXCEEDS_MAXIMUM",
            Error::FeeAlreadyCollected => "FEE_ALREADY_COLLECTED",
            Error::InvalidOracleFeed => "INVALID_ORACLE_FEED",
            Error::NoFeesToCollect => "NO_FEES_TO_COLLECT",
            Error::InvalidExtensionDays => "INVALID_EXTENSION_DAYS",
            Error::ExtensionDaysExceeded => "EXTENSION_DAYS_EXCEEDED",
            Error::MarketExtensionNotAllowed => "MARKET_EXTENSION_NOT_ALLOWED",
            Error::ExtensionFeeInsufficient => "EXTENSION_FEE_INSUFFICIENT",
            Error::AdminNotSet => "ADMIN_NOT_SET",
            Error::AuditNotInitialized => "AUDIT_NOT_INITIALIZED",
            Error::AuditItemNotFound => "AUDIT_ITEM_NOT_FOUND",
            Error::AuditAlreadyCompleted => "AUDIT_ALREADY_COMPLETED",
            Error::AuditRequirementsNotMet => "AUDIT_REQUIREMENTS_NOT_MET",
            Error::InvalidAuditCategory => "INVALID_AUDIT_CATEGORY",
            Error::InvalidAuditPriority => "INVALID_AUDIT_PRIORITY",
            Error::AuditPermissionDenied => "AUDIT_PERMISSION_DENIED",
            Error::AuditValidationFailed => "AUDIT_VALIDATION_FAILED",
            Error::InvalidTimeoutHours => "INVALID_TIMEOUT_HOURS",
            Error::DisputeTimeoutNotExpired => "DISPUTE_TIMEOUT_NOT_EXPIRED",
            Error::DisputeTimeoutExtensionNotAllowed => "DISPUTE_TIMEOUT_EXTENSION_NOT_ALLOWED",
            Error::DisputeTimeoutNotSet => "DISPUTE_TIMEOUT_NOT_SET",
        }
    }

    /// The error's stable numeric code.
    pub fn as_u32(&self) -> (r: u32)
        ensures
            r == spec_error_number(*self),
    {
        match self {
            Error::Unauthorized => 100,
            Error::MarketNotFound => 101,
            Error::MarketClosed => 102,
            Error::MarketAlreadyResolved => 103,
            Error::MarketNotResolved => 104,
            Error::NothingToClaim => 105,
            Error::AlreadyClaimed => 106,
            Error::InsufficientStake => 107,
            Error::InvalidOutcome => 108,
            Error::AlreadyVoted => 109,
            Error::OracleUnavailable => 200,
            Error::InvalidOracleConfig => 201,
            Error::OraclePriceOutOfRange => 202,
            Error::InvalidQuestion => 300,
            Error::InvalidOutcomes => 301,
            Error::InvalidDuration => 302,
            Error::InvalidThreshold => 303,
            Error::InvalidComparison => 304,
            Error::InvalidState => 400,
            Error::InvalidInput => 401,
            Error::InvalidFeeConfig => 402,
            Error::ConfigurationNotFound => 403,
            Error::AlreadyDisputed => 404,
            Error::DisputeVotingPeriodExpired => 405,
            Error::DisputeVotingNotAllowed => 406,
            Error::DisputeAlreadyVoted => 407,
            Error::DisputeResolutionConditionsNotMet => 408,
            Error::DisputeFeeDistributionFailed => 409,
            Error::DisputeEscalationNotAllowed => 410,
            Error::ThresholdBelowMinimum => 411,
            Error::ThresholdExceedsMaximum => 412,
            Error::FeeAlreadyCollected => 413,
            Error::InvalidOracleFeed => 414,
            Error::NoFeesToCollect => 415,
            Error::InvalidExtensionDays => 416,
            Error::ExtensionDaysExceeded => 417,
            Error::MarketExtensionNotAllowed => 418,
            Error::ExtensionFeeInsufficient => 419,
            Error::AdminNotSet => 420,
            Error::AuditNotInitialized => 500,
            Error::AuditItemNotFound => 501,
            Error::AuditAlreadyCompleted => 502,
            Error::AuditRequirementsNotMet => 503,
            Error::InvalidAuditCategory => 504,
            Error::InvalidAuditPriority => 505,
            Error::AuditPermissionDenied => 506,
            Error::AuditValidationFailed => 507,
            Error::InvalidTimeoutHours => 600,
            Error::DisputeTimeoutNotExpired => 601,
            Error::DisputeTimeoutExtensionNotAllowed => 602,
            Error::DisputeTimeoutNotSet => 603,
        }
    }
}

} // verus!
