//! Error values and states of contract upgrades and rollbacks.

use vstd::prelude::*;

use crate::errors::Error;

pub mod storage_keys;

verus! {

/// Failures of the upgrade system.
#[derive(Clone, Copy, Debug, PartialEq, Eq, Structural)]
pub enum UpgradeError {
    /// Upgrade is already in progress
    UpgradeInProgress,
    /// No upgrade is currently in progress
    UpgradeNotInProgress,
    /// Upgrade validation failed
    UpgradeValidationFailed,
    /// Rollback conditions not met
    RollbackConditionsNotMet,
    /// State backup failed
    BackupFailed,
    /// Failed to emit upgrade event
    UpgradeEventEmissionFailed,
    /// Invalid upgrade version
    InvalidUpgradeVersion,
    /// Upgrade history not found
    UpgradeHistoryNotFound,
    /// Previous version not found
    PreviousVersionNotFound,
    /// Admin not set
    AdminNotSet,
}

/// The human-readable message of an upgrade error.
pub open spec fn spec_upgrade_message(e: UpgradeError) -> Seq<char> {
    match e {
        UpgradeError::UpgradeInProgress => "Upgrade is already in progress"@,
        UpgradeError::UpgradeNotInProgress => "No upgrade is currently in progress"@,
        UpgradeError::UpgradeValidationFailed => "Upgrade validation failed"@,
        UpgradeError::RollbackConditionsNotMet => "Rollback conditions not met"@,
        UpgradeError::BackupFailed => "State backup failed"@,
        UpgradeError::UpgradeEventEmissionFailed => "Failed to emit upgrade event"@,
        UpgradeError::InvalidUpgradeVersion => "Invalid upgrade version"@,
        UpgradeError::UpgradeHistoryNotFound => "Upgrade history not found"@,
        UpgradeError::PreviousVersionNotFound => "Previous version not found"@,
        UpgradeError::AdminNotSet => "Admin not set"@,
    }
}

/// The upper-case code string of an upgrade error.
pub open spec fn spec_upgrade_code(e: UpgradeError) -> Seq<char> {
    match e {
        UpgradeError::UpgradeInProgress => "UPGRADE_IN_PROGRESS"@,
        UpgradeError::UpgradeNotInProgress => "UPGRADE_NOT_IN_PROGRESS"@,
        UpgradeError::UpgradeValidationFailed => "UPGRADE_VALIDATION_FAILED"@,
        UpgradeError::RollbackConditionsNotMet => "ROLLBACK_CONDITIONS_NOT_MET"@,
        UpgradeError::BackupFailed => "BACKUP_FAILED"@,
        UpgradeError::UpgradeEventEmissionFailed => "UPGRADE_EVENT_EMISSION_FAILED"@,
        UpgradeError::InvalidUpgradeVersion => "INVALID_UPGRADE_VERSION"@,
        UpgradeError::UpgradeHistoryNotFound => "UPGRADE_HISTORY_NOT_FOUND"@,
        UpgradeError::PreviousVersionNotFound => "PREVIOUS_VERSION_NOT_FOUND"@,
        UpgradeError::AdminNotSet => "ADMIN_NOT_SET"@,
    }
}

impl UpgradeError {
    /// A human-readable message for the error.
    pub fn message(&self) -> (r: &'static str)
        ensures
            r@ == spec_upgrade_message(*self),
    {
        match self {
            UpgradeError::UpgradeInProgress => "Upgrade is already in progress",
            UpgradeError::UpgradeNotInProgress => "No upgrade is currently in progress",
            UpgradeError::UpgradeValidationFailed => "Upgrade validation failed",
            UpgradeError::RollbackConditionsNotMet => "Rollback conditions not met",
            UpgradeError::BackupFailed => "State backup failed",
            UpgradeError::UpgradeEventEmissionFailed => "Failed to emit upgrade event",
            UpgradeError::InvalidUpgradeVersion => "Invalid upgrade version",
            UpgradeError::UpgradeHistoryNotFound => "Upgrade history not found",
            UpgradeError::PreviousVersionNotFound => "Previous version not found",
            UpgradeError::AdminNotSet => "Admin not set",
        }
    }

    /// The error's code as an upper-case string.
    pub fn code(&self) -> (r: &'static str)
        ensures
            r@ == spec_upgrade_code(*self),
    {
        match self {
            UpgradeError::UpgradeInProgress => "UPGRADE_IN_PROGRESS",
            UpgradeError::UpgradeNotInProgress => "UPGRADE_NOT_IN_PROGRESS",
            UpgradeError::UpgradeValidationFailed => "UPGRADE_VALIDATION_FAILED",
            UpgradeError::RollbackConditionsNotMet => "ROLLBACK_CONDITIONS_NOT_MET",
            UpgradeError::BackupFailed => "BACKUP_FAILED",
            UpgradeError::UpgradeEventEmissionFailed => "UPGRADE_EVENT_EMISSION_FAILED",
            UpgradeError::InvalidUpgradeVersion => "INVALID_UPGRADE_VERSION",
            UpgradeError::UpgradeHistoryNotFound => "UPGRADE_HISTORY_NOT_FOUND",
            UpgradeError::PreviousVersionNotFound => "PREVIOUS_VERSION_NOT_FOUND",
            UpgradeError::AdminNotSet => "ADMIN_NOT_SET",
        }
    }
}

/// The upgrade error that a ledger error stands for: a missing or wrong
/// administrator becomes `AdminNotSet`, anything else a failed validation.
pub open spec fn spec_upgrade_error_from(error: Error) -> UpgradeError {
    match error {
        Error::Unauthorized => UpgradeError::AdminNotSet,
        Error::AdminNotSet => UpgradeError::AdminNotSet,
        _ => UpgradeError::UpgradeValidationFailed,
    }
}

impl From<Error> for UpgradeError {
    fn from(error: Error) -> (r: UpgradeError) {
        match error {
            Error::Unauthorized => UpgradeError::AdminNotSet,
            Error::AdminNotSet => UpgradeError::AdminNotSet,
            _ => UpgradeError::UpgradeValidationFailed,
        }
    }
}

impl vstd::std_specs::convert::FromSpecImpl<Error> for UpgradeError {
    open spec fn obeys_from_spec() -> bool {
        true
    }

    open spec fn from_spec(error: Error) -> UpgradeError {
        spec_upgrade_error_from(error)
    }
}

/// Progress of an upgrade.
#[derive(Clone, Copy, Debug, PartialEq, Eq, Structural)]
pub enum UpgradeStatus {
    Initiated,
    Validating,
    ValidationPassed,
    ValidationFailed,
    InProgress,
    Completed,
    Failed,
    RolledBack,
}

/// Progress of a rollback.
#[derive(Clone, Copy, Debug, PartialEq, Eq, Structural)]
pub enum RollbackStatus {
    Initiated,
    InProgress,
    Completed,
    Failed,
}

/// Risk of an upgrade.
#[derive(Clone, Copy, Debug, PartialEq, Eq, Structural)]
pub enum RiskLevel {
    Low,
    Medium,
    High,
    Critical,
}

} // verus!
