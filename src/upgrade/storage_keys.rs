//! Storage key names of the upgrade system.

use vstd::prelude::*;

verus! {

/// The key `current_version`.
pub fn current_version_key() -> (r: &'static str)
    ensures
        r@ == "current_version"@,
{
    "current_version"
}

/// The key `upgrade_history`.
pub fn upgrade_history_key() -> (r: &'static str)
    ensures
        r@ == "upgrade_history"@,
{
    "upgrade_history"
}

/// The key `state_backup`.
pub fn state_backup_key() -> (r: &'static str)
    ensures
        r@ == "state_backup"@,
{
    "state_backup"
}

/// The key `rollback_data`.
pub fn rollback_data_key() -> (r: &'static str)
    ensures
        r@ == "rollback_data"@,
{
    "rollback_data"
}

/// The key `upgrade_in_progress`.
pub fn upgrade_in_progress_key() -> (r: &'static str)
    ensures
        r@ == "upgrade_in_progress"@,
{
    "upgrade_in_progress"
}

/// The key `last_backup_timestamp`.
pub fn last_backup_timestamp_key() -> (r: &'static str)
    ensures
        r@ == "last_backup_timestamp"@,
{
    "last_backup_timestamp"
}

} // verus!
