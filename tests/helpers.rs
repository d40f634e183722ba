use predictify_hybrid::events::{EventHelpers, EventTestingUtils};
use predictify_hybrid::upgrade::storage_keys;

#[test]
fn event_timestamps() {
    assert!(!EventHelpers::is_valid_timestamp(0));
    assert!(EventHelpers::is_valid_timestamp(1_700_000_000));
    assert!(!EventHelpers::is_valid_timestamp(9_999_999_999));
    assert_eq!(EventHelpers::get_event_age(1_000, 400), 600);
    assert_eq!(EventHelpers::get_event_age(400, 1_000), 0);
    assert!(EventHelpers::is_recent_event(400, 1_000, 600));
    assert!(!EventHelpers::is_recent_event(399, 1_000, 600));
    assert!(EventTestingUtils::validate_test_event_structure(&42u32).is_ok());
}

#[test]
fn upgrade_storage_keys() {
    assert_eq!(storage_keys::current_version_key(), "current_version");
    assert_eq!(storage_keys::upgrade_history_key(), "upgrade_history");
    assert_eq!(storage_keys::state_backup_key(), "state_backup");
    assert_eq!(storage_keys::rollback_data_key(), "rollback_data");
    assert_eq!(storage_keys::upgrade_in_progress_key(), "upgrade_in_progress");
    assert_eq!(storage_keys::last_backup_timestamp_key(), "last_backup_timestamp");
}
