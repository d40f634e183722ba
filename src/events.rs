//! Helpers for reasoning about event timestamps.

use vstd::prelude::*;

use crate::errors::Error;

verus! {

/// Timestamp helpers for events.
pub struct EventHelpers;

/// Seconds elapsed from `event` to `current`, 0 when the event lies ahead.
pub open spec fn spec_event_age(current: u64, event: u64) -> u64 {
    if current >= event {
        (current - event) as u64
    } else {
        0
    }
}

impl EventHelpers {
    /// Whether a timestamp lies in the plausible Unix range: after the epoch
    /// and before 9_999_999_999.
    pub fn is_valid_timestamp(timestamp: u64) -> (r: bool)
        ensures
            r == (0 < timestamp < 9_999_999_999),
    {
        timestamp > 0 && timestamp < 9_999_999_999
    }

    /// Seconds elapsed since the event, 0 when it lies ahead.
    pub fn get_event_age(current_timestamp: u64, event_timestamp: u64) -> (r: u64)
        ensures
            r == spec_event_age(current_timestamp, event_timestamp),
    {
        if current_timestamp >= event_timestamp {
            current_timestamp - event_timestamp
        } else {
            0
        }
    }

    /// Whether the event happened at most `recent_threshold` seconds ago.
    pub fn is_recent_event(event_timestamp: u64, current_timestamp: u64, recent_threshold: u64) -> (r:
        bool)
        ensures
            r == (spec_event_age(current_timestamp, event_timestamp) <= recent_threshold),
    {
        Self::get_event_age(current_timestamp, event_timestamp) <= recent_threshold
    }
}

/// Helpers for checking events in tests.
pub struct EventTestingUtils;

impl EventTestingUtils {
    /// Every event value has a valid structure: the check always passes.
    pub fn validate_test_event_structure<T: Clone>(_event: &T) -> (r: Result<(), Error>)
        ensures
            r is Ok,
    {
        Ok(())
    }
}

} // verus!
