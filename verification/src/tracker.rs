//! A tracker that watches a value against a maximum quota and warns its
//! messenger as the value crosses three thresholds.

use vstd::prelude::*;

verus! {

/// Something that can be told about the quota; the tracker only ever calls
/// `send`. Library users provide the implementation.
pub trait Messenger {
    fn send(&self, msg: &str);
}

/// How close a value stands to its maximum.
#[derive(Debug, PartialEq, Eq, Structural, Clone, Copy)]
pub enum QuotaLevel {
    /// Below three quarters of the maximum: nothing to say.
    Normal,
    /// At or above three quarters of the maximum.
    Warning,
    /// At or above nine tenths of the maximum.
    Urgent,
    /// At or above the maximum itself.
    OverQuota,
}

/// Where `value` stands relative to `max`: at or over the maximum, at or over
/// nine tenths of it, at or over three quarters of it, or below all three
/// thresholds. A zero maximum with a zero value reports nothing.
pub open spec fn quota_level_spec(value: int, max: int) -> QuotaLevel {
    if value == 0 && max == 0 {
        QuotaLevel::Normal
    } else if value >= max {
        QuotaLevel::OverQuota
    } else if 10 * value >= 9 * max {
        QuotaLevel::Urgent
    } else if 4 * value >= 3 * max {
        QuotaLevel::Warning
    } else {
        QuotaLevel::Normal
    }
}

/// Computes where `value` stands relative to `max`.
pub fn quota_level(value: usize, max: usize) -> (level: QuotaLevel)
    ensures
        level == quota_level_spec(value as int, max as int),
{
    if value == 0 && max == 0 {
        QuotaLevel::Normal
    } else if value >= max {
        QuotaLevel::OverQuota
    } else if 10 * (value as u128) >= 9 * (max as u128) {
        QuotaLevel::Urgent
    } else if 4 * (value as u128) >= 3 * (max as u128) {
        QuotaLevel::Warning
    } else {
        QuotaLevel::Normal
    }
}

/// Tracks a value against a maximum and tells its messenger whenever a set
/// value stands at or above one of the quota thresholds.
pub struct LimitTracker<'a, T: Messenger> {
    messenger: &'a T,
    value: usize,
    max: usize,
}

impl<'a, T: Messenger> LimitTracker<'a, T> {
    /// The value most recently set.
    pub closed spec fn value_spec(&self) -> usize {
        self.value
    }

    /// The maximum the value is tracked against.
    pub closed spec fn max_spec(&self) -> usize {
        self.max
    }

    /// Creates a tracker at value zero with the given maximum.
    pub fn new(messenger: &'a T, max: usize) -> (t: LimitTracker<'a, T>)
        ensures
            t.value_spec() == 0,
            t.max_spec() == max,
    {
        LimitTracker { messenger, value: 0, max }
    }

    /// Sets the tracked value, and sends the messenger exactly one message
    /// when the new value stands at or above a threshold of the maximum:
    /// over quota, nine tenths used, or three quarters used.
    pub fn set_value(&mut self, value: usize)
        ensures
            final(self).value_spec() == value,
            final(self).max_spec() == old(self).max_spec(),
    {
        self.value = value;
        match quota_level(self.value, self.max) {
            QuotaLevel::OverQuota => {
                self.messenger.send("Error: You are over your quota!");
            },
            QuotaLevel::Urgent => {
                self.messenger.send("Urgent warning: You've used up over 90% of your quota!");
            },
            QuotaLevel::Warning => {
                self.messenger.send("Warning: You've used up over 75% of your quota!");
            },
            QuotaLevel::Normal => {},
        }
    }
}

} // verus!
