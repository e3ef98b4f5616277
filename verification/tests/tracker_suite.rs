use std::cell::RefCell;
use worker_pool::tracker::{quota_level, LimitTracker, Messenger, QuotaLevel};

struct MockMessenger {
    sent_messages: RefCell<Vec<String>>,
}

impl MockMessenger {
    fn new() -> MockMessenger {
        MockMessenger { sent_messages: RefCell::new(vec![]) }
    }
}

impl Messenger for MockMessenger {
    fn send(&self, message: &str) {
        self.sent_messages.borrow_mut().push(String::from(message));
    }
}

#[test]
fn it_sends_an_over_75_percent_warning_message() {
    let mock_messenger = MockMessenger::new();
    let mut limit_tracker = LimitTracker::new(&mock_messenger, 100);

    limit_tracker.set_value(80);

    assert_eq!(mock_messenger.sent_messages.borrow().len(), 1);
}

#[test]
fn warning_message_text_is_the_75_percent_one() {
    let mock_messenger = MockMessenger::new();
    let mut limit_tracker = LimitTracker::new(&mock_messenger, 100);

    limit_tracker.set_value(80);

    assert_eq!(
        mock_messenger.sent_messages.borrow()[0],
        "Warning: You've used up over 75% of your quota!"
    );
}

#[test]
fn over_quota_sends_the_error_message() {
    let mock_messenger = MockMessenger::new();
    let mut limit_tracker = LimitTracker::new(&mock_messenger, 100);

    limit_tracker.set_value(100);

    let sent = mock_messenger.sent_messages.borrow();
    assert_eq!(sent.len(), 1);
    assert_eq!(sent[0], "Error: You are over your quota!");
}

#[test]
fn ninety_percent_sends_the_urgent_message() {
    let mock_messenger = MockMessenger::new();
    let mut limit_tracker = LimitTracker::new(&mock_messenger, 100);

    limit_tracker.set_value(90);

    let sent = mock_messenger.sent_messages.borrow();
    assert_eq!(sent.len(), 1);
    assert_eq!(sent[0], "Urgent warning: You've used up over 90% of your quota!");
}

#[test]
fn low_value_sends_nothing() {
    let mock_messenger = MockMessenger::new();
    let mut limit_tracker = LimitTracker::new(&mock_messenger, 100);

    limit_tracker.set_value(74);

    assert_eq!(mock_messenger.sent_messages.borrow().len(), 0);
}

#[test]
fn quota_level_thresholds_are_sharp() {
    assert_eq!(quota_level(74, 100), QuotaLevel::Normal);
    assert_eq!(quota_level(75, 100), QuotaLevel::Warning);
    assert_eq!(quota_level(89, 100), QuotaLevel::Warning);
    assert_eq!(quota_level(90, 100), QuotaLevel::Urgent);
    assert_eq!(quota_level(99, 100), QuotaLevel::Urgent);
    assert_eq!(quota_level(100, 100), QuotaLevel::OverQuota);
    assert_eq!(quota_level(250, 100), QuotaLevel::OverQuota);
}

#[test]
fn quota_level_zero_maximum() {
    assert_eq!(quota_level(0, 0), QuotaLevel::Normal);
    assert_eq!(quota_level(1, 0), QuotaLevel::OverQuota);
}

#[test]
fn quota_level_large_values_do_not_overflow() {
    assert_eq!(quota_level(usize::MAX - 1, usize::MAX), QuotaLevel::Urgent);
    assert_eq!(quota_level(usize::MAX, usize::MAX), QuotaLevel::OverQuota);
}
