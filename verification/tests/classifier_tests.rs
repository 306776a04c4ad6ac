use chat_sweeper::classify::{
    cadence_gap_days_for, last_message_is_old, messages_count_is_too_small,
    old_messages_count_limit_reached, stale_days_for, ChatKind,
};
use chat_sweeper::clock::{elapsed_days, time_of_day, whole_days};
use chat_sweeper::message::MessageInfo;

fn message(id: i32, timestamp: i64) -> MessageInfo {
    MessageInfo {
        id,
        timestamp,
        action: None,
    }
}

#[test]
fn sample_size_threshold_is_two() {
    assert!(messages_count_is_too_small(0));
    assert!(messages_count_is_too_small(1));
    assert!(!messages_count_is_too_small(2));
    assert!(!messages_count_is_too_small(15));
}

#[test]
fn time_of_day_wraps_at_one_day() {
    assert_eq!(time_of_day(0), 0);
    assert_eq!(time_of_day(82800), 82800);
    assert_eq!(time_of_day(86400), 0);
    assert_eq!(time_of_day(40 * 86400 + 3600), 3600);
    assert_eq!(time_of_day(-1), 86399);
    assert_eq!(time_of_day(-86400), 0);
}

#[test]
fn whole_days_truncates_toward_zero() {
    assert_eq!(whole_days(0), 0);
    assert_eq!(whole_days(86399), 0);
    assert_eq!(whole_days(86400), 1);
    assert_eq!(whole_days(-86399), 0);
    assert_eq!(whole_days(-86400), -1);
    assert_eq!(whole_days(3600 - 82800), 0);
}

#[test]
fn thresholds_double_for_channel_kinds() {
    assert_eq!(stale_days_for(&ChatKind::Group), 30);
    assert_eq!(stale_days_for(&ChatKind::User), 30);
    assert_eq!(stale_days_for(&ChatKind::Megagroup), 60);
    assert_eq!(stale_days_for(&ChatKind::Broadcast), 60);
    assert_eq!(stale_days_for(&ChatKind::Gigagroup), 60);
    for kind in [ChatKind::Megagroup, ChatKind::Broadcast, ChatKind::Gigagroup] {
        assert_eq!(stale_days_for(&kind), 2 * stale_days_for(&ChatKind::Group));
        assert_eq!(
            cadence_gap_days_for(&kind),
            2 * cadence_gap_days_for(&ChatKind::Group)
        );
    }
    assert_eq!(cadence_gap_days_for(&ChatKind::Group), 30);
}

#[test]
fn last_message_age_uses_time_of_day_only() {
    // Sent at 23:00; "now" is 01:00, forty calendar days later. The
    // elapsed computation sees only the two times of day, two hours
    // apart and negative, so the message does not count as old.
    let sent = message(1, 82800);
    let now_tod = time_of_day(40 * 86400 + 3600);
    assert_eq!(now_tod, 3600);
    assert!(!last_message_is_old(&sent, now_tod, 30));
    // Even a zero-day threshold is not exceeded: the whole-day span of
    // a within-day difference is zero, never more.
    assert!(!last_message_is_old(&sent, now_tod, 0));
    // A negative threshold is exceeded by the zero span.
    assert!(last_message_is_old(&sent, now_tod, -1));
    assert_eq!(elapsed_days(now_tod, 82800), 0);
}

#[test]
fn uniform_one_day_cadence_shows_no_gap() {
    // Fifteen messages, newest first, exactly one day apart: every
    // time-of-day difference is zero whole days, so no pair reaches a
    // thirty-day gap.
    let sample: Vec<MessageInfo> = (0..15)
        .map(|i| message(15 - i, (15 - i) as i64 * 86400))
        .collect();
    assert_eq!(sample.len(), 15);
    assert!(!old_messages_count_limit_reached(&sample, 30));
}

#[test]
fn cadence_limit_reached_at_five_gaps() {
    // With a zero-day threshold every oldest-first pair of messages
    // with equal times of day counts as a gap: fourteen gaps, well over
    // the five the rule asks for.
    let sample: Vec<MessageInfo> = (0..15).map(|i| message(i, 0)).collect();
    assert!(old_messages_count_limit_reached(&sample, 0));
    // Two messages give one pair: one gap is not five.
    let sample: Vec<MessageInfo> = (0..2).map(|i| message(i, 0)).collect();
    assert!(!old_messages_count_limit_reached(&sample, 0));
    // Six messages give five pairs: exactly five gaps reach the limit.
    let sample: Vec<MessageInfo> = (0..6).map(|i| message(i, 0)).collect();
    assert!(old_messages_count_limit_reached(&sample, 0));
    // One message has no pair at all.
    let sample = vec![message(1, 0)];
    assert!(!old_messages_count_limit_reached(&sample, 0));
}
