//! The staleness classifier: pure predicates over a bounded message
//! sample, parameterized by two day thresholds derived from the chat
//! kind.
//!
//! All elapsed-time tests go through [`crate::clock`], which measures
//! only the time-of-day component of each timestamp. A consequence,
//! stated in [`lemma_last_message_never_old`] and
//! [`lemma_gap_count_zero`], is that thresholds of one day or more are
//! never exceeded; the behaviour is kept for compatibility.

use vstd::prelude::*;
use crate::clock::{
    elapsed_days, lemma_elapsed_days_within_day, spec_elapsed_days, spec_time_of_day, time_of_day,
    valid_time_of_day,
};
use crate::message::MessageInfo;

verus! {

/// Base threshold, in days, for the last-message recency test.
pub const OLD_MESSAGE_ELAPSED_DAYS: i64 = 30;

/// Base threshold, in days, for a cadence gap between consecutive
/// messages.
pub const ELAPSED_DAYS_BETWEEN_OLD_MESSAGES: i64 = OLD_MESSAGE_ELAPSED_DAYS;

/// Channel-kind chats use thresholds doubled by this factor.
pub const CHANNEL_ELAPSED_MULTIPLIER: i64 = 2;

/// Size of the bounded message sample fetched per chat.
pub const LAST_MESSAGES_LIMIT: usize = 15;

/// Number of cadence gaps at which a sample counts as stale.
pub const OLD_MESSAGES_COUNT: usize = LAST_MESSAGES_LIMIT / 3;

/// Kind of a chat, as the dialog list reports it. Direct-user chats are
/// never classified; the enumerators filter them out first.
#[derive(Debug, Clone, Copy, PartialEq, Eq)]
pub enum ChatKind {
    User,
    Group,
    Megagroup,
    Broadcast,
    Gigagroup,
}

/// The channel kinds: the ones whose thresholds are doubled.
pub open spec fn spec_is_channel_kind(kind: ChatKind) -> bool {
    kind is Megagroup || kind is Broadcast || kind is Gigagroup
}

/// Days a last message may be old before the chat counts as stale, for
/// a chat of the given kind.
pub open spec fn spec_stale_days(kind: ChatKind) -> int {
    if spec_is_channel_kind(kind) {
        60
    } else {
        30
    }
}

/// Days between consecutive messages at which a cadence gap is counted,
/// for a chat of the given kind. Equal to the stale-day threshold by
/// design.
pub open spec fn spec_cadence_gap_days(kind: ChatKind) -> int {
    spec_stale_days(kind)
}

/// The last-message threshold for a chat of the given kind: the base
/// value, doubled for channel kinds.
pub fn stale_days_for(kind: &ChatKind) -> (r: i64)
    ensures
        r == spec_stale_days(*kind),
{
    match kind {
        ChatKind::Megagroup | ChatKind::Broadcast | ChatKind::Gigagroup => {
            OLD_MESSAGE_ELAPSED_DAYS * CHANNEL_ELAPSED_MULTIPLIER
        },
        ChatKind::User | ChatKind::Group => OLD_MESSAGE_ELAPSED_DAYS,
    }
}

/// The cadence-gap threshold for a chat of the given kind: the base
/// value, doubled for channel kinds.
pub fn cadence_gap_days_for(kind: &ChatKind) -> (r: i64)
    ensures
        r == spec_cadence_gap_days(*kind),
{
    match kind {
        ChatKind::Megagroup | ChatKind::Broadcast | ChatKind::Gigagroup => {
            ELAPSED_DAYS_BETWEEN_OLD_MESSAGES * CHANNEL_ELAPSED_MULTIPLIER
        },
        ChatKind::User | ChatKind::Group => ELAPSED_DAYS_BETWEEN_OLD_MESSAGES,
    }
}

/// The thresholds a channel kind uses are exactly twice the ones a
/// plain chat or group uses.
pub proof fn lemma_channel_thresholds_doubled(kind: ChatKind)
    requires
        spec_is_channel_kind(kind),
    ensures
        spec_stale_days(kind) == 2 * spec_stale_days(ChatKind::Group),
        spec_cadence_gap_days(kind) == 2 * spec_cadence_gap_days(ChatKind::Group),
{
}

/// A sample of fewer than two messages is too small to judge.
pub fn messages_count_is_too_small(messages_count: usize) -> (r: bool)
    ensures
        r == (messages_count < 2),
{
    messages_count < 2
}

/// Whether a last message is old: the days elapsed from its
/// time-of-day to `now_tod` exceed the threshold.
pub open spec fn spec_last_message_is_old(
    message: MessageInfo,
    now_tod: int,
    old_message_elapsed_days: int,
) -> bool {
    spec_elapsed_days(now_tod, spec_time_of_day(message.timestamp as int))
        > old_message_elapsed_days
}

/// Tests whether the last message of a chat is old.
pub fn last_message_is_old(
    message: &MessageInfo,
    now_tod: i64,
    old_message_elapsed_days: i64,
) -> (r: bool)
    requires
        valid_time_of_day(now_tod as int),
    ensures
        r == spec_last_message_is_old(*message, now_tod as int, old_message_elapsed_days as int),
{
    let last_message_tod = time_of_day(message.timestamp);
    elapsed_days(now_tod, last_message_tod) > old_message_elapsed_days
}

/// With any valid time of day for `now`, the last-message test never
/// fires for a threshold of zero days or more: the time-of-day distance
/// is always zero whole days.
pub proof fn lemma_last_message_never_old(
    message: MessageInfo,
    now_tod: int,
    old_message_elapsed_days: int,
)
    requires
        valid_time_of_day(now_tod),
        old_message_elapsed_days >= 0,
    ensures
        !spec_last_message_is_old(message, now_tod, old_message_elapsed_days),
{
    lemma_elapsed_days_within_day(now_tod, spec_time_of_day(message.timestamp as int));
}

/// Whether the pair of a message and the one delivered just before it
/// (its elder, in newest-first order) shows a cadence gap: the
/// time-of-day span from the older to the newer, in whole days, reaches
/// the threshold.
pub open spec fn spec_is_gap(older: MessageInfo, newer: MessageInfo, gap_days: int) -> bool {
    spec_elapsed_days(
        spec_time_of_day(older.timestamp as int),
        spec_time_of_day(newer.timestamp as int),
    ) >= gap_days
}

/// Number of cadence gaps among the consecutive pairs of a newest-first
/// sample, walked oldest first.
pub open spec fn spec_gap_count(messages: Seq<MessageInfo>, gap_days: int) -> int
    decreases messages.len(),
{
    if messages.len() < 2 {
        0
    } else {
        spec_gap_count(messages.drop_last(), gap_days) + if spec_is_gap(
            messages[messages.len() - 1],
            messages[messages.len() - 2],
            gap_days,
        ) {
            1int
        } else {
            0int
        }
    }
}

/// For a gap threshold of one day or more, no pair ever shows a gap:
/// the gap count of any sample is zero.
pub proof fn lemma_gap_count_zero(messages: Seq<MessageInfo>, gap_days: int)
    requires
        gap_days >= 1,
    ensures
        spec_gap_count(messages, gap_days) == 0,
    decreases messages.len(),
{
    if messages.len() >= 2 {
        lemma_gap_count_zero(messages.drop_last(), gap_days);
        let older = messages[messages.len() - 1];
        let newer = messages[messages.len() - 2];
        lemma_elapsed_days_within_day(
            spec_time_of_day(older.timestamp as int),
            spec_time_of_day(newer.timestamp as int),
        );
    }
}

/// Whether a sample shows enough cadence gaps to count as stale: walked
/// oldest first, the consecutive pairs whose time-of-day span reaches
/// `elapsed_days_between_old_messages` are counted, and the limit is
/// reached at [`OLD_MESSAGES_COUNT`] gaps.
pub fn old_messages_count_limit_reached(
    messages: &Vec<MessageInfo>,
    elapsed_days_between_old_messages: i64,
) -> (r: bool)
    requires
        messages.len() >= 1,
    ensures
        r == (spec_gap_count(messages@, elapsed_days_between_old_messages as int)
            >= OLD_MESSAGES_COUNT),
{
    let n = messages.len();
    let mut old_messages_count: usize = 0;
    let mut j: usize = 1;
    while j < n
        invariant
            1 <= j <= n,
            n == messages.len(),
            old_messages_count < j,
            old_messages_count == spec_gap_count(
                messages@.take(j as int),
                elapsed_days_between_old_messages as int,
            ),
        decreases n - j,
    {
        let older_tod = time_of_day(messages[j].timestamp);
        let newer_tod = time_of_day(messages[j - 1].timestamp);
        if elapsed_days(older_tod, newer_tod) >= elapsed_days_between_old_messages {
            old_messages_count = old_messages_count + 1;
        }
        proof {
            assert(messages@.take(j + 1int).drop_last() =~= messages@.take(j as int));
            assert(messages@.take(j + 1int)[j as int] == messages@[j as int]);
            assert(messages@.take(j + 1int)[j - 1int] == messages@[j - 1int]);
        }
        j = j + 1;
    }
    proof {
        assert(messages@.take(n as int) =~= messages@);
    }
    old_messages_count >= OLD_MESSAGES_COUNT
}

} // verus!
