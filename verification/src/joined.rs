//! Decisions of the joined-chat walk.
//!
//! The dialog list is streamed one entry at a time by the surrounding
//! application; for each entry the decision is taken here. Direct-user
//! chats are skipped; a chat without a last message is flagged at once;
//! a stale last message is flagged without fetching more; otherwise a
//! bounded sample must be fetched and judged by
//! [`classify_joined_sample`]. Any error while listing dialogs or
//! messages aborts the whole joined pass; the application propagates it
//! without consulting this module.

use vstd::prelude::*;
use crate::classify::{
    cadence_gap_days_for, last_message_is_old, messages_count_is_too_small,
    old_messages_count_limit_reached, spec_cadence_gap_days, spec_gap_count,
    spec_last_message_is_old, spec_stale_days, stale_days_for, ChatKind, OLD_MESSAGES_COUNT,
};
use crate::clock::valid_time_of_day;
use crate::message::MessageInfo;
use crate::verdict::{ChatProfile, Evidence, Reason, Subject, Verdict};

verus! {

/// What to do with one dialog entry.
#[derive(Debug, Clone, PartialEq, Eq)]
pub enum JoinedStep {
    /// A direct-user chat: not represented in the analysis.
    SkipUser,
    /// A verdict, complete; move to the next dialog.
    Emit(Verdict),
    /// Fetch the bounded message sample of this chat and hand it to
    /// [`classify_joined_sample`].
    FetchSample(ChatProfile),
}

/// One entry of the dialog list: the chat and its last known message,
/// if any.
#[derive(Debug, Clone, PartialEq, Eq)]
pub struct DialogEntry {
    pub chat: ChatProfile,
    pub last_message: Option<MessageInfo>,
}

/// The decision for one dialog entry.
pub open spec fn spec_classify_dialog(entry: DialogEntry, now_tod: int) -> JoinedStep {
    if entry.chat.kind is User {
        JoinedStep::SkipUser
    } else {
        match entry.last_message {
            Option::Some(last_message) => {
                if spec_last_message_is_old(
                    last_message,
                    now_tod,
                    spec_stale_days(entry.chat.kind),
                ) {
                    JoinedStep::Emit(
                        Verdict {
                            subject: Subject::Joined(entry.chat),
                            reason: Reason::LastMessageOld,
                            evidence: Evidence::Message(last_message),
                        },
                    )
                } else {
                    JoinedStep::FetchSample(entry.chat)
                }
            },
            Option::None => JoinedStep::Emit(
                Verdict {
                    subject: Subject::Joined(entry.chat),
                    reason: Reason::MessagesEmpty,
                    evidence: Evidence::Nothing,
                },
            ),
        }
    }
}

/// Decides what to do with one dialog entry.
///
/// A chat with no last message always yields a messages-empty verdict,
/// whatever its history; a stale last message yields its verdict with
/// that message as evidence; otherwise the sample must be fetched.
pub fn classify_dialog(entry: DialogEntry, now_tod: i64) -> (r: JoinedStep)
    requires
        valid_time_of_day(now_tod as int),
    ensures
        r == spec_classify_dialog(entry, now_tod as int),
        (r matches JoinedStep::Emit(v) ==> v.wf() && v.subject is Joined),
        (!(entry.chat.kind is User) && entry.last_message is None ==> (r matches JoinedStep::Emit(
            v,
        ) && v.reason is MessagesEmpty)),
{
    match entry.chat.kind {
        ChatKind::User => JoinedStep::SkipUser,
        _ => {
            let threshold = stale_days_for(&entry.chat.kind);
            match entry.last_message {
                Option::Some(last_message) => {
                    if last_message_is_old(&last_message, now_tod, threshold) {
                        JoinedStep::Emit(
                            Verdict {
                                subject: Subject::Joined(entry.chat),
                                reason: Reason::LastMessageOld,
                                evidence: Evidence::Message(last_message),
                            },
                        )
                    } else {
                        JoinedStep::FetchSample(entry.chat)
                    }
                },
                Option::None => JoinedStep::Emit(
                    Verdict {
                        subject: Subject::Joined(entry.chat),
                        reason: Reason::MessagesEmpty,
                        evidence: Evidence::Nothing,
                    },
                ),
            }
        },
    }
}

/// The verdict, if any, for a fetched sample of a joined chat: too few
/// messages, or enough cadence gaps over the whole sample; otherwise
/// the chat is considered active and excluded from the results.
pub open spec fn spec_classify_joined_sample(chat: ChatProfile, sample: Vec<MessageInfo>) -> Option<
    Verdict,
> {
    if sample@.len() < 2 {
        Option::Some(
            Verdict {
                subject: Subject::Joined(chat),
                reason: Reason::MessagesTooFew,
                evidence: Evidence::Sample(sample),
            },
        )
    } else if spec_gap_count(sample@, spec_cadence_gap_days(chat.kind)) >= OLD_MESSAGES_COUNT {
        Option::Some(
            Verdict {
                subject: Subject::Joined(chat),
                reason: Reason::LastMessagesOld,
                evidence: Evidence::Sample(sample),
            },
        )
    } else {
        Option::None
    }
}

/// Judges the fetched sample of a joined chat.
///
/// A sample of fewer than two messages always yields a
/// messages-too-few verdict, regardless of its timestamps; otherwise
/// the cadence test over the whole sample decides.
pub fn classify_joined_sample(chat: ChatProfile, sample: Vec<MessageInfo>) -> (r: Option<Verdict>)
    ensures
        r == spec_classify_joined_sample(chat, sample),
        (sample@.len() < 2 ==> (r matches Option::Some(v) && v.reason is MessagesTooFew)),
        (r matches Option::Some(v) ==> v.wf() && v.subject is Joined),
{
    if messages_count_is_too_small(sample.len()) {
        Option::Some(
            Verdict {
                subject: Subject::Joined(chat),
                reason: Reason::MessagesTooFew,
                evidence: Evidence::Sample(sample),
            },
        )
    } else {
        let gap_days = cadence_gap_days_for(&chat.kind);
        if old_messages_count_limit_reached(&sample, gap_days) {
            Option::Some(
                Verdict {
                    subject: Subject::Joined(chat),
                    reason: Reason::LastMessagesOld,
                    evidence: Evidence::Sample(sample),
                },
            )
        } else {
            Option::None
        }
    }
}

/// The verdicts of a whole joined walk from entry `i` on, given each
/// entry's fetched sample where the decision asked for one, in
/// enumeration order. Direct-user chats contribute nothing. Errors
/// while listing dialogs or messages are not represented here: any such
/// error aborts the joined pass before this point.
pub open spec fn spec_joined_walk(
    entries: Seq<DialogEntry>,
    samples: Seq<Option<Vec<MessageInfo>>>,
    now_tod: int,
    i: int,
) -> Seq<Verdict>
    decreases entries.len() - i,
{
    if i < 0 || i >= entries.len() {
        Seq::empty()
    } else {
        let rest = spec_joined_walk(entries, samples, now_tod, i + 1);
        match spec_classify_dialog(entries[i], now_tod) {
            JoinedStep::SkipUser => rest,
            JoinedStep::Emit(v) => seq![v] + rest,
            JoinedStep::FetchSample(chat) => match samples[i] {
                Option::Some(sample) => match spec_classify_joined_sample(chat, sample) {
                    Option::Some(v) => seq![v] + rest,
                    Option::None => rest,
                },
                Option::None => rest,
            },
        }
    }
}

/// Walks the whole dialog list, with each entry's fetched sample
/// already in hand where one is needed, and produces the ordered
/// verdict list.
///
/// `samples` runs in step with `entries`: a sample must be present
/// exactly where the entry's classification asks for a fetch.
#[verifier::loop_isolation(false)]
pub fn joined_verdicts(
    entries: Vec<DialogEntry>,
    samples: Vec<Option<Vec<MessageInfo>>>,
    now_tod: i64,
) -> (r: Vec<Verdict>)
    requires
        valid_time_of_day(now_tod as int),
        samples@.len() == entries@.len(),
        forall|k: int|
            0 <= k < entries@.len() ==> (spec_classify_dialog(entries@[k], now_tod as int)
                is FetchSample ==> samples@[k] is Some),
    ensures
        r@ == spec_joined_walk(entries@, samples@, now_tod as int, 0),
        forall|k: int| 0 <= k < r@.len() ==> #[trigger] r@[k].wf(),
{
    let ghost all_entries = entries@;
    let ghost all_samples = samples@;
    let mut entries = entries;
    let mut samples = samples;
    let mut verdicts: Vec<Verdict> = Vec::new();
    let ghost mut i: int = 0;
    while entries.len() > 0
        invariant
            0 <= i <= all_entries.len(),
            entries@ == all_entries.skip(i),
            samples@ == all_samples.skip(i),
            forall|k: int| 0 <= k < verdicts@.len() ==> #[trigger] verdicts@[k].wf(),
            spec_joined_walk(all_entries, all_samples, now_tod as int, 0) == verdicts@
                + spec_joined_walk(all_entries, all_samples, now_tod as int, i),
        decreases entries.len(),
    {
        let entry = entries.remove(0);
        let sample = samples.remove(0);
        proof {
            assert(entry == all_entries[i]);
            assert(sample == all_samples[i]);
            assert(entries@ == all_entries.skip(i + 1));
            assert(samples@ == all_samples.skip(i + 1));
        }
        let ghost verdicts_before = verdicts@;
        let ghost w_next = spec_joined_walk(all_entries, all_samples, now_tod as int, i + 1);
        match classify_dialog(entry, now_tod) {
            JoinedStep::SkipUser => {},
            JoinedStep::Emit(v) => {
                proof {
                    assert(verdicts_before + (seq![v] + w_next) =~= verdicts_before.push(v)
                        + w_next);
                }
                verdicts.push(v);
            },
            JoinedStep::FetchSample(chat) => {
                match sample {
                    Option::Some(sample) => {
                        match classify_joined_sample(chat, sample) {
                            Option::Some(v) => {
                                proof {
                                    assert(verdicts_before + (seq![v] + w_next) =~= verdicts_before
                                        .push(v) + w_next);
                                }
                                verdicts.push(v);
                            },
                            Option::None => {},
                        }
                    },
                    Option::None => {
                        proof {
                            assert(false);
                        }
                    },
                }
            },
        }
        proof {
            i = i + 1;
        }
    }
    proof {
        assert(verdicts@ + Seq::<Verdict>::empty() =~= verdicts@);
    }
    verdicts
}

} // verus!
