//! Decisions of the left-chat walk.
//!
//! Under an active bulk-export session the left-chats list is fetched
//! once and walked record by record. Empty records and records the
//! account created are flagged at once; inaccessible (forbidden)
//! records are skipped silently; the rest need a bounded message sample,
//! fetched with the packed identity resolved here and judged by
//! [`classify_left_sample`]. An access-denied fetch skips that one
//! record; any other fetch error aborts the whole pass — the choice is
//! [`left_fetch_error_action`]'s.

use vstd::prelude::*;
use crate::classify::{
    last_message_is_old, messages_count_is_too_small, old_messages_count_limit_reached,
    spec_gap_count, spec_last_message_is_old, CHANNEL_ELAPSED_MULTIPLIER,
    ELAPSED_DAYS_BETWEEN_OLD_MESSAGES, OLD_MESSAGES_COUNT, OLD_MESSAGE_ELAPSED_DAYS,
};
use crate::clock::valid_time_of_day;
use crate::message::MessageInfo;
use crate::service::{ServiceError, ACCESS_DENIED_CODE};
use crate::verdict::{
    lemma_verdict_models_push, spec_opt_model, verdict_models, Empty, Evidence, EvidenceModel,
    LeftChannelInfo, LeftChatInfo, Reason, Subject, Verdict, VerdictModel,
};

verus! {

/// The packed identity kinds a message fetch can be scoped to.
#[derive(Debug, Clone, Copy, PartialEq, Eq)]
pub enum PackedKind {
    Chat,
    Megagroup,
    Broadcast,
    Gigagroup,
}

/// The packed identity to fetch a left chat's messages with.
#[derive(Debug, Clone, Copy, PartialEq, Eq)]
pub struct ChatTarget {
    pub kind: PackedKind,
    pub id: i64,
    pub access_hash: Option<i64>,
}

/// One record of the left-chats list.
#[derive(Debug, Clone, PartialEq, Eq)]
pub enum LeftRecord {
    /// A record of which nothing but the identifier is left.
    Empty { id: i64 },
    /// A previously-left plain chat.
    Chat(LeftChatInfo),
    /// A previously-left channel.
    Channel(LeftChannelInfo),
    /// A chat the account may no longer access.
    Forbidden { id: i64 },
    /// A channel the account may no longer access.
    ChannelForbidden { id: i64 },
}

/// What to do with one left-chat record.
#[derive(Debug, Clone, PartialEq, Eq)]
pub enum LeftStep {
    /// A verdict, complete; move to the next record.
    Emit(Verdict),
    /// An inaccessible record: no verdict, no error, walk on.
    Skip,
    /// Fetch this record's bounded message sample under the takeout
    /// session and hand it to [`classify_left_sample`] with the given
    /// subject.
    FetchSample(ChatTarget, Subject),
    /// A channel that is none of megagroup, gigagroup or broadcast:
    /// unreachable under correct service contracts, fatal if it occurs.
    UnknownChannelKind { id: i64 },
}

/// The packed kind of a left channel, from its sub-kind flags, checked
/// in that order; `None` for a combination the service contract rules
/// out.
pub open spec fn spec_channel_packed_kind(channel: LeftChannelInfo) -> Option<PackedKind> {
    if channel.megagroup {
        Option::Some(PackedKind::Megagroup)
    } else if channel.gigagroup {
        Option::Some(PackedKind::Gigagroup)
    } else if channel.broadcast {
        Option::Some(PackedKind::Broadcast)
    } else {
        Option::None
    }
}

/// The decision for one left-chat record.
pub open spec fn spec_classify_left_record(record: LeftRecord) -> LeftStep {
    match record {
        LeftRecord::Empty { id } => LeftStep::Emit(
            Verdict {
                subject: Subject::LeftEmpty(Empty { id }),
                reason: Reason::EmptyRecord,
                evidence: Evidence::Nothing,
            },
        ),
        LeftRecord::Chat(chat) => {
            if chat.creator {
                LeftStep::Emit(
                    Verdict {
                        subject: Subject::LeftChat(chat),
                        reason: Reason::CreatorAndLeft,
                        evidence: Evidence::Nothing,
                    },
                )
            } else {
                LeftStep::FetchSample(
                    ChatTarget { kind: PackedKind::Chat, id: chat.id, access_hash: Option::None },
                    Subject::LeftChat(chat),
                )
            }
        },
        LeftRecord::Channel(channel) => {
            if channel.creator {
                LeftStep::Emit(
                    Verdict {
                        subject: Subject::LeftChannel(channel),
                        reason: Reason::CreatorAndLeft,
                        evidence: Evidence::Nothing,
                    },
                )
            } else {
                match spec_channel_packed_kind(channel) {
                    Option::Some(kind) => LeftStep::FetchSample(
                        ChatTarget { kind, id: channel.id, access_hash: channel.access_hash },
                        Subject::LeftChannel(channel),
                    ),
                    Option::None => LeftStep::UnknownChannelKind { id: channel.id },
                }
            }
        },
        LeftRecord::Forbidden { .. } => LeftStep::Skip,
        LeftRecord::ChannelForbidden { .. } => LeftStep::Skip,
    }
}

/// Decides what to do with one left-chat record.
///
/// An empty record always yields its verdict at once; a record the
/// account created always yields a creator-and-left verdict, whatever
/// its message history; a forbidden record is skipped with no verdict
/// and no error; the rest need their sample fetched.
pub fn classify_left_record(record: LeftRecord) -> (r: LeftStep)
    ensures
        r == spec_classify_left_record(record),
        (r matches LeftStep::Emit(v) ==> v.wf()),
        (record matches LeftRecord::Chat(c) && c.creator ==> (r matches LeftStep::Emit(v)
            && v.reason is CreatorAndLeft)),
        (record matches LeftRecord::Channel(c) && c.creator ==> (r matches LeftStep::Emit(v)
            && v.reason is CreatorAndLeft)),
        (record is Forbidden || record is ChannelForbidden ==> r is Skip),
{
    match record {
        LeftRecord::Empty { id } => LeftStep::Emit(
            Verdict {
                subject: Subject::LeftEmpty(Empty { id }),
                reason: Reason::EmptyRecord,
                evidence: Evidence::Nothing,
            },
        ),
        LeftRecord::Chat(chat) => {
            if chat.creator {
                LeftStep::Emit(
                    Verdict {
                        subject: Subject::LeftChat(chat),
                        reason: Reason::CreatorAndLeft,
                        evidence: Evidence::Nothing,
                    },
                )
            } else {
                let id = chat.id;
                LeftStep::FetchSample(
                    ChatTarget { kind: PackedKind::Chat, id, access_hash: Option::None },
                    Subject::LeftChat(chat),
                )
            }
        },
        LeftRecord::Channel(channel) => {
            if channel.creator {
                LeftStep::Emit(
                    Verdict {
                        subject: Subject::LeftChannel(channel),
                        reason: Reason::CreatorAndLeft,
                        evidence: Evidence::Nothing,
                    },
                )
            } else if channel.megagroup {
                let id = channel.id;
                let access_hash = channel.access_hash;
                LeftStep::FetchSample(
                    ChatTarget { kind: PackedKind::Megagroup, id, access_hash },
                    Subject::LeftChannel(channel),
                )
            } else if channel.gigagroup {
                let id = channel.id;
                let access_hash = channel.access_hash;
                LeftStep::FetchSample(
                    ChatTarget { kind: PackedKind::Gigagroup, id, access_hash },
                    Subject::LeftChannel(channel),
                )
            } else if channel.broadcast {
                let id = channel.id;
                let access_hash = channel.access_hash;
                LeftStep::FetchSample(
                    ChatTarget { kind: PackedKind::Broadcast, id, access_hash },
                    Subject::LeftChannel(channel),
                )
            } else {
                LeftStep::UnknownChannelKind { id: channel.id }
            }
        },
        LeftRecord::Forbidden { .. } => LeftStep::Skip,
        LeftRecord::ChannelForbidden { .. } => LeftStep::Skip,
    }
}

/// The verdict, if any, for a fetched left-chat sample. The doubled
/// thresholds always apply: left analysis only concerns groups and
/// channels. A sample of fewer than two messages is flagged as too few
/// whole; otherwise the newest message is popped and tested for age
/// first, and only then the cadence test runs over the remaining,
/// older messages.
pub open spec fn spec_left_sample_verdict(
    subject: Subject,
    sample: Seq<MessageInfo>,
    now_tod: int,
) -> Option<VerdictModel> {
    let threshold = 60int;
    if sample.len() < 2 {
        Option::Some(
            VerdictModel {
                subject,
                reason: Reason::MessagesTooFew,
                evidence: EvidenceModel::Sample(sample),
            },
        )
    } else if spec_last_message_is_old(sample[0], now_tod, threshold) {
        Option::Some(
            VerdictModel {
                subject,
                reason: Reason::LastMessageOld,
                evidence: EvidenceModel::Message(sample[0]),
            },
        )
    } else if spec_gap_count(sample.skip(1), threshold) >= OLD_MESSAGES_COUNT {
        Option::Some(
            VerdictModel {
                subject,
                reason: Reason::LastMessagesOld,
                evidence: EvidenceModel::Sample(sample.skip(1)),
            },
        )
    } else {
        Option::None
    }
}

/// Judges the fetched sample of a left chat or channel.
///
/// A sample of fewer than two messages always yields a
/// messages-too-few verdict with the whole sample as evidence,
/// regardless of its timestamps. Otherwise the newest message is popped
/// as the last message and tested first; only then the cadence test
/// runs over the remaining, older messages.
pub fn classify_left_sample(subject: Subject, sample: Vec<MessageInfo>, now_tod: i64) -> (r:
    Option<Verdict>)
    requires
        valid_time_of_day(now_tod as int),
        subject is LeftChat || subject is LeftChannel,
    ensures
        spec_opt_model(r) == spec_left_sample_verdict(subject, sample@, now_tod as int),
        (sample@.len() < 2 ==> (r matches Option::Some(v) && v.reason is MessagesTooFew)),
        (r matches Option::Some(v) ==> v.wf() && v.subject == subject),
{
    let mut sample = sample;
    if messages_count_is_too_small(sample.len()) {
        return Option::Some(
            Verdict {
                subject,
                reason: Reason::MessagesTooFew,
                evidence: Evidence::Sample(sample),
            },
        );
    }
    let last_message = sample.remove(0);
    let threshold = OLD_MESSAGE_ELAPSED_DAYS * CHANNEL_ELAPSED_MULTIPLIER;
    if last_message_is_old(&last_message, now_tod, threshold) {
        Option::Some(
            Verdict {
                subject,
                reason: Reason::LastMessageOld,
                evidence: Evidence::Message(last_message),
            },
        )
    } else if old_messages_count_limit_reached(
        &sample,
        ELAPSED_DAYS_BETWEEN_OLD_MESSAGES * CHANNEL_ELAPSED_MULTIPLIER,
    ) {
        Option::Some(
            Verdict { subject, reason: Reason::LastMessagesOld, evidence: Evidence::Sample(sample) },
        )
    } else {
        Option::None
    }
}

/// What fetching one record's sample came to.
#[derive(Debug, Clone, PartialEq, Eq)]
pub enum FetchOutcome {
    /// The bounded sample, newest first.
    Sample(Vec<MessageInfo>),
    /// The fetch failed.
    Failed(ServiceError),
}

/// The verdict models of a whole left walk from record `i` on, given
/// each record's fetch outcome where one was needed, in enumeration
/// order — or the error of the first fetch failure that aborts the
/// pass. Skipped records (forbidden ones, and access-denied fetches)
/// contribute nothing and the walk goes on past them.
pub open spec fn spec_left_walk(
    records: Seq<LeftRecord>,
    outcomes: Seq<Option<FetchOutcome>>,
    now_tod: int,
    i: int,
) -> Result<Seq<VerdictModel>, ServiceError>
    decreases records.len() - i,
{
    if i < 0 || i >= records.len() {
        Result::Ok(Seq::empty())
    } else {
        let rest = spec_left_walk(records, outcomes, now_tod, i + 1);
        match spec_classify_left_record(records[i]) {
            LeftStep::Emit(v) => match rest {
                Result::Ok(s) => Result::Ok(seq![v.model()] + s),
                Result::Err(e) => Result::Err(e),
            },
            LeftStep::Skip => rest,
            LeftStep::FetchSample(_, subject) => match outcomes[i] {
                Option::Some(FetchOutcome::Sample(sample)) => match spec_left_sample_verdict(
                    subject,
                    sample@,
                    now_tod,
                ) {
                    Option::Some(vm) => match rest {
                        Result::Ok(s) => Result::Ok(seq![vm] + s),
                        Result::Err(e) => Result::Err(e),
                    },
                    Option::None => rest,
                },
                Option::Some(FetchOutcome::Failed(err)) => match spec_left_fetch_error_action(
                    err,
                ) {
                    FetchErrorAction::SkipRecord => rest,
                    FetchErrorAction::AbortPass => Result::Err(err),
                },
                Option::None => rest,
            },
            LeftStep::UnknownChannelKind { .. } => rest,
        }
    }
}

/// Walks the whole left-chats list, with each record's fetch outcome
/// already in hand, and produces the ordered verdict list — or the
/// error of the first fetch failure that aborts the pass.
///
/// `outcomes` runs in step with `records`: an outcome must be present
/// exactly where the record's classification asks for a fetch. Records
/// that would be fatal (a channel of no known kind) are ruled out here;
/// the step-by-step interface reports them instead.
#[verifier::loop_isolation(false)]
pub fn left_verdicts(
    records: Vec<LeftRecord>,
    outcomes: Vec<Option<FetchOutcome>>,
    now_tod: i64,
) -> (r: Result<Vec<Verdict>, ServiceError>)
    requires
        valid_time_of_day(now_tod as int),
        outcomes@.len() == records@.len(),
        forall|k: int|
            0 <= k < records@.len() ==> !(spec_classify_left_record(records@[k])
                is UnknownChannelKind),
        forall|k: int|
            0 <= k < records@.len() ==> (spec_classify_left_record(records@[k]) is FetchSample
                ==> outcomes@[k] is Some),
    ensures
        (match (r, spec_left_walk(records@, outcomes@, now_tod as int, 0)) {
            (Result::Ok(vs), Result::Ok(ms)) => verdict_models(vs@) == ms && forall|k: int|
                0 <= k < vs@.len() ==> #[trigger] vs@[k].wf(),
            (Result::Err(e1), Result::Err(e2)) => e1 == e2,
            _ => false,
        }),
{
    let ghost all_records = records@;
    let ghost all_outcomes = outcomes@;
    let mut records = records;
    let mut outcomes = outcomes;
    let mut verdicts: Vec<Verdict> = Vec::new();
    let ghost mut i: int = 0;
    while records.len() > 0
        invariant
            0 <= i <= all_records.len(),
            all_outcomes.len() == all_records.len(),
            records@ == all_records.skip(i),
            outcomes@ == all_outcomes.skip(i),
            valid_time_of_day(now_tod as int),
            forall|k: int|
                0 <= k < all_records.len() ==> !(spec_classify_left_record(all_records[k])
                    is UnknownChannelKind),
            forall|k: int|
                0 <= k < all_records.len() ==> (spec_classify_left_record(all_records[k])
                    is FetchSample ==> all_outcomes[k] is Some),
            forall|k: int| 0 <= k < verdicts@.len() ==> #[trigger] verdicts@[k].wf(),
            spec_left_walk(all_records, all_outcomes, now_tod as int, 0) == (
            match spec_left_walk(all_records, all_outcomes, now_tod as int, i) {
                Result::Ok(s) => Result::<Seq<VerdictModel>, ServiceError>::Ok(
                    verdict_models(verdicts@) + s,
                ),
                Result::Err(e) => Result::<Seq<VerdictModel>, ServiceError>::Err(e),
            }),
        decreases records.len(),
    {
        let record = records.remove(0);
        let outcome = outcomes.remove(0);
        proof {
            assert(record == all_records[i]);
            assert(outcome == all_outcomes[i]);
            assert(records@ == all_records.skip(i + 1));
            assert(outcomes@ == all_outcomes.skip(i + 1));
        }
        let ghost verdicts_before = verdicts@;
        let ghost w_here = spec_left_walk(all_records, all_outcomes, now_tod as int, i);
        let ghost w_next = spec_left_walk(all_records, all_outcomes, now_tod as int, i + 1);
        match classify_left_record(record) {
            LeftStep::Emit(v) => {
                proof {
                    lemma_verdict_models_push(verdicts_before, v);
                    if w_next is Ok {
                        assert(verdict_models(verdicts_before) + (seq![v.model()]
                            + w_next->Ok_0) =~= verdict_models(verdicts_before).push(v.model())
                            + w_next->Ok_0);
                    }
                }
                verdicts.push(v);
            },
            LeftStep::Skip => {},
            LeftStep::FetchSample(_target, subject) => {
                match outcome {
                    Option::Some(FetchOutcome::Sample(sample)) => {
                        match classify_left_sample(subject, sample, now_tod) {
                            Option::Some(v) => {
                                proof {
                                    lemma_verdict_models_push(verdicts_before, v);
                                    if w_next is Ok {
                                        assert(verdict_models(verdicts_before) + (seq![v.model()]
                                            + w_next->Ok_0) =~= verdict_models(
                                            verdicts_before,
                                        ).push(v.model()) + w_next->Ok_0);
                                    }
                                }
                                verdicts.push(v);
                            },
                            Option::None => {},
                        }
                    },
                    Option::Some(FetchOutcome::Failed(err)) => {
                        match left_fetch_error_action(&err) {
                            FetchErrorAction::SkipRecord => {},
                            FetchErrorAction::AbortPass => {
                                proof {
                                    assert(w_here == Result::<Seq<VerdictModel>, ServiceError>::Err(
                                        err,
                                    ));
                                }
                                return Result::Err(err);
                            },
                        }
                    },
                    Option::None => {
                        proof {
                            assert(false);
                        }
                    },
                }
            },
            LeftStep::UnknownChannelKind { .. } => {
                proof {
                    assert(false);
                }
            },
        }
        proof {
            i = i + 1;
        }
    }
    proof {
        assert(verdict_models(verdicts@) + Seq::<VerdictModel>::empty() =~= verdict_models(
            verdicts@,
        ));
    }
    Result::Ok(verdicts)
}

/// How the left walk answers a failed sample fetch.
#[derive(Debug, Clone, Copy, PartialEq, Eq)]
pub enum FetchErrorAction {
    /// Access denied for this one record: exclude it and walk on.
    SkipRecord,
    /// Any other failure: abort the whole left pass.
    AbortPass,
}

/// An access-denied response skips the one record it concerns; every
/// other failure aborts the pass.
pub open spec fn spec_left_fetch_error_action(err: ServiceError) -> FetchErrorAction {
    match err {
        ServiceError::Rpc { code, .. } => {
            if code == ACCESS_DENIED_CODE {
                FetchErrorAction::SkipRecord
            } else {
                FetchErrorAction::AbortPass
            }
        },
        ServiceError::Transport => FetchErrorAction::AbortPass,
    }
}

/// Decides whether a failed sample fetch skips its record or aborts
/// the left pass.
pub fn left_fetch_error_action(err: &ServiceError) -> (r: FetchErrorAction)
    ensures
        r == spec_left_fetch_error_action(*err),
{
    match err {
        ServiceError::Rpc { code, .. } => {
            if *code == ACCESS_DENIED_CODE {
                FetchErrorAction::SkipRecord
            } else {
                FetchErrorAction::AbortPass
            }
        },
        ServiceError::Transport => FetchErrorAction::AbortPass,
    }
}

} // verus!
