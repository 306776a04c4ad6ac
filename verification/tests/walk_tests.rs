use chat_sweeper::classify::ChatKind;
use chat_sweeper::joined::{
    classify_dialog, classify_joined_sample, joined_verdicts, DialogEntry, JoinedStep,
};
use chat_sweeper::left::{
    classify_left_record, classify_left_sample, left_fetch_error_action, left_verdicts,
    FetchErrorAction, FetchOutcome, LeftRecord, LeftStep, PackedKind,
};
use chat_sweeper::message::MessageInfo;
use chat_sweeper::service::ServiceError;
use chat_sweeper::verdict::{
    Evidence, LeftChannelInfo, LeftChatInfo, Reason, Subject, Verdict,
};

fn message(id: i32, timestamp: i64) -> MessageInfo {
    MessageInfo {
        id,
        timestamp,
        action: None,
    }
}

fn profile(id: i64, kind: ChatKind) -> chat_sweeper::verdict::ChatProfile {
    chat_sweeper::verdict::ChatProfile {
        id,
        access_hash: Some(7),
        kind,
        name: String::from("a chat"),
        username: None,
    }
}

fn left_chat(id: i64, creator: bool) -> LeftChatInfo {
    LeftChatInfo {
        id,
        title: String::from("left chat"),
        creator,
    }
}

fn left_channel(id: i64, creator: bool, megagroup: bool, gigagroup: bool, broadcast: bool) -> LeftChannelInfo {
    LeftChannelInfo {
        id,
        access_hash: Some(99),
        title: String::from("left channel"),
        username: Some(String::from("somewhere")),
        creator,
        megagroup,
        gigagroup,
        broadcast,
    }
}

#[test]
fn user_dialogs_are_skipped() {
    let entry = DialogEntry {
        chat: profile(1, ChatKind::User),
        last_message: Some(message(5, 1000)),
    };
    assert_eq!(classify_dialog(entry, 0), JoinedStep::SkipUser);
}

#[test]
fn dialog_without_last_message_is_flagged_empty() {
    for kind in [
        ChatKind::Group,
        ChatKind::Megagroup,
        ChatKind::Broadcast,
        ChatKind::Gigagroup,
    ] {
        let entry = DialogEntry {
            chat: profile(2, kind),
            last_message: None,
        };
        match classify_dialog(entry, 42) {
            JoinedStep::Emit(v) => {
                assert_eq!(v.reason, Reason::MessagesEmpty);
                assert_eq!(v.evidence, Evidence::Nothing);
                assert_eq!(v.id(), 2);
                assert_eq!(v.access_hash(), Some(7));
            }
            other => panic!("expected a verdict, got {other:?}"),
        }
    }
}

#[test]
fn dialog_with_recent_last_message_needs_a_sample() {
    // Day-valued thresholds are never exceeded by a time-of-day
    // distance, so a dialog with any last message goes on to the
    // sample fetch.
    let entry = DialogEntry {
        chat: profile(3, ChatKind::Group),
        last_message: Some(message(5, 40 * 86400 + 82800)),
    };
    match classify_dialog(entry, 3600) {
        JoinedStep::FetchSample(chat) => assert_eq!(chat.id, 3),
        other => panic!("expected a fetch, got {other:?}"),
    }
}

#[test]
fn short_joined_sample_is_flagged_too_few() {
    let r = classify_joined_sample(profile(4, ChatKind::Group), vec![message(1, 0)]);
    match r {
        Some(v) => {
            assert_eq!(v.reason, Reason::MessagesTooFew);
            assert_eq!(v.evidence, Evidence::Sample(vec![message(1, 0)]));
        }
        None => panic!("expected a verdict"),
    }
    let r = classify_joined_sample(profile(4, ChatKind::Group), vec![]);
    assert_eq!(r.map(|v| v.reason), Some(Reason::MessagesTooFew));
}

#[test]
fn full_joined_sample_with_daily_cadence_is_active() {
    let sample: Vec<MessageInfo> = (0..15)
        .map(|i| message(15 - i, (15 - i) as i64 * 86400))
        .collect();
    assert_eq!(
        classify_joined_sample(profile(5, ChatKind::Group), sample),
        None
    );
}

#[test]
fn empty_left_record_is_flagged() {
    match classify_left_record(LeftRecord::Empty { id: 12 }) {
        LeftStep::Emit(v) => {
            assert_eq!(v.reason, Reason::EmptyRecord);
            assert_eq!(v.id(), 12);
            assert_eq!(v.access_hash(), None);
        }
        other => panic!("expected a verdict, got {other:?}"),
    }
}

#[test]
fn creator_left_chat_is_flagged_regardless_of_messages() {
    match classify_left_record(LeftRecord::Chat(left_chat(13, true))) {
        LeftStep::Emit(v) => {
            assert_eq!(v.reason, Reason::CreatorAndLeft);
            assert_eq!(v.subject, Subject::LeftChat(left_chat(13, true)));
        }
        other => panic!("expected a verdict, got {other:?}"),
    }
    match classify_left_record(LeftRecord::Channel(left_channel(14, true, true, false, false))) {
        LeftStep::Emit(v) => {
            assert_eq!(v.reason, Reason::CreatorAndLeft);
            assert_eq!(v.access_hash(), Some(99));
        }
        other => panic!("expected a verdict, got {other:?}"),
    }
}

#[test]
fn forbidden_left_records_are_skipped() {
    assert_eq!(
        classify_left_record(LeftRecord::Forbidden { id: 15 }),
        LeftStep::Skip
    );
    assert_eq!(
        classify_left_record(LeftRecord::ChannelForbidden { id: 16 }),
        LeftStep::Skip
    );
}

#[test]
fn left_chat_fetch_uses_plain_chat_identity() {
    match classify_left_record(LeftRecord::Chat(left_chat(17, false))) {
        LeftStep::FetchSample(target, subject) => {
            assert_eq!(target.kind, PackedKind::Chat);
            assert_eq!(target.id, 17);
            assert_eq!(target.access_hash, None);
            assert_eq!(subject, Subject::LeftChat(left_chat(17, false)));
        }
        other => panic!("expected a fetch, got {other:?}"),
    }
}

#[test]
fn left_channel_fetch_resolves_its_packed_kind() {
    let cases = [
        (true, false, false, PackedKind::Megagroup),
        (false, true, false, PackedKind::Gigagroup),
        (false, false, true, PackedKind::Broadcast),
        // The megagroup flag wins over the others.
        (true, false, true, PackedKind::Megagroup),
    ];
    for (mega, giga, broad, expected) in cases {
        match classify_left_record(LeftRecord::Channel(left_channel(18, false, mega, giga, broad))) {
            LeftStep::FetchSample(target, _) => {
                assert_eq!(target.kind, expected);
                assert_eq!(target.access_hash, Some(99));
            }
            other => panic!("expected a fetch, got {other:?}"),
        }
    }
    match classify_left_record(LeftRecord::Channel(left_channel(19, false, false, false, false))) {
        LeftStep::UnknownChannelKind { id } => assert_eq!(id, 19),
        other => panic!("expected the unknown kind, got {other:?}"),
    }
}

#[test]
fn short_left_sample_is_flagged_too_few() {
    let subject = Subject::LeftChat(left_chat(20, false));
    match classify_left_sample(subject.clone(), vec![message(1, 12345)], 0) {
        Some(v) => {
            assert_eq!(v.reason, Reason::MessagesTooFew);
            assert_eq!(v.subject, subject);
            assert_eq!(v.evidence, Evidence::Sample(vec![message(1, 12345)]));
        }
        None => panic!("expected a verdict"),
    }
}

#[test]
fn ordinary_left_sample_is_active() {
    let subject = Subject::LeftChannel(left_channel(21, false, true, false, false));
    let sample: Vec<MessageInfo> = (0..15)
        .map(|i| message(15 - i, (15 - i) as i64 * 86400))
        .collect();
    assert_eq!(classify_left_sample(subject, sample, 3600), None);
}

#[test]
fn access_denied_skips_one_record_only() {
    assert_eq!(
        left_fetch_error_action(&ServiceError::Rpc {
            code: 400,
            value: None
        }),
        FetchErrorAction::SkipRecord
    );
    assert_eq!(
        left_fetch_error_action(&ServiceError::Rpc {
            code: 500,
            value: None
        }),
        FetchErrorAction::AbortPass
    );
    assert_eq!(
        left_fetch_error_action(&ServiceError::Transport),
        FetchErrorAction::AbortPass
    );
}

#[test]
fn left_walk_passes_over_forbidden_records() {
    // A forbidden record is excluded from the verdict list, raises no
    // error, and the walk reaches the records after it.
    let records = vec![
        LeftRecord::Forbidden { id: 1 },
        LeftRecord::Chat(left_chat(2, true)),
        LeftRecord::Empty { id: 3 },
    ];
    let outcomes = vec![None, None, None];
    let verdicts = left_verdicts(records, outcomes, 0).expect("no fetch error in this walk");
    assert_eq!(verdicts.len(), 2);
    assert_eq!(verdicts[0].reason, Reason::CreatorAndLeft);
    assert_eq!(verdicts[0].id(), 2);
    assert_eq!(verdicts[1].reason, Reason::EmptyRecord);
    assert_eq!(verdicts[1].id(), 3);
}

#[test]
fn left_walk_skips_denied_fetches_and_walks_on() {
    let records = vec![
        LeftRecord::Chat(left_chat(4, false)),
        LeftRecord::Empty { id: 5 },
    ];
    let outcomes = vec![
        Some(FetchOutcome::Failed(ServiceError::Rpc {
            code: 400,
            value: None,
        })),
        None,
    ];
    let verdicts = left_verdicts(records, outcomes, 0).expect("a denied fetch is not an error");
    assert_eq!(verdicts.len(), 1);
    assert_eq!(verdicts[0].id(), 5);
}

#[test]
fn left_walk_aborts_on_other_fetch_errors() {
    let records = vec![
        LeftRecord::Chat(left_chat(6, false)),
        LeftRecord::Empty { id: 7 },
    ];
    let outcomes = vec![
        Some(FetchOutcome::Failed(ServiceError::Rpc {
            code: 500,
            value: Some(2),
        })),
        None,
    ];
    assert_eq!(
        left_verdicts(records, outcomes, 0),
        Err(ServiceError::Rpc {
            code: 500,
            value: Some(2)
        })
    );
}

#[test]
fn left_walk_judges_fetched_samples() {
    let records = vec![LeftRecord::Chat(left_chat(8, false))];
    let outcomes = vec![Some(FetchOutcome::Sample(vec![message(1, 0)]))];
    let verdicts = left_verdicts(records, outcomes, 0).expect("no fetch error in this walk");
    assert_eq!(verdicts.len(), 1);
    assert_eq!(verdicts[0].reason, Reason::MessagesTooFew);
}

#[test]
fn joined_walk_keeps_enumeration_order() {
    let entries = vec![
        DialogEntry {
            chat: profile(30, ChatKind::User),
            last_message: None,
        },
        DialogEntry {
            chat: profile(31, ChatKind::Group),
            last_message: None,
        },
        DialogEntry {
            chat: profile(32, ChatKind::Megagroup),
            last_message: Some(message(9, 1000)),
        },
        DialogEntry {
            chat: profile(33, ChatKind::Group),
            last_message: None,
        },
    ];
    let samples = vec![None, None, Some(vec![message(9, 1000)]), None];
    let verdicts: Vec<Verdict> = joined_verdicts(entries, samples, 0);
    let ids: Vec<i64> = verdicts.iter().map(|v| v.id()).collect();
    assert_eq!(ids, vec![31, 32, 33]);
    assert_eq!(verdicts[0].reason, Reason::MessagesEmpty);
    assert_eq!(verdicts[1].reason, Reason::MessagesTooFew);
    assert_eq!(verdicts[2].reason, Reason::MessagesEmpty);
}
