use chat_sweeper::service::ServiceError;
use chat_sweeper::session::{
    open_failure_kind, CloseCommand, OpenFailure, SessionAction, SessionEvent, TakeoutManager,
};

#[test]
fn completed_walk_closes_with_success() {
    let mut manager = TakeoutManager::new();
    let action = manager.step(SessionEvent::OpenOk { takeout_id: 777 });
    assert_eq!(action, None);
    let action = manager.step(SessionEvent::WalkDone { completed: true });
    assert_eq!(
        action,
        Some(SessionAction::Close(CloseCommand {
            takeout_id: 777,
            success: true
        }))
    );
    // The session is closed; nothing further is ever demanded.
    assert_eq!(manager.step(SessionEvent::WalkDone { completed: true }), None);
    assert_eq!(manager.step(SessionEvent::OpenOk { takeout_id: 9 }), None);
}

#[test]
fn aborted_walk_closes_without_success() {
    let mut manager = TakeoutManager::new();
    manager.step(SessionEvent::OpenOk { takeout_id: 778 });
    let action = manager.step(SessionEvent::WalkDone { completed: false });
    assert_eq!(
        action,
        Some(SessionAction::Close(CloseCommand {
            takeout_id: 778,
            success: false
        }))
    );
    assert_eq!(manager.step(SessionEvent::WalkDone { completed: false }), None);
}

#[test]
fn cooldown_on_open_is_fatal_and_never_closed() {
    let mut manager = TakeoutManager::new();
    let action = manager.step(SessionEvent::OpenErr(ServiceError::Rpc {
        code: 420,
        value: Some(86400),
    }));
    assert_eq!(
        action,
        Some(SessionAction::ReportOpenFailure(OpenFailure::Cooldown {
            wait_seconds: Some(86400)
        }))
    );
    // However the run goes on, no close command ever follows.
    assert_eq!(manager.step(SessionEvent::WalkDone { completed: true }), None);
    assert_eq!(manager.step(SessionEvent::OpenOk { takeout_id: 1 }), None);
    assert_eq!(manager.step(SessionEvent::WalkDone { completed: false }), None);
}

#[test]
fn other_open_failures_are_reported_without_a_wait() {
    let mut manager = TakeoutManager::new();
    let action = manager.step(SessionEvent::OpenErr(ServiceError::Transport));
    assert_eq!(
        action,
        Some(SessionAction::ReportOpenFailure(OpenFailure::Other))
    );
}

#[test]
fn open_failures_are_sorted_by_code() {
    assert_eq!(
        open_failure_kind(&ServiceError::Rpc {
            code: 420,
            value: Some(30)
        }),
        OpenFailure::Cooldown {
            wait_seconds: Some(30)
        }
    );
    assert_eq!(
        open_failure_kind(&ServiceError::Rpc {
            code: 420,
            value: None
        }),
        OpenFailure::Cooldown { wait_seconds: None }
    );
    assert_eq!(
        open_failure_kind(&ServiceError::Rpc {
            code: 500,
            value: None
        }),
        OpenFailure::Other
    );
    assert_eq!(open_failure_kind(&ServiceError::Transport), OpenFailure::Other);
}
