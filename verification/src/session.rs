//! Lifecycle of the bulk-export (takeout) session.
//!
//! Reading left chats needs a scoped export session: opened before the
//! walk, closed exactly once after it, with a success flag that says
//! whether the walk completed without a propagating error. A rate-limit
//! (security cooldown) answer to the open request is fatal to the whole
//! program and no close is ever attempted, since no session exists.
//!
//! The lifecycle is a state machine. The surrounding application
//! performs the open and close calls and feeds the answers in as
//! events; the machine decides every action, and
//! [`lemma_close_exactly_once`] states the guarantee: over any run, a
//! close command is issued exactly once if a session was opened and the
//! walk was reported done, and never otherwise.

use vstd::prelude::*;
use crate::service::{ServiceError, COOLDOWN_CODE};

verus! {

/// The one close call owed for an open session: its identifier and
/// whether the left-chat walk completed without a propagating error.
#[derive(Debug, Clone, Copy, PartialEq, Eq)]
pub struct CloseCommand {
    pub takeout_id: i64,
    pub success: bool,
}

/// Why opening the export session failed.
#[derive(Debug, Clone, Copy, PartialEq, Eq)]
pub enum OpenFailure {
    /// The security-cooldown rate limit: fatal, reported to the user
    /// with the wait in seconds the service demands.
    Cooldown { wait_seconds: Option<u32> },
    /// Any other failure: fatal as well, reported without a wait.
    Other,
}

/// Sorts a failed open request: the cooldown code is reported with its
/// wait, everything else without.
pub open spec fn spec_open_failure_kind(err: ServiceError) -> OpenFailure {
    match err {
        ServiceError::Rpc { code, value } => {
            if code == COOLDOWN_CODE {
                OpenFailure::Cooldown { wait_seconds: value }
            } else {
                OpenFailure::Other
            }
        },
        ServiceError::Transport => OpenFailure::Other,
    }
}

/// Sorts a failed open request.
pub fn open_failure_kind(err: &ServiceError) -> (r: OpenFailure)
    ensures
        r == spec_open_failure_kind(*err),
        (r is Cooldown <==> (err matches ServiceError::Rpc { code, .. } && code
            == COOLDOWN_CODE)),
{
    match err {
        ServiceError::Rpc { code, value } => {
            if *code == COOLDOWN_CODE {
                OpenFailure::Cooldown { wait_seconds: *value }
            } else {
                OpenFailure::Other
            }
        },
        ServiceError::Transport => OpenFailure::Other,
    }
}

/// Where the session lifecycle stands.
#[derive(Debug, Clone, Copy, PartialEq, Eq)]
pub enum SessionState {
    /// No open has been attempted.
    Idle,
    /// The session is open; exactly one close is owed.
    Active { takeout_id: i64 },
    /// The close command has been issued; nothing more is owed.
    Closed { takeout_id: i64, success: bool },
    /// The open failed; no session exists and no close is ever owed.
    OpenFailed,
}

/// What the application reports to the lifecycle.
#[derive(Debug, Clone, PartialEq, Eq)]
pub enum SessionEvent {
    /// The open call returned a session identifier.
    OpenOk { takeout_id: i64 },
    /// The open call failed.
    OpenErr(ServiceError),
    /// The left-chat walk is over; `completed` is false when it was
    /// aborted by a propagating error.
    WalkDone { completed: bool },
}

/// What the lifecycle tells the application to do.
#[derive(Debug, Clone, Copy, PartialEq, Eq)]
pub enum SessionAction {
    /// Close the session, with this identifier and success flag.
    Close(CloseCommand),
    /// Report the fatal open failure and terminate; close nothing.
    ReportOpenFailure(OpenFailure),
}

/// One transition of the lifecycle. Events that make no sense in the
/// current state change nothing and demand nothing.
pub open spec fn spec_session_step(s: SessionState, e: SessionEvent) -> (SessionState, Option<
    SessionAction,
>) {
    match (s, e) {
        (SessionState::Idle, SessionEvent::OpenOk { takeout_id }) => (
            SessionState::Active { takeout_id },
            Option::None,
        ),
        (SessionState::Idle, SessionEvent::OpenErr(err)) => (
            SessionState::OpenFailed,
            Option::Some(SessionAction::ReportOpenFailure(spec_open_failure_kind(err))),
        ),
        (SessionState::Active { takeout_id }, SessionEvent::WalkDone { completed }) => (
            SessionState::Closed { takeout_id, success: completed },
            Option::Some(SessionAction::Close(CloseCommand { takeout_id, success: completed })),
        ),
        (s, _) => (s, Option::None),
    }
}

/// The takeout session lifecycle, as the application drives it.
pub struct TakeoutManager {
    state: SessionState,
}

impl TakeoutManager {
    pub closed spec fn spec_state(self) -> SessionState {
        self.state
    }

    pub fn new() -> (m: TakeoutManager)
        ensures
            m.spec_state() is Idle,
    {
        TakeoutManager { state: SessionState::Idle }
    }

    /// Feeds one event in and returns the action it demands, if any.
    pub fn step(&mut self, event: SessionEvent) -> (action: Option<SessionAction>)
        ensures
            (final(self).spec_state(), action) == spec_session_step(old(self).spec_state(), event),
    {
        match (&self.state, &event) {
            (SessionState::Idle, SessionEvent::OpenOk { takeout_id }) => {
                self.state = SessionState::Active { takeout_id: *takeout_id };
                Option::None
            },
            (SessionState::Idle, SessionEvent::OpenErr(err)) => {
                let failure = open_failure_kind(err);
                self.state = SessionState::OpenFailed;
                Option::Some(SessionAction::ReportOpenFailure(failure))
            },
            (SessionState::Active { takeout_id }, SessionEvent::WalkDone { completed }) => {
                let takeout_id = *takeout_id;
                let completed = *completed;
                self.state = SessionState::Closed { takeout_id, success: completed };
                Option::Some(SessionAction::Close(CloseCommand { takeout_id, success: completed }))
            },
            _ => Option::None,
        }
    }
}

/// The lifecycle state after a sequence of events.
pub open spec fn spec_session_run(s: SessionState, events: Seq<SessionEvent>) -> SessionState
    decreases events.len(),
{
    if events.len() == 0 {
        s
    } else {
        spec_session_run(spec_session_step(s, events[0]).0, events.skip(1))
    }
}

/// How many close commands a sequence of events makes the lifecycle
/// issue.
pub open spec fn spec_close_count(s: SessionState, events: Seq<SessionEvent>) -> int
    decreases events.len(),
{
    if events.len() == 0 {
        0
    } else {
        (if spec_session_step(s, events[0]).1 matches Option::Some(SessionAction::Close(_)) {
            1int
        } else {
            0int
        }) + spec_close_count(spec_session_step(s, events[0]).0, events.skip(1))
    }
}

/// Over any run of the lifecycle, a close command is issued exactly
/// once if the run ends with the session closed, and never otherwise.
/// In particular: one close per opened session whose walk was reported
/// done, whether it completed or aborted; and none when the open
/// failed, cooldown included.
pub proof fn lemma_close_exactly_once(s: SessionState, events: Seq<SessionEvent>)
    ensures
        spec_close_count(s, events) == if !(s is Closed) && spec_session_run(s, events) is Closed {
            1int
        } else {
            0int
        },
    decreases events.len(),
{
    if events.len() > 0 {
        let (s2, a) = spec_session_step(s, events[0]);
        let rest = events.skip(1);
        lemma_close_exactly_once(s2, rest);
        if a matches Option::Some(SessionAction::Close(_)) {
            lemma_closed_is_final(s2, rest);
        }
    }
}

/// A closed lifecycle is final: no later event changes it, and no
/// second close is ever issued.
pub proof fn lemma_closed_is_final(s: SessionState, events: Seq<SessionEvent>)
    requires
        s is Closed,
    ensures
        spec_session_run(s, events) == s,
        spec_close_count(s, events) == 0,
    decreases events.len(),
{
    if events.len() > 0 {
        lemma_closed_is_final(spec_session_step(s, events[0]).0, events.skip(1));
    }
}

/// A failed open is final: no later event revives the lifecycle, so no
/// close is ever issued after one.
pub proof fn lemma_open_failed_is_final(events: Seq<SessionEvent>)
    ensures
        spec_session_run(SessionState::OpenFailed, events) is OpenFailed,
        spec_close_count(SessionState::OpenFailed, events) == 0,
    decreases events.len(),
{
    if events.len() > 0 {
        lemma_open_failed_is_final(events.skip(1));
    }
}

/// The two regular runs, spelled out: after a successful open, the
/// walk's end makes the lifecycle issue exactly the close command with
/// that session's identifier, and with `success` true exactly when the
/// walk completed without a propagating error.
pub proof fn lemma_close_follows_walk(takeout_id: i64, completed: bool)
    ensures
        ({
            let (s1, a1) = spec_session_step(
                SessionState::Idle,
                SessionEvent::OpenOk { takeout_id },
            );
            let (s2, a2) = spec_session_step(s1, SessionEvent::WalkDone { completed });
            &&& s1 == SessionState::Active { takeout_id }
            &&& a1 is None
            &&& s2 == SessionState::Closed { takeout_id, success: completed }
            &&& a2 == Option::Some(
                SessionAction::Close(CloseCommand { takeout_id, success: completed }),
            )
        }),
{
}

} // verus!
