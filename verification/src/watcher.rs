//! The host side: the state of one relay session and what the watcher
//! decides at each tick of its polling loop.

use crate::codec::{decode_record, record_spec, Note, Notification};
use crate::text::{string_of, to_chars, trim_bounds, trimmed};
use vstd::prelude::*;

verus! {

/// The time between two ticks of the polling loop, in milliseconds.
pub const POLL_MILLIS: u64 = 500;

/// Where a relay session stands.
#[derive(Debug, Clone, Copy, PartialEq, Eq)]
pub enum Phase {
    /// The child runs and has not been seen ready yet.
    WaitingForReady,
    /// The supervisor has been told that the service is ready.
    Steady,
    /// The session is over.
    Terminated,
}

/// What a poll of the child process found.
#[derive(Debug, Clone, Copy, PartialEq, Eq)]
pub enum ChildState {
    /// The child is still running.
    Running,
    /// The child has ended, with this exit code where it left one.
    Exited(Option<i32>),
    /// The poll itself failed.
    Unknown,
}

/// What the caller is to do after a tick.
#[derive(Debug, Clone, PartialEq, Eq)]
pub enum Action {
    /// Nothing.
    Idle,
    /// Hand this notification to the supervisor sink.
    Forward(Notification),
    /// Log this message of the sandboxed side; nothing goes to the sink.
    Log(String),
    /// Log that the status record was not understood.
    Unrecognized,
    /// End the watcher with `code`, after killing the child and removing the
    /// shared directory where the flags say so.
    Terminate { code: i32, kill_child: bool, remove_shared: bool },
}

/// The mathematical value of an `Action`.
pub enum ActionView {
    Idle,
    Forward(Note),
    Log(Seq<char>),
    Unrecognized,
    Terminate { code: int, kill_child: bool, remove_shared: bool },
}

impl View for Action {
    type V = ActionView;

    open spec fn view(&self) -> ActionView {
        match self {
            Action::Idle => ActionView::Idle,
            Action::Forward(notification) => ActionView::Forward(notification@),
            Action::Log(text) => ActionView::Log(text@),
            Action::Unrecognized => ActionView::Unrecognized,
            Action::Terminate { code, kill_child, remove_shared } => ActionView::Terminate {
                code: *code as int,
                kill_child: *kill_child,
                remove_shared: *remove_shared,
            },
        }
    }
}

/// The watcher's memory of one run of the target command.
#[derive(Debug, Clone)]
pub struct RelaySession {
    ready_sent: bool,
    last_status: String,
    exit_code: Option<i32>,
}

/// The mathematical value of a `RelaySession`.
pub struct SessionView {
    /// Whether the sink has accepted a ready notification.
    pub ready_sent: bool,
    /// The status last observed, trimmed; empty before the first.
    pub last_status: Seq<char>,
    /// The exit code, once the session is over.
    pub exit_code: Option<int>,
}

impl View for RelaySession {
    type V = SessionView;

    closed spec fn view(&self) -> SessionView {
        SessionView {
            ready_sent: self.ready_sent,
            last_status: self.last_status@,
            exit_code: match self.exit_code {
                Some(code) => Some(code as int),
                None => None,
            },
        }
    }
}

/// The session as it is when the watcher starts.
pub open spec fn initial_session() -> SessionView {
    SessionView { ready_sent: false, last_status: Seq::empty(), exit_code: None }
}

/// Where a session stands: over once it has an exit code, steady once a
/// ready notification has been delivered, waiting before.
pub open spec fn phase_spec(s: SessionView) -> Phase {
    if s.exit_code is Some {
        Phase::Terminated
    } else if s.ready_sent {
        Phase::Steady
    } else {
        Phase::WaitingForReady
    }
}

/// The session that ends with `code`.
pub open spec fn ended(s: SessionView, code: int) -> SessionView {
    SessionView { exit_code: Some(code), ..s }
}

/// The startup timeout fires while no ready notification has been
/// delivered and the budget is used up, and never after.
pub open spec fn timed_out_spec(s: SessionView, elapsed: int, timeout: int) -> bool {
    !s.ready_sent && elapsed >= timeout
}

/// What the content of the status record leads to. The content is trimmed;
/// the same status as last time changes nothing; a new one is remembered
/// and acted on.
pub open spec fn observe_spec(s: SessionView, content: Seq<char>) -> (SessionView, ActionView) {
    let status = trimmed(content);
    let seen = SessionView { last_status: status, ..s };
    if s.exit_code is Some || status == s.last_status {
        (s, ActionView::Idle)
    } else {
        match record_spec(status) {
            Some(Note::Ready) => if s.ready_sent {
                (seen, ActionView::Idle)
            } else {
                (seen, ActionView::Forward(Note::Ready))
            },
            Some(Note::Message(text)) => (seen, ActionView::Log(text)),
            Some(Note::Exit(code)) => (
                ended(seen, code),
                ActionView::Terminate { code, kill_child: true, remove_shared: true },
            ),
            Some(note) => (seen, ActionView::Forward(note)),
            None => (seen, ActionView::Unrecognized),
        }
    }
}

/// What one tick of the polling loop leads to: first the timeout, then the
/// child's state, then the status record (`None` where it cannot be read).
pub open spec fn tick_spec(
    s: SessionView,
    elapsed: int,
    timeout: int,
    child: ChildState,
    record: Option<Seq<char>>,
) -> (SessionView, ActionView) {
    if s.exit_code is Some {
        (s, ActionView::Idle)
    } else if timed_out_spec(s, elapsed, timeout) {
        (ended(s, 1), ActionView::Terminate { code: 1, kill_child: true, remove_shared: false })
    } else {
        match child {
            ChildState::Exited(Some(code)) => (
                ended(s, code as int),
                ActionView::Terminate { code: code as int, kill_child: false, remove_shared: true },
            ),
            ChildState::Exited(None) => (
                ended(s, 1),
                ActionView::Terminate { code: 1, kill_child: false, remove_shared: true },
            ),
            ChildState::Unknown => (
                ended(s, 1),
                ActionView::Terminate { code: 1, kill_child: false, remove_shared: false },
            ),
            ChildState::Running => match record {
                Some(content) => observe_spec(s, content),
                None => (s, ActionView::Idle),
            },
        }
    }
}

/// What an interrupt signal leads to, whatever the session's state: the
/// shared directory is removed and the watcher ends with 1.
pub open spec fn interrupt_spec() -> ActionView {
    ActionView::Terminate { code: 1, kill_child: false, remove_shared: true }
}

/// What the caller is to do on an interrupt signal.
pub fn on_interrupt() -> (action: Action)
    ensures
        action@ == interrupt_spec(),
{
    Action::Terminate { code: 1, kill_child: false, remove_shared: true }
}

impl RelaySession {
    /// A session that waits for the child to become ready.
    pub fn new() -> (session: RelaySession)
        ensures
            session@ == initial_session(),
    {
        RelaySession { ready_sent: false, last_status: String::new(), exit_code: None }
    }

    /// Where the session stands.
    pub fn phase(&self) -> (phase: Phase)
        ensures
            phase == phase_spec(self@),
    {
        if self.exit_code.is_some() {
            Phase::Terminated
        } else if self.ready_sent {
            Phase::Steady
        } else {
            Phase::WaitingForReady
        }
    }

    /// Whether the sink has accepted a ready notification.
    pub fn ready_sent(&self) -> (sent: bool)
        ensures
            sent == self@.ready_sent,
    {
        self.ready_sent
    }

    /// The status last observed, trimmed; empty before the first.
    pub fn last_status(&self) -> (status: &str)
        ensures
            status@ == self@.last_status,
    {
        self.last_status.as_str()
    }

    /// The code to end with, once the session is over.
    pub fn exit_code(&self) -> (code: Option<i32>)
        ensures
            match code {
                Some(c) => self@.exit_code == Some(c as int),
                None => self@.exit_code is None,
            },
    {
        self.exit_code
    }

    /// Records that the sink has accepted the ready notification: from now
    /// on the session is steady, and no further one is sent.
    pub fn ready_delivered(&mut self)
        ensures
            final(self)@ == (SessionView { ready_sent: true, ..old(self)@ }),
    {
        self.ready_sent = true;
    }

    /// Whether the startup timeout fires after `elapsed_secs` seconds.
    pub fn timed_out(&self, elapsed_secs: u64, timeout_secs: u64) -> (fires: bool)
        ensures
            fires == timed_out_spec(self@, elapsed_secs as int, timeout_secs as int),
    {
        !self.ready_sent && elapsed_secs >= timeout_secs
    }

    /// Takes in the content of the status record.
    pub fn observe(&mut self, content: &str) -> (action: Action)
        ensures
            final(self)@ == observe_spec(old(self)@, content@).0,
            action@ == observe_spec(old(self)@, content@).1,
    {
        let chars = to_chars(content);
        let (a, b) = trim_bounds(&chars, 0, chars.len());
        assert(chars@.subrange(0, chars@.len() as int) =~= content@);
        let status = string_of(&chars, a, b);
        if self.exit_code.is_some() || status == self.last_status {
            return Action::Idle;
        }
        let decoded = decode_record(status.as_str());
        self.last_status = status;
        match decoded {
            Some(Notification::Ready) => {
                if self.ready_sent {
                    Action::Idle
                } else {
                    Action::Forward(Notification::Ready)
                }
            },
            Some(Notification::Message(text)) => Action::Log(text),
            Some(Notification::Exit(code)) => {
                self.exit_code = Some(code);
                Action::Terminate { code, kill_child: true, remove_shared: true }
            },
            Some(notification) => Action::Forward(notification),
            None => Action::Unrecognized,
        }
    }

    /// One tick of the polling loop.
    pub fn tick(
        &mut self,
        elapsed_secs: u64,
        timeout_secs: u64,
        child: ChildState,
        record: Option<&str>,
    ) -> (action: Action)
        ensures
            final(self)@ == tick_spec(
                old(self)@,
                elapsed_secs as int,
                timeout_secs as int,
                child,
                match record {
                    Some(content) => Some(content@),
                    None => None,
                },
            ).0,
            action@ == tick_spec(
                old(self)@,
                elapsed_secs as int,
                timeout_secs as int,
                child,
                match record {
                    Some(content) => Some(content@),
                    None => None,
                },
            ).1,
    {
        if self.exit_code.is_some() {
            return Action::Idle;
        }
        if self.timed_out(elapsed_secs, timeout_secs) {
            self.exit_code = Some(1);
            return Action::Terminate { code: 1, kill_child: true, remove_shared: false };
        }
        match child {
            ChildState::Exited(Some(code)) => {
                self.exit_code = Some(code);
                Action::Terminate { code, kill_child: false, remove_shared: true }
            },
            ChildState::Exited(None) => {
                self.exit_code = Some(1);
                Action::Terminate { code: 1, kill_child: false, remove_shared: true }
            },
            ChildState::Unknown => {
                self.exit_code = Some(1);
                Action::Terminate { code: 1, kill_child: false, remove_shared: false }
            },
            ChildState::Running => match record {
                Some(content) => self.observe(content),
                None => Action::Idle,
            },
        }
    }
}

/// A session that is over stays as it is: no tick changes it or asks for
/// anything.
pub proof fn lemma_terminated_is_terminal(
    s: SessionView,
    elapsed: int,
    timeout: int,
    child: ChildState,
    record: Option<Seq<char>>,
)
    requires
        phase_spec(s) == Phase::Terminated,
    ensures
        tick_spec(s, elapsed, timeout, child, record) == (s, ActionView::Idle),
{
}

/// The timeout belongs to the wait for readiness: in a steady session no
/// tick ends the watcher on account of the time that has passed.
pub proof fn lemma_no_timeout_once_steady(
    s: SessionView,
    elapsed: int,
    later: int,
    timeout: int,
    child: ChildState,
    record: Option<Seq<char>>,
)
    requires
        phase_spec(s) == Phase::Steady,
    ensures
        !timed_out_spec(s, elapsed, timeout),
        tick_spec(s, elapsed, timeout, child, record) == tick_spec(s, later, timeout, child, record),
{
}

/// A tick ends a running session exactly when it asks the caller to
/// terminate, and the session then keeps the code that the caller is to
/// end with. A session that goes on keeps its phase unless the tick sends a
/// ready notification, which the caller confirms with `ready_delivered`.
pub proof fn lemma_termination_is_announced(
    s: SessionView,
    elapsed: int,
    timeout: int,
    child: ChildState,
    record: Option<Seq<char>>,
)
    requires
        phase_spec(s) != Phase::Terminated,
    ensures
        ({
            let (after, action) = tick_spec(s, elapsed, timeout, child, record);
            &&& after.ready_sent == s.ready_sent
            &&& match action {
                ActionView::Terminate { code, .. } => after.exit_code == Some(code),
                _ => after.exit_code is None,
            }
        }),
{
}

} // verus!
