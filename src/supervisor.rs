//! The decisions of a supervised server process, as a state machine.
//!
//! The caller owns the pseudo-terminal and the child process. It reports
//! what happened as an [`Event`] and carries out the [`Action`] that
//! [`Session::step`] returns. The session lives through
//! `Starting -> Running -> Stopped | Aborted`; both end phases tell the
//! caller to release the child and the terminal, and ignore every later
//! event.
use vstd::prelude::*;
use vstd::utf8::encode_utf8;
use crate::platform::TargetOs;
use crate::terminal::{
    frame_input, framer_step, input_suffix, FramerView, LineFramer, TerminalText, text_content,
};

verus! {

#[derive(Debug, Clone, Copy, PartialEq, Eq, Structural)]
pub enum Phase {
    /// The terminal exists; the process is being spawned.
    Starting,
    /// The process runs; its output is read and commands are written.
    Running,
    /// The process could not be spawned, or the terminal stopped answering.
    Stopped,
    /// The caller cancelled the session.
    Aborted,
}

pub open spec fn is_live(p: Phase) -> bool {
    p == Phase::Starting || p == Phase::Running
}

/// Why a session ended on its own.
#[derive(Debug, Clone, PartialEq, Eq)]
pub enum SessionError {
    SpawnProcessError(String),
    CommunicationError(String),
}

/// What the caller observed.
pub enum Event {
    /// The process was started on the terminal.
    Spawned,
    /// Starting the process failed, with the reason.
    SpawnFailed(String),
    /// One byte was read from the terminal.
    Byte(u8),
    /// A command was taken from the input channel.
    Input(String),
    /// Reading the terminal failed: the process is gone.
    ReadFailed(String),
    /// The caller cancelled the session, or dropped its handle.
    Abort,
}

/// What the caller must do next.
pub enum Action {
    Nothing,
    /// Publish one line of console traffic.
    Emit(TerminalText),
    /// Write these bytes to the terminal and flush it.
    Write(Vec<u8>),
    /// Report the failure, then kill the child and release the terminal.
    Fail(SessionError),
    /// Kill the child and release the terminal.
    Release,
}

pub enum ActionView {
    Nothing,
    Emit(bool, Seq<char>),
    Write(Seq<u8>),
    FailSpawn(Seq<char>),
    FailCommunication(Seq<char>),
    Release,
}

pub open spec fn action_view(a: Action) -> ActionView {
    match a {
        Action::Nothing => ActionView::Nothing,
        Action::Emit(t) => ActionView::Emit(t is Input, text_content(t)),
        Action::Write(v) => ActionView::Write(v@),
        Action::Fail(SessionError::SpawnProcessError(m)) => ActionView::FailSpawn(m@),
        Action::Fail(SessionError::CommunicationError(m)) => ActionView::FailCommunication(m@),
        Action::Release => ActionView::Release,
    }
}

pub struct SessionView {
    pub phase: Phase,
    pub framer: FramerView,
}

/// The session after `e`, and what the caller must do.
pub open spec fn session_step(s: SessionView, e: Event) -> (SessionView, ActionView) {
    if !is_live(s.phase) {
        (s, ActionView::Nothing)
    } else {
        match e {
            Event::Spawned => if s.phase == Phase::Starting {
                (SessionView { phase: Phase::Running, ..s }, ActionView::Nothing)
            } else {
                (s, ActionView::Nothing)
            },
            Event::SpawnFailed(m) => if s.phase == Phase::Starting {
                (SessionView { phase: Phase::Stopped, ..s }, ActionView::FailSpawn(m@))
            } else {
                (s, ActionView::Nothing)
            },
            Event::Byte(b) => {
                let (f, line) = framer_step(s.framer, b);
                (
                    SessionView { framer: f, ..s },
                    match line {
                        Some(l) => ActionView::Emit(l.0, l.1),
                        None => ActionView::Nothing,
                    },
                )
            },
            Event::Input(l) => (
                SessionView { framer: FramerView { input_pending: true, ..s.framer }, ..s },
                ActionView::Write(encode_utf8(l@) + input_suffix(s.framer.os)),
            ),
            Event::ReadFailed(m) => (
                SessionView { phase: Phase::Stopped, ..s },
                ActionView::FailCommunication(m@),
            ),
            Event::Abort => (SessionView { phase: Phase::Aborted, ..s }, ActionView::Release),
        }
    }
}

/// The actions that `events`, taken in order from `s`, produce.
pub open spec fn run_actions(s: SessionView, events: Seq<Event>) -> Seq<ActionView>
    decreases events.len(),
{
    if events.len() == 0 {
        Seq::empty()
    } else {
        let (next, a) = session_step(s, events[0]);
        seq![a] + run_actions(next, events.skip(1))
    }
}

pub struct Session {
    phase: Phase,
    framer: LineFramer,
}

impl View for Session {
    type V = SessionView;

    closed spec fn view(&self) -> SessionView {
        SessionView { phase: self.phase, framer: self.framer@ }
    }
}

impl Session {
    /// A session whose terminal is open and whose process is not yet spawned.
    pub fn new(os: TargetOs) -> (r: Session)
        ensures
            r@ == (SessionView {
                phase: Phase::Starting,
                framer: FramerView { buffer: Seq::empty(), input_pending: false, os },
            }),
    {
        Session { phase: Phase::Starting, framer: LineFramer::new(os) }
    }

    pub fn phase(&self) -> (r: Phase)
        ensures
            r == self@.phase,
    {
        self.phase
    }

    pub fn step(&mut self, event: Event) -> (r: Action)
        ensures
            (final(self)@, action_view(r)) == session_step(old(self)@, event),
    {
        match self.phase {
            Phase::Stopped | Phase::Aborted => {
                return Action::Nothing;
            },
            _ => {},
        }
        match event {
            Event::Spawned => {
                if self.phase == Phase::Starting {
                    self.phase = Phase::Running;
                }
                Action::Nothing
            },
            Event::SpawnFailed(m) => {
                if self.phase == Phase::Starting {
                    self.phase = Phase::Stopped;
                    Action::Fail(SessionError::SpawnProcessError(m))
                } else {
                    Action::Nothing
                }
            },
            Event::Byte(b) => match self.framer.push_byte(b) {
                Some(t) => Action::Emit(t),
                None => Action::Nothing,
            },
            Event::Input(l) => {
                let bytes = frame_input(l.as_str(), self.framer.os());
                self.framer.input_sent();
                Action::Write(bytes)
            },
            Event::ReadFailed(m) => {
                self.phase = Phase::Stopped;
                Action::Fail(SessionError::CommunicationError(m))
            },
            Event::Abort => {
                self.phase = Phase::Aborted;
                Action::Release
            },
        }
    }
}

/// A command handed to a live session is written to the terminal at once,
/// whole and followed by the platform's terminator, whether or not the
/// process has printed anything yet; the session stays live and takes the
/// next completed line as the command's echo.
pub proof fn lemma_input_is_written(s: SessionView, line: String)
    requires
        is_live(s.phase),
    ensures
        session_step(s, Event::Input(line)).1 == ActionView::Write(
            encode_utf8(line@) + input_suffix(s.framer.os),
        ),
        session_step(s, Event::Input(line)).0.phase == s.phase,
        session_step(s, Event::Input(line)).0.framer.input_pending,
        session_step(s, Event::Input(line)).0.framer.buffer == s.framer.buffer,
{
}

proof fn lemma_ended_is_silent(s: SessionView, events: Seq<Event>)
    requires
        !is_live(s.phase),
    ensures
        forall|i: int| 0 <= i < events.len() ==> run_actions(s, events)[i] == ActionView::Nothing,
        run_actions(s, events).len() == events.len(),
    decreases events.len(),
{
    if events.len() > 0 {
        lemma_ended_is_silent(s, events.skip(1));
        let rest = run_actions(s, events.skip(1));
        assert forall|i: int| 0 <= i < events.len() implies run_actions(s, events)[i] == ActionView::Nothing by {
            if i > 0 {
                assert(run_actions(s, events)[i] == rest[i - 1]);
            }
        }
    }
}

/// Once a session is aborted it is over: whatever happens afterwards, it
/// publishes no more lines and asks for nothing more.
pub proof fn lemma_nothing_after_abort(s: SessionView, events: Seq<Event>)
    ensures
        !is_live(session_step(s, Event::Abort).0.phase),
        is_live(s.phase) ==> session_step(s, Event::Abort).1 == ActionView::Release,
        forall|i: int| 0 <= i < events.len()
            ==> run_actions(session_step(s, Event::Abort).0, events)[i] == ActionView::Nothing,
{
    lemma_ended_is_silent(session_step(s, Event::Abort).0, events);
}

} // verus!
