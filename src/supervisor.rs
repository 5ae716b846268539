//! The supervisor as a state machine: from a state and an event observed by the
//! runtime to the next state and the action the runtime performs.
//!
//! The runtime serialises every `step` and the write it asks for under one
//! lock on the child's input, so the bytes reaching the child are exactly the
//! concatenation of the `Write` actions, in the order the steps were taken.

use vstd::prelude::*;
use crate::relay::{relay_bytes, relay_line};
use crate::shutdown::{shutdown_bytes, ShutdownConfig, ShutdownConfigView};

verus! {

/// The exit code used for every fatal condition of the supervisor itself.
pub const FATAL_EXIT_CODE: i32 = 1;

/// Where the supervisor stands in its life.
#[derive(Clone, Copy, Debug, PartialEq, Eq, Structural)]
pub enum Phase {
    /// The child is being spawned.
    Starting,
    /// The child runs and input is relayed to it.
    Running,
    /// The termination signal arrived; the shutdown sequence is being written.
    ShuttingDown,
    /// The shutdown sequence is written; waiting for the child to exit.
    Waiting,
    /// Terminal: the supervisor exits.
    Done,
}

/// Something the runtime observed.
#[derive(Clone, Debug, PartialEq, Eq)]
pub enum Event {
    /// The child was spawned and its input handle obtained.
    Spawned,
    /// The child could not be spawned.
    SpawnFailed,
    /// The child was spawned but its input handle could not be obtained.
    InputUnavailable,
    /// The relay read a line (without its terminator) from the supervisor's input.
    LineRead(Vec<u8>),
    /// The supervisor's input ended or could not be read.
    InputClosed,
    /// Writing to the child's input failed.
    WriteFailed,
    /// The termination signal was delivered.
    TerminationSignal,
    /// The shutdown sequence was written to the child's input.
    ShutdownWritten,
    /// The child exited, with its exit code if it has one.
    ChildExited(Option<i32>),
    /// Waiting for the child failed.
    WaitFailed,
}

/// Mathematical model of an [`Event`].
pub enum EventView {
    Spawned,
    SpawnFailed,
    InputUnavailable,
    LineRead(Seq<u8>),
    InputClosed,
    WriteFailed,
    TerminationSignal,
    ShutdownWritten,
    ChildExited(Option<i32>),
    WaitFailed,
}

impl View for Event {
    type V = EventView;

    open spec fn view(&self) -> EventView {
        match self {
            Event::Spawned => EventView::Spawned,
            Event::SpawnFailed => EventView::SpawnFailed,
            Event::InputUnavailable => EventView::InputUnavailable,
            Event::LineRead(l) => EventView::LineRead(l@),
            Event::InputClosed => EventView::InputClosed,
            Event::WriteFailed => EventView::WriteFailed,
            Event::TerminationSignal => EventView::TerminationSignal,
            Event::ShutdownWritten => EventView::ShutdownWritten,
            Event::ChildExited(c) => EventView::ChildExited(*c),
            Event::WaitFailed => EventView::WaitFailed,
        }
    }
}

/// What the runtime is to do next.
#[derive(Clone, Debug, PartialEq, Eq)]
pub enum Action {
    /// Nothing.
    Idle,
    /// Start the relay task.
    StartRelay,
    /// Write these bytes to the child's input while holding its lock.
    Write(Vec<u8>),
    /// The relay task ends; the supervisor carries on.
    StopRelay,
    /// Wait for the child to exit.
    WaitChild,
    /// Exit the supervisor with this code.
    Exit(i32),
}

/// Mathematical model of an [`Action`].
pub enum ActionView {
    Idle,
    StartRelay,
    Write(Seq<u8>),
    StopRelay,
    WaitChild,
    Exit(i32),
}

impl View for Action {
    type V = ActionView;

    open spec fn view(&self) -> ActionView {
        match self {
            Action::Idle => ActionView::Idle,
            Action::StartRelay => ActionView::StartRelay,
            Action::Write(b) => ActionView::Write(b@),
            Action::StopRelay => ActionView::StopRelay,
            Action::WaitChild => ActionView::WaitChild,
            Action::Exit(c) => ActionView::Exit(*c),
        }
    }
}

/// Mathematical model of a [`Supervisor`].
pub struct SupervisorView {
    pub config: ShutdownConfigView,
    pub phase: Phase,
    pub relay_open: bool,
}

/// The supervisor's exit code once the child has exited: the child's own
/// code, or the fatal code when the child has none (it was killed by a signal).
pub open spec fn child_exit_code(code: Option<i32>) -> i32 {
    match code {
        Some(c) => c,
        None => FATAL_EXIT_CODE,
    }
}

/// The state the supervisor starts in.
pub open spec fn initial(config: ShutdownConfigView) -> SupervisorView {
    SupervisorView { config, phase: Phase::Starting, relay_open: false }
}

/// `s` moved to phase `p`.
pub open spec fn enter(s: SupervisorView, p: Phase) -> SupervisorView {
    SupervisorView { phase: p, ..s }
}

/// `s` moved to `Done`, exiting with `code`.
pub open spec fn finish(s: SupervisorView, code: i32) -> (SupervisorView, ActionView) {
    (enter(s, Phase::Done), ActionView::Exit(code))
}

/// One transition of the supervisor. Events that mean nothing in a phase leave
/// the state as it is and ask for nothing.
pub open spec fn next(s: SupervisorView, e: EventView) -> (SupervisorView, ActionView) {
    let ignore = (s, ActionView::Idle);
    match s.phase {
        Phase::Starting => match e {
            EventView::Spawned => (
                SupervisorView { phase: Phase::Running, relay_open: true, ..s },
                ActionView::StartRelay,
            ),
            EventView::SpawnFailed => finish(s, FATAL_EXIT_CODE),
            EventView::InputUnavailable => finish(s, FATAL_EXIT_CODE),
            _ => ignore,
        },
        Phase::Running => match e {
            EventView::LineRead(line) => if s.relay_open {
                (s, ActionView::Write(relay_bytes(line)))
            } else {
                ignore
            },
            EventView::InputClosed => if s.relay_open {
                (SupervisorView { relay_open: false, ..s }, ActionView::StopRelay)
            } else {
                ignore
            },
            EventView::WriteFailed => finish(s, FATAL_EXIT_CODE),
            EventView::TerminationSignal => (
                enter(s, Phase::ShuttingDown),
                ActionView::Write(shutdown_bytes(s.config)),
            ),
            _ => ignore,
        },
        Phase::ShuttingDown => match e {
            EventView::ShutdownWritten => (enter(s, Phase::Waiting), ActionView::WaitChild),
            EventView::WriteFailed => finish(s, FATAL_EXIT_CODE),
            _ => ignore,
        },
        Phase::Waiting => match e {
            EventView::ChildExited(code) => finish(s, child_exit_code(code)),
            EventView::WaitFailed => finish(s, FATAL_EXIT_CODE),
            _ => ignore,
        },
        Phase::Done => ignore,
    }
}

/// The supervisor: its shutdown configuration, its phase, and whether the
/// relay is still reading.
pub struct Supervisor {
    config: ShutdownConfig,
    phase: Phase,
    relay_open: bool,
}

impl View for Supervisor {
    type V = SupervisorView;

    closed spec fn view(&self) -> SupervisorView {
        SupervisorView { config: self.config@, phase: self.phase, relay_open: self.relay_open }
    }
}

impl Supervisor {
    /// A supervisor about to spawn its child.
    pub fn new(config: ShutdownConfig) -> (r: Self)
        ensures
            r@ == initial(config@),
    {
        Supervisor { config, phase: Phase::Starting, relay_open: false }
    }

    pub fn phase(&self) -> (r: Phase)
        ensures
            r == self@.phase,
    {
        self.phase
    }

    pub fn relay_open(&self) -> (r: bool)
        ensures
            r == self@.relay_open,
    {
        self.relay_open
    }

    pub fn config(&self) -> (r: &ShutdownConfig)
        ensures
            r@ == self@.config,
    {
        &self.config
    }

    fn exit(&mut self, code: i32) -> (a: Action)
        ensures
            (final(self)@, a@) == finish(old(self)@, code),
    {
        self.phase = Phase::Done;
        Action::Exit(code)
    }

    /// Takes one event and returns the action it calls for.
    pub fn step(&mut self, e: Event) -> (a: Action)
        ensures
            (final(self)@, a@) == next(old(self)@, e@),
    {
        match self.phase {
            Phase::Starting => match e {
                Event::Spawned => {
                    self.phase = Phase::Running;
                    self.relay_open = true;
                    Action::StartRelay
                },
                Event::SpawnFailed => self.exit(FATAL_EXIT_CODE),
                Event::InputUnavailable => self.exit(FATAL_EXIT_CODE),
                _ => Action::Idle,
            },
            Phase::Running => match e {
                Event::LineRead(line) => if self.relay_open {
                    Action::Write(relay_line(line))
                } else {
                    Action::Idle
                },
                Event::InputClosed => if self.relay_open {
                    self.relay_open = false;
                    Action::StopRelay
                } else {
                    Action::Idle
                },
                Event::WriteFailed => self.exit(FATAL_EXIT_CODE),
                Event::TerminationSignal => {
                    self.phase = Phase::ShuttingDown;
                    Action::Write(self.config.shutdown_sequence())
                },
                _ => Action::Idle,
            },
            Phase::ShuttingDown => match e {
                Event::ShutdownWritten => {
                    self.phase = Phase::Waiting;
                    Action::WaitChild
                },
                Event::WriteFailed => self.exit(FATAL_EXIT_CODE),
                _ => Action::Idle,
            },
            Phase::Waiting => match e {
                Event::ChildExited(code) => {
                    let c: i32 = match code {
                        Some(c) => c,
                        None => FATAL_EXIT_CODE,
                    };
                    self.exit(c)
                },
                Event::WaitFailed => self.exit(FATAL_EXIT_CODE),
                _ => Action::Idle,
            },
            Phase::Done => Action::Idle,
        }
    }
}

} // verus!
