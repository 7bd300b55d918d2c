//! The command processor: what is done with one accepted connection.
//!
//! The processor never touches the connection itself. It tells its host what
//! to do next (read a byte, suspend the machine, finish) and is told what
//! came of it. One byte is asked for, once; whatever else the client sends is
//! left unread, and nothing is ever written back.

use vstd::prelude::*;

use crate::command::{classify_spec, WakeState};
use crate::log::LogEvent;

verus! {

/// How the handling of a connection ended.
#[derive(Clone, Copy, Debug, PartialEq, Eq, Structural)]
pub enum Outcome {
    /// The host was suspended and has woken up again.
    SuspendInvoked,
    /// The byte was not the magic value, and that has been logged.
    UnknownLogged,
    /// No byte could be read, or the suspend request failed.
    Aborted,
}

impl Outcome {
    /// Whether the connection was dealt with without a failure.
    pub fn succeeded(&self) -> (ok: bool)
        ensures
            ok == !(*self is Aborted),
    {
        match self {
            Outcome::Aborted => false,
            _ => true,
        }
    }
}

/// Where the handling of a connection stands.
#[derive(Clone, Copy, Debug, PartialEq, Eq, Structural)]
pub enum ProcessorState {
    /// Nothing has been read yet.
    AwaitingByte,
    /// The suspend request has been issued and has not returned yet.
    Suspending,
    /// The connection has been dealt with. Nothing leads out of this state.
    Dispatched(Outcome),
}

/// What the host reports back to the processor.
#[derive(Clone, Copy, Debug, PartialEq, Eq, Structural)]
pub enum Event {
    /// One byte arrived.
    Byte(u8),
    /// The connection was closed, or failed, before a byte arrived.
    ReadFailed,
    /// The suspend request returned normally.
    SuspendReturned,
    /// The suspend request could not be carried out.
    SuspendFailed,
}

impl Event {
    /// The report on a read: the byte that arrived, or none if the connection
    /// was closed or failed first.
    pub fn from_read(read: Option<u8>) -> (event: Event)
        ensures
            event == match read {
                Some(byte) => Event::Byte(byte),
                None => Event::ReadFailed,
            },
    {
        match read {
            Some(byte) => Event::Byte(byte),
            None => Event::ReadFailed,
        }
    }

    /// The report on a suspend request. `exit` is whether the request ended
    /// in success, or none if it could not be made at all. Only a request
    /// that was made and ended in success has returned; anything else is a
    /// failure.
    pub fn from_suspend(exit: Option<bool>) -> (event: Event)
        ensures
            event == if exit == Some(true) {
                Event::SuspendReturned
            } else {
                Event::SuspendFailed
            },
    {
        match exit {
            Some(true) => Event::SuspendReturned,
            _ => Event::SuspendFailed,
        }
    }
}

/// What the processor asks its host to do.
#[derive(Clone, Copy, Debug, PartialEq, Eq, Structural)]
pub enum Action {
    /// Read exactly one byte from the connection.
    ReadByte,
    /// Suspend the machine, and wait until the request returns.
    Suspend,
    /// Drop the connection: it has been dealt with.
    Finish(Outcome),
}

/// The result of one transition.
#[derive(Clone, Copy, Debug, PartialEq, Eq)]
pub struct Step {
    /// The command that this transition derived from a byte, if it did.
    pub command: Option<WakeState>,
    /// The line to log before `next` is carried out, if any.
    pub log: Option<LogEvent>,
    /// What the host does next.
    pub next: Action,
}

/// The request that is outstanding in `state`.
pub open spec fn awaited(state: ProcessorState) -> Action {
    match state {
        ProcessorState::AwaitingByte => Action::ReadByte,
        ProcessorState::Suspending => Action::Suspend,
        ProcessorState::Dispatched(outcome) => Action::Finish(outcome),
    }
}

/// The step with which every connection begins: read one byte.
pub open spec fn opening_step() -> Step {
    Step { command: None, log: None, next: Action::ReadByte }
}

/// The step that announces and requests the suspend.
pub open spec fn sleep_step() -> Step {
    Step {
        command: Some(WakeState::Sleep),
        log: Some(LogEvent::SleepIntent),
        next: Action::Suspend,
    }
}

/// The step that follows a suspend request that returned.
pub open spec fn awake_step() -> Step {
    Step {
        command: None,
        log: Some(LogEvent::Awake),
        next: Action::Finish(Outcome::SuspendInvoked),
    }
}

/// The step that logs `byte` as an unknown command.
pub open spec fn unknown_step(byte: u8) -> Step {
    Step {
        command: Some(WakeState::Unknown(byte)),
        log: Some(LogEvent::UnknownCommand { byte }),
        next: Action::Finish(Outcome::UnknownLogged),
    }
}

/// The step that gives a connection up.
pub open spec fn abort_step() -> Step {
    Step { command: None, log: None, next: Action::Finish(Outcome::Aborted) }
}

/// The step of a connection that was finished with `outcome` before.
pub open spec fn finished_step(outcome: Outcome) -> Step {
    Step { command: None, log: None, next: Action::Finish(outcome) }
}

/// The transition function of the processor.
///
/// A byte is classified against `magic`: the magic value announces the
/// suspend and requests it, any other byte is logged and the connection is
/// finished. When the suspend request returns, the wake-up is logged. An
/// event other than the success of the outstanding request aborts the
/// connection without a log line. A dispatched connection stays as it is.
pub open spec fn transition(magic: u8, state: ProcessorState, event: Event) -> (
    ProcessorState,
    Step,
) {
    match state {
        ProcessorState::AwaitingByte => match event {
            Event::Byte(byte) => match classify_spec(magic, byte) {
                WakeState::Sleep => (ProcessorState::Suspending, sleep_step()),
                WakeState::Unknown(value) => (
                    ProcessorState::Dispatched(Outcome::UnknownLogged),
                    unknown_step(value),
                ),
            },
            _ => (ProcessorState::Dispatched(Outcome::Aborted), abort_step()),
        },
        ProcessorState::Suspending => match event {
            Event::SuspendReturned => (
                ProcessorState::Dispatched(Outcome::SuspendInvoked),
                awake_step(),
            ),
            _ => (ProcessorState::Dispatched(Outcome::Aborted), abort_step()),
        },
        ProcessorState::Dispatched(outcome) => (state, finished_step(outcome)),
    }
}

/// The processor of one connection.
#[derive(Clone, Copy, Debug, PartialEq, Eq)]
pub struct Processor {
    magic: u8,
    state: ProcessorState,
}

impl Processor {
    /// The magic value this processor classifies against.
    pub closed spec fn magic_spec(&self) -> u8 {
        self.magic
    }

    /// Where the processor stands.
    pub closed spec fn state_spec(&self) -> ProcessorState {
        self.state
    }

    /// A processor for a freshly accepted connection, and its opening step.
    pub fn new(magic: u8) -> (opened: (Processor, Step))
        ensures
            opened.0.magic() == magic,
            opened.0.state() == ProcessorState::AwaitingByte,
            opened.1 == opening_step(),
    {
        (
            Processor { magic, state: ProcessorState::AwaitingByte },
            Step { command: None, log: None, next: Action::ReadByte },
        )
    }

    /// The magic value this processor classifies against.
    #[verifier::when_used_as_spec(magic_spec)]
    pub fn magic(&self) -> (magic: u8)
        ensures
            magic == self.magic_spec(),
    {
        self.magic
    }

    /// Where the processor stands.
    #[verifier::when_used_as_spec(state_spec)]
    pub fn state(&self) -> (state: ProcessorState)
        ensures
            state == self.state_spec(),
    {
        self.state
    }

    /// The request that the host still owes an answer to.
    pub fn pending(&self) -> (action: Action)
        ensures
            action == awaited(self.state()),
    {
        match self.state {
            ProcessorState::AwaitingByte => Action::ReadByte,
            ProcessorState::Suspending => Action::Suspend,
            ProcessorState::Dispatched(outcome) => Action::Finish(outcome),
        }
    }

    /// Takes what the host reports and decides what happens next.
    pub fn step(&mut self, event: Event) -> (step: Step)
        ensures
            final(self).magic() == old(self).magic(),
            (final(self).state(), step) == transition(
                old(self).magic(),
                old(self).state(),
                event,
            ),
    {
        let aborted = Step { command: None, log: None, next: Action::Finish(Outcome::Aborted) };
        match self.state {
            ProcessorState::AwaitingByte => match event {
                Event::Byte(byte) => match WakeState::classify(self.magic, byte) {
                    WakeState::Sleep => {
                        self.state = ProcessorState::Suspending;
                        Step {
                            command: Some(WakeState::Sleep),
                            log: Some(LogEvent::SleepIntent),
                            next: Action::Suspend,
                        }
                    },
                    WakeState::Unknown(value) => {
                        self.state = ProcessorState::Dispatched(Outcome::UnknownLogged);
                        Step {
                            command: Some(WakeState::Unknown(value)),
                            log: Some(LogEvent::UnknownCommand { byte: value }),
                            next: Action::Finish(Outcome::UnknownLogged),
                        }
                    },
                },
                _ => {
                    self.state = ProcessorState::Dispatched(Outcome::Aborted);
                    aborted
                },
            },
            ProcessorState::Suspending => match event {
                Event::SuspendReturned => {
                    self.state = ProcessorState::Dispatched(Outcome::SuspendInvoked);
                    Step {
                        command: None,
                        log: Some(LogEvent::Awake),
                        next: Action::Finish(Outcome::SuspendInvoked),
                    }
                },
                _ => {
                    self.state = ProcessorState::Dispatched(Outcome::Aborted);
                    aborted
                },
            },
            ProcessorState::Dispatched(outcome) => Step {
                command: None,
                log: None,
                next: Action::Finish(outcome),
            },
        }
    }
}

} // verus!
