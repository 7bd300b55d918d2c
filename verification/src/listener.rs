//! The listener: binding the socket and accepting connections.
//!
//! Like the processor, the listener only decides. Its host binds, accepts and
//! starts a handler for each connection; the listener says which of these
//! comes next. It is never told what becomes of a handler, so nothing a
//! handler does, or fails to do, can keep it from accepting.

use vstd::prelude::*;

use crate::log::LogEvent;

verus! {

/// Why the daemon gives up. None of these is retried.
#[derive(Clone, Copy, Debug, PartialEq, Eq, Structural)]
pub enum Fatal {
    /// The configured listen address is not a socket address.
    AddressInvalid,
    /// The socket could not be bound.
    BindFailed,
    /// Accepting a connection failed.
    AcceptFailed,
}

/// Where the listener stands.
#[derive(Clone, Copy, Debug, PartialEq, Eq, Structural)]
pub enum ListenerState {
    /// The socket is not bound yet.
    Binding,
    /// The socket is bound and connections are accepted.
    Accepting,
    /// The daemon has given up. Nothing leads out of this state.
    Terminated(Fatal),
}

/// What the host reports back to the listener.
#[derive(Clone, Copy, Debug, PartialEq, Eq, Structural)]
pub enum ListenerEvent {
    /// The listen address could not be parsed.
    AddressRejected,
    /// Binding the socket failed.
    BindFailed,
    /// The socket is bound to `port`.
    Bound { port: u16 },
    /// A connection was accepted.
    Accepted,
    /// Accepting a connection failed.
    AcceptFailed,
}

/// What the listener asks its host to do.
#[derive(Clone, Copy, Debug, PartialEq, Eq, Structural)]
pub enum ListenerAction {
    /// Parse the listen address and bind the socket.
    Bind,
    /// Wait for the next connection.
    Accept,
    /// Start a handler of its own for the connection just accepted and,
    /// without waiting for it, wait for the next connection.
    HandOff,
    /// End the process with an error.
    Terminate(Fatal),
}

/// The result of one transition of the listener.
#[derive(Clone, Copy, Debug, PartialEq, Eq)]
pub struct ListenerStep {
    /// The line to log before `next` is carried out, if any.
    pub log: Option<LogEvent>,
    /// What the host does next.
    pub next: ListenerAction,
}

/// The step with which the listener begins: bind the socket.
pub open spec fn listener_opening_step() -> ListenerStep {
    ListenerStep { log: None, next: ListenerAction::Bind }
}

/// The step that hands a connection off.
pub open spec fn hand_off_step() -> ListenerStep {
    ListenerStep { log: Some(LogEvent::ConnectionAccepted), next: ListenerAction::HandOff }
}

/// The step that ends the daemon because of `fatal`.
pub open spec fn terminate_step(fatal: Fatal) -> ListenerStep {
    ListenerStep { log: None, next: ListenerAction::Terminate(fatal) }
}

/// The transition function of the listener.
///
/// Once the socket is bound, the port is logged and connections are accepted.
/// Every accepted connection is logged and handed off, and the listener goes
/// on accepting. An event other than the success of the outstanding request
/// ends the daemon: a rejected address as such, anything else as the failure
/// of that request. A terminated listener stays as it is.
pub open spec fn listener_transition(state: ListenerState, event: ListenerEvent) -> (
    ListenerState,
    ListenerStep,
) {
    match state {
        ListenerState::Binding => match event {
            ListenerEvent::Bound { port } => (
                ListenerState::Accepting,
                ListenerStep {
                    log: Some(LogEvent::Listening { port }),
                    next: ListenerAction::Accept,
                },
            ),
            ListenerEvent::AddressRejected => (
                ListenerState::Terminated(Fatal::AddressInvalid),
                terminate_step(Fatal::AddressInvalid),
            ),
            _ => (
                ListenerState::Terminated(Fatal::BindFailed),
                terminate_step(Fatal::BindFailed),
            ),
        },
        ListenerState::Accepting => match event {
            ListenerEvent::Accepted => (ListenerState::Accepting, hand_off_step()),
            _ => (
                ListenerState::Terminated(Fatal::AcceptFailed),
                terminate_step(Fatal::AcceptFailed),
            ),
        },
        ListenerState::Terminated(fatal) => (state, terminate_step(fatal)),
    }
}

/// The listener of the daemon.
#[derive(Clone, Copy, Debug, PartialEq, Eq)]
pub struct Listener {
    state: ListenerState,
}

impl Listener {
    /// Where the listener stands.
    pub closed spec fn state_spec(&self) -> ListenerState {
        self.state
    }

    /// A listener that has not bound its socket yet, and its opening step.
    pub fn new() -> (opened: (Listener, ListenerStep))
        ensures
            opened.0.state() == ListenerState::Binding,
            opened.1 == listener_opening_step(),
    {
        (
            Listener { state: ListenerState::Binding },
            ListenerStep { log: None, next: ListenerAction::Bind },
        )
    }

    /// Where the listener stands.
    #[verifier::when_used_as_spec(state_spec)]
    pub fn state(&self) -> (state: ListenerState)
        ensures
            state == self.state_spec(),
    {
        self.state
    }

    /// Takes what the host reports and decides what happens next.
    pub fn step(&mut self, event: ListenerEvent) -> (step: ListenerStep)
        ensures
            (final(self).state(), step) == listener_transition(old(self).state(), event),
    {
        match self.state {
            ListenerState::Binding => match event {
                ListenerEvent::Bound { port } => {
                    self.state = ListenerState::Accepting;
                    ListenerStep {
                        log: Some(LogEvent::Listening { port }),
                        next: ListenerAction::Accept,
                    }
                },
                ListenerEvent::AddressRejected => {
                    self.state = ListenerState::Terminated(Fatal::AddressInvalid);
                    ListenerStep { log: None, next: ListenerAction::Terminate(Fatal::AddressInvalid) }
                },
                _ => {
                    self.state = ListenerState::Terminated(Fatal::BindFailed);
                    ListenerStep { log: None, next: ListenerAction::Terminate(Fatal::BindFailed) }
                },
            },
            ListenerState::Accepting => match event {
                ListenerEvent::Accepted => ListenerStep {
                    log: Some(LogEvent::ConnectionAccepted),
                    next: ListenerAction::HandOff,
                },
                _ => {
                    self.state = ListenerState::Terminated(Fatal::AcceptFailed);
                    ListenerStep { log: None, next: ListenerAction::Terminate(Fatal::AcceptFailed) }
                },
            },
            ListenerState::Terminated(fatal) => ListenerStep {
                log: None,
                next: ListenerAction::Terminate(fatal),
            },
        }
    }
}

/// The state the listener reaches from `state` through `events`, and the
/// steps it takes on the way.
pub open spec fn serve(state: ListenerState, events: Seq<ListenerEvent>) -> (
    ListenerState,
    Seq<ListenerStep>,
)
    decreases events.len(),
{
    if events.len() == 0 {
        (state, Seq::empty())
    } else {
        let (before, steps) = serve(state, events.drop_last());
        let (reached, step) = listener_transition(before, events.last());
        (reached, steps.push(step))
    }
}

/// An accepting listener goes on accepting. However many connections come
/// in, each is logged and handed off at once, and the listener is ready for
/// the next: since no event tells it of a handler, a handler that is still
/// blocked cannot hold it up.
pub proof fn accepting_never_waits(events: Seq<ListenerEvent>)
    requires
        forall|i: int| 0 <= i < events.len() ==> events[i] == ListenerEvent::Accepted,
    ensures
        serve(ListenerState::Accepting, events).0 == ListenerState::Accepting,
        serve(ListenerState::Accepting, events).1.len() == events.len(),
        forall|i: int|
            0 <= i < events.len() ==> #[trigger] serve(ListenerState::Accepting, events).1[i]
                == hand_off_step(),
    decreases events.len(),
{
    if events.len() > 0 {
        accepting_never_waits(events.drop_last());
    }
}

/// A failure is final: whatever is reported to a terminated listener, it
/// stays terminated for the same reason and asks for nothing but the end.
pub proof fn terminated_stays_terminated(fatal: Fatal, events: Seq<ListenerEvent>)
    ensures
        serve(ListenerState::Terminated(fatal), events).0 == ListenerState::Terminated(fatal),
        forall|i: int|
            0 <= i < serve(ListenerState::Terminated(fatal), events).1.len() ==> #[trigger] serve(
                ListenerState::Terminated(fatal),
                events,
            ).1[i] == terminate_step(fatal),
    decreases events.len(),
{
    if events.len() > 0 {
        terminated_stays_terminated(fatal, events.drop_last());
    }
}

} // verus!
