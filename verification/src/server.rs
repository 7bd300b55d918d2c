//! Several connections, handled side by side.
//!
//! Each accepted connection has a handler of its own, and the handlers share
//! nothing with each other or with the listener. What they log therefore
//! comes in no particular order: taken together, the lines are a multiset.
//! And whatever a handler is doing, a blocked suspend request included, the
//! listener goes on accepting.

use vstd::multiset::Multiset;
use vstd::prelude::*;
use vstd::seq_lib::{to_multiset_build, to_multiset_len};

use crate::listener::{listener_transition, ListenerEvent, ListenerState};
use crate::log::LogEvent;
use crate::processor::{transition, Event, ProcessorState};
use crate::session::{logs, other_byte_is_logged_once, run, Connection};

verus! {

/// The lines that the handling of `connections` leaves in the log.
pub open spec fn combined_logs(magic: u8, connections: Seq<Connection>) -> Multiset<LogEvent>
    decreases connections.len(),
{
    if connections.len() == 0 {
        Multiset::empty()
    } else {
        combined_logs(magic, connections.drop_last()).add(
            logs(run(magic, connections.last())).to_multiset(),
        )
    }
}

/// For each connection, the line that reports its first byte as an unknown
/// command.
pub open spec fn unknown_lines(connections: Seq<Connection>) -> Seq<LogEvent> {
    Seq::new(
        connections.len(),
        |i: int| LogEvent::UnknownCommand { byte: connections[i].incoming[0] },
    )
}

/// When every one of a number of connections sends a byte other than the
/// magic value, the log holds exactly one line for each of them, the unknown
/// command with the byte that connection sent, and nothing else. If the bytes
/// differ from one connection to the next, no line occurs twice.
pub proof fn each_unknown_byte_is_logged(magic: u8, connections: Seq<Connection>)
    requires
        forall|i: int|
            0 <= i < connections.len() ==> (#[trigger] connections[i]).incoming.len() > 0
                && connections[i].incoming[0] != magic,
    ensures
        combined_logs(magic, connections) == unknown_lines(connections).to_multiset(),
        combined_logs(magic, connections).len() == connections.len(),
        (forall|i: int, j: int|
            0 <= i < j < connections.len() ==> (#[trigger] connections[i]).incoming[0] != (
            #[trigger] connections[j]).incoming[0]) ==> forall|i: int|
            0 <= i < connections.len() ==> combined_logs(magic, connections).count(
                #[trigger] unknown_lines(connections)[i],
            ) == 1,
    decreases connections.len(),
{
    broadcast use {to_multiset_build, to_multiset_len};

    let lines = unknown_lines(connections);
    if connections.len() == 0 {
        assert(lines.to_multiset().len() == 0);
    } else {
        let earlier = connections.drop_last();
        let last = connections.last();
        let line = LogEvent::UnknownCommand { byte: last.incoming[0] };
        assert forall|i: int| 0 <= i < earlier.len() implies (#[trigger] earlier[i]).incoming.len()
            > 0 && earlier[i].incoming[0] != magic by {
            assert(earlier[i] == connections[i]);
        }
        each_unknown_byte_is_logged(magic, earlier);
        other_byte_is_logged_once(magic, last);
        assert(lines =~= unknown_lines(earlier).push(line));
        assert(Seq::<LogEvent>::empty().to_multiset().len() == 0);
        assert(seq![line].to_multiset() =~= Multiset::<LogEvent>::empty().insert(line));
        assert(combined_logs(magic, connections) =~= lines.to_multiset());
    }
    if forall|i: int, j: int|
        0 <= i < j < connections.len() ==> (#[trigger] connections[i]).incoming[0] != (
        #[trigger] connections[j]).incoming[0] {
        assert forall|i: int, j: int|
            0 <= i < lines.len() && 0 <= j < lines.len() && i != j implies lines[i]
            != lines[j] by {
            if i < j {
                assert(connections[i].incoming[0] != connections[j].incoming[0]);
            } else {
                assert(connections[j].incoming[0] != connections[i].incoming[0]);
            }
        }
        lines.lemma_multiset_has_no_duplicates();
        assert forall|i: int| 0 <= i < connections.len() implies combined_logs(
            magic,
            connections,
        ).count(#[trigger] lines[i]) == 1 by {
            assert(lines.contains(lines[i]));
            lines.to_multiset_ensures();
        }
    }
}

/// The daemon as a whole: the listener, and where each handler that it has
/// started stands.
pub ghost struct Daemon {
    /// The state of the listener.
    pub listener: ListenerState,
    /// The states of the handlers, in the order in which they were started.
    pub handlers: Seq<ProcessorState>,
}

/// One thing that happens to the daemon.
pub ghost enum DaemonEvent {
    /// The host of the listener reports an event.
    Listener(ListenerEvent),
    /// The host of the handler with the given index reports an event.
    Handler(int, Event),
}

/// The daemon after `event`. An event of the listener moves the listener,
/// and a hand-off starts one more handler. An event of a handler moves that
/// handler and nothing else.
pub open spec fn daemon_step(magic: u8, daemon: Daemon, event: DaemonEvent) -> Daemon {
    match event {
        DaemonEvent::Listener(event) => {
            let (listener, step) = listener_transition(daemon.listener, event);
            Daemon {
                listener,
                handlers: if step.next is HandOff {
                    daemon.handlers.push(ProcessorState::AwaitingByte)
                } else {
                    daemon.handlers
                },
            }
        },
        DaemonEvent::Handler(index, event) => if 0 <= index < daemon.handlers.len() {
            Daemon {
                listener: daemon.listener,
                handlers: daemon.handlers.update(
                    index,
                    transition(magic, daemon.handlers[index], event).0,
                ),
            }
        } else {
            daemon
        },
    }
}

/// An accepting daemon accepts the next connection whatever its handlers are
/// doing: while the suspend request of an earlier connection is still
/// blocking, the new connection gets a handler that awaits its byte, the
/// earlier handlers stay as they are, and the listener accepts again.
pub proof fn accepts_while_suspending(magic: u8, daemon: Daemon, blocked: int)
    requires
        daemon.listener == ListenerState::Accepting,
        0 <= blocked < daemon.handlers.len(),
        daemon.handlers[blocked] == ProcessorState::Suspending,
    ensures
        daemon_step(magic, daemon, DaemonEvent::Listener(ListenerEvent::Accepted)).listener
            == ListenerState::Accepting,
        daemon_step(magic, daemon, DaemonEvent::Listener(ListenerEvent::Accepted)).handlers
            == daemon.handlers.push(ProcessorState::AwaitingByte),
        daemon_step(
            magic,
            daemon,
            DaemonEvent::Listener(ListenerEvent::Accepted),
        ).handlers[blocked] == ProcessorState::Suspending,
{
}

/// What is reported to one handler changes neither the listener nor any
/// other handler, and starts and ends no handler.
pub proof fn handlers_do_not_interfere(magic: u8, daemon: Daemon, index: int, event: Event)
    ensures
        daemon_step(magic, daemon, DaemonEvent::Handler(index, event)).listener
            == daemon.listener,
        daemon_step(magic, daemon, DaemonEvent::Handler(index, event)).handlers.len()
            == daemon.handlers.len(),
        forall|other: int|
            0 <= other < daemon.handlers.len() && other != index ==> #[trigger] daemon_step(
                magic,
                daemon,
                DaemonEvent::Handler(index, event),
            ).handlers[other] == daemon.handlers[other],
{
}

} // verus!
