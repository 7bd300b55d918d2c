//! What the handling of one connection amounts to, from the first step to the
//! last.
//!
//! A [`Connection`] says what the outside world does: which bytes the client
//! sends before it closes, and whether the suspend request succeeds. [`run`]
//! is the sequence of steps the processor takes against it, and [`process`]
//! computes that sequence.

use vstd::prelude::*;

use crate::command::{classify_spec, WakeState};
use crate::log::LogEvent;
use crate::processor::{abort_step, awake_step, opening_step, sleep_step, unknown_step};
use crate::processor::{awaited, transition};
use crate::processor::{Action, Event, Outcome, Processor, ProcessorState, Step};
use crate::text::hex_text;

verus! {

/// The outside world, as far as one connection is concerned.
pub ghost struct Connection {
    /// The bytes the client sends before it closes the connection.
    pub incoming: Seq<u8>,
    /// Whether a request to suspend the machine succeeds.
    pub suspend_ok: bool,
}

/// What the host reports after carrying out `action`; nothing once the
/// connection is finished.
pub open spec fn reply(action: Action, connection: Connection) -> Option<Event> {
    match action {
        Action::ReadByte => if connection.incoming.len() > 0 {
            Some(Event::Byte(connection.incoming[0]))
        } else {
            Some(Event::ReadFailed)
        },
        Action::Suspend => if connection.suspend_ok {
            Some(Event::SuspendReturned)
        } else {
            Some(Event::SuspendFailed)
        },
        Action::Finish(_) => None,
    }
}

/// The connection after `action` has been carried out: a read takes the first
/// byte away, if there is one.
pub open spec fn after(action: Action, connection: Connection) -> Connection {
    if action is ReadByte && connection.incoming.len() > 0 {
        Connection { incoming: connection.incoming.skip(1), suspend_ok: connection.suspend_ok }
    } else {
        connection
    }
}

/// The number of requests that are still to come from `state`, at most.
pub open spec fn remaining(state: ProcessorState) -> nat {
    match state {
        ProcessorState::AwaitingByte => 2,
        ProcessorState::Suspending => 1,
        ProcessorState::Dispatched(_) => 0,
    }
}

/// The steps that follow from `state` until the connection is finished.
pub open spec fn resume(magic: u8, state: ProcessorState, connection: Connection) -> Seq<Step>
    decreases remaining(state),
{
    match reply(awaited(state), connection) {
        None => Seq::empty(),
        Some(event) => {
            let (next, step) = transition(magic, state, event);
            seq![step] + resume(magic, next, after(awaited(state), connection))
        },
    }
}

/// Every step of the handling of `connection`, the opening step included.
pub open spec fn run(magic: u8, connection: Connection) -> Seq<Step> {
    seq![opening_step()] + resume(magic, ProcessorState::AwaitingByte, connection)
}

/// How often `action` is requested in `trace`.
pub open spec fn requests(trace: Seq<Step>, action: Action) -> nat
    decreases trace.len(),
{
    if trace.len() == 0 {
        0
    } else {
        requests(trace.drop_last(), action) + if trace.last().next == action {
            1nat
        } else {
            0nat
        }
    }
}

/// The commands derived in `trace`, in order.
pub open spec fn commands(trace: Seq<Step>) -> Seq<WakeState>
    decreases trace.len(),
{
    if trace.len() == 0 {
        Seq::empty()
    } else {
        match trace.last().command {
            Some(command) => commands(trace.drop_last()).push(command),
            None => commands(trace.drop_last()),
        }
    }
}

/// The lines logged in `trace`, in order.
pub open spec fn logs(trace: Seq<Step>) -> Seq<LogEvent>
    decreases trace.len(),
{
    if trace.len() == 0 {
        Seq::empty()
    } else {
        match trace.last().log {
            Some(line) => logs(trace.drop_last()).push(line),
            None => logs(trace.drop_last()),
        }
    }
}

/// Handles a whole connection at once, for a client that sends `incoming` and
/// a host on which suspending succeeds or not, and returns every step taken.
pub fn process(magic: u8, incoming: &[u8], suspend_ok: bool) -> (trace: Vec<Step>)
    ensures
        trace@ == run(magic, (Connection { incoming: incoming@, suspend_ok })),
{
    let ghost whole = Connection { incoming: incoming@, suspend_ok };
    let (mut processor, opening) = Processor::new(magic);
    let mut trace: Vec<Step> = Vec::new();
    trace.push(opening);
    let mut read: usize = 0;
    assert(incoming@.skip(0) =~= incoming@);
    assert(trace@ =~= seq![opening_step()]);
    loop
        invariant
            processor.magic() == magic,
            read <= incoming.len(),
            whole == (Connection { incoming: incoming@, suspend_ok }),
            trace@ + resume(
                magic,
                processor.state(),
                (Connection { incoming: incoming@.skip(read as int), suspend_ok }),
            ) == run(magic, whole),
        ensures
            trace@ == run(magic, whole),
        decreases remaining(processor.state()),
    {
        let ghost state = processor.state();
        let ghost rest = Connection { incoming: incoming@.skip(read as int), suspend_ok };
        let event = match processor.pending() {
            Action::ReadByte => {
                if read < incoming.len() {
                    let byte = incoming[read];
                    read = read + 1;
                    Event::Byte(byte)
                } else {
                    Event::ReadFailed
                }
            },
            Action::Suspend => {
                if suspend_ok {
                    Event::SuspendReturned
                } else {
                    Event::SuspendFailed
                }
            },
            Action::Finish(_) => {
                assert(trace@ =~= trace@ + resume(magic, state, rest));
                break ;
            },
        };
        let step = processor.step(event);
        trace.push(step);
        proof {
            let later = Connection { incoming: incoming@.skip(read as int), suspend_ok };
            assert(after(awaited(state), rest).incoming =~= later.incoming);
            assert(trace@ + resume(magic, processor.state(), later) =~= trace@.drop_last()
                + resume(magic, state, rest));
        }
    }
    trace
}

/// What one more step adds to each measure of a trace.
proof fn lemma_push(trace: Seq<Step>, step: Step)
    ensures
        forall|action: Action| #[trigger]
            requests(trace.push(step), action) == requests(trace, action) + if step.next
                == action {
                1nat
            } else {
                0nat
            },
        commands(trace.push(step)) == match step.command {
            Some(command) => commands(trace).push(command),
            None => commands(trace),
        },
        logs(trace.push(step)) == match step.log {
            Some(line) => logs(trace).push(line),
            None => logs(trace),
        },
{
    assert(trace.push(step).drop_last() =~= trace);
}

/// The sequence of what `item` holds: one element or none.
spec fn lone<T>(item: Option<T>) -> Seq<T> {
    match item {
        Some(value) => seq![value],
        None => Seq::empty(),
    }
}

/// The measures of a trace of two steps.
proof fn lemma_two_steps(a: Step, b: Step, action: Action)
    ensures
        requests(seq![a, b], action) == (if a.next == action {
            1nat
        } else {
            0nat
        }) + (if b.next == action {
            1nat
        } else {
            0nat
        }),
        commands(seq![a, b]) == lone(a.command) + lone(b.command),
        logs(seq![a, b]) == lone(a.log) + lone(b.log),
{
    let none = Seq::<Step>::empty();
    lemma_push(none, a);
    lemma_push(seq![a], b);
    assert(seq![a, b] =~= seq![a].push(b));
}

/// The three ways a connection can go. One that delivers no byte is given up
/// at once. One whose first byte is the magic value has the suspend announced
/// and requested, and the wake-up logged if the request returns. One whose
/// first byte is anything else has that byte logged, and is finished.
pub proof fn run_by_cases(magic: u8, connection: Connection)
    ensures
        connection.incoming.len() == 0 ==> run(magic, connection) == seq![
            opening_step(),
            abort_step(),
        ],
        connection.incoming.len() > 0 && connection.incoming[0] == magic ==> run(
            magic,
            connection,
        ) == seq![
            opening_step(),
            sleep_step(),
            if connection.suspend_ok {
                awake_step()
            } else {
                abort_step()
            },
        ],
        connection.incoming.len() > 0 && connection.incoming[0] != magic ==> run(
            magic,
            connection,
        ) == seq![opening_step(), unknown_step(connection.incoming[0])],
{
    reveal_with_fuel(resume, 3);
}

/// When the first byte is the magic value, the machine is suspended exactly
/// once and no unknown command is logged: the log holds the announcement and,
/// if the request returned, the wake-up.
pub proof fn magic_byte_suspends_once(magic: u8, connection: Connection)
    requires
        connection.incoming.len() > 0,
        connection.incoming[0] == magic,
    ensures
        requests(run(magic, connection), Action::Suspend) == 1,
        commands(run(magic, connection)) == seq![WakeState::Sleep],
        logs(run(magic, connection)) == if connection.suspend_ok {
            seq![LogEvent::SleepIntent, LogEvent::Awake]
        } else {
            seq![LogEvent::SleepIntent]
        },
        forall|i: int|
            0 <= i < logs(run(magic, connection)).len() ==> !(#[trigger] logs(
                run(magic, connection),
            )[i] is UnknownCommand),
{
    run_by_cases(magic, connection);
    let last = if connection.suspend_ok {
        awake_step()
    } else {
        abort_step()
    };
    let head = seq![opening_step(), sleep_step()];
    lemma_two_steps(opening_step(), sleep_step(), Action::Suspend);
    lemma_push(head, last);
    assert(run(magic, connection) =~= head.push(last));
}

/// When the first byte is not the magic value, the machine is never
/// suspended, and exactly one line is logged: the unknown command, whose
/// text ends with that byte in hexadecimal.
pub proof fn other_byte_is_logged_once(magic: u8, connection: Connection)
    requires
        connection.incoming.len() > 0,
        connection.incoming[0] != magic,
    ensures
        requests(run(magic, connection), Action::Suspend) == 0,
        commands(run(magic, connection)) == seq![WakeState::Unknown(connection.incoming[0])],
        logs(run(magic, connection)) == seq![
            LogEvent::UnknownCommand { byte: connection.incoming[0] },
        ],
        logs(run(magic, connection))[0].text() == "Unknown command: "@ + hex_text(
            connection.incoming[0],
        ),
{
    run_by_cases(magic, connection);
    lemma_two_steps(opening_step(), unknown_step(connection.incoming[0]), Action::Suspend);
}

/// A connection that closes before it has sent a byte yields no command, no
/// suspend request and no log line, and ends aborted.
pub proof fn silent_connection_is_aborted(magic: u8, connection: Connection)
    requires
        connection.incoming.len() == 0,
    ensures
        commands(run(magic, connection)) == Seq::<WakeState>::empty(),
        requests(run(magic, connection), Action::Suspend) == 0,
        logs(run(magic, connection)) == Seq::<LogEvent>::empty(),
        run(magic, connection).last().next == Action::Finish(Outcome::Aborted),
{
    run_by_cases(magic, connection);
    lemma_two_steps(opening_step(), abort_step(), Action::Suspend);
}

/// A connection that delivers a byte yields exactly one command: the one its
/// first byte stands for.
pub proof fn one_command_per_connection(magic: u8, connection: Connection)
    requires
        connection.incoming.len() > 0,
    ensures
        commands(run(magic, connection)) == seq![classify_spec(magic, connection.incoming[0])],
{
    if connection.incoming[0] == magic {
        magic_byte_suspends_once(magic, connection);
    } else {
        other_byte_is_logged_once(magic, connection);
    }
}

/// Exactly one byte is ever asked for, and what follows the first byte makes
/// no difference to what is done.
pub proof fn only_first_byte_is_read(magic: u8, connection: Connection)
    ensures
        requests(run(magic, connection), Action::ReadByte) == 1,
        connection.incoming.len() > 0 ==> run(magic, connection) == run(
            magic,
            (Connection {
                incoming: connection.incoming.take(1),
                suspend_ok: connection.suspend_ok,
            }),
        ),
{
    let first = Connection {
        incoming: connection.incoming.take(1),
        suspend_ok: connection.suspend_ok,
    };
    run_by_cases(magic, connection);
    run_by_cases(magic, first);
    if connection.incoming.len() == 0 {
        lemma_two_steps(opening_step(), abort_step(), Action::ReadByte);
    } else if connection.incoming[0] == magic {
        let last = if connection.suspend_ok {
            awake_step()
        } else {
            abort_step()
        };
        lemma_two_steps(opening_step(), sleep_step(), Action::ReadByte);
        lemma_push(seq![opening_step(), sleep_step()], last);
        assert(run(magic, connection) =~= seq![opening_step(), sleep_step()].push(last));
    } else {
        lemma_two_steps(opening_step(), unknown_step(connection.incoming[0]), Action::ReadByte);
    }
}

/// Every connection is finished after at most two requests, and only its
/// last step finishes it.
pub proof fn run_ends_finished(magic: u8, connection: Connection)
    ensures
        2 <= run(magic, connection).len() <= 3,
        run(magic, connection).last().next is Finish,
        forall|i: int|
            0 <= i < run(magic, connection).len() - 1 ==> !(#[trigger] run(
                magic,
                connection,
            )[i].next is Finish),
{
    run_by_cases(magic, connection);
}

} // verus!
