use sleepd::log::LogEvent;
use sleepd::listener::{Fatal, Listener, ListenerAction, ListenerEvent, ListenerState, ListenerStep};
use sleepd::processor::{Action, Event, Outcome, Processor, ProcessorState};

#[test]
fn new_listener_binds_first() {
    let (listener, opening) = Listener::new();
    assert_eq!(listener.state(), ListenerState::Binding);
    assert_eq!(opening, ListenerStep { log: None, next: ListenerAction::Bind });
}

#[test]
fn bound_socket_is_logged_with_its_port() {
    let (mut listener, _) = Listener::new();
    let step = listener.step(ListenerEvent::Bound { port: 8253 });
    assert_eq!(
        step,
        ListenerStep {
            log: Some(LogEvent::Listening { port: 8253 }),
            next: ListenerAction::Accept,
        }
    );
    assert_eq!(step.log.unwrap().message(), "Listening on port: 8253");
    assert_eq!(listener.state(), ListenerState::Accepting);
}

#[test]
fn rejected_address_is_fatal() {
    let (mut listener, _) = Listener::new();
    let step = listener.step(ListenerEvent::AddressRejected);
    assert_eq!(
        step,
        ListenerStep { log: None, next: ListenerAction::Terminate(Fatal::AddressInvalid) }
    );
    assert_eq!(listener.state(), ListenerState::Terminated(Fatal::AddressInvalid));
}

#[test]
fn failed_bind_is_fatal() {
    let (mut listener, _) = Listener::new();
    let step = listener.step(ListenerEvent::BindFailed);
    assert_eq!(
        step,
        ListenerStep { log: None, next: ListenerAction::Terminate(Fatal::BindFailed) }
    );
    assert_eq!(listener.state(), ListenerState::Terminated(Fatal::BindFailed));
}

#[test]
fn accepted_connection_is_logged_and_handed_off() {
    let (mut listener, _) = Listener::new();
    listener.step(ListenerEvent::Bound { port: 8253 });
    let step = listener.step(ListenerEvent::Accepted);
    assert_eq!(
        step,
        ListenerStep {
            log: Some(LogEvent::ConnectionAccepted),
            next: ListenerAction::HandOff,
        }
    );
    assert_eq!(listener.state(), ListenerState::Accepting);
}

#[test]
fn failed_accept_is_fatal() {
    let (mut listener, _) = Listener::new();
    listener.step(ListenerEvent::Bound { port: 8253 });
    listener.step(ListenerEvent::Accepted);
    let step = listener.step(ListenerEvent::AcceptFailed);
    assert_eq!(
        step,
        ListenerStep { log: None, next: ListenerAction::Terminate(Fatal::AcceptFailed) }
    );
    assert_eq!(listener.state(), ListenerState::Terminated(Fatal::AcceptFailed));
}

#[test]
fn listener_event_that_answers_nothing_is_a_failure() {
    for event in [ListenerEvent::Accepted, ListenerEvent::AcceptFailed] {
        let (mut listener, _) = Listener::new();
        let step = listener.step(event);
        assert_eq!(step.next, ListenerAction::Terminate(Fatal::BindFailed));
        assert_eq!(step.log, None);
    }
    for event in [
        ListenerEvent::AddressRejected,
        ListenerEvent::BindFailed,
        ListenerEvent::Bound { port: 1 },
    ] {
        let (mut listener, _) = Listener::new();
        listener.step(ListenerEvent::Bound { port: 8253 });
        let step = listener.step(event);
        assert_eq!(step.next, ListenerAction::Terminate(Fatal::AcceptFailed));
        assert_eq!(step.log, None);
    }
}

#[test]
fn terminated_listener_stays_terminated() {
    let events = [
        ListenerEvent::AddressRejected,
        ListenerEvent::BindFailed,
        ListenerEvent::Bound { port: 8253 },
        ListenerEvent::Accepted,
        ListenerEvent::AcceptFailed,
    ];
    let (mut listener, _) = Listener::new();
    listener.step(ListenerEvent::BindFailed);
    for event in events {
        let step = listener.step(event);
        assert_eq!(
            step,
            ListenerStep { log: None, next: ListenerAction::Terminate(Fatal::BindFailed) }
        );
        assert_eq!(listener.state(), ListenerState::Terminated(Fatal::BindFailed));
    }
}

#[test]
fn listener_hands_off_any_number_of_connections() {
    let (mut listener, _) = Listener::new();
    listener.step(ListenerEvent::Bound { port: 8253 });
    let mut handed_off = 0;
    for _ in 0..1000 {
        let step = listener.step(ListenerEvent::Accepted);
        assert_eq!(step.log, Some(LogEvent::ConnectionAccepted));
        if step.next == ListenerAction::HandOff {
            handed_off += 1;
        }
        assert_eq!(listener.state(), ListenerState::Accepting);
    }
    assert_eq!(handed_off, 1000);
}

#[test]
fn listener_accepts_while_a_suspend_is_blocking() {
    let (mut listener, _) = Listener::new();
    listener.step(ListenerEvent::Bound { port: 8253 });

    assert_eq!(listener.step(ListenerEvent::Accepted).next, ListenerAction::HandOff);
    let (mut first, _) = Processor::new(0x77);
    assert_eq!(first.step(Event::Byte(0x77)).next, Action::Suspend);
    assert_eq!(first.state(), ProcessorState::Suspending);

    assert_eq!(listener.step(ListenerEvent::Accepted).next, ListenerAction::HandOff);
    assert_eq!(listener.state(), ListenerState::Accepting);
    let (mut second, _) = Processor::new(0x77);
    let step = second.step(Event::Byte(0x05));
    assert_eq!(step.log, Some(LogEvent::UnknownCommand { byte: 0x05 }));
    assert_eq!(step.next, Action::Finish(Outcome::UnknownLogged));

    assert_eq!(first.state(), ProcessorState::Suspending);
    assert_eq!(first.step(Event::SuspendReturned).log, Some(LogEvent::Awake));
}
