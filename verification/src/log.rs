//! The lines the daemon writes to its log.

use vstd::prelude::*;
use vstd::string::*;

use crate::text::{decimal_text, hex_text, push_decimal, push_hex};

verus! {

/// How a log line is classed.
#[derive(Clone, Copy, Debug, PartialEq, Eq, Structural)]
pub enum Severity {
    /// An ordinary event.
    Info,
    /// Something a client should not have done.
    Error,
}

/// An event worth a log line.
#[derive(Clone, Copy, Debug, PartialEq, Eq, Structural)]
pub enum LogEvent {
    /// The listening socket is bound to `port`.
    Listening { port: u16 },
    /// A connection was accepted.
    ConnectionAccepted,
    /// The host is about to be suspended.
    SleepIntent,
    /// The suspend request returned: the host is awake again.
    Awake,
    /// A client sent `byte`, which is not the magic value.
    UnknownCommand { byte: u8 },
}

impl LogEvent {
    /// The class of the line: only an unknown command is an error.
    pub open spec fn severity_spec(self) -> Severity {
        if self is UnknownCommand {
            Severity::Error
        } else {
            Severity::Info
        }
    }

    /// The text of the line.
    pub open spec fn text(self) -> Seq<char> {
        match self {
            LogEvent::Listening { port } => "Listening on port: "@ + decimal_text(port as nat),
            LogEvent::ConnectionAccepted => "Got a connection"@,
            LogEvent::SleepIntent => "Putting the server to sleep"@,
            LogEvent::Awake => "Server is now awake"@,
            LogEvent::UnknownCommand { byte } => "Unknown command: "@ + hex_text(byte),
        }
    }

    /// The class of the line.
    pub fn severity(&self) -> (severity: Severity)
        ensures
            severity == self.severity_spec(),
    {
        match self {
            LogEvent::UnknownCommand { .. } => Severity::Error,
            _ => Severity::Info,
        }
    }

    /// The text of the line, ready to be written.
    pub fn message(&self) -> (message: String)
        ensures
            message@ == self.text(),
    {
        match self {
            LogEvent::Listening { port } => {
                let mut message = String::from_str("Listening on port: ");
                push_decimal(&mut message, *port);
                message
            },
            LogEvent::ConnectionAccepted => String::from_str("Got a connection"),
            LogEvent::SleepIntent => String::from_str("Putting the server to sleep"),
            LogEvent::Awake => String::from_str("Server is now awake"),
            LogEvent::UnknownCommand { byte } => {
                let mut message = String::from_str("Unknown command: ");
                push_hex(&mut message, *byte);
                message
            },
        }
    }
}

} // verus!
