//! The command a connection's first byte stands for.

use vstd::prelude::*;
use vstd::std_specs::convert::FromSpecImpl;

use crate::config::MAGIC_PACKET;

verus! {

/// The command derived from one byte on the wire.
#[derive(Clone, Copy, Debug, PartialEq, Eq, Structural)]
pub enum WakeState {
    /// The byte was the magic value: suspend the host.
    Sleep,
    /// Any other byte, kept for diagnostics.
    Unknown(u8),
}

/// The command that `byte` stands for when `magic` is the magic value.
pub open spec fn classify_spec(magic: u8, byte: u8) -> WakeState {
    if byte == magic {
        WakeState::Sleep
    } else {
        WakeState::Unknown(byte)
    }
}

impl WakeState {
    /// Classifies `byte` against an explicitly configured magic value.
    pub fn classify(magic: u8, byte: u8) -> (state: WakeState)
        ensures
            state == classify_spec(magic, byte),
    {
        if byte == magic {
            WakeState::Sleep
        } else {
            WakeState::Unknown(byte)
        }
    }

    /// Whether this command suspends the host.
    pub fn is_sleep(&self) -> (sleep: bool)
        ensures
            sleep == (*self is Sleep),
    {
        match self {
            WakeState::Sleep => true,
            WakeState::Unknown(_) => false,
        }
    }
}

impl From<u8> for WakeState {
    /// Classifies `value` against `MAGIC_PACKET`.
    fn from(value: u8) -> (state: WakeState) {
        WakeState::classify(MAGIC_PACKET, value)
    }
}

impl FromSpecImpl<u8> for WakeState {
    open spec fn obeys_from_spec() -> bool {
        true
    }

    open spec fn from_spec(value: u8) -> WakeState {
        classify_spec(MAGIC_PACKET, value)
    }
}

} // verus!
