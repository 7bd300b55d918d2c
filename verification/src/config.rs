//! Process-wide configuration: the magic byte and the listen address.

use vstd::prelude::*;

verus! {

/// The byte that asks the host to suspend.
pub const MAGIC_PACKET: u8 = 0x77;

/// The address the daemon listens on, as `host:port`.
pub const LISTEN_ADDRESS: &'static str = "0.0.0.0:8253";

/// What a running daemon is configured with. The values are fixed when the
/// process starts and never change afterwards.
#[derive(Clone, Copy, Debug, PartialEq, Eq)]
pub struct Config {
    /// The byte that is recognised as the suspend command.
    pub magic: u8,
    /// The socket address to bind, as `host:port`.
    pub address: &'static str,
}

impl Config {
    /// A configuration with the given magic byte and listen address.
    pub fn new(magic: u8, address: &'static str) -> (config: Config)
        ensures
            config.magic == magic,
            config.address == address,
    {
        Config { magic, address }
    }
}

impl Default for Config {
    /// The standard configuration: `MAGIC_PACKET` on `LISTEN_ADDRESS`.
    fn default() -> (config: Config)
        ensures
            config.magic == MAGIC_PACKET,
            config.address == LISTEN_ADDRESS,
    {
        Config { magic: MAGIC_PACKET, address: LISTEN_ADDRESS }
    }
}

} // verus!
