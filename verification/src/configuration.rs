//! The values that travel through the lifecycle: listen addresses, validated
//! configurations and parsed schemas.

use vstd::prelude::*;

verus! {

/// The address of a host.
#[derive(Clone, Copy, Debug, PartialEq, Eq, Hash, Structural)]
pub enum IpAddr {
    /// An IPv4 address, as its 32-bit value.
    V4(u32),
    /// An IPv6 address, as its 128-bit value.
    V6(u128),
}

/// A socket address: either a listen spec taken from a configuration, or the
/// address a server was bound to. Port `0` in a listen spec asks the operating
/// system to choose the port.
#[derive(Clone, Copy, Debug, PartialEq, Eq, Hash, Structural)]
pub struct ListenAddr {
    /// The host's address.
    pub ip: IpAddr,
    /// The port.
    pub port: u16,
}

impl ListenAddr {
    /// Whether `self`, a listen spec, lets the operating system pick the port.
    pub open spec fn spec_is_ephemeral(self) -> bool {
        self.port == 0
    }

    /// Whether `self`, a listen spec, lets the operating system pick the port.
    #[verifier::when_used_as_spec(spec_is_ephemeral)]
    pub fn is_ephemeral(self) -> (ephemeral: bool)
        ensures
            ephemeral == self.spec_is_ephemeral(),
    {
        self.port == 0
    }
}

/// A validated configuration. The lifecycle reads `listen` only; `settings`
/// carries the validated text along for whoever builds the pipeline.
#[derive(Clone, Debug, PartialEq, Eq)]
pub struct Configuration {
    /// Where the HTTP server is asked to listen.
    pub listen: ListenAddr,
    /// The settings the configuration was validated from.
    pub settings: String,
}

/// A parsed supergraph schema. The lifecycle reads `hash` only, to publish it
/// with the running state.
#[derive(Clone, Debug, PartialEq, Eq)]
pub struct Schema {
    /// The hash that identifies the schema's content.
    pub hash: String,
    /// The schema's text.
    pub sdl: String,
}

} // verus!
