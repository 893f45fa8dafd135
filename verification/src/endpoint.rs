//! Network endpoints and the forwarder's startup parameters.

use vstd::prelude::*;

verus! {

/// The host part of an endpoint.
///
/// An address is held as the integer whose big-endian bytes are the address,
/// so `127.0.0.1` is `V4(0x7f00_0001)` and `::1` is `V6 { bits: 1, .. }`. An
/// IPv6 host has its flow information and its scope with it.
#[derive(Clone, Copy, Debug, PartialEq, Eq, Structural)]
pub enum Host {
    V4(u32),
    V6 { bits: u128, flowinfo: u32, scope_id: u32 },
}

/// A resolved network address: host and port.
#[derive(Clone, Copy, Debug, PartialEq, Eq, Structural)]
pub struct Endpoint {
    pub host: Host,
    pub port: u16,
}

/// The integer that stands for the IPv4 address `a.b.c.d`.
pub open spec fn v4_bits(a: u8, b: u8, c: u8, d: u8) -> int {
    a as int * 0x100_0000 + b as int * 0x1_0000 + c as int * 0x100 + d as int
}

impl Endpoint {
    /// The IPv4 endpoint `a.b.c.d:port`.
    pub fn v4(a: u8, b: u8, c: u8, d: u8, port: u16) -> (e: Endpoint)
        ensures
            e == (Endpoint { host: Host::V4(v4_bits(a, b, c, d) as u32), port }),
            v4_bits(a, b, c, d) <= u32::MAX,
    {
        let bits: u32 = a as u32 * 0x100_0000 + b as u32 * 0x1_0000 + c as u32 * 0x100 + d as u32;
        Endpoint { host: Host::V4(bits), port }
    }
}

/// The startup parameters: where to listen, where to forward to, and whether
/// the listener is restricted to IPv6 traffic.
#[derive(Clone, Copy, Debug, PartialEq, Eq, Structural)]
pub struct ServiceConfig {
    pub listen: Endpoint,
    pub target: Endpoint,
    pub v6_only: bool,
}

/// The two startup parameters that are addresses.
#[derive(Clone, Copy, Debug, PartialEq, Eq, Structural)]
pub enum Param {
    Listen,
    Target,
}

/// A startup parameter that is no valid address, with what its reader found
/// wrong with it.
#[derive(Debug, PartialEq, Eq)]
pub struct StartupError<E> {
    pub param: Param,
    pub cause: E,
}

impl ServiceConfig {
    /// The configuration with these three parameters.
    pub fn new(listen: Endpoint, target: Endpoint, v6_only: bool) -> (config: ServiceConfig)
        ensures
            config == (ServiceConfig { listen, target, v6_only }),
    {
        ServiceConfig { listen, target, v6_only }
    }

    /// The configuration, from what reading the two address parameters gave.
    ///
    /// Both must be valid before anything is started. The listen address is
    /// looked at first: where both are invalid, the error is that of the
    /// listen address.
    pub fn from_parsed<E>(
        listen: Result<Endpoint, E>,
        target: Result<Endpoint, E>,
        v6_only: bool,
    ) -> (config: Result<ServiceConfig, StartupError<E>>)
        ensures
            config == match (listen, target) {
                (Ok(listen), Ok(target)) => Ok(ServiceConfig { listen, target, v6_only }),
                (Err(cause), _) => Err(StartupError { param: Param::Listen, cause }),
                (Ok(_), Err(cause)) => Err(StartupError { param: Param::Target, cause }),
            },
    {
        match listen {
            Err(cause) => Err(StartupError { param: Param::Listen, cause }),
            Ok(listen) => match target {
                Err(cause) => Err(StartupError { param: Param::Target, cause }),
                Ok(target) => Ok(ServiceConfig { listen, target, v6_only }),
            },
        }
    }
}

} // verus!
