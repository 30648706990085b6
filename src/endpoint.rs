use vstd::prelude::*;

verus! {

/// A network address: an IP address held as one integer, a port, and the
/// address family (`v6` is false for IPv4, whose address sits in the low 32 bits).
#[derive(Clone, Copy, Debug, PartialEq, Eq, Structural)]
pub struct Endpoint {
    pub ip: u128,
    pub port: u16,
    pub v6: bool,
}

impl Endpoint {
    /// An IPv4 endpoint from its four octets and a port.
    pub fn v4(a: u8, b: u8, c: u8, d: u8, port: u16) -> (r: Endpoint)
        ensures
            r.ip == (a as u128) * 16777216 + (b as u128) * 65536 + (c as u128) * 256 + (d as u128),
            r.port == port,
            !r.v6,
    {
        let ip: u128 = (a as u128) * 16777216 + (b as u128) * 65536 + (c as u128) * 256 + (d as u128);
        Endpoint { ip, port, v6: false }
    }

    /// An IPv6 endpoint from its address as one integer and a port.
    pub fn v6(ip: u128, port: u16) -> (r: Endpoint)
        ensures
            r.ip == ip,
            r.port == port,
            r.v6,
    {
        Endpoint { ip, port, v6: true }
    }
}

/// The fixed pause between two probes of one target.
#[derive(Clone, Copy, Debug, PartialEq, Eq, Structural)]
pub struct Delay {
    pub secs: u64,
    pub nanos: u32,
}

impl Delay {
    /// Nanoseconds below one second, as a duration keeps them.
    pub open spec fn wf(self) -> bool {
        self.nanos < 1_000_000_000
    }

    /// The delay in nanoseconds.
    pub open spec fn total_nanos(self) -> int {
        self.secs * 1_000_000_000 + self.nanos
    }

    /// A delay of whole milliseconds.
    pub fn from_millis(millis: u64) -> (r: Delay)
        ensures
            r.wf(),
            r.total_nanos() == millis * 1_000_000,
    {
        let secs: u64 = millis / 1000;
        let rest: u64 = millis % 1000;
        let nanos: u32 = (rest * 1_000_000) as u32;
        Delay { secs, nanos }
    }
}

} // verus!
