use vstd::prelude::*;

verus! {

/// A peer's network address (IP and port), the sole key that relates a reply
/// to the probe that is waiting for it. Two addresses are equal exactly when
/// every field is equal.
#[derive(Clone, Copy, Debug, PartialEq, Eq, Structural)]
pub enum PeerAddr {
    /// An IPv4 address, its octets read big-endian into `ipv4`.
    V4 { ipv4: u32, port: u16 },
    /// An IPv6 address, its octets read big-endian into `ipv6`.
    V6 { ipv6: u128, port: u16, flowinfo: u32, scope_id: u32 },
}

impl PeerAddr {
    pub fn port(&self) -> (r: u16)
        ensures
            r == match *self {
                PeerAddr::V4 { port, .. } => port,
                PeerAddr::V6 { port, .. } => port,
            },
    {
        match *self {
            PeerAddr::V4 { port, .. } => port,
            PeerAddr::V6 { port, .. } => port,
        }
    }
}

} // verus!
