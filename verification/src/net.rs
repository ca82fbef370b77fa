//! Addresses and destinations of outbound calls.

use vstd::prelude::*;

use crate::text::{ascii_lower_text, eq_ignore_ascii_case};

verus! {

/// An IPv4 address, by its four octets.
#[derive(Clone, Copy, Debug, PartialEq, Eq)]
pub struct Ipv4Addr {
    pub octets: [u8; 4],
}

/// An IPv6 address, by its eight segments.
#[derive(Clone, Copy, Debug, PartialEq, Eq)]
pub struct Ipv6Addr {
    pub segments: [u16; 8],
}

/// An IP address.
#[derive(Clone, Copy, Debug, PartialEq, Eq)]
pub enum IpAddr {
    V4(Ipv4Addr),
    V6(Ipv6Addr),
}

/// An IP address with a port.
#[derive(Clone, Copy, Debug, PartialEq, Eq)]
pub struct SocketAddr {
    pub ip: IpAddr,
    pub port: u16,
}

/// A destination of an outbound call.
#[derive(Debug, PartialEq, Eq)]
pub enum Target {
    /// A socket address.
    Address(SocketAddr),
    /// A host name, to be resolved, with a port.
    Hostname(String, u16),
    /// The path of a Unix domain socket.
    UnixSocket(String),
}

/// A destination, texts by their characters.
pub enum TargetView {
    Address(SocketAddr),
    Hostname(Seq<char>, u16),
    UnixSocket(Seq<char>),
}

impl View for Target {
    type V = TargetView;

    open spec fn view(&self) -> TargetView {
        match self {
            Target::Address(addr) => TargetView::Address(*addr),
            Target::Hostname(host, port) => TargetView::Hostname(host@, *port),
            Target::UnixSocket(path) => TargetView::UnixSocket(path@),
        }
    }
}

impl Clone for Target {
    fn clone(&self) -> (r: Target)
        ensures
            r == *self,
    {
        match self {
            Target::Address(addr) => Target::Address(*addr),
            Target::Hostname(host, port) => Target::Hostname(host.clone(), *port),
            Target::UnixSocket(path) => Target::UnixSocket(path.clone()),
        }
    }
}

impl Ipv4Addr {
    /// Within 169.254.0.0/16.
    pub open spec fn link_local(self) -> bool {
        self.octets@[0] == 169 && self.octets@[1] == 254
    }

    /// Within 127.0.0.0/8.
    pub open spec fn loopback(self) -> bool {
        self.octets@[0] == 127
    }

    /// Whether the address is link-local (169.254.0.0/16).
    pub fn is_link_local(&self) -> (r: bool)
        ensures
            r == self.link_local(),
    {
        self.octets[0] == 169 && self.octets[1] == 254
    }

    /// Whether the address is a loopback address (127.0.0.0/8).
    pub fn is_loopback(&self) -> (r: bool)
        ensures
            r == self.loopback(),
    {
        self.octets[0] == 127
    }
}

impl Ipv6Addr {
    /// Within fe80::/10: the first ten bits are those of `fe80`.
    pub open spec fn unicast_link_local(self) -> bool {
        0xfe80 <= self.segments@[0] <= 0xfebf
    }

    /// `::1`.
    pub open spec fn loopback(self) -> bool {
        &&& forall|i: int| 0 <= i < 7 ==> #[trigger] self.segments@[i] == 0
        &&& self.segments@[7] == 1
    }

    /// Whether the address is unicast link-local (fe80::/10).
    pub fn is_unicast_link_local(&self) -> (r: bool)
        ensures
            r == self.unicast_link_local(),
    {
        let first: u16 = self.segments[0];
        assert((first & 0xffc0 == 0xfe80) == (0xfe80 <= first && first <= 0xfebf)) by (bit_vector);
        first & 0xffc0 == 0xfe80
    }

    /// Whether the address is the loopback address (`::1`).
    pub fn is_loopback(&self) -> (r: bool)
        ensures
            r == self.loopback(),
    {
        for i in 0..7usize
            invariant
                forall|j: int| 0 <= j < i ==> #[trigger] self.segments@[j] == 0,
        {
            if self.segments[i] != 0 {
                return false;
            }
        }
        self.segments[7] == 1
    }
}

/// A destination that only this host can reach.
pub open spec fn host_local(target: TargetView) -> bool {
    match target {
        TargetView::Address(addr) => match addr.ip {
            IpAddr::V4(ip) => ip.link_local() || ip.loopback(),
            IpAddr::V6(ip) => ip.unicast_link_local() || ip.loopback(),
        },
        TargetView::Hostname(host, _) => ascii_lower_text(host) == "localhost"@,
        TargetView::UnixSocket(_) => false,
    }
}

/// Returns true for destinations only reachable from this host: link-local
/// addresses such as the IMDS endpoint (169.254.169.254), and loopback
/// endpoints used by the managed-identity sources on Azure Arc, Cloud Shell,
/// and Service Fabric (e.g. `http://localhost:40342`).
/// A forward proxy would dial its own link-local/loopback space, not ours.
pub fn is_host_local(target: &Target) -> (r: bool)
    ensures
        r == host_local(target@),
{
    match target {
        Target::Address(addr) => match addr.ip {
            IpAddr::V4(ip) => ip.is_link_local() || ip.is_loopback(),
            IpAddr::V6(ip) => ip.is_unicast_link_local() || ip.is_loopback(),
        },
        Target::Hostname(host, _) => {
            proof {
                reveal_strlit("localhost");
                assert(ascii_lower_text("localhost"@) =~= "localhost"@);
            }
            eq_ignore_ascii_case(host.as_str(), "localhost")
        },
        Target::UnixSocket(_) => false,
    }
}

} // verus!
