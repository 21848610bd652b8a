//! Addressing: a transport-kind tag plus a socket address, the unit of
//! "where a message came from / goes to". Equality is structural.

use vstd::prelude::*;

verus! {

/// The transport variant an address belongs to.
#[derive(Clone, Copy, PartialEq, Eq, Structural, Debug)]
pub enum TransportKind {
    Udp,
    Tcp,
    Tls,
    Ws,
}

/// A socket address held as plain values: the IP in its textual form plus the
/// port. The library never interprets the IP text beyond carrying and
/// embedding it, so the textual form is the whole model.
#[derive(Debug)]
pub struct SocketAddress {
    pub ip: String,
    pub port: u16,
}

impl Clone for SocketAddress {
    fn clone(&self) -> (r: Self)
        ensures
            r@ == self@,
    {
        SocketAddress { ip: self.ip.clone(), port: self.port }
    }
}

/// The mathematical value of a `SocketAddress`.
pub struct SocketAddressV {
    pub ip: Seq<char>,
    pub port: u16,
}

impl View for SocketAddress {
    type V = SocketAddressV;

    open spec fn view(&self) -> SocketAddressV {
        SocketAddressV { ip: self.ip@, port: self.port }
    }
}

impl PartialEq for SocketAddress {
    fn eq(&self, other: &SocketAddress) -> (r: bool) {
        self.ip == other.ip && self.port == other.port
    }
}

impl vstd::std_specs::cmp::PartialEqSpecImpl for SocketAddress {
    open spec fn obeys_eq_spec() -> bool {
        true
    }

    open spec fn eq_spec(&self, other: &SocketAddress) -> bool {
        self@ == other@
    }
}

impl Eq for SocketAddress {}

/// A transport endpoint: an optional transport kind beside a socket address.
#[derive(Debug)]
pub struct SipAddr {
    pub kind: Option<TransportKind>,
    pub addr: SocketAddress,
}

impl Clone for SipAddr {
    fn clone(&self) -> (r: Self)
        ensures
            r@ == self@,
    {
        SipAddr { kind: self.kind, addr: self.addr.clone() }
    }
}

/// The mathematical value of a `SipAddr`.
pub struct SipAddrV {
    pub kind: Option<TransportKind>,
    pub addr: SocketAddressV,
}

impl View for SipAddr {
    type V = SipAddrV;

    open spec fn view(&self) -> SipAddrV {
        SipAddrV { kind: self.kind, addr: self.addr@ }
    }
}

impl PartialEq for SipAddr {
    fn eq(&self, other: &SipAddr) -> (r: bool) {
        let kinds_match = match (self.kind, other.kind) {
            (Option::None, Option::None) => true,
            (Option::Some(a), Option::Some(b)) => a == b,
            _ => false,
        };
        kinds_match && self.addr == other.addr
    }
}

impl vstd::std_specs::cmp::PartialEqSpecImpl for SipAddr {
    open spec fn obeys_eq_spec() -> bool {
        true
    }

    open spec fn eq_spec(&self, other: &SipAddr) -> bool {
        self@ == other@
    }
}

impl Eq for SipAddr {}

impl SipAddr {
    /// A UDP-tagged address over the given socket address.
    pub fn udp(addr: SocketAddress) -> (r: SipAddr)
        ensures
            r@.kind == Some(TransportKind::Udp),
            r@.addr == addr@,
    {
        SipAddr { kind: Some(TransportKind::Udp), addr }
    }
}

} // verus!
