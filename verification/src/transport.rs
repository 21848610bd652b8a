//! The datagram transport connection: triage of inbound datagrams
//! (keepalive handshake, noise, decode, parse, received-address rewrite),
//! the external-address cache filled by STUN discovery, and the event the
//! receive loop publishes for every surviving message.

use vstd::prelude::*;
use vstd::string::StringExecFns;
use crate::addr::{SipAddr, SipAddrV, SocketAddress, SocketAddressV, TransportKind};
use crate::errors::SipError;
use crate::message::{
    decode_utf8_text, parse_sip_text, sip_parse, spec_update_received, utf8_decode,
    ParsedMessage, ParsedMessageV,
};

verus! {

/// The keepalive ping sentinel: a fixed byte sequence that is never valid
/// SIP text.
pub open spec fn keepalive_ping() -> Seq<u8> {
    seq![13u8, 10u8, 13u8, 10u8]
}

/// The keepalive pong sentinel, sent back to a ping's source.
pub open spec fn keepalive_pong() -> Seq<u8> {
    seq![13u8, 10u8]
}

/// The ping sentinel as bytes on the wire.
pub fn keepalive_ping_bytes() -> (r: Vec<u8>)
    ensures
        r@ == keepalive_ping(),
{
    let r: Vec<u8> = vec![13u8, 10u8, 13u8, 10u8];
    assert(r@ =~= keepalive_ping());
    r
}

/// The pong sentinel as bytes on the wire.
pub fn keepalive_pong_bytes() -> (r: Vec<u8>)
    ensures
        r@ == keepalive_pong(),
{
    let r: Vec<u8> = vec![13u8, 10u8];
    assert(r@ =~= keepalive_pong());
    r
}

/// ASCII whitespace (space, tab, line feed, form feed, carriage return),
/// the shape of bare-newline peer keepalive noise.
pub open spec fn is_ws_byte(b: u8) -> bool {
    b == 32 || b == 9 || b == 10 || b == 12 || b == 13
}

/// A payload made entirely of ASCII whitespace.
pub open spec fn all_whitespace(s: Seq<u8>) -> bool {
    forall|i: int| 0 <= i < s.len() ==> is_ws_byte(s[i])
}

fn byte_is_ws(b: u8) -> (r: bool)
    ensures
        r == is_ws_byte(b),
{
    b == 32 || b == 9 || b == 10 || b == 12 || b == 13
}

/// What the receive loop does with one inbound datagram.
#[derive(Debug)]
pub enum DatagramAction {
    /// The payload was the ping sentinel: answer with the pong sentinel,
    /// addressed to the carried source; publish nothing.
    ReplyPong(SocketAddress),
    /// The payload was the pong sentinel: discard it, answer nothing.
    DiscardPong,
    /// The payload was whitespace-only keepalive noise: discard it.
    DiscardNoise,
    /// The payload was not UTF-8 text: discard it, the loop continues.
    DiscardInvalidUtf8,
    /// The payload was text but not a SIP message: discard it, the loop
    /// continues.
    DiscardUnparsable,
    /// The payload parsed: publish this message, its Via `received` already
    /// rewritten, together with the datagram's source.
    Publish(ParsedMessage, SocketAddress),
}

/// The mathematical value of a `DatagramAction`.
pub enum DatagramActionV {
    ReplyPong(SocketAddressV),
    DiscardPong,
    DiscardNoise,
    DiscardInvalidUtf8,
    DiscardUnparsable,
    Publish(ParsedMessageV, SocketAddressV),
}

impl View for DatagramAction {
    type V = DatagramActionV;

    open spec fn view(&self) -> DatagramActionV {
        match self {
            DatagramAction::ReplyPong(a) => DatagramActionV::ReplyPong(a@),
            DatagramAction::DiscardPong => DatagramActionV::DiscardPong,
            DatagramAction::DiscardNoise => DatagramActionV::DiscardNoise,
            DatagramAction::DiscardInvalidUtf8 => DatagramActionV::DiscardInvalidUtf8,
            DatagramAction::DiscardUnparsable => DatagramActionV::DiscardUnparsable,
            DatagramAction::Publish(m, a) => DatagramActionV::Publish(m@, a@),
        }
    }
}

/// The whole triage of one datagram, as a function of the payload bytes and
/// the source address: sentinels first, then whitespace noise, then UTF-8
/// decoding, then SIP parsing, then the received-address rewrite.
pub open spec fn spec_datagram_action(b: Seq<u8>, source: SocketAddressV) -> DatagramActionV {
    if b == keepalive_ping() {
        DatagramActionV::ReplyPong(source)
    } else if b == keepalive_pong() {
        DatagramActionV::DiscardPong
    } else if all_whitespace(b) {
        DatagramActionV::DiscardNoise
    } else {
        match utf8_decode(b) {
            Option::None => DatagramActionV::DiscardInvalidUtf8,
            Option::Some(text) => match sip_parse(text) {
                Option::None => DatagramActionV::DiscardUnparsable,
                Option::Some(m) => DatagramActionV::Publish(
                    spec_update_received(m, source),
                    source,
                ),
            },
        }
    }
}

/// One event on the transport channel: a successfully parsed, non-keepalive
/// inbound message, the address of the connection that received it, and the
/// datagram's source address.
#[derive(Debug)]
pub enum TransportEvent {
    Incoming(ParsedMessage, SipAddr, SipAddr),
}

/// The mathematical value of a `TransportEvent`.
pub enum TransportEventV {
    Incoming(ParsedMessageV, SipAddrV, SipAddrV),
}

impl View for TransportEvent {
    type V = TransportEventV;

    open spec fn view(&self) -> TransportEventV {
        match self {
            TransportEvent::Incoming(m, c, s) => TransportEventV::Incoming(m@, c@, s@),
        }
    }
}

/// What STUN decoding yields of a raw reply, where the reply decodes and
/// carries an XOR-mapped-address attribute: that attribute's socket address.
pub uninterp spec fn stun_xor_mapped(b: Seq<u8>) -> Option<SocketAddressV>;

/// Relies on stun-rs's MessageDecoder and the XOR-mapped-address attribute
/// accessors: the outcome depends on the reply bytes alone.
#[verifier::external_body]
fn decode_stun_reply(b: &[u8]) -> (r: Option<SocketAddress>)
    ensures
        (r is Some) == (stun_xor_mapped(b@) is Some),
        r matches Some(a) ==> stun_xor_mapped(b@) == Some(a@),
{
    let decoder = stun_rs::MessageDecoderBuilder::default().build();
    let (resp, _) = match decoder.decode(b) {
        Ok(x) => x,
        Err(_) => return None,
    };
    let attr = resp.get::<stun_rs::attributes::stun::XorMappedAddress>()?;
    let xor = match attr.as_xor_mapped_address() {
        Ok(x) => x,
        Err(_) => return None,
    };
    let sa = xor.socket_address();
    Some(SocketAddress { ip: format!("{}", sa.ip()), port: sa.port() })
}

/// Relies on stun-rs's StunMessageBuilder and MessageEncoder to produce an
/// encoded Binding request. Encoding an attribute-less Binding request
/// cannot fail: its twenty-byte header always fits the fixed buffer, and
/// the encoder has no other failure path for a message without attributes —
/// it writes the Binding-request message type, a zero attribute length and
/// the RFC 5389 magic cookie, then the transaction identifier. That
/// identifier is drawn at random, so nothing is promised of bytes past the
/// first eight; the datagram sent on the wire is the whole encode buffer.
#[verifier::external_body]
fn encode_binding_request() -> (r: Option<Vec<u8>>)
    ensures
        r is Some,
        r matches Some(v) ==> {
            &&& v@.len() == 150
            &&& v@[0] == 0u8 && v@[1] == 1u8
            &&& v@[2] == 0u8 && v@[3] == 0u8
            &&& v@[4] == 0x21u8 && v@[5] == 0x12u8 && v@[6] == 0xA4u8 && v@[7] == 0x42u8
        },
{
    let msg = stun_rs::StunMessageBuilder::new(
        stun_rs::methods::BINDING,
        stun_rs::MessageClass::Request,
    ).build();
    let encoder = stun_rs::MessageEncoderBuilder::default().build();
    let mut buffer: [u8; 150] = [0x00; 150];
    match encoder.encode(&mut buffer, &msg) {
        Ok(_) => Some(buffer.to_vec()),
        Err(_) => None,
    }
}

/// Build the datagram of one STUN Binding request, ready to send raw: a
/// Binding-request header with no attributes and the magic cookie, padded
/// to the fixed buffer length.
pub fn make_binding_request() -> (r: Vec<u8>)
    ensures
        r@.len() == 150,
        r@[0] == 0u8 && r@[1] == 1u8,
        r@[2] == 0u8 && r@[3] == 0u8,
        r@[4] == 0x21u8 && r@[5] == 0x12u8 && r@[6] == 0xA4u8 && r@[7] == 0x42u8,
{
    match encode_binding_request() {
        Option::Some(v) => v,
        Option::None => {
            proof {
                assert(false);
            }
            Vec::new()
        },
    }
}

/// The state of one datagram transport connection: its bind-time address and
/// the externally-discovered address, once one is known. The bound socket
/// itself stays with the caller that performs the I/O.
#[derive(Debug)]
pub struct UdpConnection {
    addr: SipAddr,
    external: Option<SipAddr>,
}

impl Clone for UdpConnection {
    fn clone(&self) -> (r: Self)
        ensures
            r@ == self@,
    {
        UdpConnection {
            addr: self.addr.clone(),
            external: match self.external {
                Option::Some(ref e) => Option::Some(e.clone()),
                Option::None => Option::None,
            },
        }
    }
}

/// The mathematical value of a `UdpConnection`.
pub struct UdpConnectionV {
    pub addr: SipAddrV,
    pub external: Option<SipAddrV>,
}

impl View for UdpConnection {
    type V = UdpConnectionV;

    closed spec fn view(&self) -> UdpConnectionV {
        UdpConnectionV {
            addr: self.addr@,
            external: match self.external {
                Option::Some(ref a) => Some(a@),
                Option::None => None,
            },
        }
    }
}

/// The address a connection advertises: the external address once one is
/// known, else the bind address.
pub open spec fn spec_get_addr(c: UdpConnectionV) -> SipAddrV {
    match c.external {
        Option::Some(e) => e,
        Option::None => c.addr,
    }
}

impl UdpConnection {
    /// Record a freshly bound connection: the address the socket actually
    /// bound to, and a statically configured external address, if any, which
    /// takes precedence until STUN discovery overwrites it. Both are tagged
    /// as UDP endpoints.
    pub fn create_connection(bound: SocketAddress, external: Option<SocketAddress>) -> (r:
        UdpConnection)
        ensures
            r@.addr == (SipAddrV { kind: Some(TransportKind::Udp), addr: bound@ }),
            external matches Some(e) ==> r@.external == Some(
                SipAddrV { kind: Some(TransportKind::Udp), addr: e@ },
            ),
            external is None ==> r@.external is None,
    {
        let ext = match external {
            Option::Some(e) => Option::Some(SipAddr::udp(e)),
            Option::None => Option::None,
        };
        UdpConnection { addr: SipAddr::udp(bound), external: ext }
    }

    /// The address this connection advertises in outbound Contact and Via
    /// headers: the externally discovered one if present, else the bind
    /// address.
    pub fn get_addr(&self) -> (r: &SipAddr)
        ensures
            r@ == spec_get_addr(self@),
    {
        match self.external {
            Option::Some(ref e) => e,
            Option::None => &self.addr,
        }
    }

    /// Digest the raw reply of one STUN Binding round-trip: decode it,
    /// extract the XOR-mapped address, and cache it as this connection's
    /// external address, which immediately changes what `get_addr` returns.
    /// Any decode failure leaves the connection unchanged and yields a
    /// transport-layer error carrying the pre-discovery address.
    pub fn external_by_stun(&mut self, reply: &[u8]) -> (r: Result<SocketAddress, SipError>)
        ensures
            stun_xor_mapped(reply@) matches Some(a) ==> {
                &&& r matches Ok(got) && got@ == a
                &&& final(self)@.external == Some(
                    SipAddrV { kind: Some(TransportKind::Udp), addr: a },
                )
                &&& final(self)@.addr == old(self)@.addr
            },
            stun_xor_mapped(reply@) is None ==> {
                &&& final(self)@ == old(self)@
                &&& r matches Err(e) && (e matches SipError::TransportLayer(_, at) && at@
                    == spec_get_addr(old(self)@))
            },
    {
        match decode_stun_reply(reply) {
            Option::Some(sock) => {
                self.external = Option::Some(SipAddr::udp(sock.clone()));
                Result::Ok(sock)
            },
            Option::None => Result::Err(
                SipError::TransportLayer(
                    String::from_str("STUN reply carried no usable XOR-mapped address"),
                    self.get_addr().clone(),
                ),
            ),
        }
    }

    /// Triage one inbound datagram: the keepalive handshake and whitespace
    /// noise are settled on the raw bytes before any decoding; what survives
    /// is decoded, parsed, and rewritten, and every failure only discards
    /// the one datagram.
    pub fn process_datagram(&self, payload: &[u8], source: &SocketAddress) -> (r: DatagramAction)
        ensures
            r@ == spec_datagram_action(payload@, source@),
    {
        if payload.len() == 4 && payload[0] == 13 && payload[1] == 10 && payload[2] == 13
            && payload[3] == 10 {
            assert(payload@ =~= keepalive_ping());
            return DatagramAction::ReplyPong(source.clone());
        }
        assert(payload@ != keepalive_ping());
        if payload.len() == 2 && payload[0] == 13 && payload[1] == 10 {
            assert(payload@ =~= keepalive_pong());
            return DatagramAction::DiscardPong;
        }
        assert(payload@ != keepalive_pong());
        let mut i: usize = 0;
        let mut ws = true;
        while i < payload.len()
            invariant
                0 <= i <= payload@.len(),
                ws == (forall|j: int| 0 <= j < i ==> is_ws_byte(payload@[j])),
            decreases payload@.len() - i,
        {
            if !byte_is_ws(payload[i]) {
                ws = false;
            }
            i += 1;
        }
        if ws {
            assert(all_whitespace(payload@));
            return DatagramAction::DiscardNoise;
        }
        assert(!all_whitespace(payload@));
        let text = match decode_utf8_text(payload) {
            Option::Some(t) => t,
            Option::None => {
                return DatagramAction::DiscardInvalidUtf8;
            },
        };
        let parsed = match parse_sip_text(text.as_str()) {
            Option::Some(m) => m,
            Option::None => {
                return DatagramAction::DiscardUnparsable;
            },
        };
        DatagramAction::Publish(parsed.update_msg_received(source), source.clone())
    }

    /// The channel event for one triaged datagram: exactly the publish
    /// outcomes yield one — one event per successfully parsed, non-keepalive
    /// datagram — carrying the message, this connection's advertised address
    /// as the handle, and the source tagged as a UDP endpoint.
    pub fn event_for(&self, action: DatagramAction) -> (r: Option<TransportEvent>)
        ensures
            (r is Some) == (action@ is Publish),
            action@ matches DatagramActionV::Publish(m, s) ==> (r matches Some(e) && e@
                == TransportEventV::Incoming(
                m,
                spec_get_addr(self@),
                SipAddrV { kind: Some(TransportKind::Udp), addr: s },
            )),
    {
        match action {
            DatagramAction::Publish(m, s) => Some(
                TransportEvent::Incoming(m, self.get_addr().clone(), SipAddr::udp(s)),
            ),
            _ => None,
        }
    }
}

/// Law: the keepalive handshake never reaches the event channel. A ping is
/// answered with a pong to its own source and nothing is published; a pong
/// is discarded outright.
pub proof fn lemma_keepalive_round_trip(source: SocketAddressV)
    ensures
        spec_datagram_action(keepalive_ping(), source) == DatagramActionV::ReplyPong(source),
        spec_datagram_action(keepalive_pong(), source) == DatagramActionV::DiscardPong,
        !(spec_datagram_action(keepalive_ping(), source) is Publish),
        !(spec_datagram_action(keepalive_pong(), source) is Publish),
{
    assert(keepalive_ping() != keepalive_pong()) by {
        assert(keepalive_ping().len() == 4);
        assert(keepalive_pong().len() == 2);
    }
}

/// Law: a malformed datagram is discarded, never terminal — the triage of
/// one payload yields a discard for non-UTF-8 bytes and for unparsable text,
/// and the triage of any later payload is untouched by it, so a well-formed
/// message following a malformed one is still published.
pub proof fn lemma_malformed_is_recovered(bad: Seq<u8>, good: Seq<u8>, source: SocketAddressV)
    requires
        bad != keepalive_ping(),
        bad != keepalive_pong(),
        !all_whitespace(bad),
        utf8_decode(bad) is None,
        good != keepalive_ping(),
        good != keepalive_pong(),
        !all_whitespace(good),
        utf8_decode(good) matches Some(t) && sip_parse(t) is Some,
    ensures
        spec_datagram_action(bad, source) == DatagramActionV::DiscardInvalidUtf8,
        spec_datagram_action(good, source) is Publish,
{
}

/// Law: once a STUN exchange has cached an external address, `get_addr`
/// returns it, whatever address the connection was bound to.
pub proof fn lemma_external_address_precedence(c: UdpConnectionV, e: SipAddrV)
    ensures
        spec_get_addr(UdpConnectionV { addr: c.addr, external: Some(e) }) == e,
        c.external is None ==> spec_get_addr(c) == c.addr,
{
}

} // verus!
