//! The model of an inbound SIP message: what the receive loop reads of it
//! (request vs. response) and what it rewrites (the topmost Via header's
//! `received` parameter). The SIP text grammar itself is consumed as an
//! opaque, already-correct codec.

use vstd::prelude::*;
use crate::addr::SocketAddress;

verus! {

/// What the receive loop holds of a successfully parsed SIP message: whether
/// it is a request, and the topmost Via header's `received` parameter in its
/// textual form (absent where the header carries none).
#[derive(Debug)]
pub struct ParsedMessage {
    pub is_request: bool,
    pub via_received: Option<String>,
}

impl Clone for ParsedMessage {
    fn clone(&self) -> (r: Self)
        ensures
            r@ == self@,
    {
        ParsedMessage {
            is_request: self.is_request,
            via_received: match self.via_received {
                Option::Some(ref s) => Option::Some(s.clone()),
                Option::None => Option::None,
            },
        }
    }
}

/// The mathematical value of a `ParsedMessage`.
pub struct ParsedMessageV {
    pub is_request: bool,
    pub via_received: Option<Seq<char>>,
}

impl View for ParsedMessage {
    type V = ParsedMessageV;

    open spec fn view(&self) -> ParsedMessageV {
        ParsedMessageV {
            is_request: self.is_request,
            via_received: match self.via_received {
                Option::Some(ref s) => Some(s@),
                Option::None => None,
            },
        }
    }
}

/// What decoding a byte sequence as UTF-8 text yields, where it succeeds.
pub uninterp spec fn utf8_decode(b: Seq<u8>) -> Option<Seq<char>>;

/// Relies on core::str::from_utf8: success and content depend on the bytes
/// alone.
#[verifier::external_body]
pub(crate) fn decode_utf8_text(b: &[u8]) -> (r: Option<String>)
    ensures
        (r is Some) == (utf8_decode(b@) is Some),
        r matches Some(s) ==> utf8_decode(b@) == Some(s@),
{
    core::str::from_utf8(b).ok().map(|s| s.to_owned())
}

/// What parsing a text as a SIP message yields, where it succeeds: the
/// fields of the model the receive loop reads.
pub uninterp spec fn sip_parse(s: Seq<char>) -> Option<ParsedMessageV>;

/// Relies on rsip's SipMessage parser (`SipMessage::try_from` on text), on
/// `SipMessage::is_request`, and on the typed Via header's `received()`
/// accessor: all depend on the text alone.
#[verifier::external_body]
pub(crate) fn parse_sip_text(s: &str) -> (r: Option<ParsedMessage>)
    ensures
        (r is Some) == (sip_parse(s@) is Some),
        r matches Some(m) ==> sip_parse(s@) == Some(m@),
{
    match rsip::SipMessage::try_from(s) {
        Err(_) => None,
        Ok(m) => {
            let claimed = rsip::message::HeadersExt::via_header(&m)
                .ok()
                .and_then(|v| rsip::headers::ToTypedHeader::typed(v).ok())
                .and_then(|tv| tv.received().ok())
                .flatten()
                .map(|ip| ip.to_string());
            Some(ParsedMessage { is_request: m.is_request(), via_received: claimed })
        },
    }
}

/// Parse a text as a SIP message, yielding the model the receive loop works
/// on: whether it is a request, and the Via `received` value the peer
/// claimed, before any rewrite.
pub fn parse_message(s: &str) -> (r: Option<ParsedMessage>)
    ensures
        (r is Some) == (sip_parse(s@) is Some),
        r matches Some(m) ==> sip_parse(s@) == Some(m@),
{
    parse_sip_text(s)
}

/// The rewrite the receive loop applies to every inbound message: the
/// `received` parameter becomes the datagram's actual source IP, whatever the
/// peer claimed.
pub open spec fn spec_update_received(m: ParsedMessageV, source: crate::addr::SocketAddressV) -> ParsedMessageV {
    ParsedMessageV { is_request: m.is_request, via_received: Some(source.ip) }
}

impl ParsedMessage {
    /// Rewrite the topmost Via header's `received` parameter to the actual
    /// source address of the datagram that carried the message.
    pub fn update_msg_received(self, source: &SocketAddress) -> (r: ParsedMessage)
        ensures
            r@ == spec_update_received(self@, source@),
    {
        ParsedMessage { is_request: self.is_request, via_received: Some(source.ip.clone()) }
    }
}

/// Law: the published `received` value is the actual sender's IP for every
/// message and every claimed value; where the claim differs from the actual
/// source, the rewrite has replaced it.
pub proof fn lemma_received_rewrite(m: ParsedMessageV, source: crate::addr::SocketAddressV)
    ensures
        spec_update_received(m, source).via_received == Some(source.ip),
        spec_update_received(m, source).is_request == m.is_request,
        m.via_received != Some(source.ip) ==> spec_update_received(m, source).via_received != m.via_received,
{
}

} // verus!
