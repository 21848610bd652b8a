use rsipstack::addr::{SipAddr, SocketAddress};
use rsipstack::errors::SipError;
use rsipstack::transport::{make_binding_request, UdpConnection};
use stun_rs::attributes::stun::XorMappedAddress;
use stun_rs::methods::BINDING;
use stun_rs::{MessageClass, MessageDecoderBuilder, MessageEncoderBuilder, StunMessageBuilder};

fn sock(ip: &str, port: u16) -> SocketAddress {
    SocketAddress { ip: ip.to_string(), port }
}

fn encoded_success_response(external: &str) -> Vec<u8> {
    let parsed: core::net::SocketAddr = external.parse().expect("a socket address");
    let msg = StunMessageBuilder::new(BINDING, MessageClass::SuccessResponse)
        .with_attribute(XorMappedAddress::from(parsed))
        .build();
    let encoder = MessageEncoderBuilder::default().build();
    let mut buffer = vec![0u8; 2048];
    let len = encoder.encode(&mut buffer, &msg).expect("encode");
    assert!(len > 0);
    buffer
}

#[test]
fn binding_request_is_a_decodable_stun_request() {
    let raw = make_binding_request();
    assert_eq!(raw.len(), 150);
    // Binding-request message type, zero attribute length, magic cookie
    assert_eq!(&raw[..8], &[0x00, 0x01, 0x00, 0x00, 0x21, 0x12, 0xA4, 0x42]);
    let decoder = MessageDecoderBuilder::default().build();
    let (msg, _) = decoder.decode(&raw).expect("the request decodes");
    assert_eq!(msg.method(), BINDING);
    assert_eq!(msg.class(), MessageClass::Request);
}

#[test]
fn successful_stun_exchange_caches_external_address() {
    let bound = sock("127.0.0.1", 39000);
    let mut c = UdpConnection::create_connection(bound.clone(), None);
    assert_eq!(c.get_addr(), &SipAddr::udp(bound));

    let reply = encoded_success_response("203.0.113.7:54321");
    let got = c.external_by_stun(&reply).expect("the reply carries the attribute");
    assert_eq!(got, sock("203.0.113.7", 54321));

    // external address precedence: get_addr now returns E, not the bind address
    assert_eq!(c.get_addr(), &SipAddr::udp(sock("203.0.113.7", 54321)));
}

#[test]
fn statically_configured_external_address_takes_precedence() {
    let c = UdpConnection::create_connection(sock("127.0.0.1", 5060), Some(sock("198.51.100.2", 6000)));
    assert_eq!(c.get_addr(), &SipAddr::udp(sock("198.51.100.2", 6000)));
}

#[test]
fn garbage_reply_is_a_transport_error_and_leaves_the_address() {
    let bound = sock("127.0.0.1", 39001);
    let mut c = UdpConnection::create_connection(bound.clone(), None);
    let outcome = c.external_by_stun(&[0x00, 0x01, 0x02, 0x03]);
    match outcome {
        Err(SipError::TransportLayer(_, at)) => {
            // the error carries the connection's own pre-discovery address
            assert_eq!(at, SipAddr::udp(bound.clone()));
        }
        other => panic!("expected a transport-layer error, got {:?}", other),
    }
    assert_eq!(c.get_addr(), &SipAddr::udp(bound));
}

#[test]
fn reply_without_xor_mapped_address_is_an_error() {
    let msg = StunMessageBuilder::new(BINDING, MessageClass::SuccessResponse).build();
    let encoder = MessageEncoderBuilder::default().build();
    let mut buffer = vec![0u8; 2048];
    encoder.encode(&mut buffer, &msg).expect("encode");

    let mut c = UdpConnection::create_connection(sock("127.0.0.1", 39002), None);
    assert!(matches!(c.external_by_stun(&buffer), Err(SipError::TransportLayer(_, _))));
}
