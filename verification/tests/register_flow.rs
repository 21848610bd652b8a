use rsipstack::addr::SocketAddress;
use rsipstack::errors::SipError;
use rsipstack::registration::{
    classify_status, Credential, ContactInfo, Registration, RegisterAttempt, RegisterStep,
    ResponseClass, DEFAULT_EXPIRES,
};

fn sock(ip: &str, port: u16) -> SocketAddress {
    SocketAddress { ip: ip.to_string(), port }
}

fn cred() -> Credential {
    Credential { username: "alice".to_string(), password: Some("SECRET-REDACTED".to_string()) }
}

#[test]
fn new_registration_starts_at_sequence_zero() {
    let r = Registration::new(Some(cred()));
    assert_eq!(r.last_seq, 0);
    assert!(r.contact.is_none());
    assert!(r.allow.is_empty());
    assert_eq!(r.credential.as_ref().unwrap().username, "alice");
}

#[test]
fn expires_defaults_without_contact() {
    let r = Registration::new(None);
    assert_eq!(r.expires(), DEFAULT_EXPIRES);
    assert_eq!(r.expires(), 50);
}

#[test]
fn expires_uses_bound_contact_value() {
    let mut r = Registration::new(None);
    r.contact = Some(ContactInfo { auth_user: None, addr: sock("1.2.3.4", 5060), expires: Some(3600) });
    assert_eq!(r.expires(), 3600);
    r.contact = Some(ContactInfo { auth_user: None, addr: sock("1.2.3.4", 5060), expires: None });
    assert_eq!(r.expires(), DEFAULT_EXPIRES);
}

#[test]
fn start_attempt_without_local_address_is_a_precondition_failure() {
    let mut r = Registration::new(Some(cred()));
    let outcome = r.start_attempt(&"example.com".to_string(), &Vec::new());
    assert!(matches!(outcome, Err(SipError::Precondition(_))));
    // the sequence was already taken, as the flow sends nothing afterwards
    assert_eq!(r.last_seq, 1);
}

#[test]
fn start_attempt_rejects_a_malformed_registrar_address() {
    let mut r = Registration::new(None);
    let outcome = r.start_attempt(&"".to_string(), &vec![sock("10.1.1.1", 5060)]);
    match outcome {
        Err(SipError::Precondition(m)) => assert_eq!(m, "invalid registrar address"),
        other => panic!("expected a precondition failure, got {:?}", other),
    }
    // the sequence was already taken before the target was checked
    assert_eq!(r.last_seq, 1);
}

#[test]
fn start_attempt_synthesizes_contact_from_first_local_address() {
    let mut r = Registration::new(Some(cred()));
    let addrs = vec![sock("10.1.1.1", 5060), sock("10.2.2.2", 5062)];
    let a = r.start_attempt(&"example.com".to_string(), &addrs).expect("an address is bound");
    assert_eq!(a.cseq, 1);
    assert_eq!(a.auth_user, Some("alice".to_string()));
    assert_eq!(a.contact.addr, sock("10.1.1.1", 5060));
    assert_eq!(a.contact.auth_user, Some("alice".to_string()));
    assert!(a.contact.expires.is_none());
}

#[test]
fn start_attempt_carries_the_declared_capability_set() {
    let mut r = Registration::new(None);
    r.allow = vec!["INVITE".to_string(), "ACK".to_string(), "REGISTER".to_string()];
    let a = r.start_attempt(&"example.com".to_string(), &vec![sock("10.1.1.1", 5060)]).expect("an address is bound");
    assert_eq!(a.allow, vec!["INVITE".to_string(), "ACK".to_string(), "REGISTER".to_string()]);
}

#[test]
fn start_attempt_reuses_bound_contact() {
    let mut r = Registration::new(None);
    let bound = ContactInfo { auth_user: None, addr: sock("8.8.4.4", 5090), expires: Some(600) };
    r.contact = Some(bound);
    let a = r.start_attempt(&"example.com".to_string(), &vec![sock("10.1.1.1", 5060)]).expect("an address is bound");
    assert!(a.auth_user.is_none());
    assert_eq!(a.contact.addr, sock("8.8.4.4", 5090));
    assert_eq!(a.contact.expires, Some(600));
}

#[test]
fn status_classification() {
    assert_eq!(classify_status(100), ResponseClass::Provisional);
    assert_eq!(classify_status(180), ResponseClass::Provisional);
    assert_eq!(classify_status(199), ResponseClass::Provisional);
    assert_eq!(classify_status(401), ResponseClass::Challenge);
    assert_eq!(classify_status(407), ResponseClass::Challenge);
    assert_eq!(classify_status(200), ResponseClass::Final);
    assert_eq!(classify_status(302), ResponseClass::Final);
    assert_eq!(classify_status(403), ResponseClass::Final);
    assert_eq!(classify_status(500), ResponseClass::Final);
}

#[test]
fn retry_is_bounded_at_one_credentialed_attempt() {
    let mut r = Registration::new(Some(cred()));
    let addrs = vec![sock("10.1.1.1", 5060)];
    let first = r.start_attempt(&"example.com".to_string(), &addrs).expect("an address is bound");
    assert_eq!(first.cseq, 1);
    let mut attempt = RegisterAttempt { auth_sent: false };

    // first challenge: spend the single retry under the next sequence number
    let step = r.on_response(&mut attempt, 401);
    assert_eq!(step, RegisterStep::RetryWithAuth(2));
    assert!(attempt.auth_sent);
    assert_eq!(r.last_seq, 2);

    // second challenge: conclude with it, no third request
    let step = r.on_response(&mut attempt, 401);
    assert_eq!(step, RegisterStep::Conclude);
    assert_eq!(r.last_seq, 2);

    // the two requests' sequence numbers differ by exactly one
    assert_eq!(r.last_seq - first.cseq, 1);
}

#[test]
fn challenge_without_credential_concludes_immediately() {
    let mut r = Registration::new(None);
    r.start_attempt(&"example.com".to_string(), &vec![sock("10.1.1.1", 5060)]).expect("an address is bound");
    let mut attempt = RegisterAttempt { auth_sent: false };
    let step = r.on_response(&mut attempt, 407);
    assert_eq!(step, RegisterStep::Conclude);
    assert!(!attempt.auth_sent);
    assert_eq!(r.last_seq, 1);
}

#[test]
fn provisionals_are_ignored_and_finals_conclude() {
    let mut r = Registration::new(Some(cred()));
    r.start_attempt(&"example.com".to_string(), &vec![sock("10.1.1.1", 5060)]).expect("an address is bound");
    let mut attempt = RegisterAttempt { auth_sent: false };
    assert_eq!(r.on_response(&mut attempt, 100), RegisterStep::KeepWaiting);
    assert_eq!(r.on_response(&mut attempt, 183), RegisterStep::KeepWaiting);
    assert_eq!(r.last_seq, 1);
    assert_eq!(r.on_response(&mut attempt, 200), RegisterStep::Conclude);
    assert_eq!(r.last_seq, 1);
}

#[test]
fn ended_transaction_is_a_dialog_error() {
    let r = Registration::new(None);
    match r.on_transaction_end("call-1/from-tag/to-tag".to_string()) {
        SipError::Dialog(cause, id) => {
            assert_eq!(id, "call-1/from-tag/to-tag");
            assert_eq!(cause, "registration transaction is already terminated");
        }
        other => panic!("expected a dialog error, got {:?}", other),
    }
}
