//! The authenticated REGISTER flow: per-registrar state (a monotonically
//! increasing CSeq, an optional credential, an optional previously bound
//! Contact, a declared capability set) and the decision machine of one
//! `register()` call — ignore provisionals, retry a challenge at most once
//! and only with a credential, return every other final response as-is.

use vstd::prelude::*;
use vstd::string::StringExecFns;
use crate::addr::{SocketAddress, SocketAddressV};
use crate::errors::SipError;

verus! {

/// An account credential: the username is embedded into the request URIs so
/// the registrar can identify the account; the password only ever feeds the
/// external digest computation.
#[derive(Debug)]
pub struct Credential {
    pub username: String,
    pub password: Option<String>,
}

impl Clone for Credential {
    fn clone(&self) -> (r: Self)
        ensures
            r@ == self@,
    {
        Credential {
            username: self.username.clone(),
            password: match self.password {
                Option::Some(ref p) => Option::Some(p.clone()),
                Option::None => Option::None,
            },
        }
    }
}

/// The mathematical value of a `Credential`.
pub struct CredentialV {
    pub username: Seq<char>,
    pub password: Option<Seq<char>>,
}

impl View for Credential {
    type V = CredentialV;

    open spec fn view(&self) -> CredentialV {
        CredentialV {
            username: self.username@,
            password: match self.password {
                Option::Some(ref p) => Some(p@),
                Option::None => None,
            },
        }
    }
}

/// What the flow holds of a Contact binding: the auth user embedded in its
/// URI, the address it points at, and the negotiated expiry in seconds,
/// where the header carried a readable one.
#[derive(Debug)]
pub struct ContactInfo {
    pub auth_user: Option<String>,
    pub addr: SocketAddress,
    pub expires: Option<u32>,
}

impl Clone for ContactInfo {
    fn clone(&self) -> (r: Self)
        ensures
            r@ == self@,
    {
        ContactInfo {
            auth_user: match self.auth_user {
                Option::Some(ref u) => Option::Some(u.clone()),
                Option::None => Option::None,
            },
            addr: self.addr.clone(),
            expires: self.expires,
        }
    }
}

/// The mathematical value of a `ContactInfo`.
pub struct ContactInfoV {
    pub auth_user: Option<Seq<char>>,
    pub addr: SocketAddressV,
    pub expires: Option<u32>,
}

impl View for ContactInfo {
    type V = ContactInfoV;

    open spec fn view(&self) -> ContactInfoV {
        ContactInfoV {
            auth_user: match self.auth_user {
                Option::Some(ref u) => Some(u@),
                Option::None => None,
            },
            addr: self.addr@,
            expires: self.expires,
        }
    }
}

/// The default registration expiry, in seconds, used where no Contact is
/// bound or the bound one carries no readable expiry.
pub const DEFAULT_EXPIRES: u32 = 50;

/// Per-registrar registration state.
#[derive(Debug)]
pub struct Registration {
    /// The CSeq of the last request sent; increases by exactly one per send.
    pub last_seq: u32,
    /// The configured credential, if any; never fabricated.
    pub credential: Option<Credential>,
    /// A Contact binding learned from a prior exchange, reused while set.
    pub contact: Option<ContactInfo>,
    /// The methods the agent declares in the Allow header.
    pub allow: Vec<String>,
}

/// The mathematical value of a `Registration`.
pub struct RegistrationV {
    pub last_seq: u32,
    pub credential: Option<CredentialV>,
    pub contact: Option<ContactInfoV>,
    pub allow: Seq<Seq<char>>,
}

impl View for Registration {
    type V = RegistrationV;

    open spec fn view(&self) -> RegistrationV {
        RegistrationV {
            last_seq: self.last_seq,
            credential: match self.credential {
                Option::Some(ref c) => Some(c@),
                Option::None => None,
            },
            contact: match self.contact {
                Option::Some(ref c) => Some(c@),
                Option::None => None,
            },
            allow: self.allow.deep_view(),
        }
    }
}

/// How one response steers the flow.
#[derive(Clone, Copy, PartialEq, Eq, Structural, Debug)]
pub enum ResponseClass {
    /// A provisional response: keep waiting.
    Provisional,
    /// An authentication challenge (Unauthorized or Proxy-Authentication
    /// Required).
    Challenge,
    /// Any other final response, success or failure alike.
    Final,
}

/// Provisional is the 1xx range; a challenge is status 401 or 407; every
/// other status is final and returned to the caller uninterpreted.
pub open spec fn spec_classify(code: u16) -> ResponseClass {
    if 100 <= code <= 199 {
        ResponseClass::Provisional
    } else if code == 401 || code == 407 {
        ResponseClass::Challenge
    } else {
        ResponseClass::Final
    }
}

/// Classify one response status code.
pub fn classify_status(code: u16) -> (r: ResponseClass)
    ensures
        r == spec_classify(code),
{
    if 100 <= code && code <= 199 {
        ResponseClass::Provisional
    } else if code == 401 || code == 407 {
        ResponseClass::Challenge
    } else {
        ResponseClass::Final
    }
}

/// What the caller driving the transaction must do next.
#[derive(Clone, Copy, PartialEq, Eq, Structural, Debug)]
pub enum RegisterStep {
    /// A provisional response: keep reading the transaction.
    KeepWaiting,
    /// A first challenge with a credential configured: build the
    /// credentialed retry on the same transaction context, under the carried
    /// CSeq, send it, and keep reading.
    RetryWithAuth(u32),
    /// A final outcome: hand this response to the caller as-is.
    Conclude,
}

/// The per-call retry state of one `register()` invocation: whether the
/// single credentialed retry has already been sent.
#[derive(Clone, Copy, PartialEq, Eq, Structural, Debug)]
pub struct RegisterAttempt {
    pub auth_sent: bool,
}

/// The outcome of feeding one response to the flow: the registration state
/// after it, the retry state after it, and the step the caller must take.
pub struct StepOutcome {
    pub last_seq: u32,
    pub auth_sent: bool,
    pub step: RegisterStep,
}

/// The decision machine of one `register()` call, as a function of the CSeq,
/// whether a credential is configured, whether the retry was already spent,
/// and the response's status code.
pub open spec fn spec_on_response(
    last_seq: u32,
    has_credential: bool,
    auth_sent: bool,
    code: u16,
) -> StepOutcome {
    match spec_classify(code) {
        ResponseClass::Provisional => StepOutcome {
            last_seq,
            auth_sent,
            step: RegisterStep::KeepWaiting,
        },
        ResponseClass::Challenge => {
            if auth_sent {
                StepOutcome { last_seq, auth_sent, step: RegisterStep::Conclude }
            } else if !has_credential {
                StepOutcome { last_seq, auth_sent, step: RegisterStep::Conclude }
            } else {
                StepOutcome {
                    last_seq: (last_seq + 1) as u32,
                    auth_sent: true,
                    step: RegisterStep::RetryWithAuth((last_seq + 1) as u32),
                }
            }
        },
        ResponseClass::Final => StepOutcome { last_seq, auth_sent, step: RegisterStep::Conclude },
    }
}

/// Whether a text is a well-formed SIP URI.
pub uninterp spec fn sip_uri_ok(s: Seq<char>) -> bool;

/// Relies on rsip's URI parser (`Uri::try_from` on text): validity depends
/// on the text alone.
#[verifier::external_body]
fn uri_parses(s: &str) -> (r: bool)
    ensures
        r == sip_uri_ok(s@),
{
    rsip::Uri::try_from(s).is_ok()
}

/// The target URI text built from a registrar address string.
pub open spec fn sip_target(server: Seq<char>) -> Seq<char> {
    "sip:"@ + server
}

/// What `register()` hands the caller for the initial send: the CSeq to use,
/// the auth user to embed in the target and From URIs, and the Contact and
/// Allow capability set to attach. The fresh random From tag of each call
/// is drawn by the transaction machinery when the request is built; it is
/// no part of this state.
#[derive(Debug)]
pub struct AttemptStart {
    pub cseq: u32,
    pub auth_user: Option<String>,
    pub contact: ContactInfo,
    pub allow: Vec<String>,
}

/// The mathematical value of an `AttemptStart`.
pub struct AttemptStartV {
    pub cseq: u32,
    pub auth_user: Option<Seq<char>>,
    pub contact: ContactInfoV,
    pub allow: Seq<Seq<char>>,
}

impl View for AttemptStart {
    type V = AttemptStartV;

    open spec fn view(&self) -> AttemptStartV {
        AttemptStartV {
            cseq: self.cseq,
            auth_user: match self.auth_user {
                Option::Some(ref u) => Some(u@),
                Option::None => None,
            },
            contact: self.contact@,
            allow: self.allow.deep_view(),
        }
    }
}

impl Registration {
    /// Fresh per-registrar state: the sequence starts at zero, no Contact is
    /// bound yet, and the capability set starts empty.
    pub fn new(credential: Option<Credential>) -> (r: Registration)
        ensures
            r@.last_seq == 0,
            credential matches Some(c) ==> r@.credential == Some(c@),
            credential is None ==> r@.credential is None,
            r@.contact is None,
            r@.allow.len() == 0,
    {
        Registration { last_seq: 0, credential, contact: None, allow: Vec::new() }
    }

    /// The expiry to refresh under: the bound Contact's negotiated value
    /// where one is set and readable, else the default.
    pub fn expires(&self) -> (r: u32)
        ensures
            match self@.contact {
                Option::Some(c) => match c.expires {
                    Option::Some(e) => r == e,
                    Option::None => r == DEFAULT_EXPIRES,
                },
                Option::None => r == DEFAULT_EXPIRES,
            },
    {
        match self.contact {
            Option::Some(ref c) => match c.expires {
                Option::Some(e) => e,
                Option::None => DEFAULT_EXPIRES,
            },
            Option::None => DEFAULT_EXPIRES,
        }
    }

    /// Open one `register()` call: take the next CSeq, build and check the
    /// target URI from the registrar address string, pick the auth user from
    /// the configured credential, and determine the Contact — the previously
    /// bound one while set, else one synthesized from the caller's first
    /// bound local address, inheriting the request URI's auth user. A
    /// malformed registrar address and an absent local address each fail the
    /// call outright, though the sequence was already taken.
    pub fn start_attempt(&mut self, server: &String, local_addrs: &Vec<SocketAddress>) -> (r:
        Result<AttemptStart, SipError>)
        requires
            old(self).last_seq < 0xFFFF_FFFEu32,
        ensures
            final(self)@.last_seq == old(self)@.last_seq + 1,
            final(self)@.credential == old(self)@.credential,
            final(self)@.contact == old(self)@.contact,
            final(self)@.allow == old(self)@.allow,
            !sip_uri_ok(sip_target(server@)) ==> (r matches Err(e) && e matches
                SipError::Precondition(m) && m@ == "invalid registrar address"@),
            sip_uri_ok(sip_target(server@)) && local_addrs@.len() == 0 ==> (r matches Err(e)
                && e matches SipError::Precondition(m) && m@ == "no address found"@),
            sip_uri_ok(sip_target(server@)) && local_addrs@.len() > 0 ==> (r matches Ok(a) && {
                &&& a@.cseq == old(self)@.last_seq + 1
                &&& match old(self)@.credential {
                    Option::Some(c) => a@.auth_user == Some(c.username),
                    Option::None => a@.auth_user is None,
                }
                &&& match old(self)@.contact {
                    Option::Some(c) => a@.contact == c,
                    Option::None => a@.contact == (ContactInfoV {
                        auth_user: match old(self)@.credential {
                            Option::Some(c) => Some(c.username),
                            Option::None => None,
                        },
                        addr: local_addrs@[0]@,
                        expires: None,
                    }),
                }
                &&& a@.allow == old(self)@.allow
            }),
    {
        self.last_seq = self.last_seq + 1;
        let mut target = String::from_str("sip:");
        target.append(server.as_str());
        if !uri_parses(target.as_str()) {
            return Result::Err(
                SipError::Precondition(String::from_str("invalid registrar address")),
            );
        }
        let auth_user = match self.credential {
            Option::Some(ref c) => Option::Some(c.username.clone()),
            Option::None => Option::None,
        };
        if local_addrs.len() == 0 {
            return Result::Err(SipError::Precondition(String::from_str("no address found")));
        }
        let contact = match self.contact {
            Option::Some(ref c) => c.clone(),
            Option::None => ContactInfo {
                auth_user: auth_user.clone(),
                addr: local_addrs[0].clone(),
                expires: None,
            },
        };
        let allow = self.allow.clone();
        proof {
            vstd::std_specs::vec::vec_clone_deep_view_proof(self.allow, allow);
        }
        Result::Ok(AttemptStart { cseq: self.last_seq, auth_user, contact, allow })
    }

    /// Feed one response of the transaction to the flow and take the next
    /// step: provisionals are ignored; the first challenge with a credential
    /// spends the single retry and the next CSeq; a repeated challenge, a
    /// challenge without a credential, and every other final response
    /// conclude the call with that response.
    pub fn on_response(&mut self, attempt: &mut RegisterAttempt, code: u16) -> (r: RegisterStep)
        requires
            old(self).last_seq < 0xFFFF_FFFFu32,
        ensures
            ({
                let out = spec_on_response(
                    old(self)@.last_seq,
                    old(self)@.credential is Some,
                    old(attempt).auth_sent,
                    code,
                );
                &&& r == out.step
                &&& final(self)@.last_seq == out.last_seq
                &&& final(attempt).auth_sent == out.auth_sent
            }),
            final(self)@.credential == old(self)@.credential,
            final(self)@.contact == old(self)@.contact,
            final(self)@.allow == old(self)@.allow,
    {
        match classify_status(code) {
            ResponseClass::Provisional => RegisterStep::KeepWaiting,
            ResponseClass::Challenge => {
                if attempt.auth_sent {
                    RegisterStep::Conclude
                } else if self.credential.is_none() {
                    RegisterStep::Conclude
                } else {
                    self.last_seq = self.last_seq + 1;
                    attempt.auth_sent = true;
                    RegisterStep::RetryWithAuth(self.last_seq)
                }
            },
            ResponseClass::Final => RegisterStep::Conclude,
        }
    }

    /// The error of a transaction stream that ended before any final
    /// response: a dialog-scoped failure naming the abandoned transaction
    /// and its cause, never silently swallowed.
    pub fn on_transaction_end(&self, dialog_id: String) -> (r: SipError)
        ensures
            r matches SipError::Dialog(cause, id) && id@ == dialog_id@ && cause@
                == "registration transaction is already terminated"@,
    {
        SipError::Dialog(
            String::from_str("registration transaction is already terminated"),
            dialog_id,
        )
    }
}

/// The cumulative outcome of feeding a whole sequence of responses to one
/// `register()` call: the final CSeq and retry state, and how many
/// credentialed retries were sent along the way.
pub struct RunOutcome {
    pub last_seq: u32,
    pub auth_sent: bool,
    pub retries: nat,
}

/// Fold the decision machine over a sequence of response status codes.
pub open spec fn spec_run(
    last_seq: u32,
    has_credential: bool,
    auth_sent: bool,
    events: Seq<u16>,
) -> RunOutcome
    decreases events.len(),
{
    if events.len() == 0 {
        RunOutcome { last_seq, auth_sent, retries: 0 }
    } else {
        let s = spec_on_response(last_seq, has_credential, auth_sent, events[0]);
        let rest = spec_run(s.last_seq, has_credential, s.auth_sent, events.drop_first());
        RunOutcome {
            last_seq: rest.last_seq,
            auth_sent: rest.auth_sent,
            retries: rest.retries + (if s.step is RetryWithAuth {
                1nat
            } else {
                0nat
            }),
        }
    }
}

/// Law: over any sequence of responses whatsoever — challenges repeated
/// arbitrarily often included — one `register()` call sends at most one
/// credentialed retry, and its sequence counter advances by exactly the
/// number of retries sent.
pub proof fn lemma_retry_budget(
    last_seq: u32,
    has_credential: bool,
    auth_sent: bool,
    events: Seq<u16>,
)
    requires
        !auth_sent ==> last_seq < 0xFFFF_FFFFu32,
    ensures
        ({
            let r = spec_run(last_seq, has_credential, auth_sent, events);
            &&& r.retries <= (if auth_sent {
                0nat
            } else {
                1nat
            })
            &&& r.last_seq == last_seq + r.retries
        }),
    decreases events.len(),
{
    if events.len() > 0 {
        let s = spec_on_response(last_seq, has_credential, auth_sent, events[0]);
        lemma_retry_budget(s.last_seq, has_credential, s.auth_sent, events.drop_first());
    }
}

/// Law: one `register()` call advances the sequence counter by at least one
/// (the initial send) and at most two (one more for the credentialed
/// retry), whatever responses arrive — the increase is gapless: exactly one
/// per request sent.
pub proof fn lemma_sequence_window(last_seq: u32, has_credential: bool, events: Seq<u16>)
    requires
        last_seq < 0xFFFF_FFFEu32,
    ensures
        ({
            let r = spec_run((last_seq + 1) as u32, has_credential, false, events);
            &&& last_seq + 1 <= r.last_seq <= last_seq + 2
            &&& r.last_seq == last_seq + 1 + r.retries
        }),
{
    lemma_retry_budget((last_seq + 1) as u32, has_credential, false, events);
}

/// Law: retries are bounded at exactly one round-trip. From a fresh call
/// state, a first challenge with a credential configured spends the retry
/// and exactly one further CSeq; a second challenge concludes with that
/// response and takes no third attempt — the two requests' sequence numbers
/// differ by exactly one.
pub proof fn lemma_retry_bound(last_seq: u32, c1: u16, c2: u16)
    requires
        last_seq < 0xFFFF_FFFFu32,
        spec_classify(c1) == ResponseClass::Challenge,
        spec_classify(c2) == ResponseClass::Challenge,
    ensures
        ({
            let s1 = spec_on_response(last_seq, true, false, c1);
            let s2 = spec_on_response(s1.last_seq, true, s1.auth_sent, c2);
            &&& s1.step == RegisterStep::RetryWithAuth((last_seq + 1) as u32)
            &&& s1.last_seq == last_seq + 1
            &&& s2.step == RegisterStep::Conclude
            &&& s2.last_seq == s1.last_seq
        }),
{
}

/// Law: without a configured credential a challenge concludes the call at
/// once — no retry is sent, no sequence number is spent, and the challenge
/// response itself goes back to the caller.
pub proof fn lemma_no_credential_short_circuit(last_seq: u32, auth_sent: bool, code: u16)
    requires
        spec_classify(code) == ResponseClass::Challenge,
    ensures
        spec_on_response(last_seq, false, auth_sent, code).step == RegisterStep::Conclude,
        spec_on_response(last_seq, false, auth_sent, code).last_seq == last_seq,
        spec_on_response(last_seq, false, auth_sent, code).auth_sent == auth_sent,
{
}

} // verus!
