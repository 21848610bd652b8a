//! Error taxonomy: transport-layer failures carrying the connection's local
//! address for diagnostic context, dialog-scoped failures carrying the
//! abandoned transaction's identifier, and precondition failures.

use vstd::prelude::*;
use crate::addr::SipAddr;

verus! {

/// The errors this core surfaces to its callers. None is retried internally.
#[derive(Debug)]
pub enum SipError {
    /// A cause plus the connection's local address; raised by STUN
    /// encode/decode failures and socket-level faults.
    TransportLayer(String, SipAddr),
    /// A cause plus a dialog/transaction identifier; raised when a
    /// transaction stream ends without a final response.
    Dialog(String, String),
    /// A bare cause; raised when required local addressing is absent.
    Precondition(String),
}

} // verus!
