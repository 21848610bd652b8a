//! The signaling core of a SIP user-agent stack: the decision logic of an
//! authenticated REGISTER exchange driven through a client transaction, and
//! of a datagram transport connection that triages inbound traffic, answers
//! a private keepalive handshake, discovers the agent's externally visible
//! address via STUN, and republishes successfully parsed messages — each
//! piece specified by contract and verified. The surrounding I/O (sockets,
//! channels, timers) stays with the caller, which hands the library plain
//! values and performs the actions it decides.

pub mod addr;
pub mod errors;
pub mod message;
pub mod registration;
pub mod transport;
