//! A publish/subscribe relay gated by a challenge-response identity proof.
//!
//! A client must sign a server-issued random nonce with the private key
//! matching its provisioned public key before any application data is
//! exchanged.  The verified core covers the credential check, the
//! per-connection handshake state machine, the client registry, the
//! broadcast fan-out, and the framing of outbound messages.

pub mod conn;
pub mod credential;
pub mod frame;
pub mod keystore;
pub mod laws;
pub mod msg;
pub mod registry;

use vstd::prelude::*;

verus! {

/// Number of bytes in a challenge nonce.
pub const NONCE_LEN: usize = 32;

} // verus!
