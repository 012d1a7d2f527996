//! The per-connection handshake state machine.
//!
//! A connection passes through `Connected → ChallengeSent → Authenticated
//! → Closed`, or drops out through `AuthFailed → Closed`.  On connect the
//! server issues a random nonce as a challenge; the first inbound message
//! must be an auth message whose signature verifies over that nonce, and
//! only then is the identity registered and may events be published on
//! its behalf.  Whatever registers an identity deregisters it on every
//! terminal transition.

use vstd::prelude::*;
use crate::NONCE_LEN;
use crate::credential::{base64_encode, base64_encoded, verify, verify_spec};
use crate::frame::{challenge_frame, challenge_frame_spec};
use crate::keystore::KeyStore;
use crate::msg::{Incoming, IncomingView, msg_view};
use crate::registry::{
    DELIVERY_CAPACITY,
    EventReceiver,
    Registry,
    new_handle,
    publish,
    registry_ids,
    registry_insert,
    registry_remove,
};

verus! {

/// The lifecycle states of one connection.
#[derive(Clone, Copy, PartialEq, Eq, Debug)]
pub enum Phase {
    Connected,
    ChallengeSent,
    Authenticated,
    AuthFailed,
    Closed,
}

/// The mathematical state of one connection.
#[verifier::ext_equal]
pub struct ConnView {
    pub phase: Phase,
    pub nonce: Seq<u8>,
    pub identity: Seq<u8>,
    pub registered: bool,
}

/// What the handler answers a handshake message with, stripped of the
/// delivery handle it may carry.
pub enum ReplyKind {
    /// The peer is authenticated and registered.
    Accepted,
    /// The signature did not verify: a close signal is owed to the peer.
    CloseSignal,
    /// The message was not an auth message, or the stream ended: the
    /// connection is dropped with no further signal.
    Dropped,
}

/// A fresh connection, before the challenge went out.
pub open spec fn init_conn() -> ConnView {
    ConnView {
        phase: Phase::Connected,
        nonce: Seq::<u8>::empty(),
        identity: Seq::<u8>::empty(),
        registered: false,
    }
}

/// Issuing the challenge: the nonce is bound to the connection and the
/// handler awaits exactly one reply.
pub open spec fn challenge_step(c: ConnView, nonce: Seq<u8>) -> ConnView {
    ConnView { phase: Phase::ChallengeSent, nonce: nonce, ..c }
}

/// The one decision of the handshake: only an auth message whose
/// signature verifies over the connection's own nonce authenticates;
/// a failed verification owes the peer a close signal; anything else
/// drops the connection silently.
pub open spec fn handshake_step(
    c: ConnView,
    m: Option<IncomingView>,
    ks: Map<Seq<u8>, Seq<u8>>,
) -> (ConnView, ReplyKind) {
    match m {
        Some(IncomingView::Auth { client_id, signature }) => {
            if verify_spec(ks, client_id, c.nonce, signature) {
                (
                    ConnView {
                        phase: Phase::Authenticated,
                        identity: client_id,
                        registered: true,
                        ..c
                    },
                    ReplyKind::Accepted,
                )
            } else {
                (ConnView { phase: Phase::AuthFailed, ..c }, ReplyKind::CloseSignal)
            }
        },
        _ => (ConnView { phase: Phase::Closed, ..c }, ReplyKind::Dropped),
    }
}

/// What the handshake does to the set of registered identities: exactly
/// the accepted identity is added, and nothing else changes.
pub open spec fn handshake_ids(
    c: ConnView,
    m: Option<IncomingView>,
    ks: Map<Seq<u8>, Seq<u8>>,
    ids: Set<Seq<u8>>,
) -> Set<Seq<u8>> {
    if handshake_step(c, m, ks).1 is Accepted {
        ids.insert(handshake_step(c, m, ks).0.identity)
    } else {
        ids
    }
}

/// Entering `Closed`: terminal, and it gives the registration back.
pub open spec fn close_step(c: ConnView) -> ConnView {
    ConnView { phase: Phase::Closed, registered: false, ..c }
}

/// What closing does to the set of registered identities: only the
/// connection's own registration is removed.
pub open spec fn close_ids(c: ConnView, ids: Set<Seq<u8>>) -> Set<Seq<u8>> {
    if c.registered {
        ids.remove(c.identity)
    } else {
        ids
    }
}

/// What the handler answers a handshake message with.
pub enum HandshakeReply {
    /// The peer is authenticated; its outbound pump drains `events`.
    Accepted { events: EventReceiver },
    /// The signature did not verify: send the peer a close signal.
    CloseSignal,
    /// Drop the connection with no further signal.
    Dropped,
}

/// The reply with its delivery handle stripped.
pub open spec fn reply_kind(r: HandshakeReply) -> ReplyKind {
    match r {
        HandshakeReply::Accepted { .. } => ReplyKind::Accepted,
        HandshakeReply::CloseSignal => ReplyKind::CloseSignal,
        HandshakeReply::Dropped => ReplyKind::Dropped,
    }
}

/// One connection's handshake state machine.
pub struct Conn {
    phase: Phase,
    nonce: Vec<u8>,
    identity: Vec<u8>,
    registered: bool,
}

impl View for Conn {
    type V = ConnView;

    closed spec fn view(&self) -> ConnView {
        ConnView {
            phase: self.phase,
            nonce: self.nonce@,
            identity: self.identity@,
            registered: self.registered,
        }
    }
}

impl Conn {
    /// A freshly accepted connection.
    pub fn new() -> (c: Conn)
        ensures
            c@ == init_conn(),
    {
        let c = Conn {
            phase: Phase::Connected,
            nonce: Vec::new(),
            identity: Vec::new(),
            registered: false,
        };
        proof {
            assert(c@ =~= init_conn());
        }
        c
    }

    /// The connection's current phase.
    pub fn phase(&self) -> (p: Phase)
        ensures
            p == self@.phase,
    {
        self.phase
    }

    /// Binds a fresh nonce to this connection and returns the challenge
    /// frame to send, `{"challenge":"<base64 nonce>"}`.
    pub fn begin_handshake(&mut self, nonce: Vec<u8>) -> (frame: Vec<u8>)
        requires
            old(self)@.phase is Connected,
            nonce@.len() == NONCE_LEN,
        ensures
            final(self)@ == challenge_step(old(self)@, nonce@),
            frame@ == challenge_frame_spec(base64_encoded(nonce@)),
    {
        let encoded = base64_encode(&nonce);
        let frame = challenge_frame(encoded.as_slice());
        self.nonce = nonce;
        self.phase = Phase::ChallengeSent;
        frame
    }

    /// Judges the one message awaited after the challenge.  A verified
    /// auth message authenticates the connection, installs a fresh
    /// delivery handle in the registry under the claimed identity, and
    /// hands back the receiving half for the outbound pump; a failed
    /// verification owes the peer a close signal; anything else drops the
    /// connection.
    pub fn on_challenge_reply(
        &mut self,
        msg: Option<Incoming>,
        ks: &KeyStore,
        reg: &mut Registry,
    ) -> (reply: HandshakeReply)
        requires
            old(self)@.phase is ChallengeSent,
        ensures
            final(self)@ == handshake_step(old(self)@, msg_view(msg), ks@).0,
            reply_kind(reply) == handshake_step(old(self)@, msg_view(msg), ks@).1,
            registry_ids(*final(reg)) == handshake_ids(
                old(self)@,
                msg_view(msg),
                ks@,
                registry_ids(*old(reg)),
            ),
    {
        match msg {
            Some(Incoming::Auth { client_id, signature }) => {
                let ok = verify(ks, &client_id, &self.nonce, &signature);
                if ok {
                    let (handle, events) = new_handle(DELIVERY_CAPACITY);
                    registry_insert(reg, client_id.clone(), handle);
                    self.identity = client_id;
                    self.registered = true;
                    self.phase = Phase::Authenticated;
                    HandshakeReply::Accepted { events }
                } else {
                    self.phase = Phase::AuthFailed;
                    HandshakeReply::CloseSignal
                }
            },
            _ => {
                self.phase = Phase::Closed;
                HandshakeReply::Dropped
            },
        }
    }

    /// Handles one inbound message in the steady state.  An event message
    /// is fanned out to every registered identity on behalf of this
    /// connection's own identity; anything else is silently ignored and
    /// the connection stays open.
    pub fn on_client_message(&self, msg: Option<Incoming>, reg: &Registry) -> (published: Option<
        Vec<Vec<u8>>,
    >)
        requires
            self@.phase is Authenticated,
        ensures
            (published is Some) == (msg_view(msg) matches Some(IncomingView::Event { .. })),
            match published {
                Some(recipients) => {
                    &&& registry_ids(*reg).finite()
                    &&& recipients@.len() == registry_ids(*reg).len()
                    &&& forall|i: int|
                        0 <= i < recipients@.len() ==> registry_ids(*reg).contains(
                            #[trigger] recipients@[i]@,
                        )
                    &&& forall|i: int, j: int|
                        0 <= i < j < recipients@.len() ==> recipients@[i]@ != recipients@[j]@
                    &&& forall|id: Seq<u8>|
                        #[trigger] registry_ids(*reg).contains(id) ==> exists|i: int|
                            0 <= i < recipients@.len() && #[trigger] recipients@[i]@ == id
                },
                None => true,
            },
    {
        match msg {
            Some(Incoming::Event { data }) => Some(publish(reg, &self.identity, &data)),
            _ => None,
        }
    }

    /// Enters `Closed`: deregisters this connection's identity if it was
    /// registered, and nothing else.  Idempotent — closing an
    /// already-closed connection changes neither the connection nor the
    /// registry.
    pub fn close(&mut self, reg: &mut Registry)
        ensures
            final(self)@ == close_step(old(self)@),
            registry_ids(*final(reg)) == close_ids(old(self)@, registry_ids(*old(reg))),
    {
        if self.registered {
            registry_remove(reg, &self.identity);
            self.registered = false;
        }
        self.phase = Phase::Closed;
    }
}

} // verus!
