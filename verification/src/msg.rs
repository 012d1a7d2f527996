//! Inbound message shapes.
//!
//! A peer may send exactly two kinds of message: the one-shot
//! authentication reply during the handshake and, once authenticated, any
//! number of events to publish.  Anything that does not decode to one of
//! these is handed to the connection handler as `None`.

use vstd::prelude::*;

verus! {

/// A decoded inbound message.
pub enum Incoming {
    /// `{"type":"auth","client_id":...,"signature":...}`: the claimed
    /// identity and the base64 text of its signature over the nonce.
    Auth { client_id: Vec<u8>, signature: Vec<u8> },
    /// `{"type":"event","data":...}`: a payload to fan out.
    Event { data: Vec<u8> },
}

/// The mathematical shape of an inbound message.
pub enum IncomingView {
    Auth { client_id: Seq<u8>, signature: Seq<u8> },
    Event { data: Seq<u8> },
}

impl View for Incoming {
    type V = IncomingView;

    open spec fn view(&self) -> IncomingView {
        match self {
            Incoming::Auth { client_id, signature } => IncomingView::Auth {
                client_id: client_id@,
                signature: signature@,
            },
            Incoming::Event { data } => IncomingView::Event { data: data@ },
        }
    }
}

/// The view of a possibly-absent message: `None` stands for a frame that
/// did not decode to any known shape, or a stream that yielded none.
pub open spec fn msg_view(m: Option<Incoming>) -> Option<IncomingView> {
    match m {
        Some(i) => Some(i@),
        None => None,
    }
}

} // verus!
