//! Laws of the handshake and of the registry.
//!
//! Each lemma states, over the spec-level transitions that the executable
//! methods are proved to implement, a guarantee the relay as a whole
//! gives its operators.

use vstd::prelude::*;
use crate::conn::{
    ConnView,
    challenge_step,
    close_ids,
    close_step,
    handshake_ids,
    handshake_step,
    init_conn,
};
use crate::credential::{lemma_fail_closed, verify_spec};
use crate::msg::IncomingView;

verus! {

/// No event is ever broadcast on behalf of an identity before that
/// identity's signature has been verified: publishing demands the
/// `Authenticated` phase, the handshake decision is the only transition
/// that can enter it, and it does so exactly for an auth message whose
/// signature verifies over the connection's own nonce — under the claimed
/// identity and no other.
pub proof fn lemma_no_broadcast_before_verification(
    c: ConnView,
    m: Option<IncomingView>,
    ks: Map<Seq<u8>, Seq<u8>>,
    nonce: Seq<u8>,
)
    ensures
        handshake_step(c, m, ks).0.phase is Authenticated ==> (m matches Some(
            IncomingView::Auth { client_id, signature },
        ) && verify_spec(ks, client_id, c.nonce, signature) && handshake_step(
            c,
            m,
            ks,
        ).0.identity == client_id),
        !(init_conn().phase is Authenticated),
        !(challenge_step(c, nonce).phase is Authenticated),
        !(close_step(c).phase is Authenticated),
{
}

/// An identity that is not provisioned is rejected indistinguishably from
/// a provisioned identity presenting a signature that does not verify:
/// the handshake leaves the same state and answers with the same reply
/// for both.
pub proof fn lemma_unknown_identity_indistinguishable(
    c: ConnView,
    ks: Map<Seq<u8>, Seq<u8>>,
    unknown_id: Seq<u8>,
    unknown_sig: Seq<u8>,
    known_id: Seq<u8>,
    bad_sig: Seq<u8>,
)
    requires
        !ks.contains_key(unknown_id),
        !verify_spec(ks, known_id, c.nonce, bad_sig),
    ensures
        handshake_step(
            c,
            Some(IncomingView::Auth { client_id: unknown_id, signature: unknown_sig }),
            ks,
        ) == handshake_step(
            c,
            Some(IncomingView::Auth { client_id: known_id, signature: bad_sig }),
            ks,
        ),
{
    lemma_fail_closed(ks, unknown_id, c.nonce, unknown_sig);
}

/// A successful authentication with a fresh identity grows the registry
/// by exactly that identity; everything else — a failed or malformed
/// handshake — leaves the registry untouched; and no other identity's
/// registration is affected either way.
pub proof fn lemma_authentications_grow_registry(
    c: ConnView,
    m: Option<IncomingView>,
    ks: Map<Seq<u8>, Seq<u8>>,
    ids: Set<Seq<u8>>,
)
    requires
        ids.finite(),
    ensures
        (handshake_step(c, m, ks).1 is Accepted && !ids.contains(
            handshake_step(c, m, ks).0.identity,
        )) ==> handshake_ids(c, m, ks, ids).len() == ids.len() + 1,
        !(handshake_step(c, m, ks).1 is Accepted) ==> handshake_ids(c, m, ks, ids) == ids,
        forall|x: Seq<u8>|
            x != handshake_step(c, m, ks).0.identity ==> (handshake_ids(c, m, ks, ids).contains(x)
                <==> ids.contains(x)),
{
}

/// The set of identities registered after each of a batch of successful
/// authentications, starting from an empty registry.
pub open spec fn registered_after(ids: Seq<Seq<u8>>) -> Set<Seq<u8>>
    decreases ids.len(),
{
    if ids.len() == 0 {
        Set::<Seq<u8>>::empty()
    } else {
        registered_after(ids.drop_last()).insert(ids.last())
    }
}

/// After successful authentications with distinct identities the registry
/// holds exactly those identities, so its size equals their number.
pub proof fn lemma_distinct_authentications_fill_registry(ids: Seq<Seq<u8>>)
    requires
        ids.no_duplicates(),
    ensures
        registered_after(ids).finite(),
        registered_after(ids).len() == ids.len(),
        forall|x: Seq<u8>| registered_after(ids).contains(x) <==> ids.contains(x),
    decreases ids.len(),
{
    if ids.len() == 0 {
    } else {
        lemma_distinct_authentications_fill_registry(ids.drop_last());
        assert(!ids.drop_last().contains(ids.last()));
        assert(!registered_after(ids.drop_last()).contains(ids.last()));
        assert forall|x: Seq<u8>| registered_after(ids).contains(x) <==> ids.contains(x) by {
            if ids.contains(x) {
                let i = choose|i: int| 0 <= i < ids.len() && ids[i] == x;
                if i < ids.len() - 1 {
                    assert(ids.drop_last()[i] == x);
                    assert(ids.drop_last().contains(x));
                }
            }
            if registered_after(ids).contains(x) {
                if x != ids.last() {
                    assert(ids.drop_last().contains(x));
                    let i = choose|i: int|
                        0 <= i < ids.drop_last().len() && ids.drop_last()[i] == x;
                    assert(ids[i] == x);
                } else {
                    assert(ids[ids.len() - 1] == x);
                }
            }
        }
    }
}

/// Closing a registered connection shrinks the registry by exactly its
/// own identity, leaving every other entry untouched; closing an
/// unregistered one leaves the registry as it was.
pub proof fn lemma_close_shrinks_registry(c: ConnView, ids: Set<Seq<u8>>)
    requires
        ids.finite(),
    ensures
        (c.registered && ids.contains(c.identity)) ==> close_ids(c, ids).len() + 1 == ids.len(),
        !c.registered ==> close_ids(c, ids) == ids,
        forall|x: Seq<u8>|
            x != c.identity ==> (close_ids(c, ids).contains(x) <==> ids.contains(x)),
{
}

/// Closing an already-closed connection, and removing an already-absent
/// registry entry, are no-ops: the second close changes neither the
/// connection's state nor the registry, and removing an identity that is
/// not registered leaves the set of registered identities as it was.
pub proof fn lemma_close_idempotent(c: ConnView, ids: Set<Seq<u8>>)
    ensures
        close_step(close_step(c)) == close_step(c),
        close_ids(close_step(c), close_ids(c, ids)) == close_ids(c, ids),
        forall|id: Seq<u8>| !ids.contains(id) ==> #[trigger] ids.remove(id) == ids,
{
    assert forall|id: Seq<u8>| !ids.contains(id) implies #[trigger] ids.remove(id) == ids by {
        assert(ids.remove(id) =~= ids);
    }
}

} // verus!
