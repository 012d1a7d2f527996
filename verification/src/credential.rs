//! The challenge-response credential check.
//!
//! `verify` decides, fail-closed, whether a claimed identity has proven
//! possession of the private key matching its provisioned public key: the
//! identity must be provisioned, the transported signature text must
//! decode as base64, and the decoded signature must verify over the nonce
//! under unprefixed PKCS#1 v1.5 padding.  An unknown identity, an
//! undecodable signature and an invalid signature are all reported as the
//! same plain `false`, so none of them is distinguishable from outside.

use vstd::prelude::*;
use crate::keystore::KeyStore;
use crate::NONCE_LEN;

verus! {

/// What base64's standard engine decodes a text to, or `None` where the
/// text is not valid standard base64 with padding.
pub uninterp spec fn base64_decoded(text: Seq<u8>) -> Option<Seq<u8>>;

/// Relies on base64's `Engine::decode` with the `STANDARD` engine: a pure
/// function of the text that rejects anything but canonical padded
/// standard-alphabet base64 and otherwise returns the decoded bytes.
#[verifier::external_body]
fn base64_decode(text: &Vec<u8>) -> (r: Option<Vec<u8>>)
    ensures
        match r {
            Some(b) => base64_decoded(text@) == Some(b@),
            None => base64_decoded(text@) is None,
        },
{
    match base64::Engine::decode(&base64::engine::general_purpose::STANDARD, text) {
        Ok(b) => Some(b),
        Err(_) => None,
    }
}

/// What base64's standard engine encodes bytes to.
pub uninterp spec fn base64_encoded(b: Seq<u8>) -> Seq<u8>;

/// Relies on base64's `Engine::encode` with the `STANDARD` engine: a pure
/// function of the input; four output bytes per three input bytes, all of
/// them from the standard alphabet or the `=` pad.
#[verifier::external_body]
pub(crate) fn base64_encode(b: &Vec<u8>) -> (r: Vec<u8>)
    ensures
        r@ == base64_encoded(b@),
        r@.len() == ((b@.len() + 2) / 3) * 4,
        forall|i: int|
            0 <= i < r@.len() ==> crate::frame::is_base64_byte(#[trigger] r@[i]),
{
    base64::Engine::encode(&base64::engine::general_purpose::STANDARD, b).into_bytes()
}

/// Whether `sig` is a valid unprefixed PKCS#1 v1.5 signature over `msg`
/// for the public key whose PKCS#1 DER encoding is `key_der`; false where
/// the key bytes do not parse.
pub uninterp spec fn rsa_pkcs1v15_verified(key_der: Seq<u8>, msg: Seq<u8>, sig: Seq<u8>) -> bool;

/// Relies on rsa's `RsaPublicKey::from_pkcs1_der` and
/// `RsaPublicKey::verify` with `Pkcs1v15Sign::new_unprefixed()`: both are
/// pure functions of their byte-string arguments, so the verdict is a
/// pure function of key, message and signature.
#[verifier::external_body]
fn rsa_verify(key_der: &Vec<u8>, msg: &Vec<u8>, sig: &Vec<u8>) -> (r: bool)
    ensures
        r == rsa_pkcs1v15_verified(key_der@, msg@, sig@),
{
    match <rsa::RsaPublicKey as rsa::pkcs1::DecodeRsaPublicKey>::from_pkcs1_der(key_der) {
        Ok(key) => key.verify(rsa::pkcs1v15::Pkcs1v15Sign::new_unprefixed(), msg, sig).is_ok(),
        Err(_) => false,
    }
}

/// Relies on rand's `OsRng`, the operating system's secure generator, to
/// fill the nonce; nothing is assumed of the value beyond its length.
#[verifier::external_body]
pub fn generate() -> (nonce: Vec<u8>)
    ensures
        nonce@.len() == NONCE_LEN,
{
    let mut nonce = vec![0u8; NONCE_LEN];
    rand::RngCore::fill_bytes(&mut rand::rngs::OsRng, &mut nonce);
    nonce
}

/// When a claimed identity has proven possession of its key: the store
/// holds a key for it, the signature text decodes as base64, and the
/// decoded signature verifies over the nonce under that key.
pub open spec fn verify_spec(
    ks: Map<Seq<u8>, Seq<u8>>,
    identity: Seq<u8>,
    nonce: Seq<u8>,
    signature_text: Seq<u8>,
) -> bool {
    ks.contains_key(identity) && match base64_decoded(signature_text) {
        Some(sig) => rsa_pkcs1v15_verified(ks[identity], nonce, sig),
        None => false,
    }
}

/// Validates a signature against the key provisioned for a claimed
/// identity.  Fail-closed: an identity absent from the store, a signature
/// text that is not base64, and a signature that does not verify all
/// yield the same plain `false`.
pub fn verify(ks: &KeyStore, identity: &Vec<u8>, nonce: &Vec<u8>, signature: &Vec<u8>) -> (ok:
    bool)
    ensures
        ok == verify_spec(ks@, identity@, nonce@, signature@),
{
    match ks.lookup(identity) {
        None => false,
        Some(key_der) => match base64_decode(signature) {
            None => false,
            Some(sig) => rsa_verify(key_der, nonce, &sig),
        },
    }
}

/// An identity that is not provisioned is rejected for every nonce and
/// every signature: the store decides nothing else.
pub proof fn lemma_fail_closed(
    ks: Map<Seq<u8>, Seq<u8>>,
    identity: Seq<u8>,
    nonce: Seq<u8>,
    signature_text: Seq<u8>,
)
    requires
        !ks.contains_key(identity),
    ensures
        !verify_spec(ks, identity, nonce, signature_text),
{
}

} // verus!
