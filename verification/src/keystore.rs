//! The immutable store of provisioned public keys.
//!
//! Populated once at startup, keyed by identity, and never mutated
//! afterwards.  A key is held as the PKCS#1 DER encoding of the client's
//! RSA public key, so the store is a plain mapping from byte strings to
//! byte strings.

use vstd::prelude::*;

verus! {

/// The key, if any, that a sequence of provisioning entries associates
/// with an identity; a later entry overrides an earlier one.
pub open spec fn find_key(entries: Seq<(Vec<u8>, Vec<u8>)>, id: Seq<u8>) -> Option<Seq<u8>>
    decreases entries.len(),
{
    if entries.len() == 0 {
        None
    } else if entries.last().0@ == id {
        Some(entries.last().1@)
    } else {
        find_key(entries.drop_last(), id)
    }
}

/// The key a sequence of provisioning entries associates with an
/// identity, where one exists.
pub open spec fn found_key(entries: Seq<(Vec<u8>, Vec<u8>)>, id: Seq<u8>) -> Seq<u8> {
    match find_key(entries, id) {
        Some(k) => k,
        None => Seq::<u8>::empty(),
    }
}

/// Read-only mapping from identity to public-key material.
pub struct KeyStore {
    entries: Vec<(Vec<u8>, Vec<u8>)>,
}

impl View for KeyStore {
    type V = Map<Seq<u8>, Seq<u8>>;

    closed spec fn view(&self) -> Map<Seq<u8>, Seq<u8>> {
        Map::new(
            |id: Seq<u8>| find_key(self.entries@, id) is Some,
            |id: Seq<u8>| found_key(self.entries@, id),
        )
    }
}

impl KeyStore {
    /// A store with no provisioned identities.
    pub fn new() -> (ks: KeyStore)
        ensures
            ks@ == Map::<Seq<u8>, Seq<u8>>::empty(),
    {
        let ks = KeyStore { entries: Vec::new() };
        proof {
            assert(ks@ =~= Map::<Seq<u8>, Seq<u8>>::empty());
        }
        ks
    }

    /// Provisions a public key for an identity, replacing any key the
    /// identity already had.
    pub fn add(&mut self, identity: Vec<u8>, key_der: Vec<u8>)
        ensures
            final(self)@ == old(self)@.insert(identity@, key_der@),
    {
        let ghost before = self.entries@;
        let ghost idv = identity@;
        let ghost keyv = key_der@;
        self.entries.push((identity, key_der));
        proof {
            assert forall|x: Seq<u8>| true implies #[trigger] find_key(self.entries@, x) == (
            if x == idv {
                Some(keyv)
            } else {
                find_key(before, x)
            }) by {
                assert(self.entries@.drop_last() =~= before);
                assert(self.entries@.last().0@ == idv);
                assert(self.entries@.last().1@ == keyv);
            }
            assert(self@ =~= old(self)@.insert(idv, keyv));
        }
    }

    /// The key provisioned for an identity, or `None` when the identity
    /// is unknown.
    pub fn lookup(&self, identity: &Vec<u8>) -> (r: Option<&Vec<u8>>)
        ensures
            match r {
                Some(k) => self@.contains_key(identity@) && k@ == self@[identity@],
                None => !self@.contains_key(identity@),
            },
    {
        let n = self.entries.len();
        let mut i: usize = n;
        proof {
            assert(self.entries@.take(n as int) =~= self.entries@);
        }
        while i > 0
            invariant
                i <= self.entries@.len(),
                find_key(self.entries@, identity@) == find_key(
                    self.entries@.take(i as int),
                    identity@,
                ),
            decreases i,
        {
            let hit = {
                let pair = &self.entries[i - 1];
                bytes_eq(&pair.0, identity)
            };
            proof {
                assert(self.entries@.take(i as int).drop_last() =~= self.entries@.take(i - 1));
                assert(self.entries@.take(i as int).last() == self.entries@[i - 1]);
            }
            if hit {
                return Some(&self.entries[i - 1].1);
            }
            i = i - 1;
        }
        proof {
            assert(self.entries@.take(0) =~= Seq::<(Vec<u8>, Vec<u8>)>::empty());
        }
        None
    }
}

/// Whether two byte strings hold the same bytes.
pub fn bytes_eq(a: &Vec<u8>, b: &Vec<u8>) -> (r: bool)
    ensures
        r == (a@ == b@),
{
    if a.len() != b.len() {
        return false;
    }
    let mut i: usize = 0;
    while i < a.len()
        invariant
            i <= a@.len(),
            a@.len() == b@.len(),
            forall|j: int| 0 <= j < i ==> a@[j] == b@[j],
        decreases a@.len() - i,
    {
        if a[i] != b[i] {
            return false;
        }
        i = i + 1;
    }
    proof {
        assert(a@ =~= b@);
    }
    true
}

} // verus!
