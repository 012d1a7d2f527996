//! The concurrent client registry and the broadcast fan-out.
//!
//! The registry is the one resource shared by all connections: a dashmap
//! from identity to that connection's delivery handle, a tokio broadcast
//! queue whose receiving half is drained by the connection's outbound
//! pump.  `publish` takes a point-in-time snapshot and enqueues the event
//! for every registered identity, best effort and independently per
//! subscriber.

use vstd::prelude::*;

verus! {

#[verifier::external_type_specification]
#[verifier::external_body]
#[verifier::reject_recursive_types(T)]
pub struct ExSender<T>(tokio::sync::broadcast::Sender<T>);

#[verifier::external_type_specification]
#[verifier::external_body]
#[verifier::reject_recursive_types(T)]
pub struct ExReceiver<T>(tokio::sync::broadcast::Receiver<T>);

#[verifier::external_type_specification]
#[verifier::external_body]
#[verifier::reject_recursive_types(K)]
#[verifier::reject_recursive_types(V)]
#[verifier::reject_recursive_types(S)]
pub struct ExDashMap<K, V, S>(dashmap::DashMap<K, V, S>);

/// The sending half of one subscriber's delivery queue, carrying
/// (source identity, payload) events.
pub type Handle = tokio::sync::broadcast::Sender<(Vec<u8>, Vec<u8>)>;

/// The receiving half drained by a connection's outbound pump.
pub type EventReceiver = tokio::sync::broadcast::Receiver<(Vec<u8>, Vec<u8>)>;

/// The shared map from identity to delivery handle.
pub type Registry = dashmap::DashMap<Vec<u8>, Handle, std::collections::hash_map::RandomState>;

/// The set of identities currently registered.
pub uninterp spec fn registry_ids(m: Registry) -> Set<Seq<u8>>;

/// How many events one delivery queue can hold before a slow subscriber
/// starts losing its oldest ones.
pub const DELIVERY_CAPACITY: usize = 100;

/// Relies on dashmap's `DashMap::new`: an empty map.
#[verifier::external_body]
pub fn registry_new() -> (r: Registry)
    ensures
        registry_ids(r) == Set::<Seq<u8>>::empty(),
{
    dashmap::DashMap::new()
}

/// Relies on dashmap's `DashMap::insert`: installs or replaces the entry
/// for the key, and returns whether an entry was already there.
#[verifier::external_body]
pub fn registry_insert(m: &mut Registry, identity: Vec<u8>, handle: Handle) -> (had: bool)
    ensures
        registry_ids(*final(m)) == registry_ids(*old(m)).insert(identity@),
        had == registry_ids(*old(m)).contains(identity@),
{
    m.insert(identity, handle).is_some()
}

/// Relies on dashmap's `DashMap::remove`: deletes the entry if present,
/// does nothing otherwise, and returns whether an entry was there.
#[verifier::external_body]
pub fn registry_remove(m: &mut Registry, identity: &Vec<u8>) -> (had: bool)
    ensures
        registry_ids(*final(m)) == registry_ids(*old(m)).remove(identity@),
        had == registry_ids(*old(m)).contains(identity@),
{
    m.remove(identity).is_some()
}

/// Relies on dashmap's `DashMap::len`: the number of entries, one per
/// registered identity.
#[verifier::external_body]
pub fn registry_len(m: &Registry) -> (n: usize)
    ensures
        n == registry_ids(*m).len(),
{
    m.len()
}

/// Relies on dashmap's `DashMap::iter`: yields each entry exactly once;
/// the handles are cloned, which tokio documents as handles onto the same
/// queue.
#[verifier::external_body]
pub fn registry_snapshot(m: &Registry) -> (snap: Vec<(Vec<u8>, Handle)>)
    ensures
        registry_ids(*m) == snap@.map_values(|p: (Vec<u8>, Handle)| p.0@).to_set(),
        forall|i: int, j: int| 0 <= i < j < snap@.len() ==> snap@[i].0@ != snap@[j].0@,
{
    m.iter().map(|entry| (entry.key().clone(), entry.value().clone())).collect()
}

/// Relies on tokio's `broadcast::channel`: a fresh bounded queue; panics
/// only on a zero capacity or one above `usize::MAX / 2`.
#[verifier::external_body]
pub(crate) fn new_handle(capacity: usize) -> (r: (Handle, EventReceiver))
    requires
        1 <= capacity <= usize::MAX / 2,
{
    tokio::sync::broadcast::channel(capacity)
}

/// Relies on tokio's `broadcast::Sender::send`: enqueues one value for
/// every subscriber of this queue without blocking; fails, leaving the
/// queue unchanged, when no receiver is alive.
#[verifier::external_body]
fn send_event(handle: &Handle, from: &Vec<u8>, data: &Vec<u8>) -> (ok: bool) {
    handle.send((from.clone(), data.clone())).is_ok()
}

/// Fans one published event out to every registered identity: enqueues
/// (`from`, `data`) onto each snapshotted delivery handle, independently
/// and best effort, so one full or closed handle never blocks another
/// subscriber.  Returns the identities the event was enqueued towards:
/// exactly the registered ones, each once — the source, if registered, is
/// among them.
pub fn publish(reg: &Registry, from: &Vec<u8>, data: &Vec<u8>) -> (recipients: Vec<Vec<u8>>)
    ensures
        registry_ids(*reg).finite(),
        recipients@.len() == registry_ids(*reg).len(),
        forall|i: int|
            0 <= i < recipients@.len() ==> registry_ids(*reg).contains(
                #[trigger] recipients@[i]@,
            ),
        forall|i: int, j: int|
            0 <= i < j < recipients@.len() ==> recipients@[i]@ != recipients@[j]@,
        forall|id: Seq<u8>|
            #[trigger] registry_ids(*reg).contains(id) ==> exists|i: int|
                0 <= i < recipients@.len() && #[trigger] recipients@[i]@ == id,
{
    let snap = registry_snapshot(reg);
    let ghost ids_seq = snap@.map_values(|p: (Vec<u8>, Handle)| p.0@);
    let mut recipients: Vec<Vec<u8>> = Vec::new();
    let mut i: usize = 0;
    while i < snap.len()
        invariant
            i <= snap@.len(),
            recipients@.len() == i,
            forall|j: int| 0 <= j < i ==> recipients@[j]@ == #[trigger] snap@[j].0@,
        decreases snap@.len() - i,
    {
        let entry = &snap[i];
        send_event(&entry.1, from, data);
        recipients.push(entry.0.clone());
        i = i + 1;
    }
    proof {
        broadcast use vstd::seq_lib::seq_to_set_is_finite;

        assert(forall|j: int| 0 <= j < ids_seq.len() ==> ids_seq[j] == snap@[j].0@);
        assert(ids_seq.no_duplicates());
        ids_seq.unique_seq_to_set();
        assert forall|j: int| 0 <= j < recipients@.len() implies registry_ids(*reg).contains(
            #[trigger] recipients@[j]@,
        ) by {
            assert(ids_seq[j] == recipients@[j]@);
            assert(ids_seq.contains(recipients@[j]@));
        }
        assert forall|i: int, j: int|
            0 <= i < j < recipients@.len() implies recipients@[i]@ != recipients@[j]@ by {
            assert(recipients@[i]@ == snap@[i].0@);
            assert(recipients@[j]@ == snap@[j].0@);
        }
        assert forall|id: Seq<u8>| #[trigger]
            registry_ids(*reg).contains(id) implies exists|k: int|
            0 <= k < recipients@.len() && #[trigger] recipients@[k]@ == id by {
            assert(ids_seq.contains(id));
            let k = choose|k: int| 0 <= k < ids_seq.len() && ids_seq[k] == id;
            assert(recipients@[k]@ == id);
        }
    }
    recipients
}

} // verus!
