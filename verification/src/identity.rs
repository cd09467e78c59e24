//! Mapping from ephemeral stream ids to durable participant identities.
//!
//! The transport's speaking-state-update events carry both an ephemeral
//! stream id and, sometimes, the durable identity behind it. The resolver
//! records those observations, last writer wins, and answers lookups; a
//! stream id that was never observed resolves to nothing, and the rest of
//! the pipeline then works under a placeholder identity. The map itself is a
//! concurrent keyed store of an outside crate, so the tick path may consult
//! it without blocking.

use vstd::prelude::*;

verus! {

#[verifier::external_type_specification]
#[verifier::external_body]
#[verifier::reject_recursive_types(K)]
#[verifier::reject_recursive_types(V)]
#[verifier::reject_recursive_types(S)]
pub struct ExDashMap<K, V, S>(dashmap::DashMap<K, V, S>);

/// The concurrent map that backs the resolver.
pub type IdMap = dashmap::DashMap<u32, u64>;

/// The entries a concurrent identity map currently holds.
pub uninterp spec fn identity_entries(m: IdMap) -> Map<u32, u64>;

/// The contents of a map that holds nothing yet.
pub open spec fn no_entries() -> Map<u32, u64> {
    Map::empty()
}

/// Relies on dashmap::DashMap::new: a newly created map holds no entries.
#[verifier::external_body]
fn id_map_new() -> (r: IdMap)
    ensures
        identity_entries(r) == no_entries(),
{
    dashmap::DashMap::new()
}

/// Relies on dashmap::DashMap::insert: the entry for the key is set to the
/// value; every other entry stays.
#[verifier::external_body]
fn id_map_insert(m: &mut IdMap, key: u32, value: u64)
    ensures
        identity_entries(*final(m)) == identity_entries(*old(m)).insert(key, value),
{
    m.insert(key, value);
}

/// Relies on dashmap::DashMap::get: returns the value stored for the key,
/// or nothing when the key is absent.
#[verifier::external_body]
fn id_map_get(m: &IdMap, key: u32) -> (r: Option<u64>)
    ensures
        r == (if identity_entries(*m).dom().contains(key) {
            Some(identity_entries(*m)[key])
        } else {
            None::<u64>
        }),
{
    match m.get(&key) {
        Some(entry) => Some(*entry.value()),
        None => None,
    }
}

/// A participant identity as the turn pipeline sees it: resolved to the
/// durable identity, or a placeholder naming the raw stream id when no
/// speaking-state observation ever arrived for it.
#[derive(Clone, Copy, PartialEq, Eq, Structural, Debug)]
pub enum SpeakerIdentity {
    Resolved { user: u64 },
    Unresolved { stream_id: u32 },
}

/// Records which durable identity speaks behind each ephemeral stream id.
pub struct IdentityResolver {
    map: IdMap,
}

impl IdentityResolver {
    /// The observations recorded so far.
    pub closed spec fn resolved(self) -> Map<u32, u64> {
        identity_entries(self.map)
    }

    pub fn new() -> (r: IdentityResolver)
        ensures
            r.resolved() == Map::<u32, u64>::empty(),
    {
        IdentityResolver { map: id_map_new() }
    }

    /// Record (or overwrite) the identity behind a stream id: last writer
    /// wins, since the transport orders its events no further.
    pub fn observe(&mut self, stream_id: u32, user: u64)
        ensures
            final(self).resolved() == old(self).resolved().insert(stream_id, user),
    {
        id_map_insert(&mut self.map, stream_id, user);
    }

    /// The durable identity behind a stream id, if one was ever observed.
    pub fn resolve(&self, stream_id: u32) -> (r: Option<u64>)
        ensures
            r == (if self.resolved().dom().contains(stream_id) {
                Some(self.resolved()[stream_id])
            } else {
                None::<u64>
            }),
    {
        id_map_get(&self.map, stream_id)
    }

    /// The identity a turn runs under: the resolved one, or the placeholder
    /// for the raw stream id. Buffering and flushing never depend on which
    /// of the two it is.
    pub fn speaker_identity(&self, stream_id: u32) -> (r: SpeakerIdentity)
        ensures
            r == (if self.resolved().dom().contains(stream_id) {
                SpeakerIdentity::Resolved { user: self.resolved()[stream_id] }
            } else {
                SpeakerIdentity::Unresolved { stream_id }
            }),
    {
        match self.resolve(stream_id) {
            Some(user) => SpeakerIdentity::Resolved { user },
            None => SpeakerIdentity::Unresolved { stream_id },
        }
    }
}

} // verus!
