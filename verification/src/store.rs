//! Context store: the one resource shared across the requests of a
//! handshake, mapping each client identifier to its in-progress security
//! context. The map structure itself guarantees at most one stored context
//! per identifier at any instant.

use vstd::hash_map::StringHashMap;
use vstd::prelude::*;

verus! {

/// Mapping from client identifier to the stored security context of that
/// client's in-progress handshake. The context type is opaque to the store:
/// callers supply whatever lockable handle their engine hands out.
#[verifier::reject_recursive_types(V)]
pub struct ContextStore<V> {
    map: StringHashMap<V>,
}

impl<V> View for ContextStore<V> {
    type V = Map<Seq<char>, V>;

    closed spec fn view(&self) -> Map<Seq<char>, V> {
        self.map@
    }
}

impl<V> ContextStore<V> {
    /// Creates an empty store.
    pub fn new() -> (s: Self)
        ensures
            s@ == Map::<Seq<char>, V>::empty(),
    {
        ContextStore { map: StringHashMap::new() }
    }

    /// Looks up the stored context of the given identifier, if any.
    pub fn lookup<'a>(&'a self, id: &str) -> (r: Option<&'a V>)
        ensures
            match r {
                Some(v) => self@.contains_key(id@) && *v == self@[id@],
                None => !self@.contains_key(id@),
            },
    {
        self.map.get(id)
    }

    /// Returns whether a context is stored for the given identifier.
    pub fn contains(&self, id: &str) -> (r: bool)
        ensures
            r == self@.contains_key(id@),
    {
        self.map.contains_key(id)
    }

    /// Stores a context under the given identifier, replacing any context
    /// already stored there; idempotent in the identifier.
    pub fn insert(&mut self, id: String, context: V)
        ensures
            final(self)@ == old(self)@.insert(id@, context),
    {
        self.map.insert(id, context);
    }

    /// Removes the stored context of the given identifier; a no-op when
    /// none is stored.
    pub fn remove(&mut self, id: &str)
        ensures
            final(self)@ == old(self)@.remove(id@),
    {
        self.map.remove(id);
    }

    /// The number of identifiers with a stored context.
    pub fn len(&self) -> (n: usize)
        ensures
            n == self@.len(),
    {
        self.map.len()
    }
}

} // verus!
