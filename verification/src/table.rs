//! The table of live proxies.
//!
//! Every proxy that the client has bound is owned by one [`ProxyTable`],
//! together with the listeners registered on it. An entry enters the table
//! whole and leaves it whole: there is no moment at which a proxy is tracked
//! without its listeners, or listeners without their proxy.

use std::collections::HashMap;
use vstd::prelude::*;

verus! {

broadcast use vstd::std_specs::hash::group_hash_axioms;

/// Why the table refused an entry.
#[derive(Clone, Copy, Debug, PartialEq, Eq, Structural)]
pub enum TableError {
    /// The id already names a live entry. An id is reused by the remote side
    /// only after its former object has been removed, so this is a logic
    /// error of the caller or of the remote side.
    AlreadyTracked { id: u32 },
}

/// A proxy and the listeners that hang on it.
///
/// The proxy stands before its listeners so that, when an entry is dropped,
/// the proxy goes first and the listeners never go before it.
struct Entry<P, L> {
    proxy: P,
    listeners: Vec<L>,
}

/// Mapping from object id to the proxy bound to that object and its listeners.
///
/// `P` is the proxy type and `L` the type of a listener registration; the
/// table only owns them and gives them up, it never looks inside.
pub struct ProxyTable<P, L> {
    entries: HashMap<u32, Entry<P, L>>,
}

impl<P, L> View for ProxyTable<P, L> {
    type V = Map<u32, (P, Seq<L>)>;

    /// The table as a map from id to proxy and listener sequence.
    closed spec fn view(&self) -> Map<u32, (P, Seq<L>)> {
        Map::new(
            |id: u32| self.entries@.contains_key(id),
            |id: u32| (self.entries@[id].proxy, self.entries@[id].listeners@),
        )
    }
}

impl<P, L> ProxyTable<P, L> {
    /// A table always tracks finitely many ids.
    pub proof fn law_finitely_many_ids(&self)
        ensures
            self@.dom().finite(),
    {
        assert(self@.dom() =~= self.entries@.dom());
    }

    /// An empty table.
    pub fn new() -> (table: Self)
        ensures
            table@ == Map::<u32, (P, Seq<L>)>::empty(),
    {
        let table = ProxyTable { entries: HashMap::new() };
        assert(table@ =~= Map::<u32, (P, Seq<L>)>::empty());
        table
    }

    /// Tracks `proxy` and its `listeners` under `id`.
    ///
    /// Fails, and leaves the table as it was, when `id` is already tracked;
    /// the refused proxy is dropped, and after it its listeners.
    pub fn insert(&mut self, id: u32, proxy: P, listeners: Vec<L>) -> (outcome: Result<
        (),
        TableError,
    >)
        ensures
            old(self)@.contains_key(id) ==> outcome == Err::<(), TableError>(
                TableError::AlreadyTracked { id },
            ) && final(self)@ == old(self)@,
            !old(self)@.contains_key(id) ==> outcome == Ok::<(), TableError>(()) && final(self)@
                == old(self)@.insert(id, (proxy, listeners@)),
    {
        let ghost before = self@;
        let ghost listened = listeners@;
        // Made before the test, so that a refused entry is dropped as one.
        let entry = Entry { proxy, listeners };
        if self.entries.contains_key(&id) {
            return Err(TableError::AlreadyTracked { id });
        }
        self.entries.insert(id, entry);
        assert(self@ =~= before.insert(id, (proxy, listened)));
        Ok(())
    }

    /// Drops the entry of `id`, proxy and listeners together.
    ///
    /// An id that is not tracked is left alone. Returns whether an entry was
    /// dropped.
    pub fn remove(&mut self, id: u32) -> (evicted: bool)
        ensures
            final(self)@ == old(self)@.remove(id),
            evicted == old(self)@.contains_key(id),
    {
        let ghost before = self@;
        let gone = self.entries.remove(&id);
        assert(self@ =~= before.remove(id));
        gone.is_some()
    }

    /// Drops every entry.
    pub fn clear(&mut self)
        ensures
            final(self)@ == Map::<u32, (P, Seq<L>)>::empty(),
    {
        self.entries.clear();
        assert(self@ =~= Map::<u32, (P, Seq<L>)>::empty());
    }

    /// Whether `id` is tracked.
    pub fn contains(&self, id: u32) -> (present: bool)
        ensures
            present == self@.contains_key(id),
    {
        self.entries.contains_key(&id)
    }

    /// The number of tracked ids.
    pub fn len(&self) -> (n: usize)
        ensures
            n == self@.dom().len(),
    {
        assert(self@.dom() =~= self.entries@.dom());
        self.entries.len()
    }

    /// Whether nothing is tracked.
    pub fn is_empty(&self) -> (empty: bool)
        ensures
            empty == self@.is_empty(),
    {
        assert(self@.dom() =~= self.entries@.dom());
        self.entries.is_empty()
    }

    /// How many listeners hang on the proxy of `id`, if it is tracked.
    pub fn listener_count(&self, id: u32) -> (count: Option<usize>)
        ensures
            count == if self@.contains_key(id) {
                Some(self@[id].1.len() as usize)
            } else {
                None
            },
    {
        match self.entries.get(&id) {
            Some(entry) => Some(entry.listeners.len()),
            None => None,
        }
    }
}

/// Removing an id that is not tracked leaves the table as it is, and
/// removing an id twice leaves it as after the first removal.
pub proof fn law_remove_is_idempotent<P, L>(table: Map<u32, (P, Seq<L>)>, id: u32)
    ensures
        !table.contains_key(id) ==> table.remove(id) == table,
        table.remove(id).remove(id) == table.remove(id),
{
    assert(table.remove(id).remove(id) =~= table.remove(id));
    if !table.contains_key(id) {
        assert(table.remove(id) =~= table);
    }
}

} // verus!
