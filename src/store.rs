use dashmap::DashMap;
use vstd::prelude::*;

verus! {

#[verifier::external_type_specification]
#[verifier::external_body]
#[verifier::reject_recursive_types(K)]
#[verifier::reject_recursive_types(V)]
#[verifier::reject_recursive_types(S)]
pub struct ExDashMap<K, V, S>(DashMap<K, V, S>);

/// The entries that a map holds, by the characters of key and value.
pub uninterp spec fn entries_of(m: DashMap<String, String>) -> Map<Seq<char>, Seq<char>>;

/// Relies on `DashMap::new`: a new map holds no entry.
#[verifier::external_body]
fn map_new() -> (r: DashMap<String, String>)
    ensures
        entries_of(r) =~= Map::empty(),
{
    DashMap::new()
}

/// Relies on `DashMap::insert`: the entry for `k` is `v` afterwards, and no
/// other entry changes.
#[verifier::external_body]
fn map_insert(m: &mut DashMap<String, String>, k: String, v: String)
    ensures
        entries_of(*final(m)) == entries_of(*old(m)).insert(k@, v@),
{
    m.insert(k, v);
}

/// Relies on `DashMap::get`: the value stored for `k`, cloned out of the
/// guard, or `None` where the map has no entry for `k`.
#[verifier::external_body]
fn map_get(m: &DashMap<String, String>, k: &str) -> (r: Option<String>)
    ensures
        view_opt(r) == lookup(entries_of(*m), k@),
{
    m.get(k).map(|e| e.value().clone())
}

/// Relies on `DashMap::remove`: the map has no entry for `k` afterwards, and
/// no other entry changes.
#[verifier::external_body]
fn map_remove(m: &mut DashMap<String, String>, k: &str)
    ensures
        entries_of(*final(m)) == entries_of(*old(m)).remove(k@),
{
    m.remove(k);
}

/// The value stored for `k` in `m`, or `None` where `m` has no entry for `k`.
pub open spec fn lookup(m: Map<Seq<char>, Seq<char>>, k: Seq<char>) -> Option<Seq<char>> {
    if m.contains_key(k) {
        Some(m[k])
    } else {
        None
    }
}

/// The characters of an optional string.
pub open spec fn view_opt(r: Option<String>) -> Option<Seq<char>> {
    match r {
        Some(s) => Some(s@),
        None => None,
    }
}

/// A key and a value, as a client hands them to the store.
#[derive(Clone, Debug)]
pub struct Value {
    pub key: String,
    pub value: String,
}

/// The store: at most one value per key, shared by all request handlers.
///
/// `set` and `remove` take `&mut self`: a change made through a shared
/// reference could not be stated in their contracts. A server therefore
/// shares the store behind one lock, which makes each operation atomic and
/// orders all operations on a key; it does not give the per-key locking of
/// the map inside, which only a shared-reference interface would expose.
pub struct KvStore {
    store: DashMap<String, String>,
}

impl View for KvStore {
    type V = Map<Seq<char>, Seq<char>>;

    closed spec fn view(&self) -> Map<Seq<char>, Seq<char>> {
        entries_of(self.store)
    }
}

impl KvStore {
    /// An empty store.
    pub fn new() -> (r: KvStore)
        ensures
            r@ =~= Map::empty(),
    {
        KvStore { store: map_new() }
    }

    /// Stores `value.value` under `value.key`, replacing any earlier value.
    pub fn set(&mut self, value: Value)
        ensures
            final(self)@ == old(self)@.insert(value.key@, value.value@),
    {
        map_insert(&mut self.store, value.key, value.value);
    }

    /// The value stored under `key`, if any.
    pub fn get(&self, key: &str) -> (r: Option<String>)
        ensures
            view_opt(r) == lookup(self@, key@),
    {
        map_get(&self.store, key)
    }

    /// Deletes the entry for `key`; nothing happens where there is none.
    pub fn remove(&mut self, key: &str)
        ensures
            final(self)@ == old(self)@.remove(key@),
    {
        map_remove(&mut self.store, key);
    }
}

} // verus!
