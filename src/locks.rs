use vstd::prelude::*;
use dashmap::DashMap;

verus! {

#[verifier::external_type_specification]
#[verifier::external_body]
#[verifier::reject_recursive_types(K)]
#[verifier::reject_recursive_types(V)]
#[verifier::reject_recursive_types(S)]
pub struct ExDashMap<K, V, S>(DashMap<K, V, S>);

/// Relies on DashMap::new: a map with no entries. What it holds later is
/// shared between concurrent uploads, so no contract speaks of it.
#[verifier::external_body]
fn new_map() -> (r: DashMap<String, ()>) {
    DashMap::new()
}

/// Relies on DashMap::insert: one write under the shard's lock that returns
/// the previous value, so an absent key is claimed atomically. Whether it was
/// absent depends on the other callers, so nothing is promised of the result.
#[verifier::external_body]
fn insert_key(m: &DashMap<String, ()>, key: String) -> (was_absent: bool) {
    m.insert(key, ()).is_none()
}

/// Relies on DashMap::remove: drops the entry of `key`, saying whether there
/// was one.
#[verifier::external_body]
fn remove_key(m: &DashMap<String, ()>, key: &str) -> (was_present: bool) {
    m.remove(key).is_some()
}

/// The registry of canonical file paths with an upload in flight: at most one
/// writer per path. It is shared by the uploads of one server, which take
/// and hand back entries concurrently.
pub struct PathLocks {
    held: DashMap<String, ()>,
}

impl PathLocks {
    pub fn new() -> (r: PathLocks) {
        PathLocks { held: new_map() }
    }

    /// Claims `key` in one atomic insert-if-absent; true when this caller now
    /// holds it, false when another upload does.
    pub fn try_acquire(&self, key: &str) -> (acquired: bool) {
        insert_key(&self.held, String::from_str(key))
    }

    /// Hands `key` back; true when it was held.
    pub fn release(&self, key: &str) -> (was_held: bool) {
        remove_key(&self.held, key)
    }
}

} // verus!
