use vstd::prelude::*;
use crate::assoc::{assoc_get, assoc_map, assoc_set, keys_unique};
use crate::error::VariableStorageError;
use crate::value::YarnValue;

verus! {

/// An external capability the machine calls to read and write named
/// variables. The machine is agnostic to the backing implementation; a
/// verified in-memory store is provided by [`MemoryVariableStorage`].
pub trait VariableStorage: Sized {
    /// The store's own well-formedness condition.
    spec fn inv(&self) -> bool;

    /// The mapping from variable name to stored value.
    spec fn variables(&self) -> Map<Seq<char>, YarnValue>;

    /// Whether this store's operations are total: a read fails only with a
    /// not-found report, and a write never fails. The in-memory store is
    /// reliable; a host-implemented store need not be.
    spec fn reliable(&self) -> bool;

    /// Reads the variable with the given name. A "not found" error is
    /// reported exactly when the store holds no value under the name.
    fn get(&self, name: &str) -> (r: Result<YarnValue, VariableStorageError>)
        requires
            self.inv(),
        ensures
            r matches Ok(v) ==> self.variables().contains_key(name@)
                && v == self.variables()[name@],
            (r matches Err(e) && e is VariableNotFound) ==> !self.variables().contains_key(name@),
            self.reliable() ==> (r is Ok <==> self.variables().contains_key(name@)),
            self.reliable() ==> (r matches Err(e) ==> e is VariableNotFound),
    ;

    /// Writes a value under the given name. A failed write leaves the
    /// stored variables as they were.
    fn set(&mut self, name: String, value: YarnValue) -> (r: Result<(), VariableStorageError>)
        requires
            old(self).inv(),
        ensures
            final(self).inv(),
            r is Ok ==> final(self).variables() == old(self).variables().insert(name@, value),
            r is Err ==> final(self).variables() == old(self).variables(),
            old(self).reliable() ==> r is Ok,
            final(self).reliable() == old(self).reliable(),
    ;
}

/// A variable store backed by the machine's own memory.
#[derive(Debug, Clone, PartialEq)]
pub struct MemoryVariableStorage {
    /// The stored variables. Names are unique (see the store's invariant).
    pub entries: Vec<(String, YarnValue)>,
}

impl MemoryVariableStorage {
    /// An empty store.
    pub fn new() -> (r: Self)
        ensures
            r.inv(),
            r.variables() == Map::<Seq<char>, YarnValue>::empty(),
    {
        MemoryVariableStorage { entries: Vec::new() }
    }
}

impl VariableStorage for MemoryVariableStorage {
    open spec fn inv(&self) -> bool {
        keys_unique(self.entries@)
    }

    open spec fn variables(&self) -> Map<Seq<char>, YarnValue> {
        assoc_map(self.entries@)
    }

    open spec fn reliable(&self) -> bool {
        true
    }

    fn get(&self, name: &str) -> (r: Result<YarnValue, VariableStorageError>) {
        match assoc_get(&self.entries, name) {
            Some(v) => Ok(v.duplicate()),
            None => Err(
                VariableStorageError::VariableNotFound { name: name.to_owned() },
            ),
        }
    }

    fn set(&mut self, name: String, value: YarnValue) -> (r: Result<(), VariableStorageError>) {
        assoc_set(&mut self.entries, name, value);
        Ok(())
    }
}

} // verus!
