//! A request that a widget sends to the storage of the value it edits.
use vstd::prelude::*;

verus! {

/// Read the current value, or write a new one.
pub enum Operation<T> {
    Get,
    Put(T),
}

impl<T> From<Option<T>> for Operation<T> {
    /// `None` asks for the current value, `Some(v)` writes `v`.
    fn from(value: Option<T>) -> (r: Self) {
        match value {
            None => Operation::Get,
            Some(v) => Operation::Put(v),
        }
    }
}

impl<T> vstd::std_specs::convert::FromSpecImpl<Option<T>> for Operation<T> {
    open spec fn obeys_from_spec() -> bool {
        true
    }

    open spec fn from_spec(value: Option<T>) -> Self {
        match value {
            None => Operation::Get,
            Some(v) => Operation::Put(v),
        }
    }
}

} // verus!
