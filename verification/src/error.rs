//! Error taxonomy of the memory layer.
//!
//! Per-operation failures from the storage backend are absorbed into
//! counters by the harness and never abort a run; these types carry the
//! classified message where an error is surfaced to a caller.

use vstd::prelude::*;
use vstd::string::*;

verus! {

/// An error of the memory layer, classified by the subsystem it came from.
#[derive(Debug)]
pub enum MemError {
    /// The storage backend failed.
    Storage(String),
    /// The embedding provider failed.
    Embedding(String),
    /// The sparse index failed.
    Indexing(String),
}

impl MemError {
    /// A storage-layer error with the given message.
    pub fn storage(msg: &str) -> (r: MemError)
        ensures
            r is Storage && r->Storage_0@ == msg@,
    {
        MemError::Storage(msg.to_owned())
    }

    /// An embedding-layer error with the given message.
    pub fn embedding(msg: &str) -> (r: MemError)
        ensures
            r is Embedding && r->Embedding_0@ == msg@,
    {
        MemError::Embedding(msg.to_owned())
    }

    /// An indexing-layer error with the given message.
    pub fn indexing(msg: &str) -> (r: MemError)
        ensures
            r is Indexing && r->Indexing_0@ == msg@,
    {
        MemError::Indexing(msg.to_owned())
    }

    /// The message this error renders as: the subsystem, then the detail.
    pub fn message(&self) -> (r: String)
        ensures
            *self is Storage ==> r@ == "Storage error: "@ + self->Storage_0@,
            *self is Embedding ==> r@ == "Embedding error: "@ + self->Embedding_0@,
            *self is Indexing ==> r@ == "Indexing error: "@ + self->Indexing_0@,
    {
        match self {
            MemError::Storage(msg) => {
                let mut s = String::from_str("Storage error: ");
                s.append(msg.as_str());
                s
            },
            MemError::Embedding(msg) => {
                let mut s = String::from_str("Embedding error: ");
                s.append(msg.as_str());
                s
            },
            MemError::Indexing(msg) => {
                let mut s = String::from_str("Indexing error: ");
                s.append(msg.as_str());
                s
            },
        }
    }
}

/// A memory-layer error as the service boundary reports it. Mirrors
/// [`MemError`] variant by variant; the service keeps its own type so its
/// callers are not tied to the inner layers.
#[derive(Debug)]
pub enum MemoryError {
    /// The storage backend failed.
    Storage(String),
    /// The embedding provider failed.
    Embedding(String),
    /// The sparse index failed.
    Indexing(String),
}

impl From<MemError> for MemoryError {
    /// Carry an inner error across the service boundary, variant by
    /// variant, message unchanged.
    fn from(e: MemError) -> (r: MemoryError) {
        match e {
            MemError::Storage(msg) => MemoryError::Storage(msg),
            MemError::Embedding(msg) => MemoryError::Embedding(msg),
            MemError::Indexing(msg) => MemoryError::Indexing(msg),
        }
    }
}

impl vstd::std_specs::convert::FromSpecImpl<MemError> for MemoryError {
    open spec fn obeys_from_spec() -> bool {
        true
    }

    open spec fn from_spec(e: MemError) -> MemoryError {
        match e {
            MemError::Storage(msg) => MemoryError::Storage(msg),
            MemError::Embedding(msg) => MemoryError::Embedding(msg),
            MemError::Indexing(msg) => MemoryError::Indexing(msg),
        }
    }
}

} // verus!
