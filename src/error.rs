//! The ways a read can fail, each distinct for the caller.

use vstd::prelude::*;
use crate::address::AddressError;
use crate::message::DecodeError;

verus! {

/// A failed read.
#[derive(Debug, Clone, PartialEq, Eq)]
pub enum StoreError {
    /// The pool is exhausted or the database cannot be reached; with its cause.
    Connectivity(String),
    /// The statement failed in the database; with its cause.
    Query(String),
    /// A row's JSON column is not an object.
    Decode(DecodeError),
    /// A wildcard expression names no category.
    Address(AddressError),
}

} // verus!
