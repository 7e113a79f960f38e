//! An in-memory registry of user records, with the replies that the
//! users and messaging services send over HTTP.
//!
//! The registry keeps its records in insertion order and never holds two
//! records with the same id. It is a single-owner value: a server shares it
//! between request handlers behind a readers-writer lock.
use vstd::prelude::*;

mod fresh;
pub mod record;
pub mod reply;
pub mod store;

verus! {

} // verus!
