//! Errors of session store operations.

use vstd::prelude::*;

verus! {

/// All the errors that a [`SessionStore`](crate::store::SessionStore)
/// operation can report, with a borrowed reason.
#[derive(Debug)]
pub enum SessionStoreError<'a> {
    /// The session could not be loaded from the store.
    LoadFailure(&'a str),
    /// The session could not be written into the store.
    StoreFailure(&'a str),
    /// The store could not be cleared.
    ClearFailure(&'a str),
    /// The session could not be removed from the store, most often because
    /// no session with that identifier was there.
    DestroyFailure(&'a str),
    /// Any other failure of a store.
    Unknown,
}

} // verus!
