//! Errors of session store operations that own their reason.

use vstd::prelude::*;

verus! {

/// All the errors that a session store operation can report, with an owned
/// reason.
#[derive(Debug)]
pub enum SessionStoreError {
    /// The session could not be loaded from the store.
    LoadFailure(String),
    /// The session could not be written into the store.
    StoreFailure(String),
    /// The store could not be cleared.
    ClearFailure(String),
    /// The session could not be removed from the store.
    DestroyFailure(String),
    /// Any other failure of a store.
    Unknown,
}

} // verus!
