//! Server-side sessions: a time-bounded unit of per-client state, and a
//! concurrent store that holds sessions by identifier and filters out the
//! expired ones when they are read.

pub mod config;
pub mod error;
pub mod session;
pub mod store;
pub mod time;
pub mod types;
pub mod util;

pub use crate::types::SessionId;
pub use crate::session::Session;
pub use crate::store::in_memory::InMemory;
pub use crate::store::SessionStore;
