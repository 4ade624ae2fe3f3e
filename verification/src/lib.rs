//! Core of an upload service that talks to each client over one long-lived
//! connection: identifiers for stored artifacts, where they are kept, the
//! registry that maps one to the other, the per-connection session and the
//! retrieval of what was stored.

pub mod text;
pub mod token;
pub mod registry;
pub mod storage;
pub mod fault;
pub mod message;
pub mod session;
pub mod upload;
pub mod retrieval;
pub mod laws;
