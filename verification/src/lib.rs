//! Control-plane core for a confidential-computing VM host.
//!
//! The crate provisions, tracks and tears down hardware-isolated virtual
//! machines: it allocates scarce host resources (virtual CIDs, forwarded
//! ports) exclusively, keeps one durable manifest per instance, derives a
//! stable application identity from compose payloads, and sequences the
//! create / start / stop / remove / resize / upgrade lifecycle with
//! compensating rollback when a step fails.

pub mod compose;
pub mod config;
pub mod error;
pub mod ident;
pub mod jsonval;
pub mod manifest;
pub mod pool;
pub mod rpc;
pub mod service;
pub mod strutil;
