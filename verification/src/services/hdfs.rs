//! A distributed file system, reached through a client handle.

pub mod backend;
pub mod error;
