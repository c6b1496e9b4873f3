//! The canonical picture of an object: its mode, its metadata, and the entry
//! that a listing yields for it.

pub mod entry;
pub mod metadata;
pub mod mode;
pub mod timestamp;
