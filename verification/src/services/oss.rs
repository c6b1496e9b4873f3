//! An object store that answers listings page by page.

pub mod dir_stream;
pub mod error;
