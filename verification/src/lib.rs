//! One contract for storage: create, read, write, stat, delete and list, over
//! backends as different as a distributed file system and an object store.
//!
//! This crate holds what the backends share and what each decides: paths
//! below a root, the argument records of the operations, the metadata and the
//! entries that describe objects, one taxonomy of errors, and the listing that
//! goes page by page. It sends nothing and opens nothing. Whoever owns the
//! connection makes the calls that the functions here lay out, and hands back
//! what came of them.

pub mod accessor;
pub mod error;
pub mod object;
pub mod ops;
pub mod path;
pub mod services;
pub mod text;

pub use accessor::{AccessorCapability, AccessorMetadata, Capabilities, Scheme};
pub use error::{BackendError, BuildCause, Cause, ErrorKind, IoError, ObjectError};
pub use object::entry::ObjectEntry;
pub use object::metadata::ObjectMetadata;
pub use object::mode::ObjectMode;
pub use object::timestamp::Timestamp;
pub use ops::{OpCreate, OpDelete, OpList, OpRead, OpStat, OpWrite, Operation};
