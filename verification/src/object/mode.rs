//! What kind of thing an object is.

use vstd::prelude::*;

verus! {

/// The mode of an object. It decides which operations are legal on it.
#[derive(Debug, Clone, Copy, PartialEq, Eq, Hash, Structural)]
#[allow(clippy::upper_case_acronyms)]
pub enum ObjectMode {
    /// A regular file: it holds content.
    FILE,
    /// A directory: it holds other objects.
    DIR,
    /// Anything else. Never a valid argument of an operation.
    Unknown,
}

impl Default for ObjectMode {
    fn default() -> (r: Self)
        ensures
            r == ObjectMode::Unknown,
    {
        ObjectMode::Unknown
    }
}

impl ObjectMode {
    /// Whether this is a regular file.
    pub fn is_file(self) -> (r: bool)
        ensures
            r == (self == ObjectMode::FILE),
    {
        self == ObjectMode::FILE
    }

    /// Whether this is a directory.
    pub fn is_dir(self) -> (r: bool)
        ensures
            r == (self == ObjectMode::DIR),
    {
        self == ObjectMode::DIR
    }
}

} // verus!
