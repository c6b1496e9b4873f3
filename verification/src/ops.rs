//! The argument records of the operations. Each is fixed once it is made.

use vstd::prelude::*;
use crate::object::mode::ObjectMode;

verus! {

/// The operations that every backend offers.
#[derive(Debug, Clone, Copy, PartialEq, Eq, Hash, Structural)]
pub enum Operation {
    Create,
    Read,
    Write,
    Stat,
    Delete,
    List,
}

impl Operation {
    /// The name of the operation, as messages show it.
    pub open spec fn spec_name(self) -> Seq<char> {
        match self {
            Operation::Create => "create"@,
            Operation::Read => "read"@,
            Operation::Write => "write"@,
            Operation::Stat => "stat"@,
            Operation::Delete => "delete"@,
            Operation::List => "list"@,
        }
    }

    /// The name of the operation, as messages show it.
    pub fn name(self) -> (r: &'static str)
        ensures
            r@ == self.spec_name(),
    {
        match self {
            Operation::Create => "create",
            Operation::Read => "read",
            Operation::Write => "write",
            Operation::Stat => "stat",
            Operation::Delete => "delete",
            Operation::List => "list",
        }
    }
}

/// Arguments of `create`: the mode of the object to make.
#[derive(Debug, Clone, Copy, PartialEq, Eq, Structural)]
pub struct OpCreate {
    mode: ObjectMode,
}

impl OpCreate {
    /// The mode that was asked for.
    pub closed spec fn spec_mode(&self) -> ObjectMode {
        self.mode
    }

    pub fn new(mode: ObjectMode) -> (r: Self)
        ensures
            r.spec_mode() == mode,
    {
        OpCreate { mode }
    }

    #[verifier::when_used_as_spec(spec_mode)]
    pub fn mode(&self) -> (r: ObjectMode)
        ensures
            r == self.spec_mode(),
    {
        self.mode
    }
}

/// Arguments of `read`: where to start, and how much to yield at most.
#[derive(Debug, Clone, Copy, PartialEq, Eq, Structural)]
pub struct OpRead {
    offset: Option<u64>,
    size: Option<u64>,
}

impl OpRead {
    /// The byte at which reading starts; `None` for the first.
    pub closed spec fn spec_offset(&self) -> Option<u64> {
        self.offset
    }

    /// The number of bytes after which the stream ends; `None` for no limit.
    pub closed spec fn spec_size(&self) -> Option<u64> {
        self.size
    }

    /// Where the bytes that a read yields begin in content of `len` bytes.
    pub open spec fn range_start(self, len: u64) -> int {
        match self.spec_offset() {
            Some(offset) => if offset <= len { offset as int } else { len as int },
            None => 0,
        }
    }

    /// Where the bytes that a read yields end in content of `len` bytes.
    pub open spec fn range_end(self, len: u64) -> int {
        match self.spec_size() {
            Some(size) => if self.range_start(len) + size <= len {
                self.range_start(len) + size
            } else {
                len as int
            },
            None => len as int,
        }
    }

    pub fn new(offset: Option<u64>, size: Option<u64>) -> (r: Self)
        ensures
            r.spec_offset() == offset,
            r.spec_size() == size,
    {
        OpRead { offset, size }
    }

    #[verifier::when_used_as_spec(spec_offset)]
    pub fn offset(&self) -> (r: Option<u64>)
        ensures
            r == self.spec_offset(),
    {
        self.offset
    }

    #[verifier::when_used_as_spec(spec_size)]
    pub fn size(&self) -> (r: Option<u64>)
        ensures
            r == self.spec_size(),
    {
        self.size
    }

    /// The half-open range of bytes that a read with these arguments yields
    /// from content of `len` bytes: it starts at the offset, or at the end
    /// where the offset lies behind it, and holds `size` bytes, or fewer where
    /// the content ends first.
    pub fn byte_range(&self, len: u64) -> (r: (u64, u64))
        ensures
            r.0 == self.range_start(len),
            r.1 == self.range_end(len),
            r.0 <= r.1 <= len,
    {
        let start: u64 = match self.offset {
            Some(offset) => if offset <= len { offset } else { len },
            None => 0,
        };
        let end: u64 = match self.size {
            Some(size) => if size <= len - start { start + size } else { len },
            None => len,
        };
        (start, end)
    }
}

/// Arguments of `write`. The content travels beside them, as a stream.
#[derive(Debug, Clone, Copy, PartialEq, Eq, Structural)]
pub struct OpWrite {}

impl OpWrite {
    pub fn new() -> Self {
        OpWrite {  }
    }
}

/// Arguments of `stat`: none.
#[derive(Debug, Clone, Copy, PartialEq, Eq, Structural)]
pub struct OpStat {}

impl OpStat {
    pub fn new() -> Self {
        OpStat {  }
    }
}

/// Arguments of `delete`: none.
#[derive(Debug, Clone, Copy, PartialEq, Eq, Structural)]
pub struct OpDelete {}

impl OpDelete {
    pub fn new() -> Self {
        OpDelete {  }
    }
}

/// Arguments of `list`: none, the path is the prefix.
#[derive(Debug, Clone, Copy, PartialEq, Eq, Structural)]
pub struct OpList {}

impl OpList {
    pub fn new() -> Self {
        OpList {  }
    }
}

} // verus!
