//! What a backend tells of itself before any operation is sent to it.

use vstd::prelude::*;
use crate::text::owned;

verus! {

/// The backends that there are.
#[derive(Debug, Clone, Copy, PartialEq, Eq, Hash, Structural)]
pub enum Scheme {
    /// A distributed file system.
    Hdfs,
    /// An object store with paged listings.
    Oss,
}

/// One thing that a backend may be able to do.
#[derive(Debug, Clone, Copy, PartialEq, Eq, Hash, Structural)]
pub enum AccessorCapability {
    Read,
    Write,
    List,
}

impl AccessorCapability {
    /// The bit that stands for this capability in a mask.
    pub open spec fn spec_bit(self) -> u8 {
        match self {
            AccessorCapability::Read => 1u8,
            AccessorCapability::Write => 2u8,
            AccessorCapability::List => 4u8,
        }
    }

    /// The bit that stands for this capability in a mask.
    pub fn bit(self) -> (r: u8)
        ensures
            r == self.spec_bit(),
    {
        match self {
            AccessorCapability::Read => 1u8,
            AccessorCapability::Write => 2u8,
            AccessorCapability::List => 4u8,
        }
    }
}

/// A set of capabilities, kept as a bitmask.
#[derive(Debug, Clone, Copy, PartialEq, Eq, Hash, Structural)]
pub struct Capabilities {
    bits: u8,
}

impl Capabilities {
    /// Whether the set holds `capability`.
    pub closed spec fn has(self, capability: AccessorCapability) -> bool {
        self.bits & capability.spec_bit() != 0
    }

    /// The set that holds nothing.
    pub fn empty() -> (r: Capabilities)
        ensures
            forall|c: AccessorCapability| !r.has(c),
    {
        assert(forall|b: u8| 0u8 & b == 0) by (bit_vector);
        Capabilities { bits: 0 }
    }

    /// The set that holds `capability` and nothing else.
    pub fn only(capability: AccessorCapability) -> (r: Capabilities)
        ensures
            forall|c: AccessorCapability| r.has(c) == (c == capability),
    {
        assert(1u8 & 1u8 != 0 && 1u8 & 2u8 == 0 && 1u8 & 4u8 == 0 && 2u8 & 1u8 == 0 && 2u8 & 2u8
            != 0 && 2u8 & 4u8 == 0 && 4u8 & 1u8 == 0 && 4u8 & 2u8 == 0 && 4u8 & 4u8 != 0)
            by (bit_vector);
        Capabilities { bits: capability.bit() }
    }

    /// This set and `capability`.
    pub fn with(self, capability: AccessorCapability) -> (r: Capabilities)
        ensures
            forall|c: AccessorCapability| r.has(c) == (c == capability || self.has(c)),
    {
        let bit = capability.bit();
        let bits = self.bits;
        let r = Capabilities { bits: bits | bit };
        assert forall|c: AccessorCapability| r.has(c) == (c == capability || self.has(c)) by {
            let m = c.spec_bit();
            assert((bit == 1u8 || bit == 2u8 || bit == 4u8) && (m == 1u8 || m == 2u8 || m == 4u8)
                ==> (((bits | bit) & m != 0) == (m == bit || bits & m != 0))) by (bit_vector);
        }
        r
    }

    /// What is in this set or in `other`.
    pub fn union(self, other: Capabilities) -> (r: Capabilities)
        ensures
            forall|c: AccessorCapability| r.has(c) == (self.has(c) || other.has(c)),
    {
        let a = self.bits;
        let b = other.bits;
        let r = Capabilities { bits: a | b };
        assert forall|c: AccessorCapability| r.has(c) == (self.has(c) || other.has(c)) by {
            let m = c.spec_bit();
            assert(((a | b) & m != 0) == (a & m != 0 || b & m != 0)) by (bit_vector);
        }
        r
    }

    /// Whether the set holds `capability`.
    pub fn contains(&self, capability: AccessorCapability) -> (r: bool)
        ensures
            r == self.has(capability),
    {
        self.bits & capability.bit() != 0
    }
}

/// What a backend tells of itself: which backend it is, the root below which
/// it works, and what it can do.
#[derive(Debug, Clone, PartialEq, Eq)]
pub struct AccessorMetadata {
    scheme: Scheme,
    root: String,
    capabilities: Capabilities,
}

/// An [`AccessorMetadata`] with its root as characters.
pub struct AccessorMetadataView {
    pub scheme: Scheme,
    pub root: Seq<char>,
    pub capabilities: Capabilities,
}

impl View for AccessorMetadata {
    type V = AccessorMetadataView;

    closed spec fn view(&self) -> AccessorMetadataView {
        AccessorMetadataView {
            scheme: self.scheme,
            root: self.root@,
            capabilities: self.capabilities,
        }
    }
}

impl AccessorMetadata {
    pub fn new(scheme: Scheme, root: &str, capabilities: Capabilities) -> (r: Self)
        ensures
            r@ == (AccessorMetadataView { scheme, root: root@, capabilities }),
    {
        AccessorMetadata { scheme, root: owned(root), capabilities }
    }

    /// Which backend this is.
    pub fn scheme(&self) -> (r: Scheme)
        ensures
            r == self@.scheme,
    {
        self.scheme
    }

    pub fn set_scheme<'a>(&'a mut self, scheme: Scheme) -> (r: &'a mut Self)
        ensures
            r@ == (AccessorMetadataView { scheme, ..old(self)@ }),
            *final(self) == *final(r),
    {
        self.scheme = scheme;
        self
    }

    /// The root below which the backend works, in normal shape.
    pub fn root(&self) -> (r: &str)
        ensures
            r@ == self@.root,
    {
        self.root.as_str()
    }

    pub fn set_root<'a>(&'a mut self, root: &str) -> (r: &'a mut Self)
        ensures
            r@ == (AccessorMetadataView { root: root@, ..old(self)@ }),
            *final(self) == *final(r),
    {
        self.root = owned(root);
        self
    }

    /// What the backend can do.
    pub fn capabilities(&self) -> (r: Capabilities)
        ensures
            r == self@.capabilities,
    {
        self.capabilities
    }

    pub fn set_capabilities<'a>(&'a mut self, capabilities: Capabilities) -> (r: &'a mut Self)
        ensures
            r@ == (AccessorMetadataView { capabilities, ..old(self)@ }),
            *final(self) == *final(r),
    {
        self.capabilities = capabilities;
        self
    }

    /// Whether the backend can read.
    pub fn can_read(&self) -> (r: bool)
        ensures
            r == self@.capabilities.has(AccessorCapability::Read),
    {
        self.capabilities.contains(AccessorCapability::Read)
    }

    /// Whether the backend can write.
    pub fn can_write(&self) -> (r: bool)
        ensures
            r == self@.capabilities.has(AccessorCapability::Write),
    {
        self.capabilities.contains(AccessorCapability::Write)
    }

    /// Whether the backend can list.
    pub fn can_list(&self) -> (r: bool)
        ensures
            r == self@.capabilities.has(AccessorCapability::List),
    {
        self.capabilities.contains(AccessorCapability::List)
    }
}

} // verus!
