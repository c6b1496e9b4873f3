//! What a listing yields for one object.

use vstd::prelude::*;
use crate::object::metadata::{ObjectMetadata, ObjectMetadataView};
use crate::object::mode::ObjectMode;
use crate::text::owned;

verus! {

/// An object as a listing shows it: its path below the root, its metadata, and
/// whether the metadata are complete.
#[derive(Debug, Clone, PartialEq, Eq)]
pub struct ObjectEntry {
    path: String,
    meta: ObjectMetadata,
    complete: bool,
}

/// An [`ObjectEntry`] with its texts as characters.
pub struct ObjectEntryView {
    pub path: Seq<char>,
    pub meta: ObjectMetadataView,
    pub complete: bool,
}

impl View for ObjectEntry {
    type V = ObjectEntryView;

    closed spec fn view(&self) -> ObjectEntryView {
        ObjectEntryView { path: self.path@, meta: self.meta@, complete: self.complete }
    }
}

impl ObjectEntry {
    /// An entry for `path` whose metadata may still lack fields.
    pub fn new(path: &str, meta: ObjectMetadata) -> (r: Self)
        ensures
            r@ == (ObjectEntryView { path: path@, meta: meta@, complete: false }),
    {
        ObjectEntry { path: owned(path), meta, complete: false }
    }

    /// This entry, marked as holding all there is to know.
    pub fn with_complete(self) -> (r: Self)
        ensures
            r@ == (ObjectEntryView { complete: true, ..self@ }),
    {
        let mut e = self;
        e.complete = true;
        e
    }

    /// Marks this entry as holding all there is to know.
    pub fn set_complete<'a>(&'a mut self) -> (r: &'a mut Self)
        ensures
            r@ == (ObjectEntryView { complete: true, ..old(self)@ }),
            *final(self) == *final(r),
    {
        self.complete = true;
        self
    }

    /// Whether the metadata are complete, so that no `stat` is needed.
    pub fn is_complete(&self) -> (r: bool)
        ensures
            r == self@.complete,
    {
        self.complete
    }

    /// Whether a caller who needs every field has to `stat` the object: the
    /// entry is not marked complete, or its content length is absent.
    pub fn needs_stat(&self) -> (r: bool)
        ensures
            r == (!self@.complete || self@.meta.content_length is None),
    {
        !self.complete || self.meta.content_length_raw().is_none()
    }

    /// The path of the object, relative to the root.
    pub fn path(&self) -> (r: &str)
        ensures
            r@ == self@.path,
    {
        self.path.as_str()
    }

    /// The mode of the object.
    pub fn mode(&self) -> (r: ObjectMode)
        ensures
            r == self@.meta.mode,
    {
        self.meta.mode()
    }

    /// The metadata that came with the entry.
    pub fn metadata(&self) -> (r: &ObjectMetadata)
        ensures
            r@ == self@.meta,
    {
        &self.meta
    }
}

} // verus!
