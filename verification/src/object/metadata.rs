//! What is known of an object besides its path.

use vstd::prelude::*;
use crate::object::mode::ObjectMode;
use crate::object::timestamp::Timestamp;
use crate::text::{opt_chars, opt_str_chars, owned};

verus! {

/// The metadata of an object.
///
/// The mode is always there. After `stat` the content length is there too;
/// after `list` it may be absent until it is fetched. Every other field is
/// absent until it is set: no value stands in for "unknown".
#[derive(Debug, Clone, PartialEq, Eq)]
pub struct ObjectMetadata {
    mode: ObjectMode,
    content_length: Option<u64>,
    content_md5: Option<String>,
    content_type: Option<String>,
    last_modified: Option<Timestamp>,
    etag: Option<String>,
}

/// An [`ObjectMetadata`] with its texts as characters.
pub struct ObjectMetadataView {
    pub mode: ObjectMode,
    pub content_length: Option<u64>,
    pub content_md5: Option<Seq<char>>,
    pub content_type: Option<Seq<char>>,
    pub last_modified: Option<Timestamp>,
    pub etag: Option<Seq<char>>,
}

impl ObjectMetadataView {
    /// Metadata of mode `mode` with nothing else known.
    pub open spec fn new(mode: ObjectMode) -> ObjectMetadataView {
        ObjectMetadataView {
            mode,
            content_length: None,
            content_md5: None,
            content_type: None,
            last_modified: None,
            etag: None,
        }
    }
}

impl View for ObjectMetadata {
    type V = ObjectMetadataView;

    closed spec fn view(&self) -> ObjectMetadataView {
        ObjectMetadataView {
            mode: self.mode,
            content_length: self.content_length,
            content_md5: opt_chars(self.content_md5),
            content_type: opt_chars(self.content_type),
            last_modified: self.last_modified,
            etag: opt_chars(self.etag),
        }
    }
}

impl ObjectMetadata {
    /// Metadata of mode `mode` with every other field absent.
    pub fn new(mode: ObjectMode) -> (r: Self)
        ensures
            r@ == ObjectMetadataView::new(mode),
    {
        ObjectMetadata {
            mode,
            content_length: None,
            content_md5: None,
            content_type: None,
            last_modified: None,
            etag: None,
        }
    }

    /// The mode of the object.
    pub fn mode(&self) -> (r: ObjectMode)
        ensures
            r == self@.mode,
    {
        self.mode
    }

    /// Sets the mode.
    pub fn set_mode<'a>(&'a mut self, mode: ObjectMode) -> (r: &'a mut Self)
        ensures
            r@ == (ObjectMetadataView { mode, ..old(self)@ }),
            *final(self) == *final(r),
    {
        self.mode = mode;
        self
    }

    /// These metadata with the mode set.
    pub fn with_mode(self, mode: ObjectMode) -> (r: Self)
        ensures
            r@ == (ObjectMetadataView { mode, ..self@ }),
    {
        let mut m = self;
        m.mode = mode;
        m
    }

    /// The length of the content in bytes; 0 where it is not known.
    pub fn content_length(&self) -> (r: u64)
        ensures
            r == match self@.content_length {
                Some(n) => n,
                None => 0,
            },
    {
        match self.content_length {
            Some(n) => n,
            None => 0,
        }
    }

    /// The length of the content in bytes, if it is known.
    pub fn content_length_raw(&self) -> (r: Option<u64>)
        ensures
            r == self@.content_length,
    {
        self.content_length
    }

    /// Sets the length of the content.
    pub fn set_content_length<'a>(&'a mut self, content_length: u64) -> (r: &'a mut Self)
        ensures
            r@ == (ObjectMetadataView { content_length: Some(content_length), ..old(self)@ }),
            *final(self) == *final(r),
    {
        self.content_length = Some(content_length);
        self
    }

    /// These metadata with the length of the content set.
    pub fn with_content_length(self, content_length: u64) -> (r: Self)
        ensures
            r@ == (ObjectMetadataView { content_length: Some(content_length), ..self@ }),
    {
        let mut m = self;
        m.content_length = Some(content_length);
        m
    }

    /// The MD5 digest of the content as the backend gave it. It is passed on
    /// as it came and held to nothing.
    pub fn content_md5(&self) -> (r: Option<&str>)
        ensures
            opt_str_chars(r) == self@.content_md5,
    {
        match &self.content_md5 {
            Some(s) => Some(s.as_str()),
            None => None,
        }
    }

    /// Sets the MD5 digest of the content.
    pub fn set_content_md5<'a>(&'a mut self, content_md5: &str) -> (r: &'a mut Self)
        ensures
            r@ == (ObjectMetadataView { content_md5: Some(content_md5@), ..old(self)@ }),
            *final(self) == *final(r),
    {
        self.content_md5 = Some(owned(content_md5));
        self
    }

    /// These metadata with the MD5 digest of the content set.
    pub fn with_content_md5(self, content_md5: &str) -> (r: Self)
        ensures
            r@ == (ObjectMetadataView { content_md5: Some(content_md5@), ..self@ }),
    {
        let mut m = self;
        m.content_md5 = Some(owned(content_md5));
        m
    }

    /// The media type of the content.
    pub fn content_type(&self) -> (r: Option<&str>)
        ensures
            opt_str_chars(r) == self@.content_type,
    {
        match &self.content_type {
            Some(s) => Some(s.as_str()),
            None => None,
        }
    }

    /// Sets the media type of the content.
    pub fn set_content_type<'a>(&'a mut self, v: &str) -> (r: &'a mut Self)
        ensures
            r@ == (ObjectMetadataView { content_type: Some(v@), ..old(self)@ }),
            *final(self) == *final(r),
    {
        self.content_type = Some(owned(v));
        self
    }

    /// These metadata with the media type of the content set.
    pub fn with_content_type(self, v: &str) -> (r: Self)
        ensures
            r@ == (ObjectMetadataView { content_type: Some(v@), ..self@ }),
    {
        let mut m = self;
        m.content_type = Some(owned(v));
        m
    }

    /// When the object was last modified.
    pub fn last_modified(&self) -> (r: Option<Timestamp>)
        ensures
            r == self@.last_modified,
    {
        self.last_modified
    }

    /// Sets the time of the last modification.
    pub fn set_last_modified<'a>(&'a mut self, last_modified: Timestamp) -> (r: &'a mut Self)
        ensures
            r@ == (ObjectMetadataView { last_modified: Some(last_modified), ..old(self)@ }),
            *final(self) == *final(r),
    {
        self.last_modified = Some(last_modified);
        self
    }

    /// These metadata with the time of the last modification set.
    pub fn with_last_modified(self, last_modified: Timestamp) -> (r: Self)
        ensures
            r@ == (ObjectMetadataView { last_modified: Some(last_modified), ..self@ }),
    {
        let mut m = self;
        m.last_modified = Some(last_modified);
        m
    }

    /// The entity tag, exactly as the backend gave it: `"` at either end and a
    /// leading `W/` are part of the value.
    pub fn etag(&self) -> (r: Option<&str>)
        ensures
            opt_str_chars(r) == self@.etag,
    {
        match &self.etag {
            Some(s) => Some(s.as_str()),
            None => None,
        }
    }

    /// Sets the entity tag. The value is stored as it is given.
    pub fn set_etag<'a>(&'a mut self, etag: &str) -> (r: &'a mut Self)
        ensures
            r@ == (ObjectMetadataView { etag: Some(etag@), ..old(self)@ }),
            *final(self) == *final(r),
    {
        self.etag = Some(owned(etag));
        self
    }

    /// These metadata with the entity tag set. The value is stored as it is
    /// given.
    pub fn with_etag(self, etag: &str) -> (r: Self)
        ensures
            r@ == (ObjectMetadataView { etag: Some(etag@), ..self@ }),
    {
        let mut m = self;
        m.etag = Some(owned(etag));
        m
    }
}

} // verus!
