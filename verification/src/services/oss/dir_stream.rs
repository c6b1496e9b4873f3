//! Listing, page by page.
//!
//! A [`DirStream`] holds what one listing has reached: the continuation token
//! of the next page and whether the last page has been seen. It does not talk
//! to the backend. Its owner asks it for the next request, sends that, and
//! hands the answer to [`DirStream::next_page`], which decodes the page and
//! moves the stream on.

use vstd::prelude::*;
use crate::error::{new_other_object_error, other_object_error, Cause, ErrorKind, ObjectError};
use crate::object::entry::{ObjectEntry, ObjectEntryView};
use crate::object::metadata::{ObjectMetadata, ObjectMetadataView};
use crate::object::mode::ObjectMode;
use crate::object::timestamp::{rfc3339_instant, Timestamp};
use crate::ops::Operation;
use crate::path::{build_rel_path, ends_with_separator, is_rooted, rel_path, starts_with_root};
use crate::services::oss::error::{parse_error, parsed_error, ErrorResponse};
use crate::text::{opt_chars, opt_str_chars, owned};

verus! {

/// A group of keys that share a prefix up to the next separator: a directory.
#[derive(Debug, Clone, Default, PartialEq, Eq)]
pub struct CommonPrefix {
    pub prefix: String,
}

/// One object of a listing, as the backend describes it.
#[derive(Debug, Clone, Default, PartialEq, Eq)]
pub struct Content {
    pub key: String,
    /// A date and time in the format of RFC 3339.
    pub last_modified: String,
    pub etag: String,
    pub size: u64,
}

/// One page of a listing, as the backend sends it.
#[derive(Debug, Clone, Default, PartialEq, Eq)]
pub struct ListBucketOutput {
    pub prefix: String,
    pub max_keys: u64,
    pub encoding_type: String,
    /// Whether more pages follow.
    pub is_truncated: bool,
    pub common_prefixes: Vec<CommonPrefix>,
    pub contents: Vec<Content>,
    pub key_count: u64,
    /// The token that asks for the page after this one.
    pub next_continuation_token: Option<String>,
}

/// What the backend answered to the request for one page.
#[derive(Debug, Clone, PartialEq, Eq)]
pub enum ListResponse {
    /// A status other than success.
    Refused(ErrorResponse),
    /// Success, but the body could not be read to its end; with the words of
    /// the failure.
    Unreadable(String),
    /// Success, but the body is not a page of a listing; with the words of
    /// the decoder.
    Malformed(String),
    /// A page.
    Listing(ListBucketOutput),
}

/// The request for one page: the path to list and, from the second page on,
/// the token that the page before gave.
#[derive(Debug, Clone, PartialEq, Eq)]
pub struct ListRequest {
    pub path: String,
    pub token: Option<String>,
}

/// One listing in progress.
#[derive(Debug, Clone, PartialEq, Eq)]
pub struct DirStream {
    root: String,
    path: String,
    token: Option<String>,
    done: bool,
}

/// A [`DirStream`] with its texts as characters.
pub struct DirStreamView {
    /// The root below which the listed keys lie.
    pub root: Seq<char>,
    /// The path that is listed.
    pub path: Seq<char>,
    /// The token of the next page; `None` before the first page and after a
    /// page that gave none.
    pub token: Option<Seq<char>>,
    /// Whether the last page has been seen.
    pub done: bool,
}

impl View for DirStream {
    type V = DirStreamView;

    closed spec fn view(&self) -> DirStreamView {
        DirStreamView {
            root: self.root@,
            path: self.path@,
            token: opt_chars(self.token),
            done: self.done,
        }
    }
}

/// The error type of the XML library; here it carries the reason why an
/// escape could not be resolved.
#[verifier::external_type_specification]
#[verifier::external_body]
pub struct ExXmlError(quick_xml::Error);

/// `raw` with its XML escapes resolved: every character reference and every
/// predefined entity replaced by what it stands for; `None` where some `&` in
/// `raw` begins nothing that resolves.
pub uninterp spec fn xml_unescaped(raw: Seq<char>) -> Option<Seq<char>>;

/// `quick_xml::escape::unescape`, its error widened to the library's general
/// error type. Claimed: the outcome depends on the text alone.
#[verifier::external_body]
fn unescape(raw: &str) -> (r: Result<String, quick_xml::Error>)
    ensures
        xml_unescaped(raw@) == match r {
            Ok(s) => Some(s@),
            Err(_) => None::<Seq<char>>,
        },
{
    match quick_xml::escape::unescape(raw) {
        Ok(v) => Ok(v.into_owned()),
        Err(e) => Err(quick_xml::Error::from(e)),
    }
}

/// The words of an XML error, as its `Display` form gives them. Nothing is
/// claimed of them.
#[verifier::external_body]
fn xml_error_text(e: &quick_xml::Error) -> String {
    format!("{}", e)
}

/// The entry of a common prefix whose path below the root is `path`: a
/// directory of which nothing more is to be known.
pub open spec fn dir_entry(path: Seq<char>) -> ObjectEntryView {
    ObjectEntryView { path, meta: ObjectMetadataView::new(ObjectMode::DIR), complete: true }
}

/// The entry of a content whose path below the root is `path`, last modified
/// in second `seconds`: a file with the entity tag and the size that the
/// backend gave, and the time cut to the second.
pub open spec fn file_entry(path: Seq<char>, content: Content, seconds: i64) -> ObjectEntryView {
    ObjectEntryView {
        path,
        meta: ObjectMetadataView {
            etag: Some(content.etag@),
            content_length: Some(content.size),
            last_modified: Some(Timestamp::at(seconds, 0)),
            ..ObjectMetadataView::new(ObjectMode::FILE)
        },
        complete: false,
    }
}

/// What one content of a page comes to.
pub enum Decoded {
    /// The key names a directory marker: no entry.
    Skipped,
    /// An entry.
    Entry(ObjectEntryView),
    /// The page is to be given up for this reason.
    Failed(Cause),
}

/// What the content `content` comes to in a listing below `root`.
///
/// A key that ends with a separator is a directory marker and is passed over
/// before anything else is looked at. Otherwise the time must parse, the key
/// must lie below the root, and what is left of it must unescape: in that
/// order.
pub open spec fn decoded_content(root: Seq<char>, content: Content) -> Decoded {
    let key = content.key@;
    if key.len() > 0 && key.last() == '/' {
        Decoded::Skipped
    } else {
        match rfc3339_instant(content.last_modified@) {
            None => Decoded::Failed(Cause::MalformedTimestamp),
            Some(parts) => if !is_rooted(root, key) {
                Decoded::Failed(Cause::MalformedResponse)
            } else {
                match xml_unescaped(rel_path(root, key)) {
                    None => Decoded::Failed(Cause::MalformedResponse),
                    Some(path) => Decoded::Entry(file_entry(path, content, parts.0)),
                }
            },
        }
    }
}

/// The entries of the common prefixes `prefixes` below `root`, in their
/// order; the reason of the first failure where one does not lie below the
/// root.
pub open spec fn decoded_prefixes(root: Seq<char>, prefixes: Seq<CommonPrefix>) -> Result<
    Seq<ObjectEntryView>,
    Cause,
>
    decreases prefixes.len(),
{
    if prefixes.len() == 0 {
        Ok(Seq::empty())
    } else {
        match decoded_prefixes(root, prefixes.drop_last()) {
            Err(cause) => Err(cause),
            Ok(entries) => if is_rooted(root, prefixes.last().prefix@) {
                Ok(entries.push(dir_entry(rel_path(root, prefixes.last().prefix@))))
            } else {
                Err(Cause::MalformedResponse)
            },
        }
    }
}

/// `before`, followed by the entries of the contents `contents` below `root`
/// in their order, directory markers left out; the reason of the first
/// failure where there is one.
pub open spec fn decoded_contents(
    root: Seq<char>,
    before: Seq<ObjectEntryView>,
    contents: Seq<Content>,
) -> Result<Seq<ObjectEntryView>, Cause>
    decreases contents.len(),
{
    if contents.len() == 0 {
        Ok(before)
    } else {
        match decoded_contents(root, before, contents.drop_last()) {
            Err(cause) => Err(cause),
            Ok(entries) => match decoded_content(root, contents.last()) {
                Decoded::Skipped => Ok(entries),
                Decoded::Entry(entry) => Ok(entries.push(entry)),
                Decoded::Failed(cause) => Err(cause),
            },
        }
    }
}

/// The entries of the page `output` of a listing below `root`: the common
/// prefixes first, then the contents, each in the order of the page.
pub open spec fn decoded_page(root: Seq<char>, output: ListBucketOutput) -> Result<
    Seq<ObjectEntryView>,
    Cause,
> {
    match decoded_prefixes(root, output.common_prefixes@) {
        Err(cause) => Err(cause),
        Ok(dirs) => decoded_contents(root, dirs, output.contents@),
    }
}

/// Entries as their views.
pub open spec fn entry_views(entries: Seq<ObjectEntry>) -> Seq<ObjectEntryView> {
    Seq::new(entries.len(), |i: int| entries[i]@)
}

/// What the message of an error begins with where a last-modified value did
/// not parse; the parser's own words follow.
pub open spec fn timestamp_lead() -> Seq<char> {
    "parse last modified RFC3339 datetime: "@
}

/// Whether `e` is an error of the listing of `path` for the reason `cause`. For
/// a time that did not parse its message begins with [`timestamp_lead`].
pub open spec fn is_decode_failure(e: ObjectError, cause: Cause, path: Seq<char>) -> bool {
    &&& e@.kind == ErrorKind::Other
    &&& e@.op == Operation::List
    &&& e@.path == path
    &&& e@.cause == cause
    &&& cause == Cause::MalformedTimestamp ==> timestamp_lead().is_prefix_of(e@.message)
}

/// Whether `r` is the outcome `expected` of decoding a page of the listing of
/// `path`: the same entries, or an error that names the listing and the reason.
pub open spec fn page_matches(
    r: Result<Vec<ObjectEntry>, ObjectError>,
    expected: Result<Seq<ObjectEntryView>, Cause>,
    path: Seq<char>,
) -> bool {
    match expected {
        Ok(entries) => r is Ok && entry_views(r->Ok_0@) == entries,
        Err(cause) => r is Err && is_decode_failure(r->Err_0, cause, path),
    }
}

/// Whether every time in `entries` is a whole second.
pub open spec fn times_are_whole_seconds(entries: Seq<ObjectEntryView>) -> bool {
    forall|i: int|
        0 <= i < entries.len() ==> ((#[trigger] entries[i]).meta.last_modified matches Some(t)
            ==> t.subsec() == 0)
}

/// Whether every entity tag in `entries` is, character for character, the
/// one of some content in `contents`.
pub open spec fn etags_are_verbatim(entries: Seq<ObjectEntryView>, contents: Seq<Content>) -> bool {
    forall|i: int|
        0 <= i < entries.len() ==> ((#[trigger] entries[i]).meta.etag matches Some(etag)
            ==> exists|j: int| 0 <= j < contents.len() && etag == (#[trigger] contents[j]).etag@)
}

/// The entry of a content carries the entity tag and the size that the
/// backend gave, the tag character for character, and a time without anything
/// below the second.
pub proof fn lemma_content_entry_is_faithful(root: Seq<char>, content: Content)
    ensures
        decoded_content(root, content) matches Decoded::Entry(entry) ==> entry.meta.etag == Some(
            content.etag@,
        ) && entry.meta.content_length == Some(content.size) && entry.meta.last_modified is Some
            && entry.meta.last_modified->Some_0.subsec() == 0,
{
    broadcast use Timestamp::lemma_parts;

}

/// A content whose key ends with a separator gives no entry.
pub proof fn lemma_directory_marker_is_skipped(root: Seq<char>, content: Content)
    requires
        content.key@.len() > 0,
        content.key@.last() == '/',
    ensures
        decoded_content(root, content) == Decoded::Skipped,
{
}

/// No entry of a common prefix holds a time or an entity tag.
pub open spec fn carry_nothing(entries: Seq<ObjectEntryView>) -> bool {
    forall|i: int|
        0 <= i < entries.len() ==> (#[trigger] entries[i]).meta.last_modified is None
            && entries[i].meta.etag is None
}

proof fn lemma_prefixes_carry_nothing(root: Seq<char>, prefixes: Seq<CommonPrefix>)
    ensures
        decoded_prefixes(root, prefixes) matches Ok(entries) ==> carry_nothing(entries),
    decreases prefixes.len(),
{
    if prefixes.len() > 0 {
        lemma_prefixes_carry_nothing(root, prefixes.drop_last());
    }
}

proof fn lemma_contents_are_faithful(
    root: Seq<char>,
    before: Seq<ObjectEntryView>,
    contents: Seq<Content>,
)
    requires
        carry_nothing(before),
    ensures
        decoded_contents(root, before, contents) matches Ok(entries) ==> times_are_whole_seconds(
            entries,
        ) && etags_are_verbatim(entries, contents),
    decreases contents.len(),
{
    if contents.len() > 0 {
        let front = contents.drop_last();
        lemma_contents_are_faithful(root, before, front);
        lemma_content_entry_is_faithful(root, contents.last());
        if let Ok(entries) = decoded_contents(root, before, front) {
            assert forall|i: int| 0 <= i < entries.len() implies ((
            #[trigger] entries[i]).meta.etag matches Some(etag) ==> exists|j: int|
                0 <= j < contents.len() && etag == (#[trigger] contents[j]).etag@) by {
                if entries[i].meta.etag is Some {
                    let etag = entries[i].meta.etag->Some_0;
                    let j = choose|j: int|
                        0 <= j < front.len() && etag == (#[trigger] front[j]).etag@;
                    assert(contents[j] == front[j]);
                }
            }
            if let Decoded::Entry(entry) = decoded_content(root, contents.last()) {
                let all = entries.push(entry);
                assert(contents[contents.len() - 1] == contents.last());
                assert forall|i: int| 0 <= i < all.len() implies ((
                #[trigger] all[i]).meta.etag matches Some(etag) ==> exists|j: int|
                    0 <= j < contents.len() && etag == (#[trigger] contents[j]).etag@) by {
                    if i < entries.len() {
                        assert(all[i] == entries[i]);
                    }
                }
                assert forall|i: int| 0 <= i < all.len() implies ((
                #[trigger] all[i]).meta.last_modified matches Some(t) ==> t.subsec() == 0) by {
                    if i < entries.len() {
                        assert(all[i] == entries[i]);
                    }
                }
            }
        }
    }
}

/// In every page that decodes, each time is a whole second, and each entity
/// tag is the one that the backend gave for some content of the page,
/// character for character.
pub proof fn lemma_page_is_faithful(root: Seq<char>, output: ListBucketOutput)
    ensures
        decoded_page(root, output) matches Ok(entries) ==> times_are_whole_seconds(entries)
            && etags_are_verbatim(entries, output.contents@),
{
    lemma_prefixes_carry_nothing(root, output.common_prefixes@);
    if let Ok(dirs) = decoded_prefixes(root, output.common_prefixes@) {
        lemma_contents_are_faithful(root, dirs, output.contents@);
    }
}

/// The entry of a content: a file at `path` with what the backend told of it.
pub fn new_file_entry(path: &str, content: &Content, modified: Timestamp) -> (r: ObjectEntry)
    ensures
        r@ == file_entry(path@, *content, modified.seconds()),
        r@.meta.etag == Some(content.etag@),
        r@.meta.last_modified == Some(Timestamp::at(modified.seconds(), 0)),
{
    let mut meta = ObjectMetadata::new(ObjectMode::FILE);
    meta.set_etag(content.etag.as_str());
    meta.set_content_length(content.size);
    meta.set_last_modified(modified.truncate_to_second());
    ObjectEntry::new(path, meta)
}

/// The entry of a common prefix: a directory at `path`.
pub fn new_dir_entry(path: &str) -> (r: ObjectEntry)
    ensures
        r@ == dir_entry(path@),
{
    ObjectEntry::new(path, ObjectMetadata::new(ObjectMode::DIR)).with_complete()
}

/// Decodes one content of a page of the listing of `listing`, below `root`.
/// `Ok(None)` is a directory marker, which gives no entry.
pub fn decode_content(root: &str, listing: &str, content: &Content) -> (r: Result<
    Option<ObjectEntry>,
    ObjectError,
>)
    ensures
        match decoded_content(root@, *content) {
            Decoded::Skipped => r == Ok::<Option<ObjectEntry>, ObjectError>(None),
            Decoded::Entry(entry) => r is Ok && r->Ok_0 is Some && r->Ok_0->Some_0@ == entry,
            Decoded::Failed(cause) => r is Err && is_decode_failure(r->Err_0, cause, listing@),
        },
{
    if ends_with_separator(content.key.as_str()) {
        return Ok(None);
    }
    let modified = match Timestamp::parse_rfc3339(content.last_modified.as_str()) {
        Ok(t) => t,
        Err(words) => {
            let mut message = owned("parse last modified RFC3339 datetime: ");
            message.append(words.as_str());
            return Err(
                new_other_object_error(
                    Operation::List,
                    listing,
                    Cause::MalformedTimestamp,
                    message,
                ),
            );
        },
    };
    if !starts_with_root(root, content.key.as_str()) {
        return Err(
            new_other_object_error(
                Operation::List,
                listing,
                Cause::MalformedResponse,
                owned("key does not lie below the root"),
            ),
        );
    }
    let rel = build_rel_path(root, content.key.as_str());
    match unescape(rel.as_str()) {
        Ok(path) => {
            proof {
                Timestamp::lemma_parts(
                    rfc3339_instant(content.last_modified@)->Some_0.0,
                    rfc3339_instant(content.last_modified@)->Some_0.1,
                );
            }
            Ok(Some(new_file_entry(path.as_str(), content, modified)))
        },
        Err(e) => Err(
            new_other_object_error(
                Operation::List,
                listing,
                Cause::MalformedResponse,
                xml_error_text(&e),
            ),
        ),
    }
}

/// Decodes the page `output` of the listing of `listing`, below `root`.
pub fn decode_page(root: &str, listing: &str, output: &ListBucketOutput) -> (r: Result<
    Vec<ObjectEntry>,
    ObjectError,
>)
    ensures
        page_matches(r, decoded_page(root@, *output), listing@),
{
    let mut entries: Vec<ObjectEntry> = Vec::new();
    let mut i: usize = 0;
    assert(entry_views(entries@) =~= Seq::empty());
    while i < output.common_prefixes.len()
        invariant
            i <= output.common_prefixes.len(),
            decoded_prefixes(root@, output.common_prefixes@.take(i as int)) == Ok::<
                Seq<ObjectEntryView>,
                Cause,
            >(entry_views(entries@)),
        decreases output.common_prefixes.len() - i,
    {
        let prefix = &output.common_prefixes[i];
        proof {
            let next = output.common_prefixes@.take(i + 1);
            assert(next.drop_last() =~= output.common_prefixes@.take(i as int));
            assert(next.last() == *prefix);
        }
        if !starts_with_root(root, prefix.prefix.as_str()) {
            proof {
                lemma_prefixes_fail_on(
                    root@,
                    output.common_prefixes@,
                    i + 1,
                    Cause::MalformedResponse,
                );
                assert(output.common_prefixes@.take(output.common_prefixes.len() as int)
                    =~= output.common_prefixes@);
            }
            return Err(
                new_other_object_error(
                    Operation::List,
                    listing,
                    Cause::MalformedResponse,
                    owned("prefix does not lie below the root"),
                ),
            );
        }
        let path = build_rel_path(root, prefix.prefix.as_str());
        let entry = new_dir_entry(path.as_str());
        proof {
            assert(entry_views(entries@.push(entry)) =~= entry_views(entries@).push(entry@));
        }
        entries.push(entry);
        i += 1;
    }
    assert(output.common_prefixes@.take(output.common_prefixes.len() as int)
        =~= output.common_prefixes@);
    let ghost dirs = entry_views(entries@);
    let mut j: usize = 0;
    while j < output.contents.len()
        invariant
            j <= output.contents.len(),
            decoded_prefixes(root@, output.common_prefixes@) == Ok::<Seq<ObjectEntryView>, Cause>(
                dirs,
            ),
            decoded_contents(root@, dirs, output.contents@.take(j as int)) == Ok::<
                Seq<ObjectEntryView>,
                Cause,
            >(entry_views(entries@)),
        decreases output.contents.len() - j,
    {
        let content = &output.contents[j];
        proof {
            let next = output.contents@.take(j + 1);
            assert(next.drop_last() =~= output.contents@.take(j as int));
            assert(next.last() == *content);
        }
        match decode_content(root, listing, content) {
            Ok(None) => {},
            Ok(Some(entry)) => {
                proof {
                    assert(entry_views(entries@.push(entry)) =~= entry_views(entries@).push(
                        entry@,
                    ));
                }
                entries.push(entry);
            },
            Err(e) => {
                proof {
                    lemma_contents_fail_on(root@, dirs, output.contents@, j + 1, e@.cause);
                    assert(output.contents@.take(output.contents.len() as int)
                        =~= output.contents@);
                }
                return Err(e);
            },
        }
        j += 1;
    }
    assert(output.contents@.take(output.contents.len() as int) =~= output.contents@);
    Ok(entries)
}

impl DirStream {
    /// A listing of `path` below `root`, before its first page.
    pub fn new(root: &str, path: &str) -> (r: Self)
        ensures
            r@ == (DirStreamView { root: root@, path: path@, token: None, done: false }),
    {
        DirStream { root: owned(root), path: owned(path), token: None, done: false }
    }

    /// A listing of `path` below `root` that is over before it began: it has
    /// no page.
    pub fn exhausted(root: &str, path: &str) -> (r: Self)
        ensures
            r@ == (DirStreamView { root: root@, path: path@, token: None, done: true }),
    {
        DirStream { root: owned(root), path: owned(path), token: None, done: true }
    }

    /// Whether the last page has been seen.
    pub fn is_done(&self) -> (r: bool)
        ensures
            r == self@.done,
    {
        self.done
    }

    /// The token that the next request will carry.
    pub fn token(&self) -> (r: Option<&str>)
        ensures
            opt_str_chars(r) == self@.token,
    {
        match &self.token {
            Some(t) => Some(t.as_str()),
            None => None,
        }
    }

    /// The request for the next page: `None` once the last page has been
    /// seen, else the listed path with the token that the stream holds.
    pub fn next_request(&self) -> (r: Option<ListRequest>)
        ensures
            r is None == self@.done,
            r matches Some(request) ==> request.path@ == self@.path && opt_chars(request.token)
                == self@.token,
    {
        if self.done {
            return None;
        }
        let token = match &self.token {
            Some(t) => Some(owned(t.as_str())),
            None => None,
        };
        Some(ListRequest { path: owned(self.path.as_str()), token })
    }

    /// Takes the answer to the request that [`DirStream::next_request`] gave
    /// and yields the page.
    ///
    /// A stream that has seen its last page yields `None` and stays as it is,
    /// whatever the answer. An answer that is no page leaves the stream as it
    /// is and gives the error. A page moves the stream on: the stream is done
    /// exactly if the page says that it is not truncated, and it holds the
    /// token that the page gave. This happens before the entries are decoded,
    /// so it holds also where decoding fails. A page without entries is a
    /// page like any other.
    pub fn next_page(&mut self, response: ListResponse) -> (r: Result<
        Option<Vec<ObjectEntry>>,
        ObjectError,
    >)
        ensures
            old(self)@.done ==> r == Ok::<Option<Vec<ObjectEntry>>, ObjectError>(None) && final(self)@ == old(self)@,
            r matches Ok(Some(page)) ==> times_are_whole_seconds(entry_views(page@)),
            r matches Ok(Some(page)) ==> (response matches ListResponse::Listing(output)
                ==> etags_are_verbatim(entry_views(page@), output.contents@)),
            !old(self)@.done ==> match response {
                ListResponse::Refused(er) => final(self)@ == old(self)@ && r is Err && r->Err_0@
                    == parsed_error(Operation::List, old(self)@.path, er@),
                ListResponse::Unreadable(words) => final(self)@ == old(self)@ && r is Err
                    && r->Err_0@ == other_object_error(
                    Operation::List,
                    old(self)@.path,
                    Cause::UnreadableBody,
                    words@,
                ),
                ListResponse::Malformed(words) => final(self)@ == old(self)@ && r is Err
                    && r->Err_0@ == other_object_error(
                    Operation::List,
                    old(self)@.path,
                    Cause::MalformedResponse,
                    words@,
                ),
                ListResponse::Listing(output) => {
                    &&& final(self)@ == (DirStreamView {
                        token: opt_chars(output.next_continuation_token),
                        done: !output.is_truncated,
                        ..old(self)@
                    })
                    &&& match decoded_page(old(self)@.root, output) {
                        Ok(entries) => r is Ok && r->Ok_0 is Some && entry_views(
                            r->Ok_0->Some_0@,
                        ) == entries,
                        Err(cause) => r is Err && is_decode_failure(
                            r->Err_0,
                            cause,
                            old(self)@.path,
                        ),
                    }
                },
            },
    {
        if self.done {
            return Ok(None);
        }
        match response {
            ListResponse::Refused(er) => Err(parse_error(Operation::List, self.path.as_str(), er)),
            ListResponse::Unreadable(words) => Err(
                new_other_object_error(
                    Operation::List,
                    self.path.as_str(),
                    Cause::UnreadableBody,
                    words,
                ),
            ),
            ListResponse::Malformed(words) => Err(
                new_other_object_error(
                    Operation::List,
                    self.path.as_str(),
                    Cause::MalformedResponse,
                    words,
                ),
            ),
            ListResponse::Listing(output) => {
                self.done = !output.is_truncated;
                self.token = match &output.next_continuation_token {
                    Some(t) => Some(owned(t.as_str())),
                    None => None,
                };
                proof {
                    lemma_page_is_faithful(self.root@, output);
                }
                match decode_page(self.root.as_str(), self.path.as_str(), &output) {
                    Ok(entries) => Ok(Some(entries)),
                    Err(e) => Err(e),
                }
            },
        }
    }
}

/// Once a prefix has failed, the whole sequence fails for the same reason.
proof fn lemma_prefixes_fail_on(root: Seq<char>, prefixes: Seq<CommonPrefix>, n: int, cause: Cause)
    requires
        0 <= n <= prefixes.len(),
        decoded_prefixes(root, prefixes.take(n)) == Err::<Seq<ObjectEntryView>, Cause>(cause),
    ensures
        decoded_prefixes(root, prefixes) == Err::<Seq<ObjectEntryView>, Cause>(cause),
    decreases prefixes.len() - n,
{
    if n < prefixes.len() {
        assert(prefixes.drop_last().take(n) =~= prefixes.take(n));
        lemma_prefixes_fail_on(root, prefixes.drop_last(), n, cause);
    } else {
        assert(prefixes.take(n) =~= prefixes);
    }
}

/// Once a content has failed, the whole sequence fails for the same reason.
proof fn lemma_contents_fail_on(
    root: Seq<char>,
    before: Seq<ObjectEntryView>,
    contents: Seq<Content>,
    n: int,
    cause: Cause,
)
    requires
        0 <= n <= contents.len(),
        decoded_contents(root, before, contents.take(n)) == Err::<Seq<ObjectEntryView>, Cause>(
            cause,
        ),
    ensures
        decoded_contents(root, before, contents) == Err::<Seq<ObjectEntryView>, Cause>(cause),
    decreases contents.len() - n,
{
    if n < contents.len() {
        assert(contents.drop_last().take(n) =~= contents.take(n));
        lemma_contents_fail_on(root, before, contents.drop_last(), n, cause);
    } else {
        assert(contents.take(n) =~= contents);
    }
}

} // verus!
