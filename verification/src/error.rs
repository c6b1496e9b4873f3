//! The one taxonomy into which the failures of every backend are mapped.

use vstd::prelude::*;
use crate::ops::Operation;
use crate::text::owned;

verus! {

/// The kinds of failure that callers can tell apart.
#[derive(Debug, Clone, Copy, PartialEq, Eq, Hash, Structural)]
pub enum ErrorKind {
    /// What was asked for is not there.
    NotFound,
    PermissionDenied,
    ConnectionRefused,
    ConnectionReset,
    HostUnreachable,
    NetworkUnreachable,
    ConnectionAborted,
    NotConnected,
    AddrInUse,
    AddrNotAvailable,
    NetworkDown,
    BrokenPipe,
    AlreadyExists,
    /// The backend could not serve the request right now.
    WouldBlock,
    NotADirectory,
    IsADirectory,
    DirectoryNotEmpty,
    ReadOnlyFilesystem,
    StaleNetworkFileHandle,
    InvalidInput,
    InvalidData,
    TimedOut,
    WriteZero,
    StorageFull,
    NotSeekable,
    QuotaExceeded,
    FileTooLarge,
    ResourceBusy,
    ExecutableFileBusy,
    Deadlock,
    CrossesDevices,
    TooManyLinks,
    InvalidFilename,
    ArgumentListTooLong,
    /// The operation was cut short and is safe to try again.
    Interrupted,
    Unsupported,
    UnexpectedEof,
    OutOfMemory,
    /// Anything that has no kind of its own.
    Other,
}

/// A failure as a backend reported it: its kind and its words.
#[derive(Debug, Clone, PartialEq, Eq)]
pub struct IoError {
    pub kind: ErrorKind,
    pub message: String,
}

/// An [`IoError`] with its message as characters.
pub struct IoErrorView {
    pub kind: ErrorKind,
    pub message: Seq<char>,
}

impl View for IoError {
    type V = IoErrorView;

    open spec fn view(&self) -> IoErrorView {
        IoErrorView { kind: self.kind, message: self.message@ }
    }
}

impl IoError {
    pub fn new(kind: ErrorKind, message: &str) -> (r: IoError)
        ensures
            r@ == (IoErrorView { kind, message: message@ }),
    {
        IoError { kind, message: owned(message) }
    }
}

/// Why an operation on an object failed.
#[derive(Debug, Clone, Copy, PartialEq, Eq, Structural)]
pub enum Cause {
    /// The backend failed; the kind is the one it reported, before any
    /// remapping.
    Backend(ErrorKind),
    /// The backend answered with this status instead of success.
    Response(u16),
    /// The path has no directory component to make a parent from.
    MalformedPath,
    /// The answer's body could not be read to its end.
    UnreadableBody,
    /// The answer's body is not what the wire format allows.
    MalformedResponse,
    /// A last-modified value is not a date and time of the expected format.
    MalformedTimestamp,
}

/// A failed operation: which one, on which path, of what kind and why.
#[derive(Debug, Clone, PartialEq, Eq)]
pub struct ObjectError {
    pub kind: ErrorKind,
    pub op: Operation,
    pub path: String,
    pub cause: Cause,
    /// The words of the underlying failure.
    pub message: String,
}

/// An [`ObjectError`] with its texts as characters.
pub struct ObjectErrorView {
    pub kind: ErrorKind,
    pub op: Operation,
    pub path: Seq<char>,
    pub cause: Cause,
    pub message: Seq<char>,
}

impl View for ObjectError {
    type V = ObjectErrorView;

    open spec fn view(&self) -> ObjectErrorView {
        ObjectErrorView {
            kind: self.kind,
            op: self.op,
            path: self.path@,
            cause: self.cause,
            message: self.message@,
        }
    }
}

impl ObjectError {
    /// One line that names the operation, the path and the words of the
    /// underlying failure.
    pub fn describe(&self) -> (r: String)
        ensures
            r@ == "object error: (op: "@ + self.op.spec_name() + ", path: "@ + self.path@
                + ", source: "@ + self.message@ + ")"@,
    {
        let mut out = owned("object error: (op: ");
        out.append(self.op.name());
        out.append(", path: ");
        out.append(self.path.as_str());
        out.append(", source: ");
        out.append(self.message.as_str());
        out.append(")");
        out
    }
}

/// The error of kind [`ErrorKind::Other`] for `op` on `path`.
pub open spec fn other_object_error(
    op: Operation,
    path: Seq<char>,
    cause: Cause,
    message: Seq<char>,
) -> ObjectErrorView {
    ObjectErrorView { kind: ErrorKind::Other, op, path, cause, message }
}

/// An error without a kind of its own, for `op` on `path`.
pub fn new_other_object_error(op: Operation, path: &str, cause: Cause, message: String) -> (r:
    ObjectError)
    ensures
        r@ == other_object_error(op, path@, cause, message@),
{
    ObjectError { kind: ErrorKind::Other, op, path: owned(path), cause, message }
}

/// Why a backend could not be built.
#[derive(Debug, Clone, Copy, PartialEq, Eq, Structural)]
pub enum BuildCause {
    /// The configuration names no endpoint.
    MissingEndpoint,
    /// Connecting to the endpoint failed with this kind.
    Connect(ErrorKind),
    /// Looking whether the root is there failed with this kind, which is not
    /// the one that says that it is absent.
    ProbeRoot(ErrorKind),
    /// The root was absent and making it failed with this kind.
    CreateRoot(ErrorKind),
}

/// A backend that could not be built, with the configuration it was built from.
///
/// The configuration is kept as keys and values in the order in which they
/// were given. No key occurs twice.
#[derive(Debug, PartialEq, Eq)]
pub struct BackendError {
    cause: BuildCause,
    context: Vec<(String, String)>,
    message: String,
}

/// A [`BackendError`] with its texts as characters.
pub struct BackendErrorView {
    pub cause: BuildCause,
    /// Keys and values of the configuration in use.
    pub context: Seq<(Seq<char>, Seq<char>)>,
    /// The words of the underlying failure.
    pub message: Seq<char>,
}

/// Whether no key occurs twice in `context`.
pub open spec fn has_distinct_keys(context: Seq<(Seq<char>, Seq<char>)>) -> bool {
    forall|i: int, j: int|
        0 <= i < j < context.len() ==> (#[trigger] context[i]).0 != (#[trigger] context[j]).0
}

/// Keys and values as characters.
pub open spec fn pairs_view(pairs: Seq<(String, String)>) -> Seq<(Seq<char>, Seq<char>)> {
    Seq::new(pairs.len(), |i: int| (pairs[i].0@, pairs[i].1@))
}

impl View for BackendError {
    type V = BackendErrorView;

    closed spec fn view(&self) -> BackendErrorView {
        BackendErrorView {
            cause: self.cause,
            context: pairs_view(self.context@),
            message: self.message@,
        }
    }
}

impl BackendError {
    #[verifier::type_invariant]
    spec fn keyed(&self) -> bool {
        has_distinct_keys(pairs_view(self.context@))
    }

    /// Every failure to build is of kind [`ErrorKind::Other`].
    pub fn kind(&self) -> (r: ErrorKind)
        ensures
            r == ErrorKind::Other,
    {
        ErrorKind::Other
    }

    /// Why the backend could not be built.
    pub fn cause(&self) -> (r: BuildCause)
        ensures
            r == self@.cause,
    {
        self.cause
    }

    /// Keys and values of the configuration in use, each key once.
    pub fn context(&self) -> (r: &Vec<(String, String)>)
        ensures
            pairs_view(r@) == self@.context,
            has_distinct_keys(self@.context),
    {
        proof {
            use_type_invariant(self);
        }
        &self.context
    }

    /// The words of the underlying failure.
    pub fn message(&self) -> (r: &str)
        ensures
            r@ == self@.message,
    {
        self.message.as_str()
    }
}

/// An error for a backend that could not be built. The context stands for a
/// map from keys to values: no key may occur twice in it.
pub fn new_other_backend_error(context: Vec<(String, String)>, cause: BuildCause, message: String) -> (r:
    BackendError)
    requires
        has_distinct_keys(pairs_view(context@)),
    ensures
        r@ == (BackendErrorView { cause, context: pairs_view(context@), message: message@ }),
        has_distinct_keys(r@.context),
{
    BackendError { cause, context, message }
}

} // verus!
