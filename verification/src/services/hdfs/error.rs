//! How the failures of the file-system client are normalized.

use vstd::prelude::*;
use crate::error::{Cause, ErrorKind, IoError, IoErrorView, ObjectError, ObjectErrorView};
use crate::ops::Operation;
use crate::text::owned;

verus! {

/// The kind under which a backend failure of kind `kind` is surfaced: a
/// backend that would block is always to be tried again.
pub open spec fn surfaced_kind(kind: ErrorKind) -> ErrorKind {
    if kind == ErrorKind::WouldBlock {
        ErrorKind::Interrupted
    } else {
        kind
    }
}

/// What [`parse_io_error`] makes of `err`.
pub open spec fn parsed_io_error(err: IoErrorView, op: Operation, path: Seq<char>) -> ObjectErrorView {
    ObjectErrorView {
        kind: surfaced_kind(err.kind),
        op,
        path,
        cause: Cause::Backend(err.kind),
        message: err.message,
    }
}

/// Wraps a failure of the backend into the error of operation `op` on `path`.
/// The failure is kept as it was reported; only the kind under which it is
/// surfaced may differ.
pub fn parse_io_error(err: IoError, op: Operation, path: &str) -> (r: ObjectError)
    ensures
        r@ == parsed_io_error(err@, op, path@),
        r.kind != ErrorKind::WouldBlock,
        err.kind == ErrorKind::WouldBlock ==> r.kind == ErrorKind::Interrupted,
{
    let kind = match err.kind {
        ErrorKind::WouldBlock => ErrorKind::Interrupted,
        v => v,
    };
    ObjectError { kind, op, path: owned(path), cause: Cause::Backend(err.kind), message: err.message }
}

/// Whatever the operation and the path: a backend that would block is
/// surfaced as interrupted, never as blocked and never as anything final, and
/// every other failure keeps its kind.
pub proof fn lemma_would_block_is_retried(err: IoErrorView, op: Operation, path: Seq<char>)
    ensures
        parsed_io_error(err, op, path).kind != ErrorKind::WouldBlock,
        err.kind == ErrorKind::WouldBlock ==> parsed_io_error(err, op, path).kind
            == ErrorKind::Interrupted,
        err.kind != ErrorKind::WouldBlock ==> parsed_io_error(err, op, path).kind == err.kind,
{
}

} // verus!
