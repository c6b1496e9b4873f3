//! How the refusals of the object store are normalized.

use vstd::prelude::*;
use crate::error::{Cause, ErrorKind, ObjectError, ObjectErrorView};
use crate::ops::Operation;
use crate::text::owned;

verus! {

/// An answer of the backend that is not a success: its status and its body.
#[derive(Debug, Clone, PartialEq, Eq)]
pub struct ErrorResponse {
    pub status: u16,
    pub body: String,
}

/// An [`ErrorResponse`] with its body as characters.
pub struct ErrorResponseView {
    pub status: u16,
    pub body: Seq<char>,
}

impl View for ErrorResponse {
    type V = ErrorResponseView;

    open spec fn view(&self) -> ErrorResponseView {
        ErrorResponseView { status: self.status, body: self.body@ }
    }
}

/// Whether `status` is the one success that a listing knows: 200.
pub fn is_success(status: u16) -> (r: bool)
    ensures
        r == (status == 200),
{
    status == 200
}

/// The kind that a status stands for: absent, forbidden, unavailable for the
/// moment, or none of these.
pub open spec fn status_kind(status: u16) -> ErrorKind {
    if status == 404 {
        ErrorKind::NotFound
    } else if status == 403 {
        ErrorKind::PermissionDenied
    } else if status == 500 || status == 502 || status == 503 || status == 504 {
        ErrorKind::Interrupted
    } else {
        ErrorKind::Other
    }
}

/// What [`parse_error`] makes of `er`.
pub open spec fn parsed_error(op: Operation, path: Seq<char>, er: ErrorResponseView) -> ObjectErrorView {
    ObjectErrorView {
        kind: status_kind(er.status),
        op,
        path,
        cause: Cause::Response(er.status),
        message: er.body,
    }
}

/// Wraps an answer that is not a success into the error of operation `op` on
/// `path`. The body becomes the error's message.
pub fn parse_error(op: Operation, path: &str, er: ErrorResponse) -> (r: ObjectError)
    ensures
        r@ == parsed_error(op, path@, er@),
{
    let status = er.status;
    let kind = if status == 404 {
        ErrorKind::NotFound
    } else if status == 403 {
        ErrorKind::PermissionDenied
    } else if status == 500 || status == 502 || status == 503 || status == 504 {
        ErrorKind::Interrupted
    } else {
        ErrorKind::Other
    };
    ObjectError { kind, op, path: owned(path), cause: Cause::Response(status), message: er.body }
}

} // verus!
