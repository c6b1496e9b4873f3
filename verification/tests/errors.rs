use opendal::error::{new_other_backend_error, new_other_object_error};
use opendal::services::oss::error::{is_success, parse_error, ErrorResponse};
use opendal::{BuildCause, Cause, ErrorKind, IoError, ObjectError, Operation};

#[test]
fn operations_have_names() {
    assert_eq!(Operation::Create.name(), "create");
    assert_eq!(Operation::Read.name(), "read");
    assert_eq!(Operation::Write.name(), "write");
    assert_eq!(Operation::Stat.name(), "stat");
    assert_eq!(Operation::Delete.name(), "delete");
    assert_eq!(Operation::List.name(), "list");
}

#[test]
fn io_error_holds_kind_and_words() {
    let e = IoError::new(ErrorKind::TimedOut, "too slow");
    assert_eq!(e.kind, ErrorKind::TimedOut);
    assert_eq!(e.message, "too slow");
}

#[test]
fn other_object_error_names_operation_and_path() {
    let e = new_other_object_error(
        Operation::List,
        "dir/",
        Cause::MalformedResponse,
        "unexpected end".to_string(),
    );
    assert_eq!(
        e,
        ObjectError {
            kind: ErrorKind::Other,
            op: Operation::List,
            path: "dir/".to_string(),
            cause: Cause::MalformedResponse,
            message: "unexpected end".to_string(),
        }
    );
}

#[test]
fn description_names_operation_path_and_cause() {
    let e = new_other_object_error(
        Operation::Stat,
        "a/b",
        Cause::Backend(ErrorKind::Other),
        "disk on fire".to_string(),
    );
    assert_eq!(e.describe(), "object error: (op: stat, path: a/b, source: disk on fire)");
    let e = parse_error(
        Operation::List,
        "",
        ErrorResponse { status: 500, body: String::new() },
    );
    assert_eq!(e.describe(), "object error: (op: list, path: , source: )");
}

#[test]
fn other_backend_error_keeps_its_context() {
    let context = vec![("root".to_string(), "/".to_string())];
    let e = new_other_backend_error(
        context.clone(),
        BuildCause::Connect(ErrorKind::TimedOut),
        "too slow".to_string(),
    );
    assert_eq!(e.kind(), ErrorKind::Other);
    assert_eq!(e.cause(), BuildCause::Connect(ErrorKind::TimedOut));
    assert_eq!(*e.context(), context);
    assert_eq!(e.message(), "too slow");
}

#[test]
fn only_200_is_success() {
    assert!(is_success(200));
    assert!(!is_success(0));
    assert!(!is_success(199));
    assert!(!is_success(201));
    assert!(!is_success(204));
    assert!(!is_success(404));
    assert!(!is_success(u16::MAX));
}

#[test]
fn refused_response_keeps_status_and_body() {
    let e = parse_error(
        Operation::List,
        "dir/",
        ErrorResponse { status: 404, body: "<Error>NoSuchBucket</Error>".to_string() },
    );
    assert_eq!(e.kind, ErrorKind::NotFound);
    assert_eq!(e.op, Operation::List);
    assert_eq!(e.path, "dir/");
    assert_eq!(e.cause, Cause::Response(404));
    assert_eq!(e.message, "<Error>NoSuchBucket</Error>");
}
