use audio_cpp::{check, Error, ErrorKind, Status};

#[test]
fn success_has_no_error_kind() {
    assert_eq!(ErrorKind::from_status(Status::Success), None);
    assert_eq!(ErrorKind::from_status(Status::InvalidArgument), Some(ErrorKind::InvalidArgument));
    assert_eq!(ErrorKind::from_status(Status::NotFound), Some(ErrorKind::NotFound));
    assert_eq!(ErrorKind::from_status(Status::Unsupported), Some(ErrorKind::Unsupported));
    assert_eq!(ErrorKind::from_status(Status::OutOfMemory), Some(ErrorKind::OutOfMemory));
    assert_eq!(ErrorKind::from_status(Status::Runtime), Some(ErrorKind::Runtime));
}

#[test]
fn check_passes_only_success() {
    assert_eq!(check(Status::Success, "ignored"), Ok(()));
    assert_eq!(
        check(Status::NotFound, "no such model"),
        Err(Error::Native { kind: ErrorKind::NotFound, message: "no such model".to_string() })
    );
}

#[test]
fn native_error_of_success_status_is_runtime() {
    assert_eq!(
        Error::native(Status::Success, "odd".to_string()),
        Error::Native { kind: ErrorKind::Runtime, message: "odd".to_string() }
    );
    assert_eq!(
        Error::native(Status::OutOfMemory, "oom".to_string()),
        Error::Native { kind: ErrorKind::OutOfMemory, message: "oom".to_string() }
    );
}

#[test]
fn error_texts_match_display() {
    let native = Error::Native { kind: ErrorKind::InvalidArgument, message: "bad".to_string() };
    assert_eq!(native.text(), "InvalidArgument: bad");
    assert_eq!(Error::Nul(3).text(), "value contains an interior NUL byte");
    assert_eq!(Error::Utf8(1).text(), "native text was not valid UTF-8");
    assert_eq!(Error::InvalidPath("/x".to_string()).text(), "path is not valid Unicode: /x");
    assert_eq!(Error::unsupported("nope").text(), "nope");
    assert_eq!(ErrorKind::OutOfMemory.name(), "OutOfMemory");
}
