use memcached::proto::{Error, ErrorKind, ProtoType, Status};

fn all_statuses() -> Vec<(Status, u16, &'static str)> {
    vec![
        (Status::NoError, 0x0000, "no error"),
        (Status::KeyNotFound, 0x0001, "key not found"),
        (Status::KeyExists, 0x0002, "key exists"),
        (Status::ValueTooLarge, 0x0003, "value too large"),
        (Status::InvalidArguments, 0x0004, "invalid argument"),
        (Status::ItemNotStored, 0x0005, "item not stored"),
        (Status::IncrDecrOnNonNumericValue, 0x0006, "incr or decr on non-numeric value"),
        (Status::VBucketBelongsToOtherServer, 0x0007, "vbucket belongs to other server"),
        (Status::AuthenticationError, 0x0008, "authentication error"),
        (Status::AuthenticationContinue, 0x0009, "authentication continue"),
        (Status::UnknownCommand, 0x0081, "unknown command"),
        (Status::OutOfMemory, 0x0082, "out of memory"),
        (Status::NotSupported, 0x0083, "not supported"),
        (Status::InternalError, 0x0084, "internal error"),
        (Status::Busy, 0x0085, "busy"),
        (Status::TemporaryFailure, 0x0086, "temporary failure"),
    ]
}

#[test]
fn status_codes_are_the_protocol_values() {
    for (status, code, _) in all_statuses() {
        assert_eq!(status.code(), code);
    }
}

#[test]
fn status_code_round_trip() {
    for (status, code, _) in all_statuses() {
        assert_eq!(Status::from_code(status.code()), Some(status));
        assert_eq!(Status::from_code(code), Some(status));
    }
}

#[test]
fn status_from_undefined_code_is_absent() {
    let defined: Vec<u16> = all_statuses().iter().map(|entry| entry.1).collect();
    for code in 0..=u16::MAX {
        if defined.contains(&code) {
            assert!(Status::from_code(code).is_some());
        } else {
            assert_eq!(Status::from_code(code), None);
        }
    }
}

#[test]
fn status_descriptions() {
    for (status, _, desc) in all_statuses() {
        assert_eq!(status.desc(), desc);
    }
}

#[test]
fn error_new_keeps_its_parts() {
    let e = Error::new(
        ErrorKind::MemCachedError(Status::KeyExists),
        "key exists",
        Some("Data exists for key.".to_string()),
    );
    assert_eq!(e.kind, ErrorKind::MemCachedError(Status::KeyExists));
    assert_eq!(e.desc, "key exists");
    assert_eq!(e.detail, Some("Data exists for key.".to_string()));
}

#[test]
fn error_message_is_the_detail_if_present() {
    let e = Error::new(ErrorKind::OtherError, "short", Some("the long story".to_string()));
    assert_eq!(e.message(), "the long story");
}

#[test]
fn error_message_is_the_description_without_detail() {
    let e = Error::new(ErrorKind::IoError(std::io::ErrorKind::BrokenPipe), "transport failed", None);
    assert_eq!(e.message(), "transport failed");
    assert_eq!(e.kind, ErrorKind::IoError(std::io::ErrorKind::BrokenPipe));
}

#[test]
fn error_clone_is_equal() {
    let e = Error::new(ErrorKind::MalformedFrame, "bad magic byte", None);
    assert_eq!(e.clone(), e);
}

#[test]
fn proto_type_has_the_binary_protocol() {
    assert_eq!(ProtoType::Binary, ProtoType::Binary);
}
