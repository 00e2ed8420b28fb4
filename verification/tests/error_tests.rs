use kolibri_pal::common::{unsupported, unsupported_err};
use kolibri_pal::io_error::{ErrorKind, IoError, decode_error_kind, errno, error_string, is_interrupted};
use kolibri_pal::kos_error::{Error, NetworkError};

#[test]
fn known_statuses_decode_to_their_kinds() {
    assert_eq!(decode_error_kind(2), ErrorKind::Unsupported);
    assert_eq!(decode_error_kind(3), ErrorKind::Other);
    assert_eq!(decode_error_kind(5), ErrorKind::NotFound);
    assert_eq!(decode_error_kind(6), ErrorKind::UnexpectedEof);
    assert_eq!(decode_error_kind(7), ErrorKind::InvalidData);
    assert_eq!(decode_error_kind(8), ErrorKind::StorageFull);
    assert_eq!(decode_error_kind(9), ErrorKind::Other);
    assert_eq!(decode_error_kind(10), ErrorKind::PermissionDenied);
    assert_eq!(decode_error_kind(11), ErrorKind::InputOutputError);
    assert_eq!(decode_error_kind(12), ErrorKind::OutOfMemory);
    assert_eq!(decode_error_kind(30), ErrorKind::OutOfMemory);
    assert_eq!(decode_error_kind(31), ErrorKind::InvalidData);
    assert_eq!(decode_error_kind(32), ErrorKind::Other);
}

#[test]
fn io_error_kinds() {
    assert_eq!(IoError::from_raw_os_error(5).kind(), ErrorKind::NotFound);
    assert_eq!(IoError::from_kind(ErrorKind::StorageFull).kind(), ErrorKind::StorageFull);
    assert_eq!(IoError::UnsupportedPlatform.kind(), ErrorKind::Unsupported);
    assert_eq!(IoError::ReadExactEof.kind(), ErrorKind::UnexpectedEof);
    assert_eq!(IoError::from_raw_os_error(11).raw_os_error(), Some(11));
    assert_eq!(IoError::from_kind(ErrorKind::Other).raw_os_error(), None);
}

#[test]
fn errno_and_interrupts() {
    assert_eq!(errno(), 0);
    assert!(!is_interrupted(4));
}

#[test]
fn error_string_shows_the_status() {
    assert_eq!(error_string(5), "Status: 5");
    assert_eq!(error_string(-3), "Status: -3");
    assert_eq!(error_string(1234), "Status: 1234");
}

#[test]
fn unsupported_is_the_platform_error() {
    assert_eq!(unsupported_err(), IoError::UnsupportedPlatform);
    let r: Result<u32, IoError> = unsupported();
    assert_eq!(r, Err(IoError::UnsupportedPlatform));
}

#[test]
fn filesystem_errors_have_their_codes_and_kinds() {
    let all = [
        (Error::Unsupported, 2, ErrorKind::Unsupported),
        (Error::UnknownFilesystem, 3, ErrorKind::Other),
        (Error::NotFound, 5, ErrorKind::NotFound),
        (Error::FileEof, 6, ErrorKind::UnexpectedEof),
        (Error::InvalidMemory, 7, ErrorKind::InvalidData),
        (Error::StorageFull, 8, ErrorKind::StorageFull),
        (Error::Filesystem, 9, ErrorKind::Other),
        (Error::PermissionDenied, 10, ErrorKind::PermissionDenied),
        (Error::Io, 11, ErrorKind::InputOutputError),
        (Error::FilesystemOutOfRam, 12, ErrorKind::OutOfMemory),
        (Error::OutOfMemory, 30, ErrorKind::OutOfMemory),
        (Error::FileNotAnExec, 31, ErrorKind::InvalidData),
        (Error::TooManyProcesses, 32, ErrorKind::Other),
    ];
    for (e, code, kind) in all {
        assert_eq!(e.code(), code);
        assert_eq!(e.into_io_errorkind(), kind);
        assert_eq!(Error::from_code(code), Some(e));
    }
    assert_eq!(Error::from_code(0), None);
    assert_eq!(Error::from_code(4), None);
    assert_eq!(Error::from_code(33), None);
}

#[test]
fn network_errors_round_trip_through_their_codes() {
    let all = [
        NetworkError::NoBufs,
        NetworkError::InProgress,
        NetworkError::OptionNotSupported,
        NetworkError::WouldBlock,
        NetworkError::NotConnected,
        NetworkError::Already,
        NetworkError::InvalidArgument,
        NetworkError::MessageSize,
        NetworkError::NoMemory,
        NetworkError::AddressInUse,
        NetworkError::AddressNotAvailable,
        NetworkError::ConnectionReset,
        NetworkError::ConnectionAborted,
        NetworkError::IsConnection,
        NetworkError::TimedOut,
        NetworkError::ConnectionRefused,
    ];
    for e in all {
        assert_eq!(NetworkError::from_code(e.code()), Some(e));
    }
    assert_eq!(NetworkError::TimedOut.code(), 60);
    assert_eq!(NetworkError::ConnectionRefused.code(), 61);
    assert_eq!(NetworkError::from_code(3), None);
    assert_eq!(NetworkError::from_code(0), None);
}

#[test]
fn error_string_of_the_extremes() {
    assert_eq!(error_string(0), "Status: 0");
    assert_eq!(error_string(i32::MIN), "Status: -2147483648");
    assert_eq!(error_string(i32::MAX), "Status: 2147483647");
    assert_eq!(error_string(-10), "Status: -10");
}
