use std::io::{Error, ErrorKind};
use wasi_types::ErrNo;

#[test]
fn not_found_would_block_and_broken_pipe() {
    assert_eq!(ErrNo::from_kind(ErrorKind::NotFound), ErrNo::NoEnt);
    assert_eq!(ErrNo::from_kind(ErrorKind::WouldBlock), ErrNo::Again);
    assert_eq!(ErrNo::from_kind(ErrorKind::BrokenPipe), ErrNo::Pipe);
    assert_eq!(ErrNo::from_kind(ErrorKind::Other), ErrNo::Io);
}

#[test]
fn every_named_category_has_its_code() {
    assert_eq!(ErrNo::from_kind(ErrorKind::PermissionDenied), ErrNo::Access);
    assert_eq!(ErrNo::from_kind(ErrorKind::ConnectionRefused), ErrNo::ConnRefused);
    assert_eq!(ErrNo::from_kind(ErrorKind::ConnectionReset), ErrNo::ConnReset);
    assert_eq!(ErrNo::from_kind(ErrorKind::ConnectionAborted), ErrNo::ConnAborted);
    assert_eq!(ErrNo::from_kind(ErrorKind::NotConnected), ErrNo::NotConn);
    assert_eq!(ErrNo::from_kind(ErrorKind::AddrInUse), ErrNo::AddrInUse);
    assert_eq!(ErrNo::from_kind(ErrorKind::AddrNotAvailable), ErrNo::AddrNotAvail);
    assert_eq!(ErrNo::from_kind(ErrorKind::AlreadyExists), ErrNo::Exist);
    assert_eq!(ErrNo::from_kind(ErrorKind::InvalidInput), ErrNo::Inval);
    assert_eq!(ErrNo::from_kind(ErrorKind::InvalidData), ErrNo::Inval);
    assert_eq!(ErrNo::from_kind(ErrorKind::TimedOut), ErrNo::TimedOut);
    assert_eq!(ErrNo::from_kind(ErrorKind::Interrupted), ErrNo::Intr);
}

#[test]
fn categories_without_a_row_collapse_to_io() {
    assert_eq!(ErrNo::from_kind(ErrorKind::WriteZero), ErrNo::Io);
    assert_eq!(ErrNo::from_kind(ErrorKind::UnexpectedEof), ErrNo::Io);
    assert_eq!(ErrNo::from_kind(ErrorKind::Unsupported), ErrNo::Io);
    assert_eq!(ErrNo::from_kind(ErrorKind::OutOfMemory), ErrNo::Io);
}

#[test]
fn host_errors_translate_by_their_category() {
    assert_eq!(ErrNo::from(Error::from(ErrorKind::NotFound)), ErrNo::NoEnt);
    assert_eq!(ErrNo::from(Error::from(ErrorKind::WouldBlock)), ErrNo::Again);
    assert_eq!(ErrNo::from(Error::from(ErrorKind::BrokenPipe)), ErrNo::Pipe);
    assert_eq!(ErrNo::from(Error::new(ErrorKind::Other, "unclassified")), ErrNo::Io);
    assert_eq!(ErrNo::from_io_error(&Error::from(ErrorKind::TimedOut)), ErrNo::TimedOut);
    assert_eq!(ErrNo::from_io_error(&Error::new(ErrorKind::InvalidData, "bad")), ErrNo::Inval);
}

#[test]
fn translation_never_reports_success_or_missing_capability() {
    let kinds = [
        ErrorKind::NotFound,
        ErrorKind::PermissionDenied,
        ErrorKind::ConnectionRefused,
        ErrorKind::ConnectionReset,
        ErrorKind::ConnectionAborted,
        ErrorKind::NotConnected,
        ErrorKind::AddrInUse,
        ErrorKind::AddrNotAvailable,
        ErrorKind::BrokenPipe,
        ErrorKind::AlreadyExists,
        ErrorKind::WouldBlock,
        ErrorKind::InvalidInput,
        ErrorKind::InvalidData,
        ErrorKind::TimedOut,
        ErrorKind::WriteZero,
        ErrorKind::Interrupted,
        ErrorKind::Unsupported,
        ErrorKind::UnexpectedEof,
        ErrorKind::OutOfMemory,
        ErrorKind::Other,
    ];
    for kind in kinds {
        let code = ErrNo::from_kind(kind);
        assert_ne!(code, ErrNo::Success);
        assert_ne!(code, ErrNo::NotCapable);
        assert!(!code.is_success());
    }
}

#[test]
fn success_is_the_only_zero() {
    assert_eq!(ErrNo::Success.to_raw(), 0);
    assert_eq!(u16::from(ErrNo::Success), 0);
    assert!(ErrNo::Success.is_success());
    for raw in 1..77u16 {
        let code = ErrNo::from_raw(raw).unwrap();
        assert_ne!(code, ErrNo::Success);
        assert_ne!(code.to_raw(), 0);
        assert!(!code.is_success());
    }
}

#[test]
fn errno_numbers_round_trip_and_are_distinct() {
    for raw in 0..77u16 {
        let code = ErrNo::from_raw(raw).unwrap();
        assert_eq!(code.to_raw(), raw);
        assert_eq!(ErrNo::try_from(raw), Ok(code));
        for other in 0..77u16 {
            if other != raw {
                assert_ne!(ErrNo::from_raw(other).unwrap(), code);
            }
        }
    }
}

#[test]
fn errno_numbers_are_pinned() {
    assert_eq!(ErrNo::Success.to_raw(), 0);
    assert_eq!(ErrNo::TooBig.to_raw(), 1);
    assert_eq!(ErrNo::Access.to_raw(), 2);
    assert_eq!(ErrNo::AddrInUse.to_raw(), 3);
    assert_eq!(ErrNo::Again.to_raw(), 6);
    assert_eq!(ErrNo::BadF.to_raw(), 8);
    assert_eq!(ErrNo::Exist.to_raw(), 20);
    assert_eq!(ErrNo::Intr.to_raw(), 27);
    assert_eq!(ErrNo::Inval.to_raw(), 28);
    assert_eq!(ErrNo::Io.to_raw(), 29);
    assert_eq!(ErrNo::NoEnt.to_raw(), 44);
    assert_eq!(ErrNo::NoSys.to_raw(), 52);
    assert_eq!(ErrNo::NotConn.to_raw(), 53);
    assert_eq!(ErrNo::Perm.to_raw(), 63);
    assert_eq!(ErrNo::Pipe.to_raw(), 64);
    assert_eq!(ErrNo::TimedOut.to_raw(), 73);
    assert_eq!(ErrNo::XDev.to_raw(), 75);
    assert_eq!(ErrNo::NotCapable.to_raw(), 76);
}

#[test]
fn errno_rejects_numbers_past_the_last_variant() {
    assert_eq!(ErrNo::from_raw(77), None);
    assert_eq!(ErrNo::from_raw(78), None);
    assert_eq!(ErrNo::from_raw(u16::MAX), None);
    assert_eq!(ErrNo::try_from(77u16), Err(()));
}

#[test]
fn host_errors_of_every_listed_category() {
    let rows = [
        (ErrorKind::NotFound, ErrNo::NoEnt),
        (ErrorKind::PermissionDenied, ErrNo::Access),
        (ErrorKind::ConnectionRefused, ErrNo::ConnRefused),
        (ErrorKind::ConnectionReset, ErrNo::ConnReset),
        (ErrorKind::ConnectionAborted, ErrNo::ConnAborted),
        (ErrorKind::NotConnected, ErrNo::NotConn),
        (ErrorKind::AddrInUse, ErrNo::AddrInUse),
        (ErrorKind::AddrNotAvailable, ErrNo::AddrNotAvail),
        (ErrorKind::BrokenPipe, ErrNo::Pipe),
        (ErrorKind::AlreadyExists, ErrNo::Exist),
        (ErrorKind::WouldBlock, ErrNo::Again),
        (ErrorKind::InvalidInput, ErrNo::Inval),
        (ErrorKind::InvalidData, ErrNo::Inval),
        (ErrorKind::TimedOut, ErrNo::TimedOut),
        (ErrorKind::Interrupted, ErrNo::Intr),
    ];
    for (kind, code) in rows {
        assert_eq!(ErrNo::from(Error::from(kind)), code);
        assert_eq!(ErrNo::from_io_error(&Error::new(kind, "host")), code);
    }
}

#[test]
fn host_errors_of_unlisted_categories_are_io() {
    let unlisted = [
        ErrorKind::WriteZero,
        ErrorKind::UnexpectedEof,
        ErrorKind::Unsupported,
        ErrorKind::OutOfMemory,
        ErrorKind::Other,
    ];
    for kind in unlisted {
        assert_eq!(ErrNo::from(Error::from(kind)), ErrNo::Io);
        assert_eq!(ErrNo::from_io_error(&Error::new(kind, "host")), ErrNo::Io);
    }
}

#[test]
fn host_errors_made_from_a_system_code_go_by_their_category() {
    let err = Error::from_raw_os_error(2);
    let kind = err.kind();
    assert_eq!(ErrNo::from(err), ErrNo::from_kind(kind));
}
