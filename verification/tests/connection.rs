use xcbwm::connection::{connection_status, grab_succeeded, pointer_grab_mask};
use xcbwm::result::{request_outcome, Error};

#[test]
fn open_status_success() {
    assert_eq!(connection_status(0), Ok(()));
}

#[test]
fn open_status_documented_closure_codes() {
    assert_eq!(connection_status(1), Err(Error::ConnectionFailed));
    assert_eq!(connection_status(2), Err(Error::UnsupportedExtension));
    assert_eq!(connection_status(3), Err(Error::InsufficientMemory));
    assert_eq!(connection_status(4), Err(Error::RequestLengthExceeded));
    assert_eq!(connection_status(5), Err(Error::DisplayParseError));
    assert_eq!(connection_status(6), Err(Error::InvalidScreen));
}

#[test]
fn open_status_other_codes_are_preserved() {
    assert_eq!(connection_status(7), Err(Error::UnknownError(7)));
    assert_eq!(connection_status(42), Err(Error::UnknownError(42)));
    assert_eq!(connection_status(u32::MAX), Err(Error::UnknownError(u32::MAX)));
}

#[test]
fn open_against_server_reporting_memory_exhaustion_fails() {
    // A server whose open handshake reports closure code 3 must surface
    // as insufficient memory.
    let reported_code: u32 = 3;
    assert_eq!(connection_status(reported_code), Err(Error::InsufficientMemory));
}

#[test]
fn grab_reply_status_zero_is_success() {
    assert!(grab_succeeded(0));
    assert!(!grab_succeeded(1));
    assert!(!grab_succeeded(2));
    assert!(!grab_succeeded(255));
}

#[test]
fn pointer_grab_selects_motion_and_release() {
    // PointerMotion (64) | ButtonRelease (8)
    assert_eq!(pointer_grab_mask(), 72);
}

#[test]
fn request_outcome_success_and_error() {
    assert_eq!(request_outcome(None), Ok(()));
    // A BadAccess-coded asynchronous error (code 10) keeps its code, as
    // when the root's event mask is already claimed by another manager.
    assert_eq!(request_outcome(Some(10)), Err(Error::UnknownError(10)));
    assert_eq!(request_outcome(Some(3)), Err(Error::UnknownError(3)));
}
