use cairo_context::{check_status, Status};

#[test]
fn success_passes_the_check() {
    assert_eq!(check_status(Status::Success), Ok(()));
    assert!(Status::Success.is_success());
}

#[test]
fn every_error_status_fails_the_check_with_itself() {
    for code in 1..45 {
        let status = Status::from_raw(code).unwrap();
        assert!(!status.is_success());
        assert_eq!(check_status(status), Err(status));
    }
}

#[test]
fn invalid_dash_and_restore_errors_are_reported() {
    assert_eq!(check_status(Status::InvalidDash), Err(Status::InvalidDash));
    assert_eq!(check_status(Status::InvalidRestore), Err(Status::InvalidRestore));
    assert_eq!(check_status(Status::InvalidPopGroup), Err(Status::InvalidPopGroup));
    assert_eq!(check_status(Status::NoCurrentPoint), Err(Status::NoCurrentPoint));
    assert_eq!(check_status(Status::ClipNotRepresentable), Err(Status::ClipNotRepresentable));
}

#[test]
fn status_codes_follow_cairo_numbering() {
    assert_eq!(Status::Success.to_raw(), 0);
    assert_eq!(Status::NoMemory.to_raw(), 1);
    assert_eq!(Status::InvalidRestore.to_raw(), 2);
    assert_eq!(Status::InvalidPopGroup.to_raw(), 3);
    assert_eq!(Status::InvalidDash.to_raw(), 19);
    assert_eq!(Status::ClipNotRepresentable.to_raw(), 22);
    assert_eq!(Status::DwriteError.to_raw(), 43);
    assert_eq!(Status::LastStatus.to_raw(), 44);
    assert_eq!(Status::from_raw(19), Some(Status::InvalidDash));
}

#[test]
fn status_codes_round_trip() {
    for code in 0..45 {
        let status = Status::from_raw(code).unwrap();
        assert_eq!(status.to_raw(), code);
        assert_eq!(Status::from_raw(status.to_raw()), Some(status));
    }
}

#[test]
fn unknown_status_codes_are_refused() {
    assert_eq!(Status::from_raw(-1), None);
    assert_eq!(Status::from_raw(45), None);
    assert_eq!(Status::from_raw(i32::MAX), None);
    assert_eq!(Status::from_raw(i32::MIN), None);
}
