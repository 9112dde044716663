use tapfer::error::TapferError;
use tapfer::upload_fsm::UploadFsm;

#[test]
fn initial_state_is_in_progress_at_zero() {
    let s = UploadFsm::initial();
    assert_eq!(s, UploadFsm::InProgress { progress: 0 });
    assert_eq!(s.get_progress(), Some(0));
    assert!(!s.is_complete());
}

#[test]
fn add_progress_accumulates() {
    let mut s = UploadFsm::initial();
    assert!(s.add_progress(10).is_ok());
    assert!(s.add_progress(32).is_ok());
    assert_eq!(s.get_progress(), Some(42));
}

#[test]
fn progress_never_decreases_over_a_sequence() {
    let mut s = UploadFsm::initial();
    let mut last = 0u64;
    for n in [0u64, 5, 1, 0, 1000, 7] {
        s.add_progress(n).unwrap();
        let now = s.get_progress().unwrap();
        assert!(now >= last);
        last = now;
    }
    assert_eq!(last, 1013);
}

#[test]
fn add_progress_after_complete_is_an_error_and_changes_nothing() {
    let mut s = UploadFsm::initial();
    s.add_progress(3).unwrap();
    s.mark_complete();
    match s.add_progress(5) {
        Err(TapferError::UploadHandleSize(state)) => assert_eq!(state, UploadFsm::Completed),
        other => panic!("unexpected {other:?}"),
    }
    assert_eq!(s, UploadFsm::Completed);
    assert!(s.is_complete());
    assert_eq!(s.get_progress(), None);
}

#[test]
fn add_progress_after_failure_is_an_error_and_changes_nothing() {
    let mut s = UploadFsm::initial();
    s.mark_failed();
    match s.add_progress(1) {
        Err(TapferError::UploadHandleSize(state)) => assert_eq!(state, UploadFsm::Failed),
        other => panic!("unexpected {other:?}"),
    }
    assert_eq!(s, UploadFsm::Failed);
    assert!(s.is_failed());
}

#[test]
fn status_codes_of_errors() {
    assert_eq!(TapferError::AssetNotFound.status_code(), 404);
    assert_eq!(TapferError::AssetAborted.status_code(), 410);
    assert_eq!(TapferError::TokenDoesNotExist(7).status_code(), 404);
    assert_eq!(TapferError::InvalidId.status_code(), 500);
    let custom = TapferError::Custom { status_code: 418, body: "teapot".to_owned() };
    assert_eq!(custom.status_code(), 418);
}

#[test]
fn progress_reaches_the_largest_size() {
    let mut s = UploadFsm::initial();
    s.add_progress(u64::MAX - 1).unwrap();
    s.add_progress(1).unwrap();
    assert_eq!(s.get_progress(), Some(u64::MAX));
    s.add_progress(0).unwrap();
    assert_eq!(s.get_progress(), Some(u64::MAX));
}
