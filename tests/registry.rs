use tapfer::error::TapferError;
use tapfer::file_meta::{FileMeta, FileMetaBuilder, Timestamp};
use tapfer::tapfer_id::TapferId;
use tapfer::upload_fsm::UploadFsm;
use tapfer::upload_pool::{Release, UploadPool};

fn meta(name: &str) -> FileMeta {
    FileMetaBuilder::default().build_at(name.to_owned(), "application/octet-stream".to_owned(), Some(10), Timestamp::from_unix_nanos(0))
}

#[test]
fn begin_registers_an_in_progress_upload() {
    let mut pool = UploadPool::new();
    let id = TapferId::from_id(1);
    let h = pool.handle(id, meta("a"));
    assert_eq!(h.id(), id);
    assert_eq!(h.file_meta().name(), "a");
    assert!(pool.contains(id));
    assert_eq!(pool.len(), 1);
    assert_eq!(pool.state(id), Some(UploadFsm::InProgress { progress: 0 }));
}

#[test]
fn lookup_of_unknown_id_is_none() {
    let mut pool = UploadPool::new();
    assert!(pool.lookup(TapferId::from_id(9)).is_none());
    assert_eq!(pool.len(), 0);
}

#[test]
fn progress_complete_and_failure_through_the_registry() {
    let mut pool = UploadPool::new();
    let id = TapferId::from_id(2);
    let h = pool.handle(id, meta("b"));
    pool.add_progress(&h, 4).unwrap();
    pool.add_progress(&h, 6).unwrap();
    assert_eq!(pool.state(id), Some(UploadFsm::InProgress { progress: 10 }));
    pool.mark_complete(&h);
    assert_eq!(pool.state(id), Some(UploadFsm::Completed));
    assert!(matches!(pool.add_progress(&h, 1), Err(TapferError::UploadHandleSize(UploadFsm::Completed))));
    assert_eq!(pool.state(id), Some(UploadFsm::Completed));
    assert!(pool.mark_failed(id));
    assert_eq!(pool.state(id), Some(UploadFsm::Failed));
    assert!(!pool.mark_failed(TapferId::from_id(77)));
}

#[test]
fn last_release_removes_the_entry() {
    let mut pool = UploadPool::new();
    let id = TapferId::from_id(3);
    let h1 = pool.handle(id, meta("c"));
    let h2 = pool.lookup(id).unwrap();
    assert_eq!(h2.file_meta().name(), "c");
    pool.mark_complete(&h1);
    assert_eq!(pool.release(h1), Release::Retained);
    assert!(pool.contains(id));
    assert_eq!(pool.release(h2), Release::Removed { in_progress: false });
    assert!(!pool.contains(id));
    assert_eq!(pool.len(), 0);
}

#[test]
fn abandoned_in_progress_upload_is_removed_and_reported() {
    let mut pool = UploadPool::new();
    let id = TapferId::from_id(4);
    let h = pool.handle(id, meta("d"));
    assert_eq!(pool.release(h), Release::Removed { in_progress: true });
    assert!(!pool.contains(id));
    assert_eq!(pool.len(), 0);
}

#[test]
fn registry_size_matches_uploads_with_held_handles() {
    let mut pool = UploadPool::new();
    let a = TapferId::from_id(10);
    let b = TapferId::from_id(11);
    let c = TapferId::from_id(12);
    let ha = pool.handle(a, meta("a"));
    let hb = pool.handle(b, meta("b"));
    let hc = pool.handle(c, meta("c"));
    let ha2 = pool.lookup(a).unwrap();
    let hb2 = pool.lookup(b).unwrap();
    assert_eq!(pool.len(), 3);
    assert_eq!(pool.release(ha), Release::Retained);
    assert_eq!(pool.len(), 3);
    assert_eq!(pool.release(hc), Release::Removed { in_progress: true });
    assert_eq!(pool.len(), 2);
    assert_eq!(pool.release(hb), Release::Retained);
    assert_eq!(pool.release(hb2), Release::Removed { in_progress: true });
    assert_eq!(pool.len(), 1);
    assert_eq!(pool.release(ha2), Release::Removed { in_progress: true });
    assert_eq!(pool.len(), 0);
    let again = pool.lookup(a);
    assert!(again.is_none());
}

#[test]
fn releasing_a_handle_twice_over_is_unknown() {
    let mut pool = UploadPool::new();
    let id = TapferId::from_id(5);
    let h = pool.handle(id, meta("e"));
    let h2 = pool.lookup(id).unwrap();
    pool.mark_failed(id);
    assert_eq!(pool.release(h), Release::Retained);
    assert_eq!(pool.release(h2), Release::Removed { in_progress: false });
    let mut other = UploadPool::new();
    let stray = other.handle(id, meta("f"));
    assert_eq!(pool.release(stray), Release::Unknown);
}

#[test]
fn handle_reads_the_registry_state() {
    let mut pool = UploadPool::new();
    let id = TapferId::from_id(20);
    let h = pool.handle(id, meta("g"));
    assert_eq!(h.read_fsm(&pool), Some(UploadFsm::InProgress { progress: 0 }));
    assert!(!h.is_complete(&pool));
    assert_eq!(FileMeta::from_upload_handle(&h).name(), "g");
    pool.mark_complete(&h);
    assert!(h.is_complete(&pool));
    assert_eq!(h.read_fsm(&pool), Some(UploadFsm::Completed));
}
