use tapfer::file_meta::{FileMeta, FileMetaBuilder, Span, Timestamp};
use tapfer::retention_control::{check_against_global_retention, check_all_assets, check_asset, GlobalRetentionPolicy, StoredAsset, SweepAction};
use tapfer::tapfer_id::TapferId;
use tapfer::upload_pool::UploadPool;

const HOUR: i128 = 3_600_000_000_000;
const NOW: i128 = 1_750_000_000 * 1_000_000_000;

fn created_at(nanos: i128) -> FileMeta {
    FileMetaBuilder::default().build_at("f".to_owned(), "text/plain".to_owned(), Some(1), Timestamp::from_unix_nanos(nanos))
}

#[test]
fn default_policy_is_a_day_checked_every_minute() {
    let p = GlobalRetentionPolicy::default();
    assert_eq!(p.maximum_age, Span::hours(24));
    assert_eq!(p.recheck_interval, Span::seconds(60));
}

#[test]
fn expiry_sweep_deletes_old_and_keeps_young_assets() {
    let pool = UploadPool::new();
    let policy = GlobalRetentionPolicy::default();
    let now = Timestamp::from_unix_nanos(NOW);
    let old = TapferId::from_id(1).to_text();
    let young = TapferId::from_id(2).to_text();
    let assets = vec![
        StoredAsset { name: old, meta: Some(created_at(NOW - 25 * HOUR)) },
        StoredAsset { name: young, meta: Some(created_at(NOW - HOUR)) },
    ];
    let actions = check_all_assets(&pool, &policy, &assets, now);
    assert_eq!(actions, vec![SweepAction::DeleteExpired, SweepAction::Keep]);
}

#[test]
fn expiry_boundary() {
    let policy = GlobalRetentionPolicy::default();
    let now = Timestamp::from_unix_nanos(NOW);
    assert!(check_against_global_retention(&policy, &created_at(NOW - 24 * HOUR - 1), now));
    assert!(!check_against_global_retention(&policy, &created_at(NOW - 24 * HOUR), now));
    assert!(!check_against_global_retention(&policy, &created_at(NOW - 24 * HOUR + 1), now));
    assert!(!check_against_global_retention(&policy, &created_at(i128::MAX), now));
}

#[test]
fn live_upload_survives_the_sweep() {
    let mut pool = UploadPool::new();
    let policy = GlobalRetentionPolicy::default();
    let id = TapferId::from_id(3);
    let _h = pool.handle(id, created_at(NOW));
    let action = check_asset(&pool, &policy, &id.to_text(), None, Timestamp::from_unix_nanos(NOW + 48 * HOUR));
    assert_eq!(action, SweepAction::Keep);
}

#[test]
fn orphans_and_bad_names() {
    let pool = UploadPool::new();
    let policy = GlobalRetentionPolicy::default();
    let now = Timestamp::from_unix_nanos(NOW);
    let assets = vec![
        StoredAsset { name: "lost+found".to_owned(), meta: None },
        StoredAsset { name: TapferId::from_id(4).to_text(), meta: None },
        StoredAsset { name: TapferId::from_id(5).to_text(), meta: Some(created_at(NOW)) },
    ];
    let actions = check_all_assets(&pool, &policy, &assets, now);
    assert_eq!(actions, vec![SweepAction::DeleteOrphaned, SweepAction::DeleteOrphaned, SweepAction::Keep]);
}
