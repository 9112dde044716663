use vstd::prelude::*;

use crate::file_meta::{FileMeta, Span, Timestamp};
use crate::tapfer_id::TapferId;
use crate::upload_pool::UploadPool;

verus! {

/// The retention rules that hold for every asset.
#[derive(Debug, Clone, Copy, PartialEq, Eq, Structural)]
pub struct GlobalRetentionPolicy {
    /// An asset older than this is deleted.
    pub maximum_age: Span,
    /// How often the assets are checked.
    pub recheck_interval: Span,
}

impl Default for GlobalRetentionPolicy {
    fn default() -> (r: Self)
        ensures
            r.maximum_age.nanos == 24 * 3600 * 1_000_000_000,
            r.recheck_interval.nanos == 60 * 1_000_000_000,
    {
        GlobalRetentionPolicy { maximum_age: Span::hours(24), recheck_interval: Span::seconds(60) }
    }
}

/// An asset created at `created` has expired at `now` once more than its
/// maximum age has passed; at the instant it reaches that age it is kept.
pub open spec fn expired(created: Timestamp, maximum_age: Span, now: Timestamp) -> bool {
    created.unix_nanos + maximum_age.nanos < now.unix_nanos
}

/// Whether an asset has outlived the global maximum age.
pub fn check_against_global_retention(policy: &GlobalRetentionPolicy, meta: &FileMeta, now: Timestamp) -> (r: bool)
    ensures
        r == expired(meta.created, policy.maximum_age, now),
{
    match meta.created.unix_nanos.checked_add(policy.maximum_age.nanos) {
        Some(deadline) => deadline < now.unix_nanos,
        None => policy.maximum_age.nanos < 0,
    }
}

/// What the sweep does with one directory of the asset store.
#[derive(Debug, Clone, Copy, PartialEq, Eq, Structural)]
pub enum SweepAction {
    /// Leave it: not expired, or an upload that is still running.
    Keep,
    /// Delete it: its metadata says it has expired.
    DeleteExpired,
    /// Delete it: it has no readable metadata and no upload is running for it
    /// (a name that is not an asset id names no running upload).
    DeleteOrphaned,
}

/// The sweep's decision for one directory, given its name and its metadata
/// if that could be read.
pub open spec fn sweep_spec(
    pool: UploadPool,
    policy: GlobalRetentionPolicy,
    name: Seq<char>,
    meta: Option<FileMeta>,
    now: Timestamp,
) -> SweepAction {
    match meta {
        Some(m) => if expired(m.created, policy.maximum_age, now) {
            SweepAction::DeleteExpired
        } else {
            SweepAction::Keep
        },
        None => match TapferId::parse_spec(name) {
            None => SweepAction::DeleteOrphaned,
            Some(id) => if pool.has(id) {
                SweepAction::Keep
            } else {
                SweepAction::DeleteOrphaned
            },
        },
    }
}

/// Decides on one directory of the asset store.
pub fn check_asset(
    pool: &UploadPool,
    policy: &GlobalRetentionPolicy,
    name: &str,
    meta: Option<&FileMeta>,
    now: Timestamp,
) -> (r: SweepAction)
    ensures
        r == sweep_spec(*pool, *policy, name@, match meta { Some(m) => Some(*m), None => None }, now),
{
    match meta {
        Some(m) => if check_against_global_retention(policy, m, now) {
            SweepAction::DeleteExpired
        } else {
            SweepAction::Keep
        },
        None => match TapferId::from_str(name) {
            Err(_) => SweepAction::DeleteOrphaned,
            Ok(id) => if pool.contains(id) {
                SweepAction::Keep
            } else {
                SweepAction::DeleteOrphaned
            },
        },
    }
}

/// One directory of the asset store, as the sweep sees it.
#[derive(Debug, Clone)]
pub struct StoredAsset {
    pub name: String,
    /// The metadata, where it could be read and understood.
    pub meta: Option<FileMeta>,
}

/// One pass of the sweep over the directories of the asset store: one
/// decision per directory, each made independently of the others.
pub fn check_all_assets(
    pool: &UploadPool,
    policy: &GlobalRetentionPolicy,
    assets: &Vec<StoredAsset>,
    now: Timestamp,
) -> (r: Vec<SweepAction>)
    ensures
        r@.len() == assets@.len(),
        forall|i: int|
            0 <= i < assets@.len() ==> #[trigger] r@[i] == sweep_spec(
                *pool,
                *policy,
                assets@[i].name@,
                assets@[i].meta,
                now,
            ),
{
    let mut actions: Vec<SweepAction> = Vec::new();
    let mut i: usize = 0;
    while i < assets.len()
        invariant
            i <= assets@.len(),
            actions@.len() == i,
            forall|j: int|
                0 <= j < i ==> #[trigger] actions@[j] == sweep_spec(
                    *pool,
                    *policy,
                    assets@[j].name@,
                    assets@[j].meta,
                    now,
                ),
        decreases assets@.len() - i,
    {
        let asset = &assets[i];
        let action = match &asset.meta {
            Some(m) => check_asset(pool, policy, asset.name.as_str(), Some(m), now),
            None => check_asset(pool, policy, asset.name.as_str(), None, now),
        };
        actions.push(action);
        i = i + 1;
    }
    actions
}

/// A running upload is never deleted by the sweep, even before its metadata
/// exists, and an expired asset with metadata always is.
pub proof fn lemma_sweep_spares_live_uploads(
    pool: UploadPool,
    policy: GlobalRetentionPolicy,
    name: Seq<char>,
    meta: Option<FileMeta>,
    now: Timestamp,
    id: TapferId,
)
    ensures
        (meta is None && TapferId::parse_spec(name) == Some(id) && pool.has(id))
            ==> sweep_spec(pool, policy, name, meta, now) == SweepAction::Keep,
        (meta is Some && expired(meta->Some_0.created, policy.maximum_age, now))
            ==> sweep_spec(pool, policy, name, meta, now) == SweepAction::DeleteExpired,
{
}

} // verus!
