//! Laws of the coordination engine, stated and proved over the registry
//! model: the registry never tracks one device path twice, however the
//! add and remove events interleave, and a second removal of the same path
//! is a no-op.

use crate::coordinator::{add_step, remove_step};
use crate::registry::{
    has_path, lemma_push_keeps_paths_unique, lemma_swap_remove_drops_path,
    lemma_swap_remove_keeps_paths_unique, path_index, paths_unique, EntryModel,
};
use vstd::prelude::*;

verus! {

/// A registry-affecting event, at the model level: a device whose mount
/// succeeded (with the notification id recorded for it), or a device that
/// disappeared.
pub enum DeviceEvent {
    Added { path: Seq<char>, mount_point: Seq<char>, notification_id: u32 },
    Removed { path: Seq<char> },
}

/// How one event changes the registry.
pub open spec fn step(s: Seq<EntryModel>, ev: DeviceEvent) -> Seq<EntryModel> {
    match ev {
        DeviceEvent::Added { path, mount_point, notification_id } => add_step(
            s,
            path,
            mount_point,
            notification_id,
        ),
        DeviceEvent::Removed { path } => remove_step(s, path),
    }
}

/// The registry after a sequence of events, processed one at a time.
pub open spec fn run_events(s: Seq<EntryModel>, evs: Seq<DeviceEvent>) -> Seq<EntryModel>
    decreases evs.len(),
{
    if evs.len() == 0 {
        s
    } else {
        run_events(step(s, evs[0]), evs.drop_first())
    }
}

/// One event keeps the device paths pairwise distinct.
pub proof fn lemma_step_keeps_paths_unique(s: Seq<EntryModel>, ev: DeviceEvent)
    requires
        paths_unique(s),
    ensures
        paths_unique(step(s, ev)),
{
    match ev {
        DeviceEvent::Added { path, mount_point, notification_id } => {
            if !has_path(s, path) {
                lemma_push_keeps_paths_unique(
                    s,
                    EntryModel { device_path: path, mount_point, notification_id },
                );
            }
        },
        DeviceEvent::Removed { path } => {
            if has_path(s, path) {
                lemma_swap_remove_keeps_paths_unique(s, path_index(s, path));
            }
        },
    }
}

/// Every sequence of events keeps the device paths pairwise distinct.
pub proof fn lemma_run_keeps_paths_unique(s: Seq<EntryModel>, evs: Seq<DeviceEvent>)
    requires
        paths_unique(s),
    ensures
        paths_unique(run_events(s, evs)),
    decreases evs.len(),
{
    if evs.len() > 0 {
        lemma_step_keeps_paths_unique(s, evs[0]);
        lemma_run_keeps_paths_unique(step(s, evs[0]), evs.drop_first());
    }
}

/// Uniqueness: whatever sequence of add and remove events reaches the
/// registry, it never holds two entries with the same device path.
pub proof fn lemma_registry_paths_unique(evs: Seq<DeviceEvent>)
    ensures
        paths_unique(run_events(Seq::<EntryModel>::empty(), evs)),
{
    lemma_run_keeps_paths_unique(Seq::<EntryModel>::empty(), evs);
}

/// Idempotent removal: the first removal event for a path drops exactly its
/// entry — after it the path is no longer tracked — and a second removal of
/// the same path finds nothing, changes nothing, and so (by the removal
/// handler's contract) yields no notification.
pub proof fn lemma_removal_idempotent(s: Seq<EntryModel>, path: Seq<char>)
    requires
        paths_unique(s),
    ensures
        !has_path(remove_step(s, path), path),
        remove_step(remove_step(s, path), path) == remove_step(s, path),
        has_path(s, path) ==> remove_step(s, path).len() == s.len() - 1,
        !has_path(s, path) ==> remove_step(s, path) == s,
{
    if has_path(s, path) {
        let i = path_index(s, path);
        assert(0 <= i < s.len() && s[i].device_path == path);
        lemma_swap_remove_drops_path(s, i);
    }
}

} // verus!
