//! End-to-end scenarios of the coordination engine, driven with the same
//! plain values the transport layer would hand in.

use udiskr::coordinator::Coordinator;

const PREFIX: &str = "/dev_block/";
const ALREADY_MOUNTED: &str = "org.freedesktop.UDisks2.Error.AlreadyMounted";

fn coordinator() -> Coordinator {
    Coordinator::new(PREFIX.to_string(), ALREADY_MOUNTED.to_string())
}

#[test]
fn mount_action_scenario() {
    // A device appears, its mount succeeds, the notification gets id 7, and
    // the action on that notification opens the mount point.
    let mut c = coordinator();
    assert!(c.accepts("/dev_block/A"));
    let n = c.mount_notification("/dev_block/A", "/media/A");
    assert_eq!(n.summary, "block device mounted");
    assert_eq!(n.body, "Mounted /dev/A at /media/A");
    assert_eq!(n.replaces_id, 0);
    assert_eq!(n.actions, vec!["default".to_string(), "open".to_string()]);
    c.record_mount("/dev_block/A".to_string(), "/media/A".to_string(), Some(7));
    assert_eq!(c.mounted_count(), 1);
    let e = c.registry().get(0);
    assert_eq!(e.device_path, "/dev_block/A");
    assert_eq!(e.mount_point, "/media/A");
    assert_eq!(e.notification_id, 7);
    let opened = c.handle_action(7);
    assert_eq!(opened, Some(&"/media/A".to_string()));
}

#[test]
fn already_mounted_scenario() {
    // A device appears, but its mount fails as already mounted: nothing is
    // reported, nothing is recorded, no notification is sent.
    let mut c = coordinator();
    assert!(c.accepts("/dev_block/B"));
    assert!(!c.should_report_mount_failure(Some(ALREADY_MOUNTED)));
    // The event is dropped; the registry never changes.
    assert_eq!(c.mounted_count(), 0);
    assert!(c.handle_removed("/dev_block/B").is_none());
}

#[test]
fn mount_unmount_scenario() {
    // A device is mounted with notification id 9, then removed: the registry
    // empties, the unmount notification reuses slot 9 with no actions, and a
    // later action on id 9 is a no-op.
    let mut c = coordinator();
    c.record_mount("/dev_block/C".to_string(), "/media/C".to_string(), Some(9));
    assert_eq!(c.mounted_count(), 1);
    let n = c.handle_removed("/dev_block/C").expect("tracked device yields a notification");
    assert_eq!(n.summary, "block device unmounted");
    assert_eq!(n.body, "/dev/C unmounted from /media/C");
    assert_eq!(n.replaces_id, 9);
    assert!(n.actions.is_empty());
    assert_eq!(c.mounted_count(), 0);
    assert_eq!(c.handle_action(9), None);
}

#[test]
fn removal_is_idempotent() {
    // Two consecutive removal events for one path: cleanup on the first,
    // a silent no-op on the second.
    let mut c = coordinator();
    c.record_mount("/dev_block/sda1".to_string(), "/media/sda1".to_string(), Some(3));
    let first = c.handle_removed("/dev_block/sda1");
    assert!(first.is_some());
    assert_eq!(c.mounted_count(), 0);
    let second = c.handle_removed("/dev_block/sda1");
    assert!(second.is_none());
    assert_eq!(c.mounted_count(), 0);
}

#[test]
fn sentinel_id_is_recorded_and_never_matches() {
    // The notify call failed: the device is still tracked, with id 0, and an
    // action-invocation carrying 0 never reaches it.
    let mut c = coordinator();
    c.record_mount("/dev_block/sdb1".to_string(), "/media/sdb1".to_string(), None);
    assert_eq!(c.mounted_count(), 1);
    assert_eq!(c.registry().get(0).notification_id, 0);
    assert_eq!(c.handle_action(0), None);
}

#[test]
fn stale_action_is_a_no_op() {
    // An action referencing an id that is no longer (or never was) tracked
    // performs nothing.
    let mut c = coordinator();
    assert_eq!(c.handle_action(42), None);
    c.record_mount("/dev_block/sdc1".to_string(), "/media/sdc1".to_string(), Some(5));
    c.handle_removed("/dev_block/sdc1");
    assert_eq!(c.handle_action(5), None);
}

#[test]
fn second_add_for_tracked_path_changes_nothing() {
    // A second added event for a tracked device: the mount attempt fails as
    // already mounted and the event is dropped, so no duplicate entry ever
    // arises; even a recorded mount for the same path would leave the
    // registry as it is.
    let mut c = coordinator();
    c.record_mount("/dev_block/sdd1".to_string(), "/media/sdd1".to_string(), Some(11));
    c.record_mount("/dev_block/sdd1".to_string(), "/media/elsewhere".to_string(), Some(12));
    assert_eq!(c.mounted_count(), 1);
    assert_eq!(c.registry().get(0).mount_point, "/media/sdd1");
    assert_eq!(c.registry().get(0).notification_id, 11);
}

#[test]
fn sentinel_never_matches_even_twice() {
    // Several entries may carry the sentinel id at once; an action carrying it
    // still matches none of them.
    let mut c = coordinator();
    c.record_mount("/dev_block/x".to_string(), "/media/x".to_string(), None);
    c.record_mount("/dev_block/y".to_string(), "/media/y".to_string(), None);
    assert_eq!(c.mounted_count(), 2);
    assert_eq!(c.handle_action(0), None);
}

#[test]
fn device_names_may_hold_any_characters() {
    let mut c = coordinator();
    let n = c.mount_notification("/dev_block/usb—stick·1", "/media/usb—stick·1");
    assert_eq!(n.body, "Mounted /dev/usb—stick·1 at /media/usb—stick·1");
    c.record_mount(
        "/dev_block/usb—stick·1".to_string(),
        "/media/usb—stick·1".to_string(),
        Some(21),
    );
    let n = c.handle_removed("/dev_block/usb—stick·1").unwrap();
    assert_eq!(n.body, "/dev/usb—stick·1 unmounted from /media/usb—stick·1");
    assert_eq!(c.mounted_count(), 0);
}

#[test]
fn irrelevant_paths_are_ignored() {
    let c = coordinator();
    assert!(!c.accepts("/other_objects/jobs/1"));
    assert!(!c.accepts("/dev_bloc/A"));
    assert!(!c.accepts(""));
    assert!(c.accepts("/dev_block/"));
}

#[test]
fn other_mount_failures_are_reported() {
    let c = coordinator();
    assert!(c.should_report_mount_failure(Some("org.freedesktop.UDisks2.Error.Failed")));
    assert!(c.should_report_mount_failure(Some("")));
    assert!(c.should_report_mount_failure(None));
    assert!(!c.should_report_mount_failure(Some(ALREADY_MOUNTED)));
}

#[test]
fn unmount_keeps_other_devices() {
    let mut c = coordinator();
    c.record_mount("/dev_block/a".to_string(), "/media/a".to_string(), Some(1));
    c.record_mount("/dev_block/b".to_string(), "/media/b".to_string(), Some(2));
    c.record_mount("/dev_block/c".to_string(), "/media/c".to_string(), Some(3));
    let n = c.handle_removed("/dev_block/a").unwrap();
    assert_eq!(n.replaces_id, 1);
    assert_eq!(c.mounted_count(), 2);
    assert_eq!(c.handle_action(2), Some(&"/media/b".to_string()));
    assert_eq!(c.handle_action(3), Some(&"/media/c".to_string()));
    assert_eq!(c.handle_action(1), None);
}
