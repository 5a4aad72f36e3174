//! The registry's own operations, and the string primitives they rest on.

use udiskr::registry::{Entry, Registry};
use udiskr::text::{str_eq, str_starts_with, strip_prefix};

fn entry(path: &str, mount_point: &str, id: u32) -> Entry {
    Entry {
        device_path: path.to_string(),
        mount_point: mount_point.to_string(),
        notification_id: id,
    }
}

#[test]
fn empty_registry_finds_nothing() {
    let r = Registry::new();
    assert_eq!(r.len(), 0);
    assert_eq!(r.find_by_path("/dev_block/A"), None);
    assert!(r.find_by_notification_id(1).is_none());
}

#[test]
fn find_by_path_returns_first_index() {
    let mut r = Registry::new();
    r.insert(entry("/dev_block/A", "/media/A", 1));
    r.insert(entry("/dev_block/B", "/media/B", 2));
    assert_eq!(r.find_by_path("/dev_block/A"), Some(0));
    assert_eq!(r.find_by_path("/dev_block/B"), Some(1));
    assert_eq!(r.find_by_path("/dev_block/C"), None);
}

#[test]
fn find_by_notification_id_matches_only_nonzero() {
    let mut r = Registry::new();
    r.insert(entry("/dev_block/A", "/media/A", 0));
    r.insert(entry("/dev_block/B", "/media/B", 9));
    assert!(r.find_by_notification_id(0).is_none());
    let e = r.find_by_notification_id(9).unwrap();
    assert_eq!(e.device_path, "/dev_block/B");
    assert_eq!(e.mount_point, "/media/B");
}

#[test]
fn remove_swaps_in_the_last_entry() {
    let mut r = Registry::new();
    r.insert(entry("/dev_block/A", "/media/A", 1));
    r.insert(entry("/dev_block/B", "/media/B", 2));
    r.insert(entry("/dev_block/C", "/media/C", 3));
    let gone = r.remove(0);
    assert_eq!(gone.device_path, "/dev_block/A");
    assert_eq!(r.len(), 2);
    assert_eq!(r.get(0).device_path, "/dev_block/C");
    assert_eq!(r.get(1).device_path, "/dev_block/B");
}

#[test]
fn str_eq_compares_contents() {
    assert!(str_eq("", ""));
    assert!(str_eq("abc", "abc"));
    assert!(!str_eq("abc", "abd"));
    assert!(!str_eq("abc", "abcd"));
}

#[test]
fn str_starts_with_checks_prefixes() {
    assert!(str_starts_with("/dev_block/A", "/dev_block/"));
    assert!(str_starts_with("anything", ""));
    assert!(!str_starts_with("/dev", "/dev_block/"));
    assert!(!str_starts_with("/dev_bloCk/A", "/dev_block/"));
}

#[test]
fn strip_prefix_drops_the_prefix() {
    assert_eq!(strip_prefix("/dev_block/sda1", "/dev_block/"), "sda1");
    assert_eq!(strip_prefix("abc", ""), "abc");
    assert_eq!(strip_prefix("abc", "abc"), "");
}
