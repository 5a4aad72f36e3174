//! The event-coordination engine.
//!
//! A [`Coordinator`] owns the registry of mounted devices and decides, for
//! each inbound event, how the registry changes and what outward action is
//! due: which notification to show, whether a mount failure is reported, and
//! which mount point a notification action opens. The surrounding program
//! performs the remote calls — mount, notify, open — and hands their plain
//! results back in; every decision in between is made and verified here.
//!
//! The device service's naming convention and its benign "already mounted"
//! error name are configuration, handed in once at construction, so that the
//! convention can change without touching the logic.

use crate::registry::{
    has_notification_id, has_path, lemma_path_index_of_entry, lemma_push_keeps_paths_unique,
    lemma_swap_remove_keeps_paths_unique, path_index, paths_unique, Entry, EntryModel, Registry,
};
use crate::text::{seq_starts_with, str_eq, str_starts_with, strip_prefix};
use crate::SENTINEL_NOTIFICATION_ID;
use vstd::prelude::*;
use vstd::string::StringExecFns;

verus! {

/// One notification to submit: its summary line, its body text, the id of the
/// notification it replaces (0 for a fresh one), and the action keys it
/// offers.
pub struct NotificationRequest {
    pub summary: String,
    pub body: String,
    pub replaces_id: u32,
    pub actions: Vec<String>,
}

/// The name of a device, as shown to the user: its object path with the
/// block-device prefix removed.
pub open spec fn device_name(prefix: Seq<char>, path: Seq<char>) -> Seq<char> {
    path.subrange(prefix.len() as int, path.len() as int)
}

/// The body of the notification shown when a device was mounted.
pub open spec fn mounted_body(prefix: Seq<char>, path: Seq<char>, mount_point: Seq<char>) -> Seq<
    char,
> {
    "Mounted /dev/"@ + device_name(prefix, path) + " at "@ + mount_point
}

/// The body of the notification shown when a tracked device disappeared.
pub open spec fn unmounted_body(prefix: Seq<char>, path: Seq<char>, mount_point: Seq<char>) -> Seq<
    char,
> {
    "/dev/"@ + device_name(prefix, path) + " unmounted from "@ + mount_point
}

/// The notification id recorded for a new entry: the id the notification
/// service returned, or the sentinel when showing the notification failed.
pub open spec fn recorded_id(notify_id: Option<u32>) -> u32 {
    match notify_id {
        Some(id) => id,
        None => SENTINEL_NOTIFICATION_ID,
    }
}

/// How the registry changes when a mount has succeeded: a new entry, unless
/// the path is already tracked — a state that a successful mount cannot
/// produce, and that is left unchanged.
pub open spec fn add_step(
    s: Seq<EntryModel>,
    path: Seq<char>,
    mount_point: Seq<char>,
    notification_id: u32,
) -> Seq<EntryModel> {
    if has_path(s, path) {
        s
    } else {
        s.push(EntryModel { device_path: path, mount_point, notification_id })
    }
}

/// How the registry changes when a device disappeared: its entry is dropped
/// (the last entry takes its place), and an untracked path changes nothing.
pub open spec fn remove_step(s: Seq<EntryModel>, path: Seq<char>) -> Seq<EntryModel> {
    if has_path(s, path) {
        s.update(path_index(s, path), s.last()).drop_last()
    } else {
        s
    }
}

/// The engine: the registry, plus the two names that tie it to the device
/// service — the object-path prefix of block devices and the error name of
/// the benign "already mounted" mount failure.
pub struct Coordinator {
    prefix: String,
    already_mounted_error: String,
    registry: Registry,
}

impl Coordinator {
    /// The tracked entries, in table order.
    pub closed spec fn entries(&self) -> Seq<EntryModel> {
        self.registry@
    }

    /// The object-path prefix that marks a block device.
    pub closed spec fn device_prefix(&self) -> Seq<char> {
        self.prefix@
    }

    /// The error name of the benign "already mounted" mount failure.
    pub closed spec fn benign_error(&self) -> Seq<char> {
        self.already_mounted_error@
    }

    /// The registry invariant: device paths are pairwise distinct, and every
    /// tracked path carries the block-device prefix.
    pub open spec fn inv(&self) -> bool {
        &&& paths_unique(self.entries())
        &&& forall|i: int|
            0 <= i < self.entries().len() ==> seq_starts_with(
                #[trigger] self.entries()[i].device_path,
                self.device_prefix(),
            )
    }

    /// A coordinator with an empty registry, configured with the device
    /// service's block-device path prefix and its "already mounted" error
    /// name.
    pub fn new(device_prefix: String, already_mounted_error: String) -> (c: Coordinator)
        ensures
            c.inv(),
            c.entries() == Seq::<EntryModel>::empty(),
            c.device_prefix() == device_prefix@,
            c.benign_error() == already_mounted_error@,
    {
        Coordinator { prefix: device_prefix, already_mounted_error, registry: Registry::new() }
    }

    /// Read access to the registry.
    pub fn registry(&self) -> (r: &Registry)
        ensures
            r@ == self.entries(),
    {
        &self.registry
    }

    /// How many devices are tracked.
    pub fn mounted_count(&self) -> (n: usize)
        ensures
            n == self.entries().len(),
    {
        self.registry.len()
    }

    /// Whether an object path names a block device, and so whether its
    /// appearance triggers a mount attempt. Every other object type is
    /// ignored.
    pub fn accepts(&self, path: &str) -> (r: bool)
        ensures
            r == seq_starts_with(path@, self.device_prefix()),
    {
        str_starts_with(path, self.prefix.as_str())
    }

    /// Whether a failed mount call is reported: every failure is, except the
    /// benign one whose error name says the device was already mounted.
    /// `error_name` is `None` when the failure carried no error name; such a
    /// failure is reported too.
    pub fn should_report_mount_failure(&self, error_name: Option<&str>) -> (r: bool)
        ensures
            r == match error_name {
                Some(n) => n@ != self.benign_error(),
                None => true,
            },
    {
        match error_name {
            Some(n) => !str_eq(n, self.already_mounted_error.as_str()),
            None => true,
        }
    }

    /// The notification to show for a device that was just mounted: a fresh
    /// notification naming the device and its mount point, offering the
    /// default action and an explicit "open" action — both open the mount
    /// point.
    pub fn mount_notification(&self, path: &str, mount_point: &str) -> (n: NotificationRequest)
        requires
            seq_starts_with(path@, self.device_prefix()),
        ensures
            n.summary@ == "block device mounted"@,
            n.body@ == mounted_body(self.device_prefix(), path@, mount_point@),
            n.replaces_id == 0,
            n.actions@.len() == 2,
            n.actions@[0]@ == "default"@,
            n.actions@[1]@ == "open"@,
    {
        let name = strip_prefix(path, self.prefix.as_str());
        let mut body = String::from_str("Mounted /dev/");
        body.append(name);
        body.append(" at ");
        body.append(mount_point);
        let mut actions: Vec<String> = Vec::new();
        actions.push(String::from_str("default"));
        actions.push(String::from_str("open"));
        NotificationRequest {
            summary: String::from_str("block device mounted"),
            body,
            replaces_id: 0,
            actions,
        }
    }

    /// Record a successfully mounted device. `notify_id` is the id returned
    /// by the notification call, or `None` when that call failed — the device
    /// is still tracked then, with the sentinel id 0. A successful mount for
    /// a path that is already tracked does not arise in operation (mounting
    /// such a device fails as already mounted); were one handed in, the
    /// registry would be left unchanged.
    pub fn record_mount(&mut self, path: String, mount_point: String, notify_id: Option<u32>)
        requires
            old(self).inv(),
            seq_starts_with(path@, old(self).device_prefix()),
        ensures
            final(self).inv(),
            final(self).entries() == add_step(
                old(self).entries(),
                path@,
                mount_point@,
                recorded_id(notify_id),
            ),
            final(self).device_prefix() == old(self).device_prefix(),
            final(self).benign_error() == old(self).benign_error(),
    {
        if self.registry.find_by_path(path.as_str()).is_some() {
            proof {
                assert(has_path(self.entries(), path@));
            }
            return;
        }
        let id = match notify_id {
            Some(id) => id,
            None => SENTINEL_NOTIFICATION_ID,
        };
        let entry = Entry { device_path: path, mount_point, notification_id: id };
        proof {
            lemma_push_keeps_paths_unique(self.entries(), entry@);
        }
        self.registry.insert(entry);
        proof {
            assert forall|i: int| 0 <= i < self.entries().len() implies seq_starts_with(
                #[trigger] self.entries()[i].device_path,
                self.device_prefix(),
            ) by {
                if i < old(self).entries().len() {
                    assert(self.entries()[i] == old(self).entries()[i]);
                }
            }
        }
    }

    /// Handle a device-removed event: when the path is tracked, drop its
    /// entry and return the "unmounted" notification that replaces the
    /// entry's earlier one, carrying no actions; an untracked path is a
    /// no-op.
    pub fn handle_removed(&mut self, path: &str) -> (n: Option<NotificationRequest>)
        requires
            old(self).inv(),
        ensures
            final(self).inv(),
            final(self).entries() == remove_step(old(self).entries(), path@),
            final(self).device_prefix() == old(self).device_prefix(),
            final(self).benign_error() == old(self).benign_error(),
            match n {
                Some(req) => {
                    let i = path_index(old(self).entries(), path@);
                    &&& has_path(old(self).entries(), path@)
                    &&& req.summary@ == "block device unmounted"@
                    &&& req.body@ == unmounted_body(
                        old(self).device_prefix(),
                        path@,
                        old(self).entries()[i].mount_point,
                    )
                    &&& req.replaces_id == old(self).entries()[i].notification_id
                    &&& req.actions@.len() == 0
                },
                None => !has_path(old(self).entries(), path@),
            },
    {
        match self.registry.find_by_path(path) {
            Some(i) => {
                proof {
                    assert(has_path(self.entries(), path@));
                    lemma_path_index_of_entry(self.entries(), i as int);
                    assert(path_index(self.entries(), path@) == i as int);
                }
                let entry = self.registry.get(i);
                let replaces_id = entry.notification_id;
                proof {
                    assert(seq_starts_with(self.entries()[i as int].device_path, self.device_prefix()));
                }
                let name = strip_prefix(path, self.prefix.as_str());
                let mut body = String::from_str("/dev/");
                body.append(name);
                body.append(" unmounted from ");
                body.append(entry.mount_point.as_str());
                proof {
                    lemma_swap_remove_keeps_paths_unique(self.entries(), i as int);
                }
                let _ = self.registry.remove(i);
                proof {
                    assert forall|k: int| 0 <= k < self.entries().len() implies seq_starts_with(
                        #[trigger] self.entries()[k].device_path,
                        self.device_prefix(),
                    ) by {
                        let pre = old(self).entries();
                        let k2: int = if k == i as int {
                            pre.len() - 1
                        } else {
                            k
                        };
                        assert(self.entries()[k] == pre[k2]);
                    }
                }
                Some(
                    NotificationRequest {
                        summary: String::from_str("block device unmounted"),
                        body,
                        replaces_id,
                        actions: Vec::new(),
                    },
                )
            },
            None => None,
        }
    }

    /// Handle a notification-action event: the mount point to open, when the
    /// id matches a tracked entry. A stale or unknown id — and always the
    /// sentinel id — matches nothing, and nothing is opened.
    pub fn handle_action(&self, id: u32) -> (r: Option<&String>)
        ensures
            match r {
                Some(mp) => id != SENTINEL_NOTIFICATION_ID && exists|i: int|
                    #![trigger self.entries()[i]]
                    0 <= i < self.entries().len() && self.entries()[i].notification_id == id
                        && self.entries()[i].mount_point == mp@
                        && (forall|k: int| 0 <= k < i ==> self.entries()[k].notification_id != id),
                None => id == SENTINEL_NOTIFICATION_ID || !has_notification_id(self.entries(), id),
            },
    {
        match self.registry.find_by_notification_id(id) {
            Some(entry) => {
                proof {
                    let s = self.entries();
                    let i = choose|i: int|
                        0 <= i < s.len() && s[i] == entry@ && (forall|k: int|
                            0 <= k < i ==> s[k].notification_id != id);
                    assert(s[i].notification_id == id);
                    assert(s[i].mount_point == entry.mount_point@);
                }
                Some(&entry.mount_point)
            },
            None => None,
        }
    }
}

} // verus!
