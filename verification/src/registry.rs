//! The registry of currently mounted devices.
//!
//! One entry per mounted device, keyed by its device path: the path joins a
//! later removal event back to the entry, and the notification id joins an
//! action-invocation event back to it. The registry is mutated only between
//! events, never while one is being waited on, so plain operations suffice.

use crate::text::str_eq;
use crate::SENTINEL_NOTIFICATION_ID;
use vstd::prelude::*;

verus! {

/// Mathematical model of one registry record.
pub struct EntryModel {
    pub device_path: Seq<char>,
    pub mount_point: Seq<char>,
    pub notification_id: u32,
}

/// One currently mounted device: its path (the join key for removal events),
/// the mount point it was mounted at, and the id of the notification that was
/// shown for it — 0 when none was.
pub struct Entry {
    pub device_path: String,
    pub mount_point: String,
    pub notification_id: u32,
}

impl View for Entry {
    type V = EntryModel;

    open spec fn view(&self) -> EntryModel {
        EntryModel {
            device_path: self.device_path@,
            mount_point: self.mount_point@,
            notification_id: self.notification_id,
        }
    }
}

/// Some entry carries this device path.
pub open spec fn has_path(s: Seq<EntryModel>, path: Seq<char>) -> bool {
    exists|i: int| 0 <= i < s.len() && s[i].device_path == path
}

/// Some entry carries this notification id.
pub open spec fn has_notification_id(s: Seq<EntryModel>, id: u32) -> bool {
    exists|i: int| 0 <= i < s.len() && s[i].notification_id == id
}

/// No two entries carry the same device path.
pub open spec fn paths_unique(s: Seq<EntryModel>) -> bool {
    forall|i: int, j: int|
        0 <= i < j < s.len() ==> s[i].device_path != s[j].device_path
}

/// The index of the entry carrying this device path; meaningful when
/// `has_path` holds, and unique when `paths_unique` holds too.
pub open spec fn path_index(s: Seq<EntryModel>, path: Seq<char>) -> int {
    choose|i: int| 0 <= i < s.len() && s[i].device_path == path
}

/// Appending an entry with a fresh device path keeps the paths distinct.
pub proof fn lemma_push_keeps_paths_unique(s: Seq<EntryModel>, m: EntryModel)
    requires
        paths_unique(s),
        !has_path(s, m.device_path),
    ensures
        paths_unique(s.push(m)),
{
    let t = s.push(m);
    assert forall|i: int, j: int|
        0 <= i < j < t.len() implies t[i].device_path != t[j].device_path by {
        if j == s.len() as int {
            assert(t[i] == s[i]);
            if t[i].device_path == m.device_path {
                assert(s[i].device_path == m.device_path);
                assert(has_path(s, m.device_path));
                assert(false);
            }
        } else {
            assert(t[i] == s[i]);
            assert(t[j] == s[j]);
        }
    }
}

/// Removing an entry by swapping in the last one keeps the paths distinct.
pub proof fn lemma_swap_remove_keeps_paths_unique(s: Seq<EntryModel>, i: int)
    requires
        paths_unique(s),
        0 <= i < s.len(),
    ensures
        paths_unique(s.update(i, s.last()).drop_last()),
{
    let t = s.update(i, s.last()).drop_last();
    assert forall|a: int, b: int|
        0 <= a < b < t.len() implies t[a].device_path != t[b].device_path by {
        let a2: int = if a == i { s.len() - 1 } else { a };
        let b2: int = if b == i { s.len() - 1 } else { b };
        assert(t[a] == s[a2]);
        assert(t[b] == s[b2]);
        if a2 < b2 {
            assert(s[a2].device_path != s[b2].device_path);
        } else {
            assert(s[b2].device_path != s[a2].device_path);
        }
    }
}

/// After the unique entry with a path is swap-removed, no entry has that path.
pub proof fn lemma_swap_remove_drops_path(s: Seq<EntryModel>, i: int)
    requires
        paths_unique(s),
        0 <= i < s.len(),
    ensures
        !has_path(s.update(i, s.last()).drop_last(), s[i].device_path),
{
    let t = s.update(i, s.last()).drop_last();
    if has_path(t, s[i].device_path) {
        let j = choose|j: int| 0 <= j < t.len() && t[j].device_path == s[i].device_path;
        let j2: int = if j == i { s.len() - 1 } else { j };
        assert(t[j] == s[j2]);
        assert(j2 != i);
        if i < j2 {
            assert(s[i].device_path != s[j2].device_path);
        } else {
            assert(s[j2].device_path != s[i].device_path);
        }
        assert(false);
    }
}

/// With distinct paths, the index of an entry's path is that entry's index.
pub proof fn lemma_path_index_of_entry(s: Seq<EntryModel>, i: int)
    requires
        paths_unique(s),
        0 <= i < s.len(),
    ensures
        path_index(s, s[i].device_path) == i,
{
    assert(has_path(s, s[i].device_path));
    let j = path_index(s, s[i].device_path);
    assert(0 <= j < s.len() && s[j].device_path == s[i].device_path);
    if j < i {
        assert(s[j].device_path != s[i].device_path);
    } else if i < j {
        assert(s[i].device_path != s[j].device_path);
    }
}

/// The table of entries. Lookups are by key, not by position: removal may
/// reorder the remaining entries.
pub struct Registry {
    entries: Vec<Entry>,
}

impl View for Registry {
    type V = Seq<EntryModel>;

    closed spec fn view(&self) -> Seq<EntryModel> {
        self.entries@.map_values(|e: Entry| e@)
    }
}

impl Registry {
    /// An empty registry.
    pub fn new() -> (r: Registry)
        ensures
            r@ == Seq::<EntryModel>::empty(),
    {
        let r = Registry { entries: Vec::new() };
        proof {
            assert(r@ =~= Seq::<EntryModel>::empty());
        }
        r
    }

    /// How many devices are tracked.
    pub fn len(&self) -> (n: usize)
        ensures
            n == self@.len(),
    {
        self.entries.len()
    }

    /// The entry at an index.
    pub fn get(&self, i: usize) -> (e: &Entry)
        requires
            i < self@.len(),
        ensures
            e@ == self@[i as int],
    {
        &self.entries[i]
    }

    /// Append an entry.
    pub fn insert(&mut self, entry: Entry)
        ensures
            final(self)@ == old(self)@.push(entry@),
    {
        self.entries.push(entry);
        proof {
            assert(self@ =~= old(self)@.push(entry@));
        }
    }

    /// The index of the first entry with this device path, if any is tracked.
    pub fn find_by_path(&self, path: &str) -> (r: Option<usize>)
        ensures
            match r {
                Some(i) => i < self@.len() && self@[i as int].device_path == path@
                    && forall|k: int| 0 <= k < i ==> self@[k].device_path != path@,
                None => !has_path(self@, path@),
            },
    {
        let n = self.entries.len();
        let mut i: usize = 0;
        while i < n
            invariant
                n == self@.len(),
                n == self.entries@.len(),
                i <= n,
                forall|k: int| 0 <= k < i ==> self@[k].device_path != path@,
            decreases n - i,
        {
            if str_eq(self.entries[i].device_path.as_str(), path) {
                return Some(i);
            }
            i += 1;
        }
        None
    }

    /// The first entry whose notification id matches, if any. The sentinel id
    /// marks an entry without a notification and never matches a lookup.
    pub fn find_by_notification_id(&self, id: u32) -> (r: Option<&Entry>)
        ensures
            match r {
                Some(e) => id != SENTINEL_NOTIFICATION_ID && e@.notification_id == id
                    && exists|i: int|
                        #![trigger self@[i]]
                        0 <= i < self@.len() && self@[i] == e@
                        && (forall|k: int| 0 <= k < i ==> self@[k].notification_id != id),
                None => id == SENTINEL_NOTIFICATION_ID || !has_notification_id(self@, id),
            },
    {
        if id == SENTINEL_NOTIFICATION_ID {
            return None;
        }
        let n = self.entries.len();
        let mut i: usize = 0;
        while i < n
            invariant
                id != SENTINEL_NOTIFICATION_ID,
                n == self@.len(),
                n == self.entries@.len(),
                i <= n,
                forall|k: int| 0 <= k < i ==> self@[k].notification_id != id,
            decreases n - i,
        {
            if self.entries[i].notification_id == id {
                let e = &self.entries[i];
                proof {
                    let idx = i as int;
                    assert(self@[idx] == e@);
                    assert(exists|j: int|
                        #![trigger self@[j]]
                        0 <= j < self@.len() && self@[j] == e@
                        && (forall|k: int| 0 <= k < j ==> self@[k].notification_id != id));
                }
                return Some(e);
            }
            i += 1;
        }
        None
    }

    /// Remove the entry at an index and return it; the last entry takes its
    /// place, so the order of the rest may change.
    pub fn remove(&mut self, i: usize) -> (e: Entry)
        requires
            i < old(self)@.len(),
        ensures
            e@ == old(self)@[i as int],
            final(self)@ == old(self)@.update(i as int, old(self)@.last()).drop_last(),
    {
        let e = self.entries.swap_remove(i);
        proof {
            assert(self@ =~= old(self)@.update(i as int, old(self)@.last()).drop_last());
        }
        e
    }
}

} // verus!
