//! Event-coordination core for a removable-device mount helper.
//!
//! Three independently arriving event streams — device added, device removed,
//! and notification action invoked — are correlated through one registry of
//! currently mounted devices. This crate holds the decision logic of that
//! coordination: which object paths are accepted as block devices, which mount
//! failures are reported, what each notification says, and how the registry is
//! read and updated for each event. The transport that delivers the events and
//! performs the remote calls lives outside the library and hands in plain
//! values.

use vstd::prelude::*;

pub mod coordinator;
pub mod laws;
pub mod registry;
pub mod text;

verus! {

/// The sentinel notification id: an entry carries it when showing the mount
/// notification failed, and it never matches an action-invocation lookup.
pub const SENTINEL_NOTIFICATION_ID: u32 = 0;

} // verus!
