//! Queries for a table of multicast senders. As with the forwarding
//! servers, the table is an explicit owned registry keyed by index; the
//! periodic sending itself is no part of this crate.

use vstd::prelude::*;

verus! {

/// One multicast sender as the registry sees it: whether it is running.
#[derive(Clone, Copy, Debug)]
pub struct MulticastSenderEntry {
    pub running: bool,
}

/// The owned table of multicast senders, keyed by index.
#[derive(Clone, Debug)]
pub struct MulticastRegistry {
    pub senders: Vec<MulticastSenderEntry>,
}

/// How many senders the registry holds.
pub fn get_multicast_sender_count(registry: &MulticastRegistry) -> (n: usize)
    ensures
        n == registry.senders@.len(),
{
    registry.senders.len()
}

/// Whether the sender at `index` exists and is running.
pub fn is_multicast_sender_running(registry: &MulticastRegistry, index: usize) -> (r: bool)
    ensures
        r == (index < registry.senders@.len() && registry.senders@[index as int].running),
{
    if index >= registry.senders.len() {
        return false;
    }
    registry.senders[index].running
}

} // verus!
