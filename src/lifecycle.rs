use vstd::prelude::*;

use crate::event::{completed, EventType};
use crate::host::resolves;
use crate::peer::{next_generation, PeerID, PeerView};

verus! {

/// Completing a disconnect, by `Event::take_type` or by dropping the event
/// (both end in `completed`), drops the peer's data and moves its slot on by
/// exactly one generation, to one that differs from the old: below the top of
/// the counter's range that is the old generation plus one; at the top it
/// wraps to zero.
pub proof fn lemma_disconnect_cleans_once<T>(p: PeerView<T>, data: u32)
    ensures
        completed(p, EventType::Disconnect { data }).data.is_none(),
        completed(p, EventType::Disconnect { data }).generation == next_generation(p.generation),
        completed(p, EventType::Disconnect { data }).generation != p.generation,
        p.generation < u64::MAX ==> completed(p, EventType::Disconnect { data }).generation
            == p.generation + 1,
        p.generation == u64::MAX ==> completed(p, EventType::Disconnect { data }).generation == 0,
{
}

/// Completing a connect or a receive leaves the peer as it was.
pub proof fn lemma_other_events_leave_peer<T>(p: PeerView<T>, t: EventType)
    requires
        !(t is Disconnect),
    ensures
        completed(p, t) == p,
{
}

/// Once the peer in slot `i` has completed a disconnect, a handle taken
/// before no longer resolves, while whether a handle of another slot resolves
/// is unchanged.
pub proof fn lemma_cleanup_expires_only_its_slot<T>(
    peers: Seq<PeerView<T>>,
    i: int,
    data: u32,
    id: PeerID,
    other: PeerID,
)
    requires
        0 <= i < peers.len(),
        id.index == i,
        resolves(peers, id),
        other.index != i,
    ensures
        !resolves(peers.update(i, completed(peers[i], EventType::Disconnect { data })), id),
        resolves(peers.update(i, completed(peers[i], EventType::Disconnect { data })), other)
            == resolves(peers, other),
{
}

/// Changing the data of the peer in slot `i`, the one change an event lets
/// the application make, leaves every handle resolving exactly as before: a
/// stale handle stays stale and a live one stays live.
pub proof fn lemma_data_change_keeps_handles<T>(
    peers: Seq<PeerView<T>>,
    i: int,
    data: Option<T>,
    id: PeerID,
)
    requires
        0 <= i < peers.len(),
    ensures
        resolves(peers.update(i, PeerView { generation: peers[i].generation, data }), id)
            == resolves(peers, id),
{
}

} // verus!
