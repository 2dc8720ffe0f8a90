use vstd::prelude::*;

use crate::peer::{Peer, PeerID, PeerSlot, PeerView};

verus! {

/// Why a `PeerID` did not resolve to a peer.
#[derive(Clone, Copy, Debug, PartialEq, Eq, Structural)]
pub enum PeerLookupError {
    /// The handle names a slot that the host does not have.
    NoSuchSlot,
    /// The slot has been cleaned up since the handle was taken.
    Expired,
}

/// Whether `id` names the peer that now occupies its slot in `peers`.
pub open spec fn resolves<T>(peers: Seq<PeerView<T>>, id: PeerID) -> bool {
    id.index < peers.len() && peers[id.index as int].generation == id.generation
}

/// The table of peer slots of one host.
pub struct Host<T> {
    peers: Vec<PeerSlot<T>>,
}

impl<T> View for Host<T> {
    type V = Seq<PeerView<T>>;

    closed spec fn view(&self) -> Seq<PeerView<T>> {
        self.peers@.map_values(|p: PeerSlot<T>| p@)
    }
}

impl<T> Host<T> {
    /// A host with `peer_count` empty slots.
    pub fn new(peer_count: usize) -> (r: Host<T>)
        ensures
            r@.len() == peer_count,
            forall|i: int|
                0 <= i < peer_count ==> #[trigger] r@[i] == (PeerView::<T> {
                    generation: 0,
                    data: None,
                }),
    {
        let mut peers: Vec<PeerSlot<T>> = Vec::new();
        let mut i: usize = 0;
        while i < peer_count
            invariant
                i <= peer_count,
                peers@.len() == i,
                forall|j: int|
                    0 <= j < i ==> #[trigger] peers@[j]@ == (PeerView::<T> {
                        generation: 0,
                        data: None,
                    }),
            decreases peer_count - i,
        {
            peers.push(PeerSlot::new());
            i = i + 1;
        }
        Host { peers }
    }

    /// The number of slots.
    pub fn peer_count(&self) -> (r: usize)
        ensures
            r == self@.len(),
    {
        self.peers.len()
    }

    /// The handle of the peer now in slot `index`.
    pub fn peer_id(&self, index: usize) -> (r: PeerID)
        requires
            index < self@.len(),
        ensures
            r == (PeerID { index, generation: self@[index as int].generation }),
            resolves(self@, r),
    {
        PeerID { index, generation: self.peers[index].generation() }
    }

    /// Slot `index`, lent out for the life of an event.
    pub(crate) fn slot_mut(&mut self, index: usize) -> (r: &mut PeerSlot<T>)
        requires
            index < old(self)@.len(),
        ensures
            r@ == old(self)@[index as int],
            final(self)@ == old(self)@.update(index as int, final(r)@),
    {
        let r = &mut self.peers[index];
        r
    }

    /// The peer that `id` names, unless its slot is missing or has been
    /// cleaned up since `id` was taken.
    pub fn peer(&self, id: PeerID) -> (r: Result<&Peer<T>, PeerLookupError>)
        ensures
            resolves(self@, id) <==> r.is_ok(),
            r.is_ok() ==> r.unwrap()@ == self@[id.index as int].data,
            r == Err::<&Peer<T>, _>(PeerLookupError::NoSuchSlot) <==> id.index >= self@.len(),
            r == Err::<&Peer<T>, _>(PeerLookupError::Expired) <==> (id.index < self@.len()
                && self@[id.index as int].generation != id.generation),
    {
        if id.index >= self.peers.len() {
            return Err(PeerLookupError::NoSuchSlot);
        }
        let slot = &self.peers[id.index];
        if slot.generation() != id.generation {
            return Err(PeerLookupError::Expired);
        }
        Ok(slot.peer())
    }
}

} // verus!
