use vstd::prelude::*;

verus! {

/// The generation that a slot moves to when its peer is cleaned up.
///
/// The counter wraps at the end of the range of `u64`, so that a slot can be
/// reused without bound.
pub open spec fn next_generation(g: u64) -> u64 {
    if g == u64::MAX {
        0
    } else {
        (g + 1) as u64
    }
}

/// Handle of a peer slot, stamped with the slot's generation at the time it
/// was taken.
#[derive(Clone, Copy, Debug, PartialEq, Eq, Structural, Hash)]
pub struct PeerID {
    /// Index of the slot in the host's peer table.
    pub index: usize,
    /// Generation of the slot when this handle was taken.
    pub generation: u64,
}

/// What a peer slot is, seen from the proofs.
pub ghost struct PeerView<T> {
    pub generation: u64,
    pub data: Option<T>,
}

impl<T> PeerView<T> {
    /// The slot after its peer's cleanup: no data, and the next generation, so
    /// that the handle of the current generation no longer matches. After
    /// `u64::MAX` cleanups of one slot the counter wraps and old handles of
    /// generation zero would match again.
    pub open spec fn cleaned(self) -> PeerView<T> {
        PeerView { generation: next_generation(self.generation), data: None }
    }
}

/// One remote endpoint: the data that the application attached to it.
pub struct Peer<T> {
    data: Option<T>,
}

impl<T> View for Peer<T> {
    type V = Option<T>;

    closed spec fn view(&self) -> Option<T> {
        self.data
    }
}

impl<T> Peer<T> {
    /// A peer with no data.
    pub(crate) fn new() -> (r: Peer<T>)
        ensures
            r@ == None::<T>,
    {
        Peer { data: None }
    }

    /// The data that the application attached to this peer, if any.
    pub fn data(&self) -> (r: Option<&T>)
        ensures
            r.is_some() == self@.is_some(),
            r.is_some() ==> *r.unwrap() == self@.unwrap(),
    {
        match &self.data {
            Some(d) => Some(d),
            None => None,
        }
    }

    /// Attaches data to this peer, or removes it with `None`. Returns what was
    /// attached before.
    pub fn set_data(&mut self, data: Option<T>) -> (r: Option<T>)
        ensures
            r == old(self)@,
            final(self)@ == data,
    {
        let mut prev = data;
        core::mem::swap(&mut prev, &mut self.data);
        prev
    }

    /// Takes the attached data out of this peer.
    pub fn take_data(&mut self) -> (r: Option<T>)
        ensures
            r == old(self)@,
            final(self)@ == None::<T>,
    {
        self.set_data(None)
    }
}

/// A slot of a host's peer table: the peer in it and the slot's generation.
///
/// Only the host and its events reach a slot mutably, and the generation
/// changes only by `cleanup_after_disconnect`. The application reaches the
/// peer alone, so it can change the data but never the generation.
pub struct PeerSlot<T> {
    generation: u64,
    peer: Peer<T>,
}

impl<T> View for PeerSlot<T> {
    type V = PeerView<T>;

    closed spec fn view(&self) -> PeerView<T> {
        PeerView { generation: self.generation, data: self.peer@ }
    }
}

impl<T> PeerSlot<T> {
    /// An empty slot: generation zero, no data.
    pub(crate) fn new() -> (r: PeerSlot<T>)
        ensures
            r@ == (PeerView::<T> { generation: 0, data: None }),
    {
        PeerSlot { generation: 0, peer: Peer::new() }
    }

    /// The generation of this slot.
    pub(crate) fn generation(&self) -> (r: u64)
        ensures
            r == self@.generation,
    {
        self.generation
    }

    /// The peer in this slot.
    pub(crate) fn peer(&self) -> (r: &Peer<T>)
        ensures
            r@ == self@.data,
    {
        &self.peer
    }

    /// The peer in this slot, to change its data; the generation stays.
    pub(crate) fn peer_mut(&mut self) -> (r: &mut Peer<T>)
        ensures
            r@ == old(self)@.data,
            final(self)@ == (PeerView { generation: old(self)@.generation, data: final(r)@ }),
    {
        &mut self.peer
    }

    /// Drops the attached data and moves the slot to its next generation, so
    /// that no handle of the current generation resolves to it any more.
    pub(crate) fn cleanup_after_disconnect(&mut self)
        ensures
            final(self)@ == old(self)@.cleaned(),
        opens_invariants none
        no_unwind
    {
        self.peer.data = None;
        self.generation = if self.generation == u64::MAX {
            0
        } else {
            self.generation + 1
        };
    }
}

} // verus!
