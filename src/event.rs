use vstd::prelude::*;

use crate::host::Host;
use crate::packet::Packet;
use crate::peer::{Peer, PeerID, PeerSlot, PeerView};

verus! {

/// Kind code of a transport event: nothing happened.
pub const EVENT_KIND_NONE: u32 = 0;

/// Kind code of a transport event: a peer connected.
pub const EVENT_KIND_CONNECT: u32 = 1;

/// Kind code of a transport event: a peer disconnected.
pub const EVENT_KIND_DISCONNECT: u32 = 2;

/// Kind code of a transport event: a packet arrived from a peer.
pub const EVENT_KIND_RECEIVE: u32 = 3;

/// An event as the transport engine reports it, before classification.
pub struct RawEvent {
    /// One of the `EVENT_KIND_*` codes.
    pub kind: u32,
    /// Slot of the peer that the event happened on.
    pub peer: usize,
    /// Channel that a packet arrived on.
    pub channel_id: u8,
    /// Code that came with a disconnect.
    pub data: u32,
    /// Packet that arrived.
    pub packet: Option<Packet>,
}

/// The type of an event.
pub enum EventType {
    /// Peer has connected.
    Connect,
    /// Peer has disconnected. The peer's data is dropped when the event is
    /// completed.
    Disconnect {
        /// Usually a reason for the disconnection.
        data: u32,
    },
    /// Peer has sent a packet.
    Receive {
        /// Channel that the packet arrived on.
        channel_id: u8,
        /// The packet.
        packet: Packet,
    },
}

/// The transport events that classification accepts: a known kind, a slot
/// of the host for any kind but none, and a packet for a receive.
pub open spec fn raw_event_valid(raw: RawEvent, peer_count: nat) -> bool {
    &&& raw.kind <= EVENT_KIND_RECEIVE
    &&& raw.kind != EVENT_KIND_NONE ==> raw.peer < peer_count
    &&& raw.kind == EVENT_KIND_RECEIVE ==> raw.packet.is_some()
}

/// The typed event that a valid raw event of a kind other than none stands for.
pub open spec fn raw_event_type(raw: RawEvent) -> EventType {
    if raw.kind == EVENT_KIND_CONNECT {
        EventType::Connect
    } else if raw.kind == EVENT_KIND_DISCONNECT {
        EventType::Disconnect { data: raw.data }
    } else {
        EventType::Receive { channel_id: raw.channel_id, packet: raw.packet.unwrap() }
    }
}

/// The peer after an event of type `t` on it has been completed: a
/// disconnect cleans it up, any other event leaves it as it was.
pub open spec fn completed<T>(p: PeerView<T>, t: EventType) -> PeerView<T> {
    match t {
        EventType::Disconnect { .. } => p.cleaned(),
        _ => p,
    }
}

/// Runs the cleanup that completing an event of type `t` owes to its peer.
fn complete<T>(slot: &mut PeerSlot<T>, t: &EventType)
    ensures
        final(slot)@ == completed(old(slot)@, *t),
    opens_invariants none
    no_unwind
{
    match t {
        EventType::Disconnect { .. } => slot.cleanup_after_disconnect(),
        EventType::Connect | EventType::Receive { .. } => {},
    }
}

/// What a live event holds.
struct Binding<'a, T> {
    slot: &'a mut PeerSlot<T>,
    peer_id: PeerID,
    event_type: EventType,
}

/// An event that happened on a peer of a host.
///
/// Completing an event of type `EventType::Disconnect` drops the data of the
/// peer and moves its slot to the next generation. An event is completed
/// either by `take_type` or by being dropped; it is completed exactly once.
pub struct Event<'a, T> {
    live: Option<Binding<'a, T>>,
}

impl<'a, T> Event<'a, T> {
    /// The event still holds its peer, and its handle carries the generation
    /// that the peer's slot is at.
    pub closed spec fn wf(&self) -> bool {
        &&& self.live.is_some()
        &&& self.spec_peer_id().generation == self.spec_peer().generation
    }

    /// The slot of the peer that the event happened on, as it is now.
    pub closed spec fn spec_peer(&self) -> PeerView<T> {
        (*self.peer_borrow())@
    }

    /// The borrow of the peer's slot that the event holds.
    pub closed spec fn peer_borrow(&self) -> &'a mut PeerSlot<T> {
        self.live.unwrap().slot
    }

    /// The handle of the peer that the event happened on.
    pub closed spec fn spec_peer_id(&self) -> PeerID {
        self.live.unwrap().peer_id
    }

    /// The type of the event.
    pub closed spec fn spec_type(&self) -> EventType {
        self.live.unwrap().event_type
    }

    /// Classifies a transport event and binds it to its peer in `host`.
    /// Returns `None` where nothing happened.
    pub fn from_raw(raw: RawEvent, host: &'a mut Host<T>) -> (r: Option<Event<'a, T>>)
        requires
            raw_event_valid(raw, old(host)@.len()),
        ensures
            r.is_none() <==> raw.kind == EVENT_KIND_NONE,
            r.is_none() ==> final(host)@ == old(host)@,
            r.is_some() ==> {
                let e = r.unwrap();
                &&& e.wf()
                &&& e.spec_peer() == old(host)@[raw.peer as int]
                &&& e.spec_peer_id() == (PeerID {
                    index: raw.peer,
                    generation: old(host)@[raw.peer as int].generation,
                })
                &&& e.spec_type() == raw_event_type(raw)
                &&& final(host)@ == old(host)@.update(raw.peer as int, (*final(e.peer_borrow()))@)
            },
    {
        if raw.kind == EVENT_KIND_NONE {
            return None;
        }
        let peer_id = host.peer_id(raw.peer);
        let event_type = if raw.kind == EVENT_KIND_CONNECT {
            EventType::Connect
        } else if raw.kind == EVENT_KIND_DISCONNECT {
            EventType::Disconnect { data: raw.data }
        } else {
            match raw.packet {
                Some(packet) => EventType::Receive { channel_id: raw.channel_id, packet },
                None => EventType::Connect,
            }
        };
        let slot = host.slot_mut(raw.peer);
        Some(Event { live: Some(Binding { slot, peer_id, event_type }) })
    }

    /// The peer that this event happened on.
    pub fn peer(&self) -> (r: &Peer<T>)
        requires
            self.wf(),
        ensures
            r@ == self.spec_peer().data,
    {
        let b = self.live.as_ref().unwrap();
        b.slot.peer()
    }

    /// The peer that this event happened on, to change its data. The slot's
    /// generation is out of reach.
    pub fn peer_mut(&mut self) -> (r: &mut Peer<T>)
        requires
            old(self).wf(),
        ensures
            r@ == old(self).spec_peer().data,
            final(self).wf(),
            final(self).spec_peer() == (PeerView {
                generation: old(self).spec_peer().generation,
                data: final(r)@,
            }),
            final(self).spec_peer_id() == old(self).spec_peer_id(),
            final(self).spec_type() == old(self).spec_type(),
            *final(final(self).peer_borrow()) == *final(old(self).peer_borrow()),
    {
        let b = self.live.as_mut().unwrap();
        b.slot.peer_mut()
    }

    /// The `PeerID` of the peer that this event happened on.
    pub fn peer_id(&self) -> (r: PeerID)
        requires
            self.wf(),
        ensures
            r == self.spec_peer_id(),
    {
        self.live.as_ref().unwrap().peer_id
    }

    /// The type of this event.
    pub fn type_(&self) -> (r: &EventType)
        requires
            self.wf(),
        ensures
            *r == self.spec_type(),
    {
        &self.live.as_ref().unwrap().event_type
    }

    /// Completes the event in place: a disconnect cleans up its peer, any other
    /// type leaves it alone. Only `drop` calls this, once; `take_type` empties
    /// the event before it is dropped.
    fn cleanup_after_disconnect(&mut self)
        ensures
            final(self).live.is_some() == old(self).live.is_some(),
            old(self).wf() ==> final(self).spec_peer() == completed(
                old(self).spec_peer(),
                old(self).spec_type(),
            ),
            old(self).wf() ==> final(self).spec_type() == old(self).spec_type(),
            old(self).wf() ==> final(self).spec_peer_id() == old(self).spec_peer_id(),
            old(self).wf() ==> *final(final(self).peer_borrow()) == *final(old(self).peer_borrow()),
        opens_invariants none
        no_unwind
    {
        match &mut self.live {
            Some(b) => complete(&mut *b.slot, &b.event_type),
            None => {},
        }
    }

    /// Take the type out of this event, completing it: for a disconnect, the
    /// peer is cleaned up first. The event is consumed, so it can be neither
    /// taken again nor used after.
    pub fn take_type(self) -> (r: EventType)
        requires
            self.wf(),
        ensures
            r == self.spec_type(),
            (*final(self.peer_borrow()))@ == completed(self.spec_peer(), self.spec_type()),
    {
        let mut ev = self;
        let mut live: Option<Binding<'a, T>> = None;
        core::mem::swap(&mut live, &mut ev.live);
        match live {
            Some(b) => {
                let Binding { slot, peer_id, event_type } = b;
                complete(slot, &event_type);
                event_type
            },
            None => EventType::Connect,
        }
    }
}

/// Dropping an event completes it: a disconnect cleans up its peer, as
/// `take_type` does, and the event keeps the same borrow, which then ends with
/// the completed peer.
impl<'a, T> Drop for Event<'a, T> {
    fn drop(&mut self)
        ensures
            old(self).wf() ==> final(self).spec_peer() == completed(
                old(self).spec_peer(),
                old(self).spec_type(),
            ),
            old(self).wf() ==> final(self).spec_peer_id() == old(self).spec_peer_id(),
            old(self).wf() ==> *final(final(self).peer_borrow()) == *final(old(self).peer_borrow()),
        opens_invariants none
        no_unwind
    {
        self.cleanup_after_disconnect();
    }
}

} // verus!
