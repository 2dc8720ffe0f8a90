//! Peer lifecycle and event delivery for a reliable-UDP host.
//!
//! A `Host` owns a table of peer slots. Each slot carries a generation
//! counter, so that a `PeerID` taken before a disconnect can be told apart
//! from one of the connection that reuses the slot later. An `Event` binds one
//! peer of the host and releases that peer's resources when a disconnect is
//! completed, whether the event is taken apart or simply dropped.

mod event;
mod host;
mod lifecycle;
mod packet;
mod peer;

pub use host::{resolves, Host, PeerLookupError};
pub use packet::{Packet, PacketMode};
pub use peer::{next_generation, Peer, PeerID, PeerSlot, PeerView};
pub use event::{
    completed, raw_event_type, raw_event_valid, Event, EventType, RawEvent, EVENT_KIND_CONNECT,
    EVENT_KIND_DISCONNECT, EVENT_KIND_NONE, EVENT_KIND_RECEIVE,
};
pub use lifecycle::{
    lemma_cleanup_expires_only_its_slot, lemma_data_change_keeps_handles,
    lemma_disconnect_cleans_once, lemma_other_events_leave_peer,
};
