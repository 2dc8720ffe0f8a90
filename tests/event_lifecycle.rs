use enet::{
    Event, EventType, Host, Packet, PacketMode, PeerID, PeerLookupError, RawEvent,
    EVENT_KIND_CONNECT, EVENT_KIND_DISCONNECT, EVENT_KIND_NONE, EVENT_KIND_RECEIVE,
};

fn raw(kind: u32, peer: usize) -> RawEvent {
    RawEvent { kind, peer, channel_id: 0, data: 0, packet: None }
}

fn raw_disconnect(peer: usize, data: u32) -> RawEvent {
    RawEvent { kind: EVENT_KIND_DISCONNECT, peer, channel_id: 0, data, packet: None }
}

fn raw_receive(peer: usize, channel_id: u8, bytes: Vec<u8>) -> RawEvent {
    RawEvent {
        kind: EVENT_KIND_RECEIVE,
        peer,
        channel_id,
        data: 0,
        packet: Some(Packet::new(bytes, PacketMode::ReliableSequenced)),
    }
}

fn connect_with_data(host: &mut Host<String>, slot: usize, data: &str) {
    let mut ev = Event::from_raw(raw(EVENT_KIND_CONNECT, slot), host).unwrap();
    assert!(matches!(ev.type_(), EventType::Connect));
    ev.peer_mut().set_data(Some(data.to_string()));
}

#[test]
fn none_event_gives_nothing() {
    let mut host: Host<String> = Host::new(2);
    assert!(Event::from_raw(raw(EVENT_KIND_NONE, 0), &mut host).is_none());
}

#[test]
fn new_host_has_fresh_slots() {
    let host: Host<String> = Host::new(3);
    assert_eq!(host.peer_count(), 3);
    let id = host.peer_id(2);
    assert_eq!(id, PeerID { index: 2, generation: 0 });
    let p = host.peer(id).unwrap();
    assert!(p.data().is_none());
}

#[test]
fn lookup_errors() {
    let host: Host<String> = Host::new(1);
    assert_eq!(
        host.peer(PeerID { index: 1, generation: 0 }).err(),
        Some(PeerLookupError::NoSuchSlot)
    );
    assert_eq!(
        host.peer(PeerID { index: 0, generation: 4 }).err(),
        Some(PeerLookupError::Expired)
    );
}

#[test]
fn event_binds_peer_and_id() {
    let mut host: Host<String> = Host::new(3);
    let expected = host.peer_id(1);
    let ev = Event::from_raw(raw(EVENT_KIND_CONNECT, 1), &mut host).unwrap();
    assert_eq!(ev.peer_id(), expected);
    assert!(ev.peer().data().is_none());
}

#[test]
fn receive_extraction_keeps_payload() {
    let mut host: Host<String> = Host::new(1);
    let ev = Event::from_raw(raw_receive(0, 9, vec![0xde, 0xad, 0xbe]), &mut host).unwrap();
    match ev.take_type() {
        EventType::Receive { channel_id, packet } => {
            assert_eq!(channel_id, 9);
            assert_eq!(packet.data(), &[0xde, 0xad, 0xbe][..]);
            assert_eq!(packet.mode(), PacketMode::ReliableSequenced);
        },
        _ => panic!("expected a receive"),
    }
}

#[test]
fn connect_and_receive_leave_peer_alone() {
    let mut host: Host<String> = Host::new(1);
    connect_with_data(&mut host, 0, "D");
    let id = host.peer_id(0);
    {
        let ev = Event::from_raw(raw(EVENT_KIND_CONNECT, 0), &mut host).unwrap();
        assert!(matches!(ev.take_type(), EventType::Connect));
    }
    {
        let _ev = Event::from_raw(raw_receive(0, 1, vec![5]), &mut host).unwrap();
    }
    let p = host.peer(id).unwrap();
    assert_eq!(p.data(), Some(&"D".to_string()));
    assert_eq!(host.peer_id(0).generation, 0);
}

#[test]
fn dropped_disconnect_cleans_peer_once() {
    let mut host: Host<String> = Host::new(2);
    connect_with_data(&mut host, 0, "D");
    connect_with_data(&mut host, 1, "E");
    let id = host.peer_id(0);
    let other = host.peer_id(1);
    {
        let ev = Event::from_raw(raw_disconnect(0, 3), &mut host).unwrap();
        assert!(matches!(ev.type_(), EventType::Disconnect { data: 3 }));
    }
    assert_eq!(host.peer(id).err(), Some(PeerLookupError::Expired));
    assert_eq!(host.peer_id(0), PeerID { index: 0, generation: 1 });
    let fresh = host.peer(host.peer_id(0)).unwrap();
    assert!(fresh.data().is_none());
    assert_eq!(host.peer(other).unwrap().data(), Some(&"E".to_string()));
}

#[test]
fn taken_disconnect_cleans_peer_once() {
    let mut host: Host<String> = Host::new(2);
    connect_with_data(&mut host, 1, "D");
    let id = host.peer_id(1);
    {
        let ev = Event::from_raw(raw_disconnect(1, 11), &mut host).unwrap();
        assert!(matches!(ev.take_type(), EventType::Disconnect { data: 11 }));
    }
    assert_eq!(host.peer(id).err(), Some(PeerLookupError::Expired));
    assert_eq!(host.peer_id(1), PeerID { index: 1, generation: 1 });
    assert!(host.peer(host.peer_id(1)).unwrap().data().is_none());
}

#[test]
fn slot_reuse_moves_generation_again() {
    let mut host: Host<String> = Host::new(1);
    for _ in 0..3 {
        connect_with_data(&mut host, 0, "D");
        let _ev = Event::from_raw(raw_disconnect(0, 0), &mut host).unwrap();
    }
    assert_eq!(host.peer_id(0).generation, 3);
    assert_eq!(
        host.peer(PeerID { index: 0, generation: 2 }).err(),
        Some(PeerLookupError::Expired)
    );
}

#[test]
fn sequence_with_dropped_disconnect() {
    let mut host: Host<String> = Host::new(4);
    let id = host.peer_id(2);
    connect_with_data(&mut host, 2, "D");
    {
        let ev = Event::from_raw(raw_receive(2, 3, vec![0x01, 0x02]), &mut host).unwrap();
        assert_eq!(ev.peer().data(), Some(&"D".to_string()));
        match ev.take_type() {
            EventType::Receive { channel_id, packet } => {
                assert_eq!(channel_id, 3);
                assert_eq!(packet.data(), &[0x01, 0x02][..]);
            },
            _ => panic!("expected a receive"),
        }
    }
    {
        let _ev = Event::from_raw(raw_disconnect(2, 7), &mut host).unwrap();
    }
    assert!(host.peer(host.peer_id(2)).unwrap().data().is_none());
    assert_eq!(host.peer(id).err(), Some(PeerLookupError::Expired));
}

#[test]
fn sequence_with_taken_disconnect() {
    let mut host: Host<String> = Host::new(4);
    let id = host.peer_id(2);
    connect_with_data(&mut host, 2, "D");
    {
        let ev = Event::from_raw(raw_receive(2, 3, vec![0x01, 0x02]), &mut host).unwrap();
        match ev.take_type() {
            EventType::Receive { channel_id, packet } => {
                assert_eq!(channel_id, 3);
                assert_eq!(packet.data(), &[0x01, 0x02][..]);
            },
            _ => panic!("expected a receive"),
        }
    }
    let reason = {
        let ev = Event::from_raw(raw_disconnect(2, 7), &mut host).unwrap();
        match ev.take_type() {
            EventType::Disconnect { data } => data,
            _ => panic!("expected a disconnect"),
        }
    };
    assert_eq!(reason, 7);
    assert!(host.peer(host.peer_id(2)).unwrap().data().is_none());
    assert_eq!(host.peer(id).err(), Some(PeerLookupError::Expired));
}

#[test]
fn data_can_be_taken_before_disconnect() {
    let mut host: Host<String> = Host::new(1);
    connect_with_data(&mut host, 0, "D");
    let mut ev = Event::from_raw(raw_disconnect(0, 0), &mut host).unwrap();
    let kept = ev.peer_mut().take_data();
    assert_eq!(kept, Some("D".to_string()));
    assert!(ev.peer().data().is_none());
    let previous = ev.peer_mut().set_data(Some("F".to_string()));
    assert!(previous.is_none());
}

#[test]
fn event_handle_expires_after_its_disconnect() {
    let mut host: Host<String> = Host::new(2);
    let other = host.peer_id(1);
    let id = {
        let mut ev = Event::from_raw(raw_disconnect(0, 1), &mut host).unwrap();
        let id = ev.peer_id();
        ev.peer_mut().set_data(Some("X".to_string()));
        id
    };
    assert_eq!(id, PeerID { index: 0, generation: 0 });
    assert_eq!(host.peer(id).err(), Some(PeerLookupError::Expired));
    assert!(host.peer(other).is_ok());
}
