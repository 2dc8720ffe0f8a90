use vstd::prelude::*;

verus! {

/// How the transport engine delivers a packet.
#[derive(Clone, Copy, Debug, PartialEq, Eq, Structural)]
pub enum PacketMode {
    /// Delivered, and in the order sent.
    ReliableSequenced,
    /// May be lost; what arrives arrives in order.
    UnreliableSequenced,
    /// May be lost and may arrive out of order.
    UnreliableUnsequenced,
}

/// A buffer of bytes with its delivery mode.
pub struct Packet {
    data: Vec<u8>,
    mode: PacketMode,
}

impl Packet {
    /// The bytes of this packet.
    pub closed spec fn bytes(&self) -> Seq<u8> {
        self.data@
    }

    /// The delivery mode of this packet.
    pub closed spec fn spec_mode(&self) -> PacketMode {
        self.mode
    }

    /// A packet holding `data`, to be delivered as `mode` says.
    pub fn new(data: Vec<u8>, mode: PacketMode) -> (r: Packet)
        ensures
            r.bytes() == data@,
            r.spec_mode() == mode,
    {
        Packet { data, mode }
    }

    /// The bytes of this packet.
    pub fn data(&self) -> (r: &[u8])
        ensures
            r@ == self.bytes(),
    {
        self.data.as_slice()
    }

    /// The delivery mode of this packet.
    pub fn mode(&self) -> (r: PacketMode)
        ensures
            r == self.spec_mode(),
    {
        self.mode
    }
}

} // verus!
