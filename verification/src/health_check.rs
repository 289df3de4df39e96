//! The health-check packet and its wire codec.
//!
//! A packet travels as exactly seventeen bytes: one opcode byte followed by
//! the sixteen bytes of the nonce, in order. Decoding never fails: whatever
//! is not a well-formed probe or acknowledgement decodes to the no-op packet.

use std::collections::HashSet;
use vstd::prelude::*;

verus! {

pub const HEADER_SIZE_BYTES: usize = 1;

pub const NONCE_SIZE_BYTES: usize = 16;

pub const HEALTH_CHECK_PACKET_SIZE: usize = 17;

pub const HEADER_INDEX: usize = 0;

pub const NONCE_INDEX: usize = 1;

pub const NOOP_OPCODE: u8 = 0;

pub const HEALTH_CHECK_SYN_OPCODE: u8 = 1;

pub const HEALTH_CHECK_ACK_OPCODE: u8 = 2;

/// The unit that goes over the wire: an opcode and an opaque nonce.
#[derive(Debug, Clone, Copy, Eq, PartialEq)]
pub struct HealthCheckPacket {
    pub header: u8,
    pub nonce: [u8; NONCE_SIZE_BYTES],
}

/// A packet as a plain value: the opcode and the nonce as a sequence.
pub struct HealthCheckPacketView {
    pub header: u8,
    pub nonce: Seq<u8>,
}

impl View for HealthCheckPacket {
    type V = HealthCheckPacketView;

    open spec fn view(&self) -> HealthCheckPacketView {
        HealthCheckPacketView { header: self.header, nonce: self.nonce@ }
    }
}

/// The opcodes that a peer may put on the wire.
pub open spec fn is_health_check_opcode(opcode: u8) -> bool {
    opcode == HEALTH_CHECK_SYN_OPCODE || opcode == HEALTH_CHECK_ACK_OPCODE
}

/// Sixteen zero bytes.
pub open spec fn zero_nonce() -> Seq<u8> {
    Seq::new(NONCE_SIZE_BYTES as nat, |i: int| 0u8)
}

/// The packet that stands for anything undecodable.
pub open spec fn noop_packet() -> HealthCheckPacketView {
    HealthCheckPacketView { header: NOOP_OPCODE, nonce: zero_nonce() }
}

/// The wire image of a packet: the opcode, then the nonce.
pub open spec fn wire_bytes(packet: HealthCheckPacketView) -> Seq<u8> {
    seq![packet.header] + packet.nonce
}

/// Bytes that decode to something other than the no-op packet.
pub open spec fn is_well_formed(raw: Seq<u8>) -> bool {
    raw.len() == HEALTH_CHECK_PACKET_SIZE && is_health_check_opcode(raw[HEADER_INDEX as int])
}

/// What a run of bytes decodes to.
pub open spec fn decoded(raw: Seq<u8>) -> HealthCheckPacketView {
    if is_well_formed(raw) {
        HealthCheckPacketView {
            header: raw[HEADER_INDEX as int],
            nonce: raw.subrange(NONCE_INDEX as int, HEALTH_CHECK_PACKET_SIZE as int),
        }
    } else {
        noop_packet()
    }
}

/// Decoding what encoding wrote gives the packet back, for every probe and
/// every acknowledgement.
pub proof fn lemma_serialize_deserialize_round_trip(packet: HealthCheckPacket)
    requires
        is_health_check_opcode(packet.header),
    ensures
        is_well_formed(wire_bytes(packet@)),
        decoded(wire_bytes(packet@)) == packet@,
{
    let raw = wire_bytes(packet@);
    assert(raw.subrange(NONCE_INDEX as int, HEALTH_CHECK_PACKET_SIZE as int) =~= packet.nonce@);
}

/// Two packets that look the same as plain values are the same packet.
pub proof fn lemma_packet_view_is_injective(first: HealthCheckPacket, second: HealthCheckPacket)
    requires
        first@ == second@,
    ensures
        first == second,
{
    assert(first.nonce =~= second.nonce);
}

/// Bytes whose count is not that of a packet decode to the no-op packet.
pub proof fn lemma_wrong_size_decodes_to_noop(raw: Seq<u8>)
    requires
        raw.len() != HEALTH_CHECK_PACKET_SIZE,
    ensures
        decoded(raw) == noop_packet(),
        decoded(raw).header == NOOP_OPCODE,
        decoded(raw).nonce.len() == NONCE_SIZE_BYTES,
        forall|i: int| 0 <= i < NONCE_SIZE_BYTES ==> decoded(raw).nonce[i] == 0,
{
}

/// Bytes that start with an opcode other than probe and acknowledgement
/// decode to the no-op packet, whatever follows.
pub proof fn lemma_unknown_opcode_decodes_to_noop(raw: Seq<u8>)
    requires
        raw.len() == HEALTH_CHECK_PACKET_SIZE,
        !is_health_check_opcode(raw[0]),
    ensures
        decoded(raw) == noop_packet(),
{
}

pub trait SerializePacket {
    fn serialize(&self) -> Vec<u8>;
}

pub trait DeserializePacket {
    fn deserialize(raw: Vec<u8>) -> HealthCheckPacket;
}

/// The set of opcodes accepted from the wire: probe and acknowledgement.
pub fn get_health_check_opcodes() -> (opcodes: HashSet<u8>)
    ensures
        opcodes@ == set![HEALTH_CHECK_SYN_OPCODE, HEALTH_CHECK_ACK_OPCODE],
        forall|opcode: u8| opcodes@.contains(opcode) <==> is_health_check_opcode(opcode),
{
    broadcast use vstd::std_specs::hash::group_hash_axioms;

    let mut opcodes: HashSet<u8> = HashSet::new();
    opcodes.insert(HEALTH_CHECK_SYN_OPCODE);
    opcodes.insert(HEALTH_CHECK_ACK_OPCODE);
    assert(opcodes@ =~= set![HEALTH_CHECK_SYN_OPCODE, HEALTH_CHECK_ACK_OPCODE]);
    opcodes
}

impl SerializePacket for HealthCheckPacket {
    /// Encodes the packet: byte 0 is the opcode, bytes 1 to 16 the nonce.
    fn serialize(&self) -> (serialized: Vec<u8>)
        ensures
            serialized@ == wire_bytes(self@),
            serialized@.len() == HEALTH_CHECK_PACKET_SIZE,
            serialized@[HEADER_INDEX as int] == self.header,
            forall|i: int|
                0 <= i < NONCE_SIZE_BYTES ==> serialized@[i + NONCE_INDEX] == self.nonce@[i],
    {
        let mut serialized: Vec<u8> = Vec::new();
        serialized.push(self.header);
        let mut i: usize = 0;
        while i < NONCE_SIZE_BYTES
            invariant
                i <= NONCE_SIZE_BYTES,
                serialized@ == seq![self.header] + self.nonce@.subrange(0, i as int),
            decreases NONCE_SIZE_BYTES - i,
        {
            serialized.push(self.nonce[i]);
            i = i + 1;
        }
        assert(self.nonce@.subrange(0, NONCE_SIZE_BYTES as int) == self.nonce@);
        serialized
    }
}

impl DeserializePacket for HealthCheckPacket {
    /// Decodes a run of bytes. Seventeen bytes that start with the probe or
    /// the acknowledgement opcode give that packet; everything else gives
    /// the no-op packet with an all-zero nonce.
    fn deserialize(raw: Vec<u8>) -> (packet: HealthCheckPacket)
        ensures
            packet@ == decoded(raw@),
            !is_well_formed(raw@) ==> packet@ == noop_packet(),
            raw@.len() != HEALTH_CHECK_PACKET_SIZE ==> packet@ == noop_packet(),
            raw@.len() == HEALTH_CHECK_PACKET_SIZE && !is_health_check_opcode(raw@[0]) ==> packet@
                == noop_packet(),
            is_well_formed(raw@) ==> wire_bytes(packet@) == raw@,
            packet.header == NOOP_OPCODE || is_health_check_opcode(packet.header),
    {
        if raw.len() != HEALTH_CHECK_PACKET_SIZE {
            let packet = HealthCheckPacket { header: NOOP_OPCODE, nonce: [0;16] };
            assert(packet.nonce@ == zero_nonce());
            return packet;
        }
        let header: u8 = raw[HEADER_INDEX];
        if !get_health_check_opcodes().contains(&header) {
            let packet = HealthCheckPacket { header: NOOP_OPCODE, nonce: [0;16] };
            assert(packet.nonce@ == zero_nonce());
            return packet;
        }
        let mut nonce: [u8; NONCE_SIZE_BYTES] = [0;16];
        let mut i: usize = 0;
        while i < NONCE_SIZE_BYTES
            invariant
                i <= NONCE_SIZE_BYTES,
                raw@.len() == HEALTH_CHECK_PACKET_SIZE,
                forall|j: int| 0 <= j < i ==> nonce@[j] == raw@[j + NONCE_INDEX],
            decreases NONCE_SIZE_BYTES - i,
        {
            nonce[i] = raw[i + NONCE_INDEX];
            i = i + 1;
        }
        let packet = HealthCheckPacket { header, nonce };
        assert(packet.nonce@ == raw@.subrange(
            NONCE_INDEX as int,
            HEALTH_CHECK_PACKET_SIZE as int,
        ));
        assert(wire_bytes(packet@) == raw@);
        packet
    }
}

} // verus!
