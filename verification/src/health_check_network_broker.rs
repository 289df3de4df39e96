//! The broker's side of the codec: what a received datagram becomes before
//! it is handed to the listener, and what is written to the socket for a
//! message that waits to be sent.

use crate::health_check::{
    decoded, noop_packet, wire_bytes, DeserializePacket, HealthCheckPacket, SerializePacket,
    HEALTH_CHECK_PACKET_SIZE,
};
use crate::network_models::SocketAddress;
use vstd::prelude::*;
use vstd::slice::slice_to_vec;

verus! {

/// The size of the buffer a datagram is received into: one byte more than a
/// packet, so that a datagram that is too long shows as such.
pub const RECEIVE_BUFFER_SIZE: usize = 18;

/// A packet together with the remote address it came from or goes to.
#[derive(Clone, Copy, Debug, Eq, PartialEq)]
pub struct HealthCheckNetworkBrokerMessage {
    pub payload: HealthCheckPacket,
    /// Address of the remote host that the payload was received from or is
    /// to be sent to.
    pub remote_addr: SocketAddress,
}

/// The message that the bytes of one datagram from `remote_addr` give. A
/// datagram that is not a well-formed packet, too short and too long ones
/// included, gives the no-op packet; it is never an error.
pub fn inbound_message(datagram: &[u8], remote_addr: SocketAddress) -> (message:
    HealthCheckNetworkBrokerMessage)
    ensures
        message.remote_addr == remote_addr,
        message.payload@ == decoded(datagram@),
        datagram@.len() != HEALTH_CHECK_PACKET_SIZE ==> message.payload@ == noop_packet(),
{
    let raw = slice_to_vec(datagram);
    HealthCheckNetworkBrokerMessage { payload: HealthCheckPacket::deserialize(raw), remote_addr }
}

/// The seventeen bytes that are sent to `message.remote_addr` for `message`.
pub fn outbound_datagram(message: &HealthCheckNetworkBrokerMessage) -> (datagram: [u8;
    HEALTH_CHECK_PACKET_SIZE])
    ensures
        datagram@ == wire_bytes(message.payload@),
{
    let raw = message.payload.serialize();
    let mut datagram: [u8; HEALTH_CHECK_PACKET_SIZE] = [0;17];
    let mut i: usize = 0;
    while i < HEALTH_CHECK_PACKET_SIZE
        invariant
            i <= HEALTH_CHECK_PACKET_SIZE,
            raw@.len() == HEALTH_CHECK_PACKET_SIZE,
            forall|j: int| 0 <= j < i ==> datagram@[j] == raw@[j],
        decreases HEALTH_CHECK_PACKET_SIZE - i,
    {
        datagram[i] = raw[i];
        i = i + 1;
    }
    assert(datagram@ =~= raw@);
    datagram
}

} // verus!
