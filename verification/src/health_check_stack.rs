//! The entry point of a stack: making the probe that is sent to a peer,
//! and what a probe sets off between two stacks.

use crate::health_check::{
    decoded, wire_bytes, HealthCheckPacket, HEALTH_CHECK_ACK_OPCODE, HEALTH_CHECK_SYN_OPCODE,
    NONCE_SIZE_BYTES,
};
use crate::health_check::lemma_packet_view_is_injective;
use crate::health_check::lemma_serialize_deserialize_round_trip;
use crate::health_check_model::HealthStatus;
use crate::health_check_network_broker::HealthCheckNetworkBrokerMessage;
use crate::health_check_network_handlers::{
    acknowledged_table, acknowledgement, first_health_check, handler_response, handler_table,
    opcode_handlers, MAX_LIVES_REMAINING,
};
use crate::network_models::{IpAddress, NetworkDetailsView, SocketAddress};
use crate::utils::{generate_nonce, is_random_uuid};
use vstd::prelude::*;

verus! {

/// The probe with the given nonce for `remote_addr`.
pub open spec fn probe(
    nonce: [u8; NONCE_SIZE_BYTES],
    remote_addr: SocketAddress,
) -> HealthCheckNetworkBrokerMessage {
    HealthCheckNetworkBrokerMessage {
        payload: HealthCheckPacket { header: HEALTH_CHECK_SYN_OPCODE, nonce },
        remote_addr,
    }
}

/// A message as the stack at the other end sees it: the payload after a
/// trip over the wire, with the address it came from in place of the
/// address it went to.
pub open spec fn delivered(
    message: HealthCheckNetworkBrokerMessage,
    from: SocketAddress,
    seen: HealthCheckNetworkBrokerMessage,
) -> bool {
    &&& seen.payload@ == decoded(wire_bytes(message.payload@))
    &&& seen.remote_addr == from
}

/// Makes the probe that carries `nonce` to `remote_addr`.
pub fn probe_with_nonce(nonce: [u8; NONCE_SIZE_BYTES], remote_addr: SocketAddress) -> (message:
    HealthCheckNetworkBrokerMessage)
    ensures
        message == probe(nonce, remote_addr),
        message.payload.header == HEALTH_CHECK_SYN_OPCODE,
        message.payload.nonce == nonce,
        message.remote_addr == remote_addr,
{
    HealthCheckNetworkBrokerMessage {
        payload: HealthCheckPacket { header: HEALTH_CHECK_SYN_OPCODE, nonce },
        remote_addr,
    }
}

/// Makes the probe that is queued when a caller asks for `remote_addr` to
/// be checked: a probe for that address with a nonce drawn for it.
pub fn submit(remote_addr: SocketAddress) -> (message: HealthCheckNetworkBrokerMessage)
    ensures
        message == probe(message.payload.nonce, remote_addr),
        message.payload.header == HEALTH_CHECK_SYN_OPCODE,
        message.remote_addr == remote_addr,
        is_random_uuid(message.payload.nonce@),
{
    probe_with_nonce(generate_nonce(), remote_addr)
}

/// A probe makes the round: when a stack at `prober` probes a stack at
/// `peer`, the peer answers with an acknowledgement of the same nonce to
/// the prober and records nothing; and when that answer arrives, the
/// prober, if it had no record of the peer's port, gains one with the
/// maximum of lives and answers nothing.
pub proof fn lemma_probe_round_trip(
    prober_table: Map<IpAddress, NetworkDetailsView>,
    peer_table: Map<IpAddress, NetworkDetailsView>,
    prober: SocketAddress,
    peer: SocketAddress,
    nonce: [u8; NONCE_SIZE_BYTES],
    probe_seen: HealthCheckNetworkBrokerMessage,
    answer_seen: HealthCheckNetworkBrokerMessage,
)
    requires
        delivered(probe(nonce, peer), prober, probe_seen),
        delivered(acknowledgement(probe_seen), peer, answer_seen),
        prober_table.contains_key(peer.ip()) ==> !prober_table[peer.ip()].health_checks.contains_key(
            peer.port(),
        ),
    ensures
        probe_seen == probe(nonce, prober),
        opcode_handlers().contains_key(probe_seen.payload.header),
        handler_response(opcode_handlers()[probe_seen.payload.header], probe_seen) == Some(
            acknowledgement(probe_seen),
        ),
        handler_table(opcode_handlers()[probe_seen.payload.header], peer_table, probe_seen)
            == peer_table,
        answer_seen.payload.header == HEALTH_CHECK_ACK_OPCODE,
        answer_seen.payload.nonce == nonce,
        opcode_handlers().contains_key(answer_seen.payload.header),
        handler_response(opcode_handlers()[answer_seen.payload.header], answer_seen) is None,
        ({
            let after = handler_table(
                opcode_handlers()[answer_seen.payload.header],
                prober_table,
                answer_seen,
            );
            &&& after == acknowledged_table(prober_table, peer)
            &&& after.contains_key(peer.ip())
            &&& after[peer.ip()].addr == peer.ip()
            &&& after[peer.ip()].health_checks.contains_key(peer.port())
            &&& after[peer.ip()].health_checks[peer.port()] == first_health_check(peer.port())
            &&& after[peer.ip()].health_checks[peer.port()].status_details.lives_remaining
                == MAX_LIVES_REMAINING
            &&& after[peer.ip()].health_checks[peer.port()].status_details.current_status
                == HealthStatus::Healthy
        }),
{
    let sent = probe(nonce, peer);
    lemma_serialize_deserialize_round_trip(sent.payload);
    lemma_packet_view_is_injective(probe_seen.payload, sent.payload);
    let answer = acknowledgement(probe_seen);
    lemma_serialize_deserialize_round_trip(answer.payload);
    lemma_packet_view_is_injective(answer_seen.payload, answer.payload);
}

} // verus!
