use swizzy_decent::health_check::{
    get_health_check_opcodes, DeserializePacket, HealthCheckPacket, SerializePacket,
    HEALTH_CHECK_ACK_OPCODE, HEALTH_CHECK_PACKET_SIZE, HEALTH_CHECK_SYN_OPCODE, NOOP_OPCODE,
};
use swizzy_decent::health_check_network_broker::{
    inbound_message, outbound_datagram, HealthCheckNetworkBrokerMessage,
};
use swizzy_decent::network_models::{IpAddress, SocketAddress};
use swizzy_decent::utils::generate_nonce;

#[test]
fn serialize_happy_case() {
    let packet = HealthCheckPacket {
        header: HEALTH_CHECK_SYN_OPCODE,
        nonce: [2, 3, 6, 1, 7, 3, 1, 3, 8, 9, 3, 2, 6, 3, 7, 3],
    };

    let serialized = packet.serialize();
    let expected: Vec<u8> = Vec::from([1, 2, 3, 6, 1, 7, 3, 1, 3, 8, 9, 3, 2, 6, 3, 7, 3]);
    assert_eq!(
        expected, serialized,
        "We expect the serialized data: {:?} to equal the expected vector: {:?}",
        serialized, expected
    );
}

#[test]
fn deserialize_happy_case() {
    let serialized: Vec<u8> = Vec::from([1, 2, 3, 6, 1, 7, 3, 1, 3, 8, 9, 3, 2, 6, 3, 7, 3]);

    let expected = HealthCheckPacket {
        header: HEALTH_CHECK_SYN_OPCODE,
        nonce: [2, 3, 6, 1, 7, 3, 1, 3, 8, 9, 3, 2, 6, 3, 7, 3],
    };

    let deserialized = HealthCheckPacket::deserialize(serialized);
    assert_eq!(
        expected, deserialized,
        "We expect the deserialized data: {:?} to equal the expected HealthCheckPacket: {:?}",
        deserialized, expected
    );
}

#[test]
fn deserialize_packet_size_too_small() {
    let serialized: Vec<u8> = Vec::from([1, 2, 3, 6, 1, 7, 3, 1, 3, 8, 9, 3, 2, 6, 3, 7]);

    let expected = HealthCheckPacket {
        header: NOOP_OPCODE,
        nonce: [0, 0, 0, 0, 0, 0, 0, 0, 0, 0, 0, 0, 0, 0, 0, 0],
    };

    let deserialized = HealthCheckPacket::deserialize(serialized);
    assert_eq!(
        expected, deserialized,
        "We expect the deserialized data: {:?} to equal the expected HealthCheckPacket: {:?} , with NOOP code and 0'd data when data too small",
        deserialized, expected
    );
}

#[test]
fn deserialize_packet_size_too_big() {
    let serialized: Vec<u8> = Vec::from([1, 2, 3, 6, 1, 7, 3, 1, 3, 8, 9, 3, 2, 6, 3, 7, 3, 9]);

    let expected = HealthCheckPacket {
        header: NOOP_OPCODE,
        nonce: [0, 0, 0, 0, 0, 0, 0, 0, 0, 0, 0, 0, 0, 0, 0, 0],
    };

    let deserialized = HealthCheckPacket::deserialize(serialized);
    assert_eq!(
        expected, deserialized,
        "We expect the deserialized data: {:?} to equal the expected HealthCheckPacket: {:?} , with NOOP code and 0'd data when data too large",
        deserialized, expected
    );
}

#[test]
fn deserialize_invalid_op_code() {
    let serialized: Vec<u8> = Vec::from([3, 2, 3, 6, 1, 7, 3, 1, 3, 8, 9, 3, 2, 6, 3, 7, 3]);

    let expected = HealthCheckPacket {
        header: NOOP_OPCODE,
        nonce: [0, 0, 0, 0, 0, 0, 0, 0, 0, 0, 0, 0, 0, 0, 0, 0],
    };

    let deserialized = HealthCheckPacket::deserialize(serialized);
    assert_eq!(
        expected, deserialized,
        "We expect the deserialized data: {:?} to equal the expected HealthCheckPacket: {:?} , with NOOP code and 0'd data when opcode is invalid",
        deserialized, expected
    );
}

#[test]
fn deserialize_opcode_99_with_zero_nonce_gives_noop() {
    let mut raw: Vec<u8> = vec![99];
    raw.extend(vec![0u8; 16]);
    let deserialized = HealthCheckPacket::deserialize(raw);
    assert_eq!(HealthCheckPacket { header: 0, nonce: [0; 16] }, deserialized);
}

#[test]
fn deserialize_noop_opcode_on_the_wire_loses_its_nonce() {
    let raw: Vec<u8> = vec![0, 9, 9, 9, 9, 9, 9, 9, 9, 9, 9, 9, 9, 9, 9, 9, 9];
    let deserialized = HealthCheckPacket::deserialize(raw);
    assert_eq!(HealthCheckPacket { header: NOOP_OPCODE, nonce: [0; 16] }, deserialized);
}

#[test]
fn deserialize_empty_gives_noop() {
    let deserialized = HealthCheckPacket::deserialize(Vec::new());
    assert_eq!(HealthCheckPacket { header: NOOP_OPCODE, nonce: [0; 16] }, deserialized);
}

#[test]
fn deserialize_ack_happy_case() {
    let raw: Vec<u8> = vec![2, 16, 15, 14, 13, 12, 11, 10, 9, 8, 7, 6, 5, 4, 3, 2, 1];
    let expected = HealthCheckPacket {
        header: HEALTH_CHECK_ACK_OPCODE,
        nonce: [16, 15, 14, 13, 12, 11, 10, 9, 8, 7, 6, 5, 4, 3, 2, 1],
    };
    assert_eq!(expected, HealthCheckPacket::deserialize(raw));
}

#[test]
fn codec_round_trip_for_both_opcodes() {
    let nonces: [[u8; 16]; 3] = [
        [0; 16],
        [255; 16],
        [0, 1, 2, 3, 4, 5, 6, 7, 8, 9, 10, 11, 12, 13, 14, 15],
    ];
    for opcode in [HEALTH_CHECK_SYN_OPCODE, HEALTH_CHECK_ACK_OPCODE] {
        for nonce in nonces {
            let packet = HealthCheckPacket { header: opcode, nonce };
            let wire = packet.serialize();
            assert_eq!(wire.len(), HEALTH_CHECK_PACKET_SIZE);
            assert_eq!(wire[0], opcode);
            assert_eq!(HealthCheckPacket::deserialize(wire), packet);
        }
    }
}

#[test]
fn serialize_does_not_check_the_opcode() {
    let packet = HealthCheckPacket { header: 77, nonce: [5; 16] };
    let wire = packet.serialize();
    let mut expected: Vec<u8> = vec![77];
    expected.extend(vec![5u8; 16]);
    assert_eq!(wire, expected);
    assert_eq!(
        HealthCheckPacket::deserialize(wire),
        HealthCheckPacket { header: NOOP_OPCODE, nonce: [0; 16] }
    );
}

#[test]
fn health_check_opcodes_are_syn_and_ack() {
    let opcodes = get_health_check_opcodes();
    assert_eq!(opcodes.len(), 2);
    assert!(opcodes.contains(&HEALTH_CHECK_SYN_OPCODE));
    assert!(opcodes.contains(&HEALTH_CHECK_ACK_OPCODE));
    assert!(!opcodes.contains(&NOOP_OPCODE));
    assert!(!opcodes.contains(&3));
}

#[test]
fn inbound_message_decodes_and_keeps_the_source() {
    let source = SocketAddress::new(IpAddress::v4(10, 0, 0, 7), 4000);
    let datagram: [u8; 17] = [1, 2, 3, 6, 1, 7, 3, 1, 3, 8, 9, 3, 2, 6, 3, 7, 3];
    let message = inbound_message(&datagram, source);
    assert_eq!(
        message,
        HealthCheckNetworkBrokerMessage {
            payload: HealthCheckPacket {
                header: HEALTH_CHECK_SYN_OPCODE,
                nonce: [2, 3, 6, 1, 7, 3, 1, 3, 8, 9, 3, 2, 6, 3, 7, 3],
            },
            remote_addr: source,
        }
    );
}

#[test]
fn inbound_message_of_wrong_length_is_noop() {
    let source = SocketAddress::new(IpAddress::v4(10, 0, 0, 7), 4000);
    let noop = HealthCheckPacket { header: NOOP_OPCODE, nonce: [0; 16] };
    let long: [u8; 18] = [1, 2, 3, 6, 1, 7, 3, 1, 3, 8, 9, 3, 2, 6, 3, 7, 3, 0];
    assert_eq!(inbound_message(&long, source).payload, noop);
    assert_eq!(inbound_message(&long[..16], source).payload, noop);
    assert_eq!(inbound_message(&long[..0], source).payload, noop);
    assert_eq!(inbound_message(&long[..16], source).remote_addr, source);
}

#[test]
fn outbound_datagram_is_the_wire_image() {
    let message = HealthCheckNetworkBrokerMessage {
        payload: HealthCheckPacket {
            header: HEALTH_CHECK_ACK_OPCODE,
            nonce: [2, 3, 6, 1, 7, 3, 1, 3, 8, 9, 3, 2, 6, 3, 7, 3],
        },
        remote_addr: SocketAddress::new(IpAddress::V6(1), 9),
    };
    let datagram = outbound_datagram(&message);
    assert_eq!(datagram, [2, 2, 3, 6, 1, 7, 3, 1, 3, 8, 9, 3, 2, 6, 3, 7, 3]);
    assert_eq!(datagram.to_vec(), message.payload.serialize());
}

#[test]
fn generated_nonce_is_a_random_uuid() {
    let first = generate_nonce();
    let second = generate_nonce();
    assert_eq!(first[6] & 0xf0, 0x40);
    assert_eq!(first[8] & 0xc0, 0x80);
    assert_eq!(second[6] & 0xf0, 0x40);
    assert_eq!(second[8] & 0xc0, 0x80);
    assert_ne!(first, second);
}
