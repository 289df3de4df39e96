use swizzy_decent::health_check_model::{
    HealthCheck, HealthCheckConfiguration, HealthCheckKey, HealthChecks, HealthStatus,
    HealthStatusDetails,
};
use swizzy_decent::network::{NetworkDetailsStore, IP, RECEIVER_PORT, SENDER_PORT};
use swizzy_decent::network_models::{IpAddress, NetworkDetails, SocketAddress};

fn record(port: u16, lives: u8) -> HealthCheck {
    HealthCheck {
        status_details: HealthStatusDetails {
            current_status: HealthStatus::Healthy,
            lives_remaining: lives,
        },
        configuration: HealthCheckConfiguration { health_check_port: port },
    }
}

#[test]
fn network_details_store_initializes_successfully() {
    let _store = NetworkDetailsStore::new();
}

#[test]
fn network_details_store_returns_data() {
    let mut store = NetworkDetailsStore::new();
    let mut health_checks = HealthChecks::new();
    health_checks.put_health_check(
        HealthCheckKey { port: 3000 },
        HealthCheck {
            status_details: HealthStatusDetails {
                current_status: HealthStatus::Healthy,
                lives_remaining: 0,
            },
            configuration: HealthCheckConfiguration { health_check_port: 3000 },
        },
    );

    let dummy_record = NetworkDetails { addr: IpAddress::V4(IP), health_checks };
    store.put_network_details(&dummy_record);

    let result = store.get_network_details_by_ip(&IpAddress::V4(IP)).unwrap().clone();
    println!("{:?}", result);
    println!("{:?}", store);
    assert_eq!(dummy_record, result);
}

#[test]
fn network_details_store_stores_and_returns_data() {
    let mut health_checks = HealthChecks::new();
    health_checks.put_health_check(
        HealthCheckKey { port: 3000 },
        HealthCheck {
            status_details: HealthStatusDetails {
                current_status: HealthStatus::Healthy,
                lives_remaining: 0,
            },
            configuration: HealthCheckConfiguration { health_check_port: 3000 },
        },
    );
    let dummy_record = NetworkDetails { addr: IpAddress::V4(IP), health_checks };
    let mut store = NetworkDetailsStore::new();
    store.put_network_details(&dummy_record);
    store.get_network_details_by_ip(&dummy_record.addr).unwrap();
}

#[test]
fn lookup_of_unknown_ip_is_not_found() {
    let mut store = NetworkDetailsStore::new();
    assert_eq!(store.get_network_details_by_ip(&IpAddress::V4(IP)), Err(()));
    assert_eq!(store.get_network_details_by_ip(&IpAddress::V6(1)), Err(()));
    store.put_network_details(&NetworkDetails {
        addr: IpAddress::V4(IP),
        health_checks: HealthChecks::new(),
    });
    assert!(store.get_network_details_by_ip(&IpAddress::V4(IP)).is_ok());
    assert_eq!(store.get_network_details_by_ip(&IpAddress::V4(IP + 1)), Err(()));
    assert_eq!(store.get_network_details_by_ip(&IpAddress::V6(0x7f00_0001)), Err(()));
}

#[test]
fn put_replaces_the_whole_entry() {
    let ip = IpAddress::v4(192, 0, 2, 1);
    let mut first = HealthChecks::new();
    first.put_health_check(HealthCheckKey { port: 1 }, record(1, 1));
    first.put_health_check(HealthCheckKey { port: 2 }, record(2, 2));
    let mut second = HealthChecks::new();
    second.put_health_check(HealthCheckKey { port: 3 }, record(3, 3));

    let mut store = NetworkDetailsStore::new();
    store.put_network_details(&NetworkDetails { addr: ip, health_checks: first });
    store.put_network_details(&NetworkDetails { addr: ip, health_checks: second.clone() });

    let found = store.get_network_details_by_ip(&ip).unwrap();
    assert_eq!(found, NetworkDetails { addr: ip, health_checks: second });
    assert_eq!(found.health_checks.get_health_check(HealthCheckKey { port: 1 }), Err(()));
    assert_eq!(found.health_checks.get_health_check(HealthCheckKey { port: 3 }), Ok(record(3, 3)));
    assert_eq!(store.entries().len(), 1);
}

#[test]
fn put_leaves_other_addresses_alone() {
    let a = IpAddress::v4(192, 0, 2, 1);
    let b = IpAddress::V6(0x2001_0db8_0000_0000_0000_0000_0000_0001);
    let mut checks_a = HealthChecks::new();
    checks_a.put_health_check(HealthCheckKey { port: 1 }, record(1, 1));
    let mut checks_b = HealthChecks::new();
    checks_b.put_health_check(HealthCheckKey { port: 2 }, record(2, 2));

    let mut store = NetworkDetailsStore::new();
    store.put_network_details(&NetworkDetails { addr: a, health_checks: checks_a.clone() });
    store.put_network_details(&NetworkDetails { addr: b, health_checks: checks_b.clone() });

    assert_eq!(
        store.get_network_details_by_ip(&a).unwrap(),
        NetworkDetails { addr: a, health_checks: checks_a }
    );
    assert_eq!(
        store.get_network_details_by_ip(&b).unwrap(),
        NetworkDetails { addr: b, health_checks: checks_b }
    );
    let mut addresses: Vec<IpAddress> = Vec::new();
    for entry in store.entries() {
        addresses.push(entry.addr);
    }
    assert_eq!(addresses.len(), 2);
    assert!(addresses.contains(&a));
    assert!(addresses.contains(&b));
}

#[test]
fn stored_entry_is_a_copy() {
    let ip = IpAddress::v4(192, 0, 2, 1);
    let mut entry = NetworkDetails { addr: ip, health_checks: HealthChecks::new() };
    let mut store = NetworkDetailsStore::new();
    store.put_network_details(&entry);
    entry.health_checks.put_health_check(HealthCheckKey { port: 1 }, record(1, 1));
    let found = store.get_network_details_by_ip(&ip).unwrap();
    assert_eq!(found.health_checks.records().len(), 0);
    assert!(found != entry);
}

#[test]
fn health_checks_put_and_get() {
    let mut checks = HealthChecks::new();
    assert_eq!(checks.get_health_check(HealthCheckKey { port: 3000 }), Err(()));
    checks.put_health_check(HealthCheckKey { port: 3000 }, record(3000, 2));
    assert_eq!(checks.get_health_check(HealthCheckKey { port: 3000 }), Ok(record(3000, 2)));
    assert_eq!(checks.get_health_check(HealthCheckKey { port: 3001 }), Err(()));
    checks.put_health_check(HealthCheckKey { port: 3000 }, record(3000, 3));
    assert_eq!(checks.get_health_check(HealthCheckKey { port: 3000 }), Ok(record(3000, 3)));
    assert_eq!(checks.records(), vec![(HealthCheckKey { port: 3000 }, record(3000, 3))]);
}

#[test]
fn health_checks_equality_and_clone() {
    let mut left = HealthChecks::new();
    let mut right = HealthChecks::new();
    assert!(left == right);
    left.put_health_check(HealthCheckKey { port: 1 }, record(1, 1));
    assert!(left != right);
    right.put_health_check(HealthCheckKey { port: 2 }, record(1, 1));
    assert!(left != right);
    right.put_health_check(HealthCheckKey { port: 1 }, record(1, 2));
    left.put_health_check(HealthCheckKey { port: 2 }, record(1, 1));
    assert!(left != right);
    right.put_health_check(HealthCheckKey { port: 1 }, record(1, 1));
    assert!(left == right);
    let copy = left.clone();
    assert!(copy == left);
    left.put_health_check(HealthCheckKey { port: 3 }, record(3, 3));
    assert!(copy != left);
    assert_eq!(copy.records().len(), 2);
}

#[test]
fn records_lists_each_port_once() {
    let mut checks = HealthChecks::new();
    for port in [7u16, 8, 9, 7] {
        checks.put_health_check(HealthCheckKey { port }, record(port, 1));
    }
    let mut ports: Vec<u16> = Vec::new();
    for (key, check) in checks.records() {
        assert_eq!(check, record(key.port, 1));
        ports.push(key.port);
    }
    ports.sort();
    assert_eq!(ports, vec![7, 8, 9]);
}

#[test]
fn addresses_from_octets() {
    assert_eq!(IpAddress::v4(127, 0, 0, 1), IpAddress::V4(IP));
    assert_eq!(IpAddress::v4(203, 0, 113, 5), IpAddress::V4(0xCB00_7105));
    assert_eq!(IpAddress::v4(255, 255, 255, 255), IpAddress::V4(u32::MAX));
    assert_eq!(IpAddress::v4(0, 0, 0, 0), IpAddress::V4(0));
    assert!(IpAddress::V4(1) != IpAddress::V6(1));
}

#[test]
fn socket_address_parts() {
    let v4 = SocketAddress::new(IpAddress::V4(IP), RECEIVER_PORT);
    assert_eq!(v4, SocketAddress::V4 { ip: IP, port: 3451 });
    assert_eq!(v4.ip(), IpAddress::V4(IP));
    assert_eq!(v4.port(), 3451);
    let v6 = SocketAddress::new(IpAddress::V6(1), SENDER_PORT);
    assert_eq!(v6, SocketAddress::V6 { ip: 1, port: 3450, flowinfo: 0, scope_id: 0 });
    assert_eq!(v6.ip(), IpAddress::V6(1));
    assert_eq!(v6.port(), 3450);
    let scoped = SocketAddress::V6 { ip: 1, port: 3450, flowinfo: 4, scope_id: 2 };
    assert_eq!(scoped.ip(), IpAddress::V6(1));
    assert_eq!(scoped.port(), 3450);
    assert!(scoped != v6);
}
