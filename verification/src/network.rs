//! The peer health table: one entry per remote address.

use crate::health_check_model::HealthChecks;
use crate::network_models::{IpAddress, NetworkDetails, NetworkDetailsView};
use std::collections::HashMap;
use vstd::prelude::*;
use vstd::std_specs::iter::IteratorSpec;

verus! {

/// The loopback address 127.0.0.1.
pub const IP: u32 = 0x7f00_0001;

pub const RECEIVER_PORT: u16 = 3451;

pub const SENDER_PORT: u16 = 3450;

/// The entries of the table, found by address. The records of an address
/// are kept under that address, so an address has at most one entry and an
/// entry is never found under an address other than its own.
#[derive(Debug)]
pub struct NetworkDetailsStore {
    v4_hosts: HashMap<u32, HealthChecks>,
    v6_hosts: HashMap<u128, HealthChecks>,
}

impl View for NetworkDetailsStore {
    type V = Map<IpAddress, NetworkDetailsView>;

    closed spec fn view(&self) -> Map<IpAddress, NetworkDetailsView> {
        Map::new(
            |ip: IpAddress|
                match ip {
                    IpAddress::V4(bits) => self.v4_hosts@.contains_key(bits),
                    IpAddress::V6(bits) => self.v6_hosts@.contains_key(bits),
                },
            |ip: IpAddress|
                NetworkDetailsView {
                    addr: ip,
                    health_checks: match ip {
                        IpAddress::V4(bits) => self.v4_hosts@[bits]@,
                        IpAddress::V6(bits) => self.v6_hosts@[bits]@,
                    },
                },
        )
    }
}

/// Every entry of `table` carries the address under which it is found.
pub open spec fn keyed_by_address(table: Map<IpAddress, NetworkDetailsView>) -> bool {
    forall|ip: IpAddress| #[trigger] table.contains_key(ip) ==> table[ip].addr == ip
}

/// The addresses of a list of entries, in the list's order.
pub open spec fn addresses_of(entries: Seq<NetworkDetails>) -> Seq<IpAddress> {
    entries.map_values(|entry: NetworkDetails| entry.addr)
}

impl NetworkDetailsStore {
    /// An empty table.
    pub fn new() -> (store: NetworkDetailsStore)
        ensures
            store@ == Map::<IpAddress, NetworkDetailsView>::empty(),
    {
        let store = NetworkDetailsStore { v4_hosts: HashMap::new(), v6_hosts: HashMap::new() };
        assert(store@ =~= Map::<IpAddress, NetworkDetailsView>::empty());
        store
    }

    /// A copy of the entry for `ip`, or `Err` when the table has none. An
    /// address that was never stored gives `Err`, never an empty entry.
    pub fn get_network_details_by_ip(&self, ip: &IpAddress) -> (found: Result<NetworkDetails, ()>)
        ensures
            found is Ok <==> self@.contains_key(*ip),
            found is Err <==> !self@.contains_key(*ip),
            found is Ok ==> found->Ok_0@ == self@[*ip] && found->Ok_0.addr == *ip,
            keyed_by_address(self@),
    {
        broadcast use vstd::std_specs::hash::group_hash_axioms;

        let record = match *ip {
            IpAddress::V4(bits) => self.v4_hosts.get(&bits),
            IpAddress::V6(bits) => self.v6_hosts.get(&bits),
        };
        match record {
            Some(health_checks) => Ok(
                NetworkDetails { addr: *ip, health_checks: health_checks.clone() },
            ),
            None => Err(()),
        }
    }

    /// Stores a copy of `network_details` under its address. An entry that
    /// was there for that address is replaced as a whole; the entries of
    /// all other addresses stay as they were.
    pub fn put_network_details(&mut self, network_details: &NetworkDetails)
        ensures
            final(self)@ == old(self)@.insert(network_details.addr, network_details@),
            keyed_by_address(final(self)@),
    {
        broadcast use vstd::std_specs::hash::group_hash_axioms;

        let record = network_details.health_checks.clone();
        match network_details.addr {
            IpAddress::V4(bits) => {
                self.v4_hosts.insert(bits, record);
            },
            IpAddress::V6(bits) => {
                self.v6_hosts.insert(bits, record);
            },
        }
        assert(self@ =~= old(self)@.insert(network_details.addr, network_details@));
    }

    /// A copy of every entry: each address that the table knows comes once,
    /// with the entry stored for it, in no particular order.
    pub fn entries(&self) -> (entries: Vec<NetworkDetails>)
        ensures
            addresses_of(entries@).no_duplicates(),
            addresses_of(entries@).to_set() == self@.dom(),
            forall|i: int|
                0 <= i < entries@.len() ==> (#[trigger] entries@[i])@ == self@[entries@[i].addr],
    {
        broadcast use vstd::std_specs::hash::group_hash_axioms;

        let mut entries: Vec<NetworkDetails> = Vec::new();
        let ghost v4 = self.v4_hosts.iter().remaining();
        for host in it: self.v4_hosts.iter()
            invariant
                it.seq() == v4,
                entries@.len() == it.index(),
                forall|j: int|
                    0 <= j < it.index() ==> (#[trigger] entries@[j]).addr == IpAddress::V4(
                        *v4[j].0,
                    ) && entries@[j].health_checks@ == v4[j].1@,
        {
            entries.push(
                NetworkDetails { addr: IpAddress::V4(*host.0), health_checks: host.1.clone() },
            );
        }
        let ghost v6 = self.v6_hosts.iter().remaining();
        for host in it: self.v6_hosts.iter()
            invariant
                it.seq() == v6,
                entries@.len() == v4.len() + it.index(),
                forall|j: int|
                    0 <= j < v4.len() ==> (#[trigger] entries@[j]).addr == IpAddress::V4(*v4[j].0)
                        && entries@[j].health_checks@ == v4[j].1@,
                forall|j: int|
                    0 <= j < it.index() ==> (#[trigger] entries@[v4.len() + j]).addr
                        == IpAddress::V6(*v6[j].0) && entries@[v4.len() + j].health_checks@
                        == v6[j].1@,
        {
            entries.push(
                NetworkDetails { addr: IpAddress::V6(*host.0), health_checks: host.1.clone() },
            );
        }
        proof {
            let addresses = addresses_of(entries@);
            assert forall|ip: IpAddress| self@.dom().contains(ip) implies addresses.to_set().contains(
                ip,
            ) by {
                match ip {
                    IpAddress::V4(bits) => {
                        let j = choose|j: int|
                            0 <= j < v4.len() && v4[j] == (&bits, &self.v4_hosts@[bits]);
                        assert(entries@[j].addr == ip);
                        assert(addresses[j] == ip);
                    },
                    IpAddress::V6(bits) => {
                        let j = choose|j: int|
                            0 <= j < v6.len() && v6[j] == (&bits, &self.v6_hosts@[bits]);
                        assert(entries@[v4.len() + j].addr == ip);
                        assert(addresses[v4.len() + j] == ip);
                    },
                }
            }
            assert forall|ip: IpAddress| addresses.to_set().contains(ip) implies self@.dom().contains(
                ip,
            ) by {
                let j = choose|j: int| 0 <= j < addresses.len() && addresses[j] == ip;
                assert(entries@[j].addr == ip);
                if j >= v4.len() {
                    assert(entries@[v4.len() + (j - v4.len())].addr == ip);
                }
            }
            assert(addresses.to_set() =~= self@.dom());
            assert forall|i: int, j: int|
                0 <= i < addresses.len() && 0 <= j < addresses.len() && i != j implies addresses[i]
                != addresses[j] by {
                assert(entries@[i].addr == addresses[i]);
                assert(entries@[j].addr == addresses[j]);
                if i >= v4.len() {
                    assert(entries@[v4.len() + (i - v4.len())].addr == addresses[i]);
                }
                if j >= v4.len() {
                    assert(entries@[v4.len() + (j - v4.len())].addr == addresses[j]);
                }
                if addresses[i] == addresses[j] {
                    if i < v4.len() {
                        assert(self.v4_hosts@.contains_key(*v4[i].0));
                        assert(self.v4_hosts@.contains_key(*v4[j].0));
                        assert(v4[i] == v4[j]);
                    } else {
                        let (m, n) = (i - v4.len(), j - v4.len());
                        assert(self.v6_hosts@.contains_key(*v6[m].0));
                        assert(self.v6_hosts@.contains_key(*v6[n].0));
                        assert(v6[m] == v6[n]);
                    }
                }
            }
            assert forall|i: int| 0 <= i < entries@.len() implies (#[trigger] entries@[i])@
                == self@[entries@[i].addr] by {
                if i >= v4.len() {
                    assert(entries@[v4.len() + (i - v4.len())].addr == entries@[i].addr);
                }
            }
        }
        entries
    }

    /// Whatever the table holds, each entry names the address it is found
    /// under.
    pub proof fn lemma_keyed_by_address(&self)
        ensures
            keyed_by_address(self@),
    {
    }
}

} // verus!
