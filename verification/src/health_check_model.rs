//! Health records: what is known of one port of one peer, and the set of
//! such records that a peer carries, keyed by port.

use std::collections::HashMap;
use vstd::prelude::*;
use vstd::std_specs::cmp::PartialEqSpecImpl;
use vstd::std_specs::iter::IteratorSpec;

verus! {

#[derive(Clone, Copy, Debug, Eq, PartialEq, Structural)]
pub enum HealthStatus {
    Healthy,
    AtRisk,
    Unhealthy,
}

#[derive(Clone, Copy, Debug, Eq, PartialEq, Structural)]
pub struct HealthStatusDetails {
    pub current_status: HealthStatus,
    /// Credit left before the peer counts as lost.
    pub lives_remaining: u8,
}

#[derive(Clone, Copy, Debug, Eq, PartialEq, Structural)]
pub struct HealthCheckConfiguration {
    pub health_check_port: u16,
}

#[derive(Clone, Copy, Debug, Eq, PartialEq, Structural)]
pub struct HealthCheck {
    pub configuration: HealthCheckConfiguration,
    pub status_details: HealthStatusDetails,
}

#[derive(Clone, Copy, Debug, Eq, PartialEq, Hash, Structural)]
pub struct HealthCheckKey {
    pub port: u16,
}

/// The records of one peer, at most one per port.
#[derive(Debug)]
pub struct HealthChecks {
    health_checks: HashMap<u16, HealthCheck>,
}

impl View for HealthChecks {
    type V = Map<u16, HealthCheck>;

    closed spec fn view(&self) -> Map<u16, HealthCheck> {
        self.health_checks@
    }
}

impl HealthChecks {
    /// A peer with no record yet.
    pub fn new() -> (health_checks: Self)
        ensures
            health_checks@ == Map::<u16, HealthCheck>::empty(),
    {
        HealthChecks { health_checks: HashMap::new() }
    }

    /// Stores `health_check` under the key's port, replacing what was there.
    /// Every other port keeps its record.
    pub fn put_health_check(&mut self, health_check_key: HealthCheckKey, health_check: HealthCheck)
        ensures
            final(self)@ == old(self)@.insert(health_check_key.port, health_check),
    {
        broadcast use vstd::std_specs::hash::group_hash_axioms;

        self.health_checks.insert(health_check_key.port, health_check);
    }

    /// The record stored for the key's port, or `Err` when there is none.
    pub fn get_health_check(&self, health_check_key: HealthCheckKey) -> (found: Result<
        HealthCheck,
        (),
    >)
        ensures
            found is Ok <==> self@.contains_key(health_check_key.port),
            found is Ok ==> found->Ok_0 == self@[health_check_key.port],
    {
        broadcast use vstd::std_specs::hash::group_hash_axioms;

        match self.health_checks.get(&health_check_key.port) {
            Some(health_check) => Ok(*health_check),
            None => Err(()),
        }
    }

    /// The ports of a list of records, in the list's order.
    pub open spec fn ports_of(records: Seq<(HealthCheckKey, HealthCheck)>) -> Seq<u16> {
        records.map_values(|record: (HealthCheckKey, HealthCheck)| record.0.port)
    }

    /// Every record with its key: each port that has a record comes once,
    /// with the record stored for it, in no particular order.
    pub fn records(&self) -> (records: Vec<(HealthCheckKey, HealthCheck)>)
        ensures
            Self::ports_of(records@).no_duplicates(),
            Self::ports_of(records@).to_set() == self@.dom(),
            forall|i: int|
                0 <= i < records@.len() ==> (#[trigger] records@[i]).1 == self@[records@[i].0.port],
    {
        broadcast use vstd::std_specs::hash::group_hash_axioms;

        let mut records: Vec<(HealthCheckKey, HealthCheck)> = Vec::new();
        let ghost entries = self.health_checks.iter().remaining();
        for entry in it: self.health_checks.iter()
            invariant
                it.seq() == entries,
                records@.len() == it.index(),
                forall|j: int|
                    0 <= j < it.index() ==> (#[trigger] records@[j]).0.port == *entries[j].0
                        && records@[j].1 == *entries[j].1,
        {
            records.push((HealthCheckKey { port: *entry.0 }, *entry.1));
        }
        proof {
            let ports = Self::ports_of(records@);
            assert forall|port: u16| self@.dom().contains(port) implies ports.to_set().contains(
                port,
            ) by {
                assert(self@.contains_key(port));
                let j = choose|j: int|
                    0 <= j < entries.len() && entries[j] == (&port, &self@[port]);
                assert(records@[j].0.port == port);
                assert(ports[j] == port);
            }
            assert forall|port: u16| ports.to_set().contains(port) implies self@.dom().contains(
                port,
            ) by {
                let j = choose|j: int| 0 <= j < ports.len() && ports[j] == port;
                assert(records@[j].0.port == port);
            }
            assert(ports.to_set() =~= self@.dom());
            ports.lemma_no_dup_set_cardinality();
        }
        records
    }
}

impl Clone for HealthChecks {
    /// A copy that holds the same record for every port.
    fn clone(&self) -> (copy: Self)
        ensures
            copy@ == self@,
    {
        HealthChecks { health_checks: self.health_checks.clone() }
    }
}

impl PartialEq for HealthChecks {
    /// Two sets of records are equal when they cover the same ports with
    /// equal records.
    fn eq(&self, other: &Self) -> (equal: bool) {
        broadcast use vstd::std_specs::hash::group_hash_axioms;

        if self.health_checks.len() != other.health_checks.len() {
            return false;
        }
        for port in it: self.health_checks.keys()
            invariant
                it.seq().unref().to_set() == self@.dom(),
                forall|j: int|
                    0 <= j < it.index() ==> other@.contains_key(*#[trigger] it.seq()[j])
                        && other@[*it.seq()[j]] == self@[*it.seq()[j]],
        {
            match other.health_checks.get(port) {
                None => {
                    return false;
                },
                Some(your_health_check) => {
                    let my_health_check = self.health_checks.get(port);
                    if my_health_check.is_none() || *my_health_check.unwrap()
                        != *your_health_check {
                        return false;
                    }
                },
            }
        }
        proof {
            lemma_same_records(self@, other@);
        }
        true
    }
}

impl Eq for HealthChecks {

}

impl PartialEqSpecImpl for HealthChecks {
    open spec fn obeys_eq_spec() -> bool {
        true
    }

    open spec fn eq_spec(&self, other: &Self) -> bool {
        self@ == other@
    }
}

/// Two finite maps of the same size, one of which holds every entry of the
/// other, are the same map.
pub proof fn lemma_same_records(mine: Map<u16, HealthCheck>, yours: Map<u16, HealthCheck>)
    requires
        mine.dom().finite(),
        yours.dom().finite(),
        mine.len() == yours.len(),
        forall|port: u16| #[trigger]
            mine.contains_key(port) ==> yours.contains_key(port) && yours[port] == mine[port],
    ensures
        mine == yours,
{
    assert(mine.dom().subset_of(yours.dom()));
    vstd::set_lib::lemma_subset_equality(mine.dom(), yours.dom());
    assert(mine =~= yours);
}

} // verus!
