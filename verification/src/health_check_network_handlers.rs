//! What is done with a message that came in: the handler of each opcode,
//! the map from opcode to handler, and the listener that routes a message
//! through that map.
//!
//! A probe is answered with an acknowledgement to its sender and changes
//! nothing. An acknowledgement refreshes the sender's record in the table
//! and is answered with nothing. The no-op packet is dropped.

use crate::health_check::{HEALTH_CHECK_ACK_OPCODE, HEALTH_CHECK_SYN_OPCODE, NOOP_OPCODE};
use crate::health_check::HealthCheckPacket;
use crate::health_check_model::{
    HealthCheck, HealthCheckConfiguration, HealthCheckKey, HealthChecks, HealthStatus,
    HealthStatusDetails,
};
use crate::health_check_network_broker::HealthCheckNetworkBrokerMessage;
use crate::network::NetworkDetailsStore;
use crate::network_models::{IpAddress, NetworkDetails, NetworkDetailsView, SocketAddress};
use std::collections::HashMap;
use vstd::prelude::*;

verus! {

/// The credit a record starts with, and the most it can hold.
pub const MAX_LIVES_REMAINING: u8 = 3;

/// What a handler is given besides the table: the message to handle.
#[derive(Clone, Copy, Debug)]
pub struct OpcodeHandlerParams {
    pub message: HealthCheckNetworkBrokerMessage,
}

/// The handler that an opcode is routed to.
#[derive(Clone, Copy, Debug, Eq, PartialEq, Structural)]
pub enum OpcodeHandler {
    Noop,
    Syn,
    Ack,
}

/// The opcodes that have a handler.
pub open spec fn has_handler(opcode: u8) -> bool {
    opcode == NOOP_OPCODE || opcode == HEALTH_CHECK_SYN_OPCODE || opcode == HEALTH_CHECK_ACK_OPCODE
}

/// The handler of each opcode.
pub open spec fn opcode_handlers() -> Map<u8, OpcodeHandler> {
    map![
        NOOP_OPCODE => OpcodeHandler::Noop,
        HEALTH_CHECK_SYN_OPCODE => OpcodeHandler::Syn,
        HEALTH_CHECK_ACK_OPCODE => OpcodeHandler::Ack,
    ]
}

/// The record that a port gets with its first acknowledgement.
pub open spec fn first_health_check(port: u16) -> HealthCheck {
    HealthCheck {
        configuration: HealthCheckConfiguration { health_check_port: port },
        status_details: HealthStatusDetails {
            current_status: HealthStatus::Healthy,
            lives_remaining: MAX_LIVES_REMAINING,
        },
    }
}

/// A record after one more acknowledgement: one more life, unless it is at
/// the maximum already. Nothing else changes.
pub open spec fn refreshed(health_check: HealthCheck) -> HealthCheck {
    let lives = health_check.status_details.lives_remaining;
    HealthCheck {
        configuration: health_check.configuration,
        status_details: HealthStatusDetails {
            current_status: health_check.status_details.current_status,
            lives_remaining: if lives < MAX_LIVES_REMAINING {
                (lives + 1) as u8
            } else {
                lives
            },
        },
    }
}

/// The records that `table` holds for `ip`; none where it has no entry.
pub open spec fn known_checks(
    table: Map<IpAddress, NetworkDetailsView>,
    ip: IpAddress,
) -> Map<u16, HealthCheck> {
    if table.contains_key(ip) {
        table[ip].health_checks
    } else {
        Map::empty()
    }
}

/// The entry of `ip` once `port` of it has acknowledged: the port's record
/// is refreshed, or made if there was none; the other ports keep theirs.
pub open spec fn acknowledged_entry(
    table: Map<IpAddress, NetworkDetailsView>,
    ip: IpAddress,
    port: u16,
) -> NetworkDetailsView {
    let checks = known_checks(table, ip);
    NetworkDetailsView {
        addr: ip,
        health_checks: checks.insert(
            port,
            if checks.contains_key(port) {
                refreshed(checks[port])
            } else {
                first_health_check(port)
            },
        ),
    }
}

/// The table once `remote_addr` has acknowledged: the entry of its address
/// is replaced, all others stay.
pub open spec fn acknowledged_table(
    table: Map<IpAddress, NetworkDetailsView>,
    remote_addr: SocketAddress,
) -> Map<IpAddress, NetworkDetailsView> {
    table.insert(
        remote_addr.ip(),
        acknowledged_entry(table, remote_addr.ip(), remote_addr.port()),
    )
}

/// The answer to a probe: the same nonce under the acknowledgement opcode,
/// addressed to where the probe came from.
pub open spec fn acknowledgement(
    message: HealthCheckNetworkBrokerMessage,
) -> HealthCheckNetworkBrokerMessage {
    HealthCheckNetworkBrokerMessage {
        payload: HealthCheckPacket {
            header: HEALTH_CHECK_ACK_OPCODE,
            nonce: message.payload.nonce,
        },
        remote_addr: message.remote_addr,
    }
}

/// What `handler` sends back for `message`, if anything.
pub open spec fn handler_response(
    handler: OpcodeHandler,
    message: HealthCheckNetworkBrokerMessage,
) -> Option<HealthCheckNetworkBrokerMessage> {
    match handler {
        OpcodeHandler::Syn => Some(acknowledgement(message)),
        OpcodeHandler::Ack => None,
        OpcodeHandler::Noop => None,
    }
}

/// The table after `handler` has handled `message`.
pub open spec fn handler_table(
    handler: OpcodeHandler,
    table: Map<IpAddress, NetworkDetailsView>,
    message: HealthCheckNetworkBrokerMessage,
) -> Map<IpAddress, NetworkDetailsView> {
    match handler {
        OpcodeHandler::Syn => table,
        OpcodeHandler::Ack => acknowledged_table(table, message.remote_addr),
        OpcodeHandler::Noop => table,
    }
}

/// No record of the entry holds more lives than the maximum.
pub open spec fn entry_within_limit(entry: NetworkDetailsView) -> bool {
    forall|port: u16| #[trigger]
        entry.health_checks.contains_key(port)
            ==> entry.health_checks[port].status_details.lives_remaining <= MAX_LIVES_REMAINING
}

/// No record of the table holds more lives than the maximum.
pub open spec fn lives_within_limit(table: Map<IpAddress, NetworkDetailsView>) -> bool {
    forall|ip: IpAddress| #[trigger] table.contains_key(ip) ==> entry_within_limit(table[ip])
}

/// Handles a probe: answers with exactly one acknowledgement, which carries
/// the probe's nonce back to the probe's sender. The answer does not depend
/// on the table, and the table, borrowed for reading, is left as it was.
pub fn health_check_syn_opcode_handler(
    context: &NetworkDetailsStore,
    params: OpcodeHandlerParams,
) -> (response: Option<HealthCheckNetworkBrokerMessage>)
    ensures
        response == Some(acknowledgement(params.message)),
        response->0.payload.header == HEALTH_CHECK_ACK_OPCODE,
        response->0.payload.nonce == params.message.payload.nonce,
        response->0.remote_addr == params.message.remote_addr,
{
    let mut response_object = params.message;
    response_object.payload.header = HEALTH_CHECK_ACK_OPCODE;
    Some(response_object)
}

/// Handles an acknowledgement: refreshes the record of the sender's port in
/// the entry of the sender's address, making entry and record where they
/// are missing, and writes the entry back. A new record is healthy with the
/// maximum of lives; a known one gains a life up to the maximum and keeps
/// its status. The nonce is not looked at, and nothing is sent back.
pub fn health_check_ack_opcode_handler(
    context: &mut NetworkDetailsStore,
    params: OpcodeHandlerParams,
) -> (response: Option<HealthCheckNetworkBrokerMessage>)
    ensures
        response is None,
        final(context)@ == acknowledged_table(old(context)@, params.message.remote_addr),
        lives_within_limit(old(context)@) ==> lives_within_limit(final(context)@),
{
    let ip = params.message.remote_addr.ip();
    let port = params.message.remote_addr.port();
    let existing_record_retrieve_result = context.get_network_details_by_ip(&ip);
    let health_check_key = HealthCheckKey { port };
    let new_record;
    match existing_record_retrieve_result {
        Err(_) => {
            let mut health_checks = HealthChecks::new();
            let new_health_check = HealthCheck {
                status_details: HealthStatusDetails {
                    current_status: HealthStatus::Healthy,
                    lives_remaining: MAX_LIVES_REMAINING,
                },
                configuration: HealthCheckConfiguration { health_check_port: port },
            };
            health_checks.put_health_check(health_check_key, new_health_check);
            new_record = NetworkDetails { addr: ip, health_checks };
        },
        Ok(found) => {
            let mut old_record = found;
            match old_record.health_checks.get_health_check(health_check_key) {
                Ok(known) => {
                    let mut health_check = known;
                    let old_lives_remaining: u8 = health_check.status_details.lives_remaining;
                    if old_lives_remaining < MAX_LIVES_REMAINING {
                        health_check.status_details.lives_remaining = old_lives_remaining + 1;
                    }
                    old_record.health_checks.put_health_check(health_check_key, health_check);
                    new_record = old_record;
                },
                Err(_) => {
                    let mut health_checks = old_record.health_checks;
                    let new_health_check = HealthCheck {
                        status_details: HealthStatusDetails {
                            current_status: HealthStatus::Healthy,
                            lives_remaining: MAX_LIVES_REMAINING,
                        },
                        configuration: HealthCheckConfiguration { health_check_port: port },
                    };
                    health_checks.put_health_check(health_check_key, new_health_check);
                    new_record = NetworkDetails { addr: ip, health_checks };
                },
            }
        },
    }
    context.put_network_details(&new_record);
    proof {
        if lives_within_limit(old(context)@) {
            lemma_acknowledgement_keeps_limit(old(context)@, params.message.remote_addr);
        }
    }
    None
}

/// Handles the no-op packet: drops it. Nothing is sent and nothing changes.
pub fn health_check_noop_opcode_handler(
    context: &NetworkDetailsStore,
    params: OpcodeHandlerParams,
) -> (response: Option<HealthCheckNetworkBrokerMessage>)
    ensures
        response is None,
{
    None
}

impl OpcodeHandler {
    /// Runs the handler on a message, with the table at hand.
    pub fn handle(&self, context: &mut NetworkDetailsStore, params: OpcodeHandlerParams) -> (response:
        Option<HealthCheckNetworkBrokerMessage>)
        ensures
            response == handler_response(*self, params.message),
            final(context)@ == handler_table(*self, old(context)@, params.message),
            lives_within_limit(old(context)@) ==> lives_within_limit(final(context)@),
    {
        match self {
            OpcodeHandler::Noop => health_check_noop_opcode_handler(&*context, params),
            OpcodeHandler::Syn => health_check_syn_opcode_handler(&*context, params),
            OpcodeHandler::Ack => health_check_ack_opcode_handler(context, params),
        }
    }
}

/// The map from opcode to handler. It has a handler for the no-op, the
/// probe and the acknowledgement opcode, and for no other.
pub fn get_health_check_handler_map() -> (map: HashMap<u8, OpcodeHandler>)
    ensures
        map@ == opcode_handlers(),
        forall|opcode: u8| map@.contains_key(opcode) <==> has_handler(opcode),
{
    broadcast use vstd::std_specs::hash::group_hash_axioms;

    let mut map: HashMap<u8, OpcodeHandler> = HashMap::new();
    map.insert(NOOP_OPCODE, OpcodeHandler::Noop);
    map.insert(HEALTH_CHECK_SYN_OPCODE, OpcodeHandler::Syn);
    map.insert(HEALTH_CHECK_ACK_OPCODE, OpcodeHandler::Ack);
    assert(map@ =~= opcode_handlers());
    map
}

/// Takes the messages that the broker received, one at a time, and routes
/// each to the handler of its opcode. It holds the table that the handlers
/// work on.
#[derive(Debug)]
pub struct HealthCheckNetworkBrokerMessageListener {
    health_check_handler_map: HashMap<u8, OpcodeHandler>,
    network_details_store: NetworkDetailsStore,
}

impl HealthCheckNetworkBrokerMessageListener {
    /// The handler that the listener holds for each opcode.
    pub closed spec fn handlers(&self) -> Map<u8, OpcodeHandler> {
        self.health_check_handler_map@
    }

    /// The table that the listener keeps.
    pub closed spec fn table(&self) -> Map<IpAddress, NetworkDetailsView> {
        self.network_details_store@
    }

    /// A listener over `network_details_store`, with the handler of every
    /// opcode in place.
    pub fn new(network_details_store: NetworkDetailsStore) -> (listener: Self)
        ensures
            listener.handlers() == opcode_handlers(),
            listener.table() == network_details_store@,
    {
        HealthCheckNetworkBrokerMessageListener {
            health_check_handler_map: get_health_check_handler_map(),
            network_details_store,
        }
    }

    /// Whether the listener holds a handler for `opcode`.
    pub fn has_handler_for(&self, opcode: u8) -> (found: bool)
        ensures
            found == self.handlers().contains_key(opcode),
    {
        broadcast use vstd::std_specs::hash::group_hash_axioms;

        self.health_check_handler_map.contains_key(&opcode)
    }

    /// Handles one message: looks up the handler of the payload's opcode
    /// and runs it on the message and the table. Returns what is to be sent
    /// in answer, if anything. A message whose opcode has no handler is not
    /// accepted.
    pub fn handle_message(&mut self, message: HealthCheckNetworkBrokerMessage) -> (response: Option<
        HealthCheckNetworkBrokerMessage,
    >)
        requires
            old(self).handlers().contains_key(message.payload.header),
        ensures
            final(self).handlers() == old(self).handlers(),
            response == handler_response(old(self).handlers()[message.payload.header], message),
            final(self).table() == handler_table(
                old(self).handlers()[message.payload.header],
                old(self).table(),
                message,
            ),
            lives_within_limit(old(self).table()) ==> lives_within_limit(final(self).table()),
    {
        broadcast use vstd::std_specs::hash::group_hash_axioms;

        let handler = *self.health_check_handler_map.get(&message.payload.header).unwrap();
        let handler_props = OpcodeHandlerParams { message };
        handler.handle(&mut self.network_details_store, handler_props)
    }

    /// The table, for reading.
    pub fn network_details_store(&self) -> (store: &NetworkDetailsStore)
        ensures
            store@ == self.table(),
    {
        &self.network_details_store
    }
}

/// The first acknowledgement from an address that the table does not know
/// makes an entry for it with one record: that of the sender's port,
/// healthy, with the maximum of lives. All other entries stay.
pub proof fn lemma_first_acknowledgement_of_address(
    table: Map<IpAddress, NetworkDetailsView>,
    remote_addr: SocketAddress,
)
    requires
        !table.contains_key(remote_addr.ip()),
    ensures
        acknowledged_table(table, remote_addr) == table.insert(
            remote_addr.ip(),
            NetworkDetailsView {
                addr: remote_addr.ip(),
                health_checks: map![remote_addr.port() => first_health_check(remote_addr.port())],
            },
        ),
        first_health_check(remote_addr.port()).status_details.current_status
            == HealthStatus::Healthy,
        first_health_check(remote_addr.port()).status_details.lives_remaining
            == MAX_LIVES_REMAINING,
{
    let port = remote_addr.port();
    assert(Map::<u16, HealthCheck>::empty().insert(port, first_health_check(port))
        =~= map![port => first_health_check(port)]);
}

/// An acknowledgement from a port whose record is at the maximum of lives
/// leaves that record as it is: the lives do not go over the maximum, and
/// status and configuration stay.
pub proof fn lemma_acknowledgement_saturates(
    table: Map<IpAddress, NetworkDetailsView>,
    remote_addr: SocketAddress,
)
    requires
        table.contains_key(remote_addr.ip()),
        table[remote_addr.ip()].health_checks.contains_key(remote_addr.port()),
        table[remote_addr.ip()].health_checks[remote_addr.port()].status_details.lives_remaining
            == MAX_LIVES_REMAINING,
    ensures
        acknowledged_table(table, remote_addr)[remote_addr.ip()].health_checks
            == table[remote_addr.ip()].health_checks,
        acknowledged_table(
            table,
            remote_addr,
        )[remote_addr.ip()].health_checks[remote_addr.port()].status_details.lives_remaining
            == MAX_LIVES_REMAINING,
        table[remote_addr.ip()].addr == remote_addr.ip() ==> acknowledged_table(table, remote_addr)
            == table,
{
    let ip = remote_addr.ip();
    let port = remote_addr.port();
    let checks = table[ip].health_checks;
    assert(refreshed(checks[port]) == checks[port]);
    assert(checks.insert(port, checks[port]) =~= checks);
    if table[ip].addr == ip {
        assert(table.insert(ip, table[ip]) =~= table);
    }
}

/// An acknowledgement from a port that has a record below the maximum adds
/// one life to it and changes nothing else of it.
pub proof fn lemma_acknowledgement_adds_a_life(
    table: Map<IpAddress, NetworkDetailsView>,
    remote_addr: SocketAddress,
)
    requires
        table.contains_key(remote_addr.ip()),
        table[remote_addr.ip()].health_checks.contains_key(remote_addr.port()),
        table[remote_addr.ip()].health_checks[remote_addr.port()].status_details.lives_remaining
            < MAX_LIVES_REMAINING,
    ensures
        ({
            let before = table[remote_addr.ip()].health_checks[remote_addr.port()];
            let after = acknowledged_table(
                table,
                remote_addr,
            )[remote_addr.ip()].health_checks[remote_addr.port()];
            &&& after.status_details.lives_remaining == before.status_details.lives_remaining + 1
            &&& after.status_details.current_status == before.status_details.current_status
            &&& after.configuration == before.configuration
        }),
{
}

/// An acknowledgement from a new port of a known address adds a record for
/// that port, healthy and with the maximum of lives, and leaves the records
/// of the address's other ports untouched.
pub proof fn lemma_acknowledgement_from_new_port(
    table: Map<IpAddress, NetworkDetailsView>,
    remote_addr: SocketAddress,
)
    requires
        table.contains_key(remote_addr.ip()),
        !table[remote_addr.ip()].health_checks.contains_key(remote_addr.port()),
    ensures
        ({
            let before = table[remote_addr.ip()].health_checks;
            let after = acknowledged_table(table, remote_addr)[remote_addr.ip()].health_checks;
            &&& after == before.insert(remote_addr.port(), first_health_check(remote_addr.port()))
            &&& after[remote_addr.port()].status_details.lives_remaining == MAX_LIVES_REMAINING
            &&& after[remote_addr.port()].status_details.current_status == HealthStatus::Healthy
            &&& after.dom() == before.dom().insert(remote_addr.port())
            &&& forall|port: u16| #[trigger]
                before.contains_key(port) ==> after.contains_key(port) && after[port]
                    == before[port]
        }),
{
    let before = table[remote_addr.ip()].health_checks;
    let after = acknowledged_table(table, remote_addr)[remote_addr.ip()].health_checks;
    assert(after.dom() =~= before.dom().insert(remote_addr.port()));
}

/// An acknowledgement touches the entry of the sender's address only.
pub proof fn lemma_acknowledgement_leaves_other_addresses(
    table: Map<IpAddress, NetworkDetailsView>,
    remote_addr: SocketAddress,
    other: IpAddress,
)
    requires
        other != remote_addr.ip(),
    ensures
        acknowledged_table(table, remote_addr).contains_key(other) == table.contains_key(other),
        table.contains_key(other) ==> acknowledged_table(table, remote_addr)[other] == table[other],
{
}

/// What the one-shot peer answers to a message: a probe is answered with
/// its acknowledgement, an acknowledgement is handed back as it came, and
/// anything else gets no answer.
pub fn health_check_reply(message: HealthCheckNetworkBrokerMessage) -> (reply: Option<
    HealthCheckNetworkBrokerMessage,
>)
    ensures
        message.payload.header == HEALTH_CHECK_SYN_OPCODE ==> reply == Some(
            acknowledgement(message),
        ),
        message.payload.header == HEALTH_CHECK_ACK_OPCODE ==> reply == Some(message),
        message.payload.header != HEALTH_CHECK_SYN_OPCODE && message.payload.header
            != HEALTH_CHECK_ACK_OPCODE ==> reply is None,
{
    if message.payload.header == HEALTH_CHECK_SYN_OPCODE {
        let mut response_object = message;
        response_object.payload.header = HEALTH_CHECK_ACK_OPCODE;
        Some(response_object)
    } else if message.payload.header == HEALTH_CHECK_ACK_OPCODE {
        Some(message)
    } else {
        None
    }
}

/// A table with no entry respects the limit of lives, and storing an entry
/// that respects it in a table that does gives a table that does.
pub proof fn lemma_put_keeps_limit(
    table: Map<IpAddress, NetworkDetailsView>,
    entry: NetworkDetailsView,
)
    requires
        lives_within_limit(table),
        entry_within_limit(entry),
    ensures
        lives_within_limit(Map::<IpAddress, NetworkDetailsView>::empty()),
        lives_within_limit(table.insert(entry.addr, entry)),
{
    let after = table.insert(entry.addr, entry);
    assert forall|ip: IpAddress| #[trigger] after.contains_key(ip) implies entry_within_limit(
        after[ip],
    ) by {
        if ip != entry.addr {
            assert(table.contains_key(ip));
        }
    }
}

/// An acknowledgement never lifts a record over the maximum of lives: a
/// table that respects the limit still does so afterwards.
pub proof fn lemma_acknowledgement_keeps_limit(
    table: Map<IpAddress, NetworkDetailsView>,
    remote_addr: SocketAddress,
)
    requires
        lives_within_limit(table),
    ensures
        lives_within_limit(acknowledged_table(table, remote_addr)),
{
    let after = acknowledged_table(table, remote_addr);
    assert forall|ip: IpAddress| #[trigger] after.contains_key(ip) implies entry_within_limit(
        after[ip],
    ) by {
        if ip == remote_addr.ip() {
            let checks = known_checks(table, ip);
            if table.contains_key(ip) {
                assert(entry_within_limit(table[ip]));
            }
            assert forall|port: u16| #[trigger]
                after[ip].health_checks.contains_key(
                    port,
                ) implies after[ip].health_checks[port].status_details.lives_remaining
                <= MAX_LIVES_REMAINING by {
                if port != remote_addr.port() {
                    assert(checks.contains_key(port));
                }
            }
        } else {
            assert(table.contains_key(ip));
        }
    }
}

} // verus!
