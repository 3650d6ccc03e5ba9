//! The configurations that the manager hands out to servers and clients.

use vstd::prelude::*;

use crate::decimal::{
    decimal, law_decimal_round_trip, lemma_decimal_nat_digits, parse_int_spec, parse_u8,
};
use crate::json::{json_list_of, parse_json_list};
use crate::listing::{client_names, or_empty};
use crate::models::{
    ClientConfig, ClientConfigView, DnsProfile, DnsProfileView, FirewallPolicy, FirewallPolicyView,
    ManagedClientRecord, ManagedClientRecordView, RouteMode, ServerConfig, ServerConfigView,
};
use crate::settings::{
    config_version, current_config_version, optional_number, parse_optional_u16, setting,
    settings_value,
};
use crate::sorting::{as_ints, law_sort_order, sort_order, sorted_positions, text_before};
use crate::store::{
    ClientNode, ClientNodeView, ManagerStore, ManagerStoreView, ServerNode, ServerNodeView,
};
use crate::text::{
    lemma_trim_id, option_text_copy, option_text_or_empty, text_eq, trim_spec, views,
};

verus! {

/// How often agents report, in seconds.
pub const POLL_INTERVAL_SECONDS: u64 = 15;

/// The server with an identity.
pub open spec fn find_server(servers: Seq<ServerNodeView>, server_id: Seq<char>) -> Option<
    ServerNodeView,
>
    decreases servers.len(),
{
    if servers.len() == 0 {
        None
    } else if servers[0].server_id == server_id {
        Some(servers[0])
    } else {
        find_server(servers.skip(1), server_id)
    }
}

/// The client with an identity.
pub open spec fn find_client_node(clients: Seq<ClientNodeView>, client_id: Seq<char>) -> Option<
    ClientNodeView,
>
    decreases clients.len(),
{
    if clients.len() == 0 {
        None
    } else if clients[0].client_id == client_id {
        Some(clients[0])
    } else {
        find_client_node(clients.skip(1), client_id)
    }
}

/// The clients that are assigned to a server.
pub open spec fn clients_of(clients: Seq<ClientNodeView>, server_id: Seq<char>) -> Seq<
    ClientNodeView,
>
    decreases clients.len(),
{
    if clients.len() == 0 {
        Seq::empty()
    } else {
        let before = clients_of(clients.drop_last(), server_id);
        if clients.last().server_id == Some(server_id) {
            before.push(clients.last())
        } else {
            before
        }
    }
}

/// What a server is told of a client.
pub open spec fn client_record(node: ClientNodeView) -> ManagedClientRecordView {
    ManagedClientRecordView {
        client_id: node.client_id,
        device_name: node.device_name,
        enabled: node.enabled != 0,
        assigned_ip: node.assigned_ip,
        tunnel_token: node.tunnel_token,
        egress_ip: node.egress_ip,
    }
}

/// What a server is told of its clients, by name.
pub open spec fn client_records(clients: Seq<ClientNodeView>, server_id: Seq<char>) -> Seq<
    ManagedClientRecordView,
> {
    let own = clients_of(clients, server_id);
    let order = sort_order(client_names(own), false);
    Seq::new(order.len(), |i: int| client_record(own[order[i]]))
}

/// The size that a stored number stands for.
pub open spec fn mtu_of(value: Option<i64>) -> Option<u16> {
    match value {
        Some(n) => Some(n as u16),
        None => None,
    }
}

/// What the manager tells a server.
pub open spec fn server_config(store: ManagerStoreView, server_id: Seq<char>) -> Result<
    ServerConfigView,
    Seq<char>,
> {
    match config_version(store.settings) {
        Err(message) => Err(message),
        Ok(version) => match find_server(store.servers, server_id) {
            None => Err("server not registered"@),
            Some(node) => match json_list_of(node.blocked_ips_json) {
                Err(message) => Err(message),
                Ok(blocked) => match json_list_of(node.protected_ips_json) {
                    Err(message) => Err(message),
                    Ok(protected) => match json_list_of(node.egress_ips_json) {
                        Err(message) => Err(message),
                        Ok(egress) => Ok(
                            ServerConfigView {
                                version: version as u64,
                                server_id: node.server_id,
                                enabled: node.enabled != 0,
                                node_name: node.node_name,
                                listen_addr: node.listen_addr,
                                public_endpoint: node.public_endpoint,
                                tun_name: node.tun_name,
                                tun_address: node.tun_address,
                                tun_prefix: node.tun_prefix as u8,
                                mtu: mtu_of(node.mtu),
                                client_cidr: node.client_cidr,
                                max_clients: node.max_clients as usize,
                                nat_iface: node.nat_iface,
                                setup_nat: node.setup_nat != 0,
                                firewall: FirewallPolicyView {
                                    blocked_destinations: blocked,
                                    protected_destinations: protected,
                                },
                                dns: DnsProfileView {
                                    bind_addr: node.dns_bind_addr,
                                    doh_url: node.doh_url,
                                },
                                egress_ips: egress,
                                allowed_clients: client_records(store.clients, node.server_id),
                                poll_interval_seconds: POLL_INTERVAL_SECONDS,
                            },
                        ),
                    },
                },
            },
        },
    }
}

/// Where a client finds its server: nowhere, if it has none or the server is gone.
pub open spec fn endpoint_of(servers: Seq<ServerNodeView>, server_id: Seq<char>) -> Seq<char> {
    if server_id.len() == 0 {
        Seq::empty()
    } else {
        match find_server(servers, server_id) {
            Some(node) => node.public_endpoint,
            None => Seq::empty(),
        }
    }
}

/// A prefix length in a text, or 24.
pub open spec fn prefix_of(value: Seq<char>) -> u8 {
    match parse_int_spec(value, 0, u8::MAX as int) {
        Ok(n) => n as u8,
        Err(_) => 24,
    }
}

/// What the manager tells a client. A client without a reachable server is told that it is
/// disabled.
pub open spec fn client_config(store: ManagerStoreView, client_id: Seq<char>) -> Result<
    ClientConfigView,
    Seq<char>,
> {
    match config_version(store.settings) {
        Err(message) => Err(message),
        Ok(version) => match find_client_node(store.clients, client_id) {
            None => Err("client not registered"@),
            Some(node) => {
                let server_id = or_empty(node.server_id);
                let endpoint = endpoint_of(store.servers, server_id);
                Ok(
                    ClientConfigView {
                        version: version as u64,
                        client_id: node.client_id,
                        enabled: node.enabled != 0 && endpoint.len() > 0,
                        device_name: node.device_name,
                        server_id,
                        server_endpoint: endpoint,
                        tunnel_token: node.tunnel_token,
                        tun_name: setting(store.settings, "tun_name"@),
                        tun_address: node.assigned_ip,
                        tun_prefix: prefix_of(setting(store.settings, "tun_prefix"@)),
                        mtu: match optional_number(
                            setting(store.settings, "mtu"@),
                            0,
                            u16::MAX as int,
                        ) {
                            Some(n) => Some(n as u16),
                            None => None,
                        },
                        dns_server: setting(store.settings, "tun_address"@),
                        route_mode: RouteMode::FullTunnel,
                        egress_ip: node.egress_ip,
                        poll_interval_seconds: POLL_INTERVAL_SECONDS,
                    },
                )
            },
        },
    }
}

/// The server with an identity.
pub fn server_position(servers: &Vec<ServerNode>, server_id: &str) -> (r: Option<usize>)
    ensures
        match r {
            Some(i) => i < servers@.len() && find_server(views(servers@), server_id@) == Some(
                servers@[i as int]@,
            ) && servers@[i as int].server_id@ == server_id@,
            None => find_server(views(servers@), server_id@) is None,
        },
{
    let ghost all = views(servers@);
    let n: usize = servers.len();
    assert(all.skip(0) =~= all);
    for i in 0..n
        invariant
            n == servers@.len(),
            all == views(servers@),
            find_server(all, server_id@) == find_server(all.skip(i as int), server_id@),
    {
        assert(all.skip(i as int)[0] == servers@[i as int]@);
        if text_eq(servers[i].server_id.as_str(), server_id) {
            return Some(i);
        }
        assert(all.skip(i as int).skip(1) =~= all.skip(i + 1));
    }
    None
}

/// The client with an identity.
pub fn client_position(clients: &Vec<ClientNode>, client_id: &str) -> (r: Option<usize>)
    ensures
        match r {
            Some(i) => i < clients@.len() && find_client_node(views(clients@), client_id@) == Some(
                clients@[i as int]@,
            ) && clients@[i as int].client_id@ == client_id@,
            None => find_client_node(views(clients@), client_id@) is None,
        },
{
    let ghost all = views(clients@);
    let n: usize = clients.len();
    assert(all.skip(0) =~= all);
    for i in 0..n
        invariant
            n == clients@.len(),
            all == views(clients@),
            find_client_node(all, client_id@) == find_client_node(all.skip(i as int), client_id@),
    {
        assert(all.skip(i as int)[0] == clients@[i as int]@);
        if text_eq(clients[i].client_id.as_str(), client_id) {
            return Some(i);
        }
        assert(all.skip(i as int).skip(1) =~= all.skip(i + 1));
    }
    None
}

/// The clients that are assigned to a server.
fn select_clients(clients: &Vec<ClientNode>, server_id: &str) -> (own: Vec<ClientNode>)
    ensures
        views(own@) == clients_of(views(clients@), server_id@),
{
    let ghost all = views(clients@);
    let n: usize = clients.len();
    let mut own: Vec<ClientNode> = Vec::new();
    assert(views(own@) =~= clients_of(all.take(0), server_id@));
    for i in 0..n
        invariant
            n == clients@.len(),
            all == views(clients@),
            views(own@) == clients_of(all.take(i as int), server_id@),
    {
        let ghost before = views(own@);
        assert(all.take(i + 1).drop_last() =~= all.take(i as int));
        assert(all.take(i + 1).last() == clients@[i as int]@);
        let assigned = match &clients[i].server_id {
            Some(id) => text_eq(id.as_str(), server_id),
            None => false,
        };
        if assigned {
            own.push(clients[i].clone());
            assert(views(own@) =~= before.push(clients@[i as int]@));
        }
    }
    assert(all.take(n as int) =~= all);
    own
}

/// What a server is told of a client.
fn make_client_record(node: &ClientNode) -> (record: ManagedClientRecord)
    ensures
        record@ == client_record(node@),
{
    ManagedClientRecord {
        client_id: node.client_id.clone(),
        device_name: node.device_name.clone(),
        enabled: node.enabled != 0,
        assigned_ip: node.assigned_ip.clone(),
        tunnel_token: node.tunnel_token.clone(),
        egress_ip: option_text_copy(&node.egress_ip),
    }
}

/// What a server is told of its clients, by name.
fn allowed_clients(clients: &Vec<ClientNode>, server_id: &str) -> (records: Vec<
    ManagedClientRecord,
>)
    ensures
        views(records@) == client_records(views(clients@), server_id@),
{
    let own = select_clients(clients, server_id);
    let n: usize = own.len();
    let ghost rows = clients_of(views(clients@), server_id@);
    let ghost names = client_names(rows);
    let mut keys: Vec<String> = Vec::new();
    assert(views(keys@) =~= names.take(0));
    assert(views(own@).len() == rows.len());
    for i in 0..n
        invariant
            n == own@.len(),
            views(own@) == rows,
            names == client_names(rows),
            views(keys@) == names.take(i as int),
    {
        let ghost before = views(keys@);
        assert(rows[i as int] == own@[i as int]@);
        keys.push(own[i].device_name.clone());
        assert(views(keys@) =~= before.push(names[i as int]));
        assert(names.take(i + 1) =~= before.push(names[i as int]));
    }
    assert(names.take(n as int) =~= names);
    assert(views(keys@).len() == names.len());
    let order = sorted_positions(&keys, false);
    let ghost expected = client_records(views(clients@), server_id@);
    let mut records: Vec<ManagedClientRecord> = Vec::new();
    assert(views(records@) =~= expected.take(0));
    for i in 0..n
        invariant
            n == own@.len(),
            n == order@.len(),
            views(own@) == rows,
            rows == clients_of(views(clients@), server_id@),
            forall|i: int| 0 <= i < order@.len() ==> (#[trigger] order@[i]) < n,
            as_ints(order@) == sort_order(client_names(rows), false),
            expected == client_records(views(clients@), server_id@),
            views(records@) == expected.take(i as int),
    {
        let at: usize = order[i];
        assert(as_ints(order@)[i as int] == at as int);
        assert(rows[at as int] == own@[at as int]@);
        let record = make_client_record(&own[at]);
        assert(record@ == expected[i as int]);
        let ghost before = views(records@);
        records.push(record);
        assert(views(records@) =~= before.push(expected[i as int]));
        assert(expected.take(i + 1) =~= before.push(expected[i as int]));
    }
    assert(as_ints(order@).len() == n);
    assert(expected.take(n as int) =~= expected);
    records
}

/// The configuration of a server.
pub fn build_server_config(store: &ManagerStore, server_id: &str) -> (r: Result<
    ServerConfig,
    String,
>)
    requires
        store.wf(),
    ensures
        match r {
            Ok(config) => server_config(store@, server_id@) == Ok::<ServerConfigView, Seq<char>>(
                config@,
            ),
            Err(message) => server_config(store@, server_id@) == Err::<ServerConfigView, Seq<char>>(
                message@,
            ),
        },
{
    let version: u64 = match current_config_version(&store.settings) {
        Ok(version) => version,
        Err(message) => {
            return Err(message);
        },
    };
    let at: usize = match server_position(&store.servers, server_id) {
        Some(at) => at,
        None => {
            return Err(String::from_str("server not registered"));
        },
    };
    let node = &store.servers[at];
    let records = allowed_clients(&store.clients, node.server_id.as_str());
    let blocked = match parse_json_list(node.blocked_ips_json.as_str()) {
        Ok(list) => list,
        Err(message) => {
            return Err(message);
        },
    };
    let protected = match parse_json_list(node.protected_ips_json.as_str()) {
        Ok(list) => list,
        Err(message) => {
            return Err(message);
        },
    };
    let egress = match parse_json_list(node.egress_ips_json.as_str()) {
        Ok(list) => list,
        Err(message) => {
            return Err(message);
        },
    };
    Ok(
        ServerConfig {
            version,
            server_id: node.server_id.clone(),
            enabled: node.enabled != 0,
            node_name: node.node_name.clone(),
            listen_addr: node.listen_addr.clone(),
            public_endpoint: node.public_endpoint.clone(),
            tun_name: node.tun_name.clone(),
            tun_address: node.tun_address.clone(),
            tun_prefix: #[verifier::truncate] (node.tun_prefix as u8),
            mtu: match node.mtu {
                Some(n) => Some(#[verifier::truncate] (n as u16)),
                None => None,
            },
            client_cidr: node.client_cidr.clone(),
            max_clients: #[verifier::truncate] (node.max_clients as usize),
            nat_iface: option_text_copy(&node.nat_iface),
            setup_nat: node.setup_nat != 0,
            firewall: FirewallPolicy {
                blocked_destinations: blocked,
                protected_destinations: protected,
            },
            dns: DnsProfile {
                bind_addr: node.dns_bind_addr.clone(),
                doh_url: node.doh_url.clone(),
            },
            egress_ips: egress,
            allowed_clients: records,
            poll_interval_seconds: POLL_INTERVAL_SECONDS,
        },
    )
}

/// The configuration of a client.
pub fn build_client_config(store: &ManagerStore, client_id: &str) -> (r: Result<
    ClientConfig,
    String,
>)
    requires
        store.wf(),
    ensures
        match r {
            Ok(config) => client_config(store@, client_id@) == Ok::<ClientConfigView, Seq<char>>(
                config@,
            ),
            Err(message) => client_config(store@, client_id@) == Err::<ClientConfigView, Seq<char>>(
                message@,
            ),
        },
{
    let version: u64 = match current_config_version(&store.settings) {
        Ok(version) => version,
        Err(message) => {
            return Err(message);
        },
    };
    let at: usize = match client_position(&store.clients, client_id) {
        Some(at) => at,
        None => {
            return Err(String::from_str("client not registered"));
        },
    };
    let node = &store.clients[at];
    let server_id = option_text_or_empty(&node.server_id);
    let server_endpoint = if server_id.as_str().is_empty() {
        String::new()
    } else {
        match server_position(&store.servers, server_id.as_str()) {
            Some(i) => store.servers[i].public_endpoint.clone(),
            None => String::new(),
        }
    };
    let enabled = node.enabled != 0 && !server_endpoint.as_str().is_empty();
    let prefix: u8 = match parse_u8(settings_value(&store.settings, "tun_prefix").as_str()) {
        Ok(n) => n,
        Err(_) => 24,
    };
    Ok(
        ClientConfig {
            version,
            client_id: node.client_id.clone(),
            enabled,
            device_name: node.device_name.clone(),
            server_id,
            server_endpoint,
            tunnel_token: node.tunnel_token.clone(),
            tun_name: settings_value(&store.settings, "tun_name"),
            tun_address: node.assigned_ip.clone(),
            tun_prefix: prefix,
            mtu: parse_optional_u16(settings_value(&store.settings, "mtu").as_str()),
            dns_server: settings_value(&store.settings, "tun_address"),
            route_mode: RouteMode::FullTunnel,
            egress_ip: option_text_copy(&node.egress_ip),
            poll_interval_seconds: POLL_INTERVAL_SECONDS,
        },
    )
}

/// The rows that are assigned to a server are rows of the network, assigned to it, and all of them.
proof fn lemma_clients_of(clients: Seq<ClientNodeView>, server_id: Seq<char>)
    ensures
        forall|i: int|
            0 <= i < clients_of(clients, server_id).len() ==> clients.contains(
                #[trigger] clients_of(clients, server_id)[i],
            ) && clients_of(clients, server_id)[i].server_id == Some(server_id),
        forall|i: int|
            0 <= i < clients.len() && clients[i].server_id == Some(server_id) ==> clients_of(
                clients,
                server_id,
            ).contains(#[trigger] clients[i]),
    decreases clients.len(),
{
    if clients.len() > 0 {
        let fewer = clients.drop_last();
        lemma_clients_of(fewer, server_id);
        let before = clients_of(fewer, server_id);
        let own = clients_of(clients, server_id);
        assert forall|i: int| 0 <= i < own.len() implies clients.contains(#[trigger] own[i])
            && own[i].server_id == Some(server_id) by {
            if i < before.len() {
                assert(own[i] == before[i]);
                let k = choose|k: int| 0 <= k < fewer.len() && fewer[k] == before[i];
                assert(clients[k] == own[i]);
            } else {
                assert(clients[clients.len() - 1] == own[i]);
            }
        }
        assert forall|i: int|
            0 <= i < clients.len() && clients[i].server_id == Some(server_id) implies own.contains(
            #[trigger] clients[i],
        ) by {
            if i < fewer.len() {
                assert(fewer[i] == clients[i]);
                let k = choose|k: int| 0 <= k < before.len() && before[k] == fewer[i];
                assert(own[k] == clients[i]);
            } else {
                assert(own[own.len() - 1] == clients[i]);
            }
        }
    }
}

/// A server is told of exactly the clients that are assigned to it.
pub proof fn law_server_knows_its_clients(store: ManagerStoreView, server_id: Seq<char>)
    requires
        server_config(store, server_id) is Ok,
    ensures
        ({
            let allowed = server_config(store, server_id)->Ok_0.allowed_clients;
            &&& forall|i: int|
                0 <= i < allowed.len() ==> exists|k: int|
                    0 <= k < store.clients.len() && (#[trigger] store.clients[k]).server_id == Some(
                        server_id,
                    ) && #[trigger] allowed[i] == client_record(store.clients[k])
            &&& forall|k: int|
                0 <= k < store.clients.len() && (#[trigger] store.clients[k]).server_id == Some(
                    server_id,
                ) ==> allowed.contains(client_record(store.clients[k]))
        }),
{
    lemma_found_server_id(store.servers, server_id);
    let own = clients_of(store.clients, server_id);
    let names = client_names(own);
    let order = sort_order(names, false);
    let allowed = client_records(store.clients, server_id);
    law_sort_order(names, false);
    lemma_clients_of(store.clients, server_id);
    assert forall|i: int| 0 <= i < allowed.len() implies exists|k: int|
        0 <= k < store.clients.len() && (#[trigger] store.clients[k]).server_id == Some(server_id)
            && #[trigger] allowed[i] == client_record(store.clients[k]) by {
        assert(0 <= order[i] < own.len());
        assert(store.clients.contains(own[order[i]]));
        let k = choose|k: int| 0 <= k < store.clients.len() && store.clients[k] == own[order[i]];
        assert(store.clients[k].server_id == Some(server_id));
    }
    assert forall|k: int|
        0 <= k < store.clients.len() && (#[trigger] store.clients[k]).server_id == Some(
            server_id,
        ) implies allowed.contains(client_record(store.clients[k])) by {
        assert(own.contains(store.clients[k]));
        let j = choose|j: int| 0 <= j < own.len() && own[j] == store.clients[k];
        lemma_listed(order, own.len() as int, j);
        let i = choose|i: int| 0 <= i < order.len() && #[trigger] order[i] == j;
        assert(allowed[i] == client_record(store.clients[k]));
    }
}

/// A found server has the identity that was looked for.
pub proof fn lemma_found_server_id(servers: Seq<ServerNodeView>, server_id: Seq<char>)
    ensures
        find_server(servers, server_id) matches Some(node) ==> node.server_id == server_id,
    decreases servers.len(),
{
    if servers.len() > 0 {
        lemma_found_server_id(servers.skip(1), server_id);
    }
}

/// A list of `n` different numbers below `n` holds all of them.
proof fn lemma_listed(order: Seq<int>, n: int, j: int)
    requires
        order.len() == n,
        forall|i: int| 0 <= i < n ==> 0 <= #[trigger] order[i] < n,
        forall|i: int, k: int| 0 <= i < k < n ==> #[trigger] order[i] != #[trigger] order[k],
        0 <= j < n,
    ensures
        exists|i: int| 0 <= i < order.len() && #[trigger] order[i] == j,
    decreases n,
{
    if forall|i: int| 0 <= i < order.len() ==> #[trigger] order[i] != j {
        let last = order[n - 1];
        let top = n - 1;
        if n == 1 {
            assert(order[0] != j);
        } else if j == top {
            let fewer = order.drop_last();
            assert forall|i: int| 0 <= i < n - 1 implies 0 <= #[trigger] fewer[i] < n - 1 by {
                assert(order[i] != j);
            }
            assert forall|i: int, k: int| 0 <= i < k < n - 1 implies #[trigger] fewer[i]
                != #[trigger] fewer[k] by {
                assert(order[i] != order[k]);
            }
            lemma_listed(fewer, n - 1, last);
            let i = choose|i: int| 0 <= i < fewer.len() && #[trigger] fewer[i] == last;
            assert(order[i] != order[n - 1]);
        } else {
            let moved = Seq::new(
                (n - 1) as nat,
                |i: int|
                    if order[i] == top {
                        last
                    } else {
                        order[i]
                    },
            );
            assert forall|i: int| 0 <= i < n - 1 implies 0 <= #[trigger] moved[i] < n - 1 by {
                assert(order[i] != order[n - 1]);
            }
            assert forall|i: int, k: int| 0 <= i < k < n - 1 implies #[trigger] moved[i]
                != #[trigger] moved[k] by {
                assert(order[i] != order[k]);
                assert(order[i] != order[n - 1]);
                assert(order[k] != order[n - 1]);
            }
            lemma_listed(moved, n - 1, j);
            let i = choose|i: int| 0 <= i < moved.len() && #[trigger] moved[i] == j;
            assert(order[i] != j && order[n - 1] != j);
        }
    }
}

/// A client is told that it is enabled only where it has a server that can be reached.
pub proof fn law_enabled_clients_have_a_server(store: ManagerStoreView, client_id: Seq<char>)
    requires
        client_config(store, client_id) is Ok,
    ensures
        ({
            let config = client_config(store, client_id)->Ok_0;
            config.enabled ==> config.server_id.len() > 0 && (find_server(
                store.servers,
                config.server_id,
            ) matches Some(node) && node.public_endpoint == config.server_endpoint)
                && config.server_endpoint.len() > 0
        }),
{
}

/// A server and a client that is assigned to it are told the same tunnel token and address.
pub proof fn law_configs_agree(store: ManagerStoreView, server_id: Seq<char>, client_id: Seq<char>)
    requires
        server_config(store, server_id) is Ok,
        client_config(store, client_id) is Ok,
        find_client_node(store.clients, client_id)->Some_0.server_id == Some(server_id),
    ensures
        ({
            let client = client_config(store, client_id)->Ok_0;
            exists|i: int|
                0 <= i < server_config(store, server_id)->Ok_0.allowed_clients.len() && ({
                    let record = #[trigger] server_config(
                        store,
                        server_id,
                    )->Ok_0.allowed_clients[i];
                    &&& record.client_id == client.client_id
                    &&& record.tunnel_token == client.tunnel_token
                    &&& record.assigned_ip == client.tun_address
                    &&& record.egress_ip == client.egress_ip
                })
        }),
{
    law_server_knows_its_clients(store, server_id);
    lemma_found_client(store.clients, client_id);
    let node = find_client_node(store.clients, client_id)->Some_0;
    let k = choose|k: int| 0 <= k < store.clients.len() && store.clients[k] == node;
    assert(store.clients[k].server_id == Some(server_id));
    let allowed = server_config(store, server_id)->Ok_0.allowed_clients;
    assert(allowed.contains(client_record(store.clients[k])));
    let i = choose|i: int| 0 <= i < allowed.len() && allowed[i] == client_record(store.clients[k]);
    assert(allowed[i].client_id == node.client_id);
}

/// A found client is one of the clients, with the identity that was looked for.
pub proof fn lemma_found_client(clients: Seq<ClientNodeView>, client_id: Seq<char>)
    ensures
        find_client_node(clients, client_id) matches Some(node) ==> clients.contains(node)
            && node.client_id == client_id,
    decreases clients.len(),
{
    if clients.len() > 0 {
        lemma_found_client(clients.skip(1), client_id);
        if clients[0].client_id != client_id {
            if let Some(node) = find_client_node(clients.skip(1), client_id) {
                let k = choose|k: int| 0 <= k < clients.skip(1).len() && clients.skip(1)[k] == node;
                assert(clients[k + 1] == node);
            }
        }
    }
}

/// A server that is switched off is told so, and a client that is switched off is told so and its
/// server too.
pub proof fn law_switches_reach_agents(store: ManagerStoreView, server_id: Seq<char>, client_id: Seq<char>)
    ensures
        server_config(store, server_id) matches Ok(config) ==> (find_server(
            store.servers,
            server_id,
        ) matches Some(node) && config.enabled == (node.enabled != 0)),
        client_config(store, client_id) matches Ok(config) ==> (find_client_node(
            store.clients,
            client_id,
        ) matches Some(node) && (node.enabled == 0 ==> !config.enabled && !client_record(
            node,
        ).enabled)),
{
}

/// The first server with an identity is the one that is found.
pub proof fn lemma_first_server(servers: Seq<ServerNodeView>, server_id: Seq<char>, k: int)
    requires
        0 <= k < servers.len(),
        servers[k].server_id == server_id,
        forall|j: int| 0 <= j < k ==> (#[trigger] servers[j]).server_id != server_id,
    ensures
        find_server(servers, server_id) == Some(servers[k]),
    decreases k,
{
    if k > 0 {
        assert(servers[0].server_id != server_id);
        assert forall|j: int| 0 <= j < k - 1 implies (#[trigger] servers.skip(1)[j]).server_id
            != server_id by {
            assert(servers[j + 1].server_id != server_id);
        }
        lemma_first_server(servers.skip(1), server_id, k - 1);
    }
}

/// No server is found where none has the identity.
pub proof fn lemma_no_server(servers: Seq<ServerNodeView>, server_id: Seq<char>)
    requires
        forall|j: int| 0 <= j < servers.len() ==> (#[trigger] servers[j]).server_id != server_id,
    ensures
        find_server(servers, server_id) is None,
    decreases servers.len(),
{
    if servers.len() > 0 {
        assert(servers[0].server_id != server_id);
        assert forall|j: int| 0 <= j < servers.skip(1).len() implies (#[trigger] servers.skip(
            1,
        )[j]).server_id != server_id by {
            assert(servers[j + 1].server_id != server_id);
        }
        lemma_no_server(servers.skip(1), server_id);
    }
}

/// The first client with an identity is the one that is found.
pub proof fn lemma_first_client(clients: Seq<ClientNodeView>, client_id: Seq<char>, k: int)
    requires
        0 <= k < clients.len(),
        clients[k].client_id == client_id,
        forall|j: int| 0 <= j < k ==> (#[trigger] clients[j]).client_id != client_id,
    ensures
        find_client_node(clients, client_id) == Some(clients[k]),
    decreases k,
{
    if k > 0 {
        assert(clients[0].client_id != client_id);
        assert forall|j: int| 0 <= j < k - 1 implies (#[trigger] clients.skip(1)[j]).client_id
            != client_id by {
            assert(clients[j + 1].client_id != client_id);
        }
        lemma_first_client(clients.skip(1), client_id, k - 1);
    }
}

/// No client is found where none has the identity.
pub proof fn lemma_no_client(clients: Seq<ClientNodeView>, client_id: Seq<char>)
    requires
        forall|j: int| 0 <= j < clients.len() ==> (#[trigger] clients[j]).client_id != client_id,
    ensures
        find_client_node(clients, client_id) is None,
    decreases clients.len(),
{
    if clients.len() > 0 {
        assert(clients[0].client_id != client_id);
        assert forall|j: int| 0 <= j < clients.skip(1).len() implies (#[trigger] clients.skip(
            1,
        )[j]).client_id != client_id by {
            assert(clients[j + 1].client_id != client_id);
        }
        lemma_no_client(clients.skip(1), client_id);
    }
}

/// The configuration of a registered server carries what its row holds: the addresses, names and
/// sizes as they stand there, each switch on exactly where the stored number is not zero, and the
/// three lists as they are read from their texts.
pub proof fn law_server_config_carries_the_row(
    store: ManagerStoreView,
    server_id: Seq<char>,
    k: int,
)
    requires
        0 <= k < store.servers.len(),
        store.servers[k].server_id == server_id,
        forall|j: int| 0 <= j < k ==> (#[trigger] store.servers[j]).server_id != server_id,
        server_config(store, server_id) is Ok,
    ensures
        ({
            let config = server_config(store, server_id)->Ok_0;
            let row = store.servers[k];
            &&& config.server_id == server_id
            &&& config.node_name == row.node_name
            &&& config.enabled <==> row.enabled != 0
            &&& config.setup_nat <==> row.setup_nat != 0
            &&& config.listen_addr == row.listen_addr
            &&& config.public_endpoint == row.public_endpoint
            &&& config.tun_name == row.tun_name
            &&& config.tun_address == row.tun_address
            &&& 0 <= row.tun_prefix <= 255 ==> config.tun_prefix == row.tun_prefix
            &&& config.mtu is Some <==> row.mtu is Some
            &&& row.mtu matches Some(mtu) ==> (0 <= mtu <= 65535 ==> config.mtu->Some_0 == mtu)
            &&& config.client_cidr == row.client_cidr
            &&& 0 <= row.max_clients <= usize::MAX ==> config.max_clients == row.max_clients
            &&& config.nat_iface == row.nat_iface
            &&& config.dns.bind_addr == row.dns_bind_addr
            &&& config.dns.doh_url == row.doh_url
            &&& json_list_of(row.blocked_ips_json) == Ok::<Seq<Seq<char>>, Seq<char>>(
                config.firewall.blocked_destinations,
            )
            &&& json_list_of(row.protected_ips_json) == Ok::<Seq<Seq<char>>, Seq<char>>(
                config.firewall.protected_destinations,
            )
            &&& json_list_of(row.egress_ips_json) == Ok::<Seq<Seq<char>>, Seq<char>>(
                config.egress_ips,
            )
            &&& config_version(store.settings) == Ok::<int, Seq<char>>(config.version as int)
            &&& config.poll_interval_seconds == 15
        }),
{
    lemma_first_server(store.servers, server_id, k);
    crate::settings::lemma_version_bounds(store.settings);
}

/// A server is given a configuration exactly where the version can be read, it is registered, and
/// its three lists can be read; else it is told why, in that order.
pub proof fn law_server_config_is_given(store: ManagerStoreView, server_id: Seq<char>, k: int)
    requires
        0 <= k < store.servers.len(),
        store.servers[k].server_id == server_id,
        forall|j: int| 0 <= j < k ==> (#[trigger] store.servers[j]).server_id != server_id,
    ensures
        server_config(store, server_id) is Ok <==> config_version(store.settings) is Ok
            && json_list_of(store.servers[k].blocked_ips_json) is Ok && json_list_of(
            store.servers[k].protected_ips_json,
        ) is Ok && json_list_of(store.servers[k].egress_ips_json) is Ok,
        config_version(store.settings) matches Err(message) ==> server_config(store, server_id)
            == Err::<ServerConfigView, Seq<char>>(message),
{
    lemma_first_server(store.servers, server_id, k);
}

/// Whoever is not registered is told so.
pub proof fn law_strangers_get_no_config(store: ManagerStoreView, id: Seq<char>)
    requires
        config_version(store.settings) is Ok,
    ensures
        (forall|j: int| 0 <= j < store.servers.len() ==> (#[trigger] store.servers[j]).server_id != id)
            ==> server_config(store, id) == Err::<ServerConfigView, Seq<char>>(
            "server not registered"@,
        ),
        (forall|j: int| 0 <= j < store.clients.len() ==> (#[trigger] store.clients[j]).client_id != id)
            ==> client_config(store, id) == Err::<ClientConfigView, Seq<char>>(
            "client not registered"@,
        ),
{
    if forall|j: int| 0 <= j < store.servers.len() ==> (#[trigger] store.servers[j]).server_id != id {
        lemma_no_server(store.servers, id);
    }
    if forall|j: int| 0 <= j < store.clients.len() ==> (#[trigger] store.clients[j]).client_id != id {
        lemma_no_client(store.clients, id);
    }
}

/// What a server is told of a client is what the client's row holds.
pub proof fn law_client_record_carries_the_row(row: ClientNodeView)
    ensures
        ({
            let record = client_record(row);
            &&& record.client_id == row.client_id
            &&& record.device_name == row.device_name
            &&& record.enabled <==> row.enabled != 0
            &&& record.assigned_ip == row.assigned_ip
            &&& record.tunnel_token == row.tunnel_token
            &&& record.egress_ip == row.egress_ip
        }),
{
}

/// Whether a record says of a client what its row holds: identity, name, tunnel address, tunnel
/// token, egress address and switch.
pub open spec fn says_what_row_holds(
    record: ManagedClientRecordView,
    row: ClientNodeView,
) -> bool {
    &&& record.client_id == row.client_id
    &&& record.device_name == row.device_name
    &&& record.assigned_ip == row.assigned_ip
    &&& record.tunnel_token == row.tunnel_token
    &&& record.egress_ip == row.egress_ip
    &&& record.enabled <==> row.enabled != 0
}

/// Each record that a server is told says what a row holds that is assigned to the server.
pub proof fn law_told_clients_are_its_own(store: ManagerStoreView, server_id: Seq<char>, i: int)
    requires
        server_config(store, server_id) is Ok,
        0 <= i < server_config(store, server_id)->Ok_0.allowed_clients.len(),
    ensures
        exists|k: int|
            0 <= k < store.clients.len() && store.clients[k].server_id == Some(server_id)
                && #[trigger] says_what_row_holds(
                server_config(store, server_id)->Ok_0.allowed_clients[i],
                store.clients[k],
            ),
{
    law_server_knows_its_clients(store, server_id);
    let record = server_config(store, server_id)->Ok_0.allowed_clients[i];
    let k = choose|k: int|
        0 <= k < store.clients.len() && (#[trigger] store.clients[k]).server_id == Some(server_id)
            && record == client_record(store.clients[k]);
    assert(says_what_row_holds(record, store.clients[k]));
}

/// Each row that is assigned to a server is told to it.
pub proof fn law_its_own_clients_are_told(store: ManagerStoreView, server_id: Seq<char>, k: int)
    requires
        server_config(store, server_id) is Ok,
        0 <= k < store.clients.len(),
        store.clients[k].server_id == Some(server_id),
    ensures
        exists|i: int|
            0 <= i < server_config(store, server_id)->Ok_0.allowed_clients.len()
                && #[trigger] says_what_row_holds(
                server_config(store, server_id)->Ok_0.allowed_clients[i],
                store.clients[k],
            ),
{
    law_server_knows_its_clients(store, server_id);
    let records = server_config(store, server_id)->Ok_0.allowed_clients;
    let row = store.clients[k];
    assert(records.contains(client_record(row)));
    let i = choose|i: int| 0 <= i < records.len() && records[i] == client_record(row);
    assert(says_what_row_holds(records[i], store.clients[k]));
}

/// A server is told of its clients in the order of their names.
pub proof fn law_clients_are_told_by_name(
    store: ManagerStoreView,
    server_id: Seq<char>,
    i: int,
    j: int,
)
    requires
        server_config(store, server_id) is Ok,
        0 <= i < j < server_config(store, server_id)->Ok_0.allowed_clients.len(),
    ensures
        !text_before(
            server_config(store, server_id)->Ok_0.allowed_clients[j].device_name,
            server_config(store, server_id)->Ok_0.allowed_clients[i].device_name,
        ),
{
    lemma_found_server_id(store.servers, server_id);
    let own = clients_of(store.clients, server_id);
    let names = client_names(own);
    let order = sort_order(names, false);
    law_sort_order(names, false);
    let records = client_records(store.clients, server_id);
    assert(records[i].device_name == names[order[i]]);
    assert(records[j].device_name == names[order[j]]);
}

/// The configuration of a registered client carries what its row and the settings hold: names,
/// addresses, the tunnel token and the egress address of the row; the tunnel device's name, prefix
/// and size of the settings; the server's tunnel address as DNS server. Where the row names a
/// registered server, that server's public endpoint is where the client connects to, and the client
/// is enabled exactly where its row is and the endpoint is not empty.
pub proof fn law_client_config_carries_the_row(
    store: ManagerStoreView,
    client_id: Seq<char>,
    k: int,
)
    requires
        0 <= k < store.clients.len(),
        store.clients[k].client_id == client_id,
        forall|j: int| 0 <= j < k ==> (#[trigger] store.clients[j]).client_id != client_id,
        config_version(store.settings) is Ok,
    ensures
        ({
            let row = store.clients[k];
            &&& client_config(store, client_id) matches Ok(config)
            &&& config.client_id == client_id
            &&& config.device_name == row.device_name
            &&& config.tunnel_token == row.tunnel_token
            &&& config.tun_address == row.assigned_ip
            &&& config.egress_ip == row.egress_ip
            &&& row.server_id matches Some(id) ==> config.server_id == id
            &&& row.server_id is None ==> config.server_id.len() == 0
                && config.server_endpoint.len() == 0
            &&& config.enabled <==> row.enabled != 0 && config.server_endpoint.len() > 0
            &&& store.settings.contains_key("tun_name"@) ==> config.tun_name
                == store.settings["tun_name"@]
            &&& store.settings.contains_key("tun_address"@) ==> config.dns_server
                == store.settings["tun_address"@]
            &&& config_version(store.settings) == Ok::<int, Seq<char>>(config.version as int)
            &&& config.route_mode == RouteMode::FullTunnel
            &&& config.poll_interval_seconds == 15
        }),
{
    lemma_first_client(store.clients, client_id, k);
    crate::settings::lemma_version_bounds(store.settings);
}

/// A client connects to the public endpoint of the server that it is assigned to; where that server
/// is not registered, it has nowhere to connect to, and is told that it is disabled.
pub proof fn law_client_connects_to_its_server(
    store: ManagerStoreView,
    client_id: Seq<char>,
    k: int,
    server_id: Seq<char>,
    s: int,
)
    requires
        0 <= k < store.clients.len(),
        store.clients[k].client_id == client_id,
        forall|j: int| 0 <= j < k ==> (#[trigger] store.clients[j]).client_id != client_id,
        store.clients[k].server_id == Some(server_id),
        server_id.len() > 0,
        config_version(store.settings) is Ok,
        0 <= s <= store.servers.len(),
        forall|j: int| 0 <= j < s ==> (#[trigger] store.servers[j]).server_id != server_id,
        s < store.servers.len() ==> store.servers[s].server_id == server_id,
    ensures
        ({
            &&& client_config(store, client_id) matches Ok(config)
            &&& s < store.servers.len() ==> config.server_endpoint
                == store.servers[s].public_endpoint
            &&& s == store.servers.len() ==> config.server_endpoint.len() == 0 && !config.enabled
        }),
{
    lemma_first_client(store.clients, client_id, k);
    if s < store.servers.len() {
        lemma_first_server(store.servers, server_id, s);
    } else {
        lemma_no_server(store.servers, server_id);
    }
}

/// The numbers in a client's configuration: a prefix length that the setting writes is used, any
/// other text stands for 24; a size of packets that the setting writes is used, any other text
/// stands for none.
pub proof fn law_client_config_numbers(store: ManagerStoreView, client_id: Seq<char>, n: nat)
    requires
        client_config(store, client_id) is Ok,
    ensures
        ({
            let config = client_config(store, client_id)->Ok_0;
            &&& n <= 255 && store.settings.contains_key("tun_prefix"@)
                && store.settings["tun_prefix"@] == decimal(n as int) ==> config.tun_prefix == n
            &&& !store.settings.contains_key("tun_prefix"@) ==> config.tun_prefix == 24
            &&& n <= 65535 && store.settings.contains_key("mtu"@) && store.settings["mtu"@]
                == decimal(n as int) ==> config.mtu == Some(n as u16)
            &&& !store.settings.contains_key("mtu"@) ==> config.mtu is None
        }),
{
    if n <= 255 {
        law_decimal_round_trip(n, 255);
    }
    if n <= 65535 {
        law_decimal_round_trip(n, 65535);
    }
    lemma_decimal_nat_digits(n);
    lemma_trim_id(decimal(n as int));
    assert(trim_spec(Seq::<char>::empty()).len() == 0);
}

} // verus!
