//! What the dashboard lists: servers, clients and tokens, with what their agents last reported.

use vstd::prelude::*;

use crate::sorting::{law_sort_order, precedes, sort_order, sorted_positions, text_before};
use crate::store::{
    AgentRowView, BootstrapToken, BootstrapTokenView, ClientNode, ClientNodeView, ManagerStore,
    ManagerStoreView, ServerNode, ServerNodeView,
};
use crate::text::{option_text_or_empty, views};

verus! {

/// A server as the dashboard lists it.
#[derive(Debug)]
pub struct ServerRow {
    pub server_id: String,
    pub node_name: String,
    pub enabled: bool,
    pub listen_addr: String,
    pub public_endpoint: String,
    pub nat_iface: String,
    pub max_clients: usize,
    pub last_seen: String,
    pub current_version: Option<u64>,
    pub last_error: String,
    pub last_message: String,
    pub connected_clients: usize,
}

/// The view of [`ServerRow`].
#[verifier::ext_equal]
pub struct ServerRowView {
    pub server_id: Seq<char>,
    pub node_name: Seq<char>,
    pub enabled: bool,
    pub listen_addr: Seq<char>,
    pub public_endpoint: Seq<char>,
    pub nat_iface: Seq<char>,
    pub max_clients: usize,
    pub last_seen: Seq<char>,
    pub current_version: Option<u64>,
    pub last_error: Seq<char>,
    pub last_message: Seq<char>,
    pub connected_clients: usize,
}

impl View for ServerRow {
    type V = ServerRowView;

    open spec fn view(&self) -> ServerRowView {
        ServerRowView {
            server_id: self.server_id@,
            node_name: self.node_name@,
            enabled: self.enabled,
            listen_addr: self.listen_addr@,
            public_endpoint: self.public_endpoint@,
            nat_iface: self.nat_iface@,
            max_clients: self.max_clients,
            last_seen: self.last_seen@,
            current_version: self.current_version,
            last_error: self.last_error@,
            last_message: self.last_message@,
            connected_clients: self.connected_clients,
        }
    }
}

/// A client as the dashboard lists it.
#[derive(Debug)]
pub struct ClientRow {
    pub client_id: String,
    pub device_name: String,
    pub enabled: bool,
    pub assigned_ip: String,
    pub server_id: String,
    pub egress_ip: String,
    pub last_seen: String,
    pub current_version: Option<u64>,
    pub last_error: String,
    pub last_message: String,
}

/// The view of [`ClientRow`].
#[verifier::ext_equal]
pub struct ClientRowView {
    pub client_id: Seq<char>,
    pub device_name: Seq<char>,
    pub enabled: bool,
    pub assigned_ip: Seq<char>,
    pub server_id: Seq<char>,
    pub egress_ip: Seq<char>,
    pub last_seen: Seq<char>,
    pub current_version: Option<u64>,
    pub last_error: Seq<char>,
    pub last_message: Seq<char>,
}

impl View for ClientRow {
    type V = ClientRowView;

    open spec fn view(&self) -> ClientRowView {
        ClientRowView {
            client_id: self.client_id@,
            device_name: self.device_name@,
            enabled: self.enabled,
            assigned_ip: self.assigned_ip@,
            server_id: self.server_id@,
            egress_ip: self.egress_ip@,
            last_seen: self.last_seen@,
            current_version: self.current_version,
            last_error: self.last_error@,
            last_message: self.last_message@,
        }
    }
}

/// A token as the dashboard lists it.
#[derive(Debug)]
pub struct TokenRow {
    pub token: String,
    pub kind: String,
    pub label: String,
    pub created_at: String,
    pub used_at: String,
}

/// The view of [`TokenRow`].
#[verifier::ext_equal]
pub struct TokenRowView {
    pub token: Seq<char>,
    pub kind: Seq<char>,
    pub label: Seq<char>,
    pub created_at: Seq<char>,
    pub used_at: Seq<char>,
}

impl View for TokenRow {
    type V = TokenRowView;

    open spec fn view(&self) -> TokenRowView {
        TokenRowView {
            token: self.token@,
            kind: self.kind@,
            label: self.label@,
            created_at: self.created_at@,
            used_at: self.used_at@,
        }
    }
}

/// An optional text, or the empty text.
pub open spec fn or_empty(value: Option<Seq<char>>) -> Seq<char> {
    match value {
        Some(text) => text,
        None => Seq::empty(),
    }
}

/// A stored version.
pub open spec fn version_of(value: Option<i64>) -> Option<u64> {
    match value {
        Some(n) => Some(n as u64),
        None => None,
    }
}

/// A stored version.
fn version_value(value: Option<i64>) -> (r: Option<u64>)
    ensures
        r == version_of(value),
{
    match value {
        Some(n) => Some(#[verifier::truncate] (n as u64)),
        None => None,
    }
}

/// What an agent last reported, or nothing.
pub open spec fn agent_of(agents: Map<Seq<char>, AgentRowView>, id: Seq<char>) -> Option<
    AgentRowView,
> {
    if agents.contains_key(id) {
        Some(agents[id])
    } else {
        None
    }
}

/// A server with what its agent last reported.
pub open spec fn server_row(node: ServerNodeView, agent: Option<AgentRowView>) -> ServerRowView {
    ServerRowView {
        server_id: node.server_id,
        node_name: node.node_name,
        enabled: node.enabled != 0,
        listen_addr: node.listen_addr,
        public_endpoint: node.public_endpoint,
        nat_iface: or_empty(node.nat_iface),
        max_clients: node.max_clients as usize,
        last_seen: match agent {
            Some(row) => or_empty(row.last_seen),
            None => Seq::empty(),
        },
        current_version: match agent {
            Some(row) => version_of(row.current_version),
            None => None,
        },
        last_error: match agent {
            Some(row) => row.last_error,
            None => Seq::empty(),
        },
        last_message: match agent {
            Some(row) => row.last_message,
            None => Seq::empty(),
        },
        connected_clients: match agent {
            Some(row) => row.connected_clients as usize,
            None => 0,
        },
    }
}

/// A client with what its agent last reported.
pub open spec fn client_row(node: ClientNodeView, agent: Option<AgentRowView>) -> ClientRowView {
    ClientRowView {
        client_id: node.client_id,
        device_name: node.device_name,
        enabled: node.enabled != 0,
        assigned_ip: node.assigned_ip,
        server_id: or_empty(node.server_id),
        egress_ip: or_empty(node.egress_ip),
        last_seen: match agent {
            Some(row) => or_empty(row.last_seen),
            None => Seq::empty(),
        },
        current_version: match agent {
            Some(row) => version_of(row.current_version),
            None => None,
        },
        last_error: match agent {
            Some(row) => row.last_error,
            None => Seq::empty(),
        },
        last_message: match agent {
            Some(row) => row.last_message,
            None => Seq::empty(),
        },
    }
}

/// A token as it is listed.
pub open spec fn token_row(token: BootstrapTokenView) -> TokenRowView {
    TokenRowView {
        token: token.token,
        kind: token.kind,
        label: token.label,
        created_at: token.created_at,
        used_at: or_empty(token.used_at),
    }
}

/// The names that servers are ordered by.
pub open spec fn server_names(servers: Seq<ServerNodeView>) -> Seq<Seq<char>> {
    Seq::new(servers.len(), |i: int| servers[i].node_name)
}

/// The names that clients are ordered by.
pub open spec fn client_names(clients: Seq<ClientNodeView>) -> Seq<Seq<char>> {
    Seq::new(clients.len(), |i: int| clients[i].device_name)
}

/// The times that tokens are ordered by.
pub open spec fn token_times(tokens: Seq<BootstrapTokenView>) -> Seq<Seq<char>> {
    Seq::new(tokens.len(), |i: int| tokens[i].created_at)
}

/// All servers, by name.
pub open spec fn listed_servers(store: ManagerStoreView) -> Seq<ServerRowView> {
    let order = sort_order(server_names(store.servers), false);
    Seq::new(
        order.len(),
        |i: int|
            server_row(
                store.servers[order[i]],
                agent_of(store.agents, store.servers[order[i]].server_id),
            ),
    )
}

/// All clients, by name.
pub open spec fn listed_clients(store: ManagerStoreView) -> Seq<ClientRowView> {
    let order = sort_order(client_names(store.clients), false);
    Seq::new(
        order.len(),
        |i: int|
            client_row(
                store.clients[order[i]],
                agent_of(store.agents, store.clients[order[i]].client_id),
            ),
    )
}

/// All tokens, the newest first.
pub open spec fn listed_tokens(store: ManagerStoreView) -> Seq<TokenRowView> {
    let order = sort_order(token_times(store.tokens), true);
    Seq::new(order.len(), |i: int| token_row(store.tokens[order[i]]))
}

/// A server with what its agent last reported.
fn make_server_row(store: &ManagerStore, node: &ServerNode) -> (row: ServerRow)
    requires
        store.wf(),
    ensures
        row@ == server_row(node@, agent_of(store@.agents, node.server_id@)),
{
    let mut row = ServerRow {
        server_id: node.server_id.clone(),
        node_name: node.node_name.clone(),
        enabled: node.enabled != 0,
        listen_addr: node.listen_addr.clone(),
        public_endpoint: node.public_endpoint.clone(),
        nat_iface: option_text_or_empty(&node.nat_iface),
        max_clients: #[verifier::truncate] (node.max_clients as usize),
        last_seen: String::new(),
        current_version: None,
        last_error: String::new(),
        last_message: String::new(),
        connected_clients: 0,
    };
    if let Some(at) = store.agent_position(node.server_id.as_str()) {
        let agent = &store.agents[at];
        row.last_seen = option_text_or_empty(&agent.last_seen);
        row.current_version = version_value(agent.current_version);
        row.last_error = agent.last_error.clone();
        row.last_message = agent.last_message.clone();
        row.connected_clients = #[verifier::truncate] (agent.connected_clients as usize);
    }
    row
}

/// A client with what its agent last reported.
fn make_client_row(store: &ManagerStore, node: &ClientNode) -> (row: ClientRow)
    requires
        store.wf(),
    ensures
        row@ == client_row(node@, agent_of(store@.agents, node.client_id@)),
{
    let mut row = ClientRow {
        client_id: node.client_id.clone(),
        device_name: node.device_name.clone(),
        enabled: node.enabled != 0,
        assigned_ip: node.assigned_ip.clone(),
        server_id: option_text_or_empty(&node.server_id),
        egress_ip: option_text_or_empty(&node.egress_ip),
        last_seen: String::new(),
        current_version: None,
        last_error: String::new(),
        last_message: String::new(),
    };
    if let Some(at) = store.agent_position(node.client_id.as_str()) {
        let agent = &store.agents[at];
        row.last_seen = option_text_or_empty(&agent.last_seen);
        row.current_version = version_value(agent.current_version);
        row.last_error = agent.last_error.clone();
        row.last_message = agent.last_message.clone();
    }
    row
}

/// All servers, by name.
pub fn list_servers(store: &ManagerStore) -> (rows: Vec<ServerRow>)
    requires
        store.wf(),
    ensures
        views(rows@) == listed_servers(store@),
{
    let n: usize = store.servers.len();
    let mut keys: Vec<String> = Vec::new();
    let ghost names = server_names(store@.servers);
    assert(views(keys@) =~= names.take(0));
    for i in 0..n
        invariant
            n == store.servers@.len(),
            names == server_names(store@.servers),
            views(keys@) == names.take(i as int),
    {
        let ghost before = views(keys@);
        assert(store@.servers[i as int] == store.servers@[i as int]@);
        keys.push(store.servers[i].node_name.clone());
        assert(views(keys@) =~= before.push(names[i as int]));
        assert(names.take(i + 1) =~= before.push(names[i as int]));
    }
    assert(names.take(n as int) =~= names);
    let order = sorted_positions(&keys, false);
    assert(views(keys@).len() == names.len());
    let ghost expected = listed_servers(store@);
    let mut rows: Vec<ServerRow> = Vec::new();
    assert(views(rows@) =~= expected.take(0));
    for i in 0..n
        invariant
            store.wf(),
            n == store.servers@.len(),
            n == order@.len(),
            forall|i: int| 0 <= i < order@.len() ==> (#[trigger] order@[i]) < n,
            crate::sorting::as_ints(order@) == sort_order(server_names(store@.servers), false),
            expected == listed_servers(store@),
            views(rows@) == expected.take(i as int),
    {
        let at: usize = order[i];
        assert(crate::sorting::as_ints(order@)[i as int] == at as int);
        assert(store@.servers[at as int] == store.servers@[at as int]@);
        let row = make_server_row(store, &store.servers[at]);
        assert(row@ == expected[i as int]);
        let ghost before = views(rows@);
        rows.push(row);
        assert(views(rows@) =~= before.push(expected[i as int]));
        assert(expected.take(i + 1) =~= before.push(expected[i as int]));
    }
    assert(crate::sorting::as_ints(order@).len() == n);
    assert(expected.take(n as int) =~= expected);
    rows
}

/// All clients, by name.
pub fn list_clients(store: &ManagerStore) -> (rows: Vec<ClientRow>)
    requires
        store.wf(),
    ensures
        views(rows@) == listed_clients(store@),
{
    let n: usize = store.clients.len();
    let mut keys: Vec<String> = Vec::new();
    let ghost names = client_names(store@.clients);
    assert(views(keys@) =~= names.take(0));
    for i in 0..n
        invariant
            n == store.clients@.len(),
            names == client_names(store@.clients),
            views(keys@) == names.take(i as int),
    {
        let ghost before = views(keys@);
        assert(store@.clients[i as int] == store.clients@[i as int]@);
        keys.push(store.clients[i].device_name.clone());
        assert(views(keys@) =~= before.push(names[i as int]));
        assert(names.take(i + 1) =~= before.push(names[i as int]));
    }
    assert(names.take(n as int) =~= names);
    let order = sorted_positions(&keys, false);
    assert(views(keys@).len() == names.len());
    let ghost expected = listed_clients(store@);
    let mut rows: Vec<ClientRow> = Vec::new();
    assert(views(rows@) =~= expected.take(0));
    for i in 0..n
        invariant
            store.wf(),
            n == store.clients@.len(),
            n == order@.len(),
            forall|i: int| 0 <= i < order@.len() ==> (#[trigger] order@[i]) < n,
            crate::sorting::as_ints(order@) == sort_order(client_names(store@.clients), false),
            expected == listed_clients(store@),
            views(rows@) == expected.take(i as int),
    {
        let at: usize = order[i];
        assert(crate::sorting::as_ints(order@)[i as int] == at as int);
        assert(store@.clients[at as int] == store.clients@[at as int]@);
        let row = make_client_row(store, &store.clients[at]);
        assert(row@ == expected[i as int]);
        let ghost before = views(rows@);
        rows.push(row);
        assert(views(rows@) =~= before.push(expected[i as int]));
        assert(expected.take(i + 1) =~= before.push(expected[i as int]));
    }
    assert(crate::sorting::as_ints(order@).len() == n);
    assert(expected.take(n as int) =~= expected);
    rows
}

/// A token as it is listed.
fn make_token_row(token: &BootstrapToken) -> (row: TokenRow)
    ensures
        row@ == token_row(token@),
{
    TokenRow {
        token: token.token.clone(),
        kind: token.kind.clone(),
        label: token.label.clone(),
        created_at: token.created_at.clone(),
        used_at: option_text_or_empty(&token.used_at),
    }
}

/// All tokens, the newest first.
pub fn list_tokens(store: &ManagerStore) -> (rows: Vec<TokenRow>)
    requires
        store.wf(),
    ensures
        views(rows@) == listed_tokens(store@),
{
    let n: usize = store.tokens.len();
    let mut keys: Vec<String> = Vec::new();
    let ghost names = token_times(store@.tokens);
    assert(views(keys@) =~= names.take(0));
    for i in 0..n
        invariant
            n == store.tokens@.len(),
            names == token_times(store@.tokens),
            views(keys@) == names.take(i as int),
    {
        let ghost before = views(keys@);
        assert(store@.tokens[i as int] == store.tokens@[i as int]@);
        keys.push(store.tokens[i].created_at.clone());
        assert(views(keys@) =~= before.push(names[i as int]));
        assert(names.take(i + 1) =~= before.push(names[i as int]));
    }
    assert(names.take(n as int) =~= names);
    let order = sorted_positions(&keys, true);
    assert(views(keys@).len() == names.len());
    let ghost expected = listed_tokens(store@);
    let mut rows: Vec<TokenRow> = Vec::new();
    assert(views(rows@) =~= expected.take(0));
    for i in 0..n
        invariant
            store.wf(),
            n == store.tokens@.len(),
            n == order@.len(),
            forall|i: int| 0 <= i < order@.len() ==> (#[trigger] order@[i]) < n,
            crate::sorting::as_ints(order@) == sort_order(token_times(store@.tokens), true),
            expected == listed_tokens(store@),
            views(rows@) == expected.take(i as int),
    {
        let at: usize = order[i];
        assert(crate::sorting::as_ints(order@)[i as int] == at as int);
        assert(store@.tokens[at as int] == store.tokens@[at as int]@);
        let row = make_token_row(&store.tokens[at]);
        assert(row@ == expected[i as int]);
        let ghost before = views(rows@);
        rows.push(row);
        assert(views(rows@) =~= before.push(expected[i as int]));
        assert(expected.take(i + 1) =~= before.push(expected[i as int]));
    }
    assert(crate::sorting::as_ints(order@).len() == n);
    assert(expected.take(n as int) =~= expected);
    rows
}

/// Whether a row shows what the node of a server holds: names, addresses and limit as they stand
/// there, an outside interface that is not set as the empty text, the switch as on where its number
/// is not zero.
pub open spec fn shows_server(row: ServerRowView, node: ServerNodeView) -> bool {
    &&& row.server_id == node.server_id
    &&& row.node_name == node.node_name
    &&& row.enabled <==> node.enabled != 0
    &&& row.listen_addr == node.listen_addr
    &&& row.public_endpoint == node.public_endpoint
    &&& node.nat_iface matches Some(iface) ==> row.nat_iface == iface
    &&& node.nat_iface is None ==> row.nat_iface.len() == 0
    &&& 0 <= node.max_clients <= usize::MAX ==> row.max_clients == node.max_clients
}

/// Whether a row shows what the node of a client holds.
pub open spec fn shows_client(row: ClientRowView, node: ClientNodeView) -> bool {
    &&& row.client_id == node.client_id
    &&& row.device_name == node.device_name
    &&& row.enabled <==> node.enabled != 0
    &&& row.assigned_ip == node.assigned_ip
    &&& node.server_id matches Some(id) ==> row.server_id == id
    &&& node.server_id is None ==> row.server_id.len() == 0
    &&& node.egress_ip matches Some(ip) ==> row.egress_ip == ip
    &&& node.egress_ip is None ==> row.egress_ip.len() == 0
}

/// Whether a row of the list shows a token.
pub open spec fn shows_token(row: TokenRowView, token: BootstrapTokenView) -> bool {
    &&& row.token == token.token
    &&& row.kind == token.kind
    &&& row.label == token.label
    &&& row.created_at == token.created_at
    &&& token.used_at matches Some(time) ==> row.used_at == time
    &&& token.used_at is None ==> row.used_at.len() == 0
}

/// A listed server shows what its node holds and what its agent last reported: when it was seen, the
/// version, the error, the message and the number of clients; where no agent has its identity,
/// nothing.
pub proof fn law_listed_server_shows_node_and_agent(
    node: ServerNodeView,
    agents: Map<Seq<char>, AgentRowView>,
)
    ensures
        ({
            let row = server_row(node, agent_of(agents, node.server_id));
            let agent = agents[node.server_id];
            &&& shows_server(row, node)
            &&& agents.contains_key(node.server_id) ==> {
                &&& agent.last_seen matches Some(time) ==> row.last_seen == time
                &&& agent.last_seen is None ==> row.last_seen.len() == 0
                &&& row.current_version is Some <==> agent.current_version is Some
                &&& agent.current_version matches Some(version) ==> (version >= 0
                    ==> row.current_version->Some_0 == version)
                &&& row.last_error == agent.last_error
                &&& row.last_message == agent.last_message
                &&& 0 <= agent.connected_clients <= usize::MAX ==> row.connected_clients
                    == agent.connected_clients
            }
            &&& !agents.contains_key(node.server_id) ==> row.last_seen.len() == 0
                && row.current_version is None && row.last_error.len() == 0
                && row.last_message.len() == 0 && row.connected_clients == 0
        }),
{
}

/// A listed client shows what its node holds and what its agent last reported: when it was seen, the
/// version, the error and the message; where no agent has its identity, nothing.
pub proof fn law_listed_client_shows_node_and_agent(
    node: ClientNodeView,
    agents: Map<Seq<char>, AgentRowView>,
)
    ensures
        ({
            let row = client_row(node, agent_of(agents, node.client_id));
            let agent = agents[node.client_id];
            &&& shows_client(row, node)
            &&& agents.contains_key(node.client_id) ==> {
                &&& agent.last_seen matches Some(time) ==> row.last_seen == time
                &&& agent.last_seen is None ==> row.last_seen.len() == 0
                &&& row.current_version is Some <==> agent.current_version is Some
                &&& agent.current_version matches Some(version) ==> (version >= 0
                    ==> row.current_version->Some_0 == version)
                &&& row.last_error == agent.last_error
                &&& row.last_message == agent.last_message
            }
            &&& !agents.contains_key(node.client_id) ==> row.last_seen.len() == 0
                && row.current_version is None && row.last_error.len() == 0
                && row.last_message.len() == 0
        }),
{
}

/// Every row of the lists shows a server, a client or a token of the store, and there are as many
/// rows as there are of those.
pub proof fn law_lists_show_the_store(store: ManagerStoreView, s: int, c: int, t: int)
    ensures
        listed_servers(store).len() == store.servers.len(),
        listed_clients(store).len() == store.clients.len(),
        listed_tokens(store).len() == store.tokens.len(),
        0 <= s < store.servers.len() ==> exists|k: int|
            0 <= k < store.servers.len() && #[trigger] shows_server(
                listed_servers(store)[s],
                store.servers[k],
            ) && listed_servers(store)[s] == server_row(
                store.servers[k],
                agent_of(store.agents, store.servers[k].server_id),
            ),
        0 <= c < store.clients.len() ==> exists|k: int|
            0 <= k < store.clients.len() && #[trigger] shows_client(
                listed_clients(store)[c],
                store.clients[k],
            ) && listed_clients(store)[c] == client_row(
                store.clients[k],
                agent_of(store.agents, store.clients[k].client_id),
            ),
        0 <= t < store.tokens.len() ==> exists|k: int|
            0 <= k < store.tokens.len() && #[trigger] shows_token(
                listed_tokens(store)[t],
                store.tokens[k],
            ),
{
    law_sort_order(server_names(store.servers), false);
    law_sort_order(client_names(store.clients), false);
    law_sort_order(token_times(store.tokens), true);
    let by_name = sort_order(server_names(store.servers), false);
    let by_device = sort_order(client_names(store.clients), false);
    let by_time = sort_order(token_times(store.tokens), true);
    if 0 <= s < store.servers.len() {
        assert(0 <= by_name[s] < store.servers.len());
        assert(shows_server(listed_servers(store)[s], store.servers[by_name[s]]));
    }
    if 0 <= c < store.clients.len() {
        assert(0 <= by_device[c] < store.clients.len());
        assert(shows_client(listed_clients(store)[c], store.clients[by_device[c]]));
    }
    if 0 <= t < store.tokens.len() {
        assert(0 <= by_time[t] < store.tokens.len());
        assert(shows_token(listed_tokens(store)[t], store.tokens[by_time[t]]));
    }
}

/// Servers and clients are listed by name, tokens by the time of their making, the newest first.
pub proof fn law_lists_are_ordered(store: ManagerStoreView, i: int, j: int)
    requires
        0 <= i < j,
    ensures
        j < store.servers.len() ==> !text_before(
            listed_servers(store)[j].node_name,
            listed_servers(store)[i].node_name,
        ),
        j < store.clients.len() ==> !text_before(
            listed_clients(store)[j].device_name,
            listed_clients(store)[i].device_name,
        ),
        j < store.tokens.len() ==> !text_before(
            listed_tokens(store)[i].created_at,
            listed_tokens(store)[j].created_at,
        ),
{
    law_sort_order(server_names(store.servers), false);
    law_sort_order(client_names(store.clients), false);
    law_sort_order(token_times(store.tokens), true);
    let by_name = sort_order(server_names(store.servers), false);
    let by_device = sort_order(client_names(store.clients), false);
    let by_time = sort_order(token_times(store.tokens), true);
    if j < store.servers.len() {
        let names = server_names(store.servers);
        assert(!precedes(names[by_name[j]], names[by_name[i]], false));
    }
    if j < store.clients.len() {
        let names = client_names(store.clients);
        assert(!precedes(names[by_device[j]], names[by_device[i]], false));
    }
    if j < store.tokens.len() {
        let times = token_times(store.tokens);
        assert(!precedes(times[by_time[j]], times[by_time[i]], true));
    }
}

/// No row is listed twice: two rows of a list come from two different rows of the store.
pub proof fn law_rows_are_listed_once(store: ManagerStoreView, i: int, j: int)
    requires
        0 <= i < j,
    ensures
        j < store.servers.len() ==> exists|k: int, l: int|
            0 <= k < store.servers.len() && 0 <= l < store.servers.len() && k != l
                && #[trigger] shows_server(listed_servers(store)[i], store.servers[k])
                && #[trigger] shows_server(listed_servers(store)[j], store.servers[l]),
        j < store.clients.len() ==> exists|k: int, l: int|
            0 <= k < store.clients.len() && 0 <= l < store.clients.len() && k != l
                && #[trigger] shows_client(listed_clients(store)[i], store.clients[k])
                && #[trigger] shows_client(listed_clients(store)[j], store.clients[l]),
        j < store.tokens.len() ==> exists|k: int, l: int|
            0 <= k < store.tokens.len() && 0 <= l < store.tokens.len() && k != l
                && #[trigger] shows_token(listed_tokens(store)[i], store.tokens[k])
                && #[trigger] shows_token(listed_tokens(store)[j], store.tokens[l]),
{
    law_sort_order(server_names(store.servers), false);
    law_sort_order(client_names(store.clients), false);
    law_sort_order(token_times(store.tokens), true);
    let by_name = sort_order(server_names(store.servers), false);
    let by_device = sort_order(client_names(store.clients), false);
    let by_time = sort_order(token_times(store.tokens), true);
    if j < store.servers.len() {
        assert(by_name[i] != by_name[j]);
        assert(shows_server(listed_servers(store)[i], store.servers[by_name[i]]));
        assert(shows_server(listed_servers(store)[j], store.servers[by_name[j]]));
    }
    if j < store.clients.len() {
        assert(by_device[i] != by_device[j]);
        assert(shows_client(listed_clients(store)[i], store.clients[by_device[i]]));
        assert(shows_client(listed_clients(store)[j], store.clients[by_device[j]]));
    }
    if j < store.tokens.len() {
        assert(by_time[i] != by_time[j]);
        assert(shows_token(listed_tokens(store)[i], store.tokens[by_time[i]]));
        assert(shows_token(listed_tokens(store)[j], store.tokens[by_time[j]]));
    }
}

/// The view of [`ServerRow`] holds each field under its own name.
pub proof fn law_view_of_server_row(value: ServerRow)
    ensures
        value@.server_id == value.server_id@,
        value@.node_name == value.node_name@,
        value@.enabled == value.enabled,
        value@.listen_addr == value.listen_addr@,
        value@.public_endpoint == value.public_endpoint@,
        value@.nat_iface == value.nat_iface@,
        value@.max_clients == value.max_clients,
        value@.last_seen == value.last_seen@,
        value@.current_version == value.current_version,
        value@.last_error == value.last_error@,
        value@.last_message == value.last_message@,
        value@.connected_clients == value.connected_clients,
{
}

/// The view of [`ClientRow`] holds each field under its own name.
pub proof fn law_view_of_client_row(value: ClientRow)
    ensures
        value@.client_id == value.client_id@,
        value@.device_name == value.device_name@,
        value@.enabled == value.enabled,
        value@.assigned_ip == value.assigned_ip@,
        value@.server_id == value.server_id@,
        value@.egress_ip == value.egress_ip@,
        value@.last_seen == value.last_seen@,
        value@.current_version == value.current_version,
        value@.last_error == value.last_error@,
        value@.last_message == value.last_message@,
{
}

/// The view of [`TokenRow`] holds each field under its own name.
pub proof fn law_view_of_token_row(value: TokenRow)
    ensures
        value@.token == value.token@,
        value@.kind == value.kind@,
        value@.label == value.label@,
        value@.created_at == value.created_at@,
        value@.used_at == value.used_at@,
{
}

} // verus!
