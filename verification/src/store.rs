//! What the manager keeps: settings, administrators, enrollment tokens, agents, the servers and
//! clients of the network, and three journals.
//!
//! Rows stand in the order in which they were added. Each kind of row has a view over sequences
//! of characters.

use vstd::prelude::*;

use crate::assoc::{
    assoc_map, distinct_keys, lemma_assoc, lemma_assoc_remove, lemma_assoc_update, lemma_assoc_push,
};
use crate::text::{option_text_copy, option_view, text_eq, views};
use crate::text_map::TextMap;

verus! {

/// A token that an agent enrolls with, once.
#[derive(Debug)]
pub struct BootstrapToken {
    pub token: String,
    pub kind: String,
    pub label: String,
    pub created_at: String,
    pub used_at: Option<String>,
}

/// The view of [`BootstrapToken`].
#[verifier::ext_equal]
pub struct BootstrapTokenView {
    pub token: Seq<char>,
    pub kind: Seq<char>,
    pub label: Seq<char>,
    pub created_at: Seq<char>,
    pub used_at: Option<Seq<char>>,
}

impl View for BootstrapToken {
    type V = BootstrapTokenView;

    open spec fn view(&self) -> BootstrapTokenView {
        BootstrapTokenView {
            token: self.token@,
            kind: self.kind@,
            label: self.label@,
            created_at: self.created_at@,
            used_at: option_view(self.used_at),
        }
    }
}

impl Clone for BootstrapToken {
    fn clone(&self) -> (copy: Self)
        ensures
            copy@ == self@,
    {
        BootstrapToken {
            token: self.token.clone(),
            kind: self.kind.clone(),
            label: self.label.clone(),
            created_at: self.created_at.clone(),
            used_at: option_text_copy(&self.used_at),
        }
    }
}

/// An enrolled agent, and what it last reported.
#[derive(Debug)]
pub struct AgentRow {
    pub agent_id: String,
    pub kind: String,
    pub node_name: String,
    pub agent_secret: String,
    pub enabled: i64,
    pub current_version: Option<i64>,
    pub last_seen: Option<String>,
    pub last_error: String,
    pub last_message: String,
    pub connected_clients: i64,
    pub current_country: String,
    pub current_public_ip: String,
    pub upload_bytes: i64,
    pub download_bytes: i64,
}

/// The view of [`AgentRow`].
#[verifier::ext_equal]
pub struct AgentRowView {
    pub agent_id: Seq<char>,
    pub kind: Seq<char>,
    pub node_name: Seq<char>,
    pub agent_secret: Seq<char>,
    pub enabled: i64,
    pub current_version: Option<i64>,
    pub last_seen: Option<Seq<char>>,
    pub last_error: Seq<char>,
    pub last_message: Seq<char>,
    pub connected_clients: i64,
    pub current_country: Seq<char>,
    pub current_public_ip: Seq<char>,
    pub upload_bytes: i64,
    pub download_bytes: i64,
}

impl View for AgentRow {
    type V = AgentRowView;

    open spec fn view(&self) -> AgentRowView {
        AgentRowView {
            agent_id: self.agent_id@,
            kind: self.kind@,
            node_name: self.node_name@,
            agent_secret: self.agent_secret@,
            enabled: self.enabled,
            current_version: self.current_version,
            last_seen: option_view(self.last_seen),
            last_error: self.last_error@,
            last_message: self.last_message@,
            connected_clients: self.connected_clients,
            current_country: self.current_country@,
            current_public_ip: self.current_public_ip@,
            upload_bytes: self.upload_bytes,
            download_bytes: self.download_bytes,
        }
    }
}

impl Clone for AgentRow {
    fn clone(&self) -> (copy: Self)
        ensures
            copy@ == self@,
    {
        AgentRow {
            agent_id: self.agent_id.clone(),
            kind: self.kind.clone(),
            node_name: self.node_name.clone(),
            agent_secret: self.agent_secret.clone(),
            enabled: self.enabled,
            current_version: self.current_version,
            last_seen: option_text_copy(&self.last_seen),
            last_error: self.last_error.clone(),
            last_message: self.last_message.clone(),
            connected_clients: self.connected_clients,
            current_country: self.current_country.clone(),
            current_public_ip: self.current_public_ip.clone(),
            upload_bytes: self.upload_bytes,
            download_bytes: self.download_bytes,
        }
    }
}

/// A server of the network.
#[derive(Debug)]
pub struct ServerNode {
    pub server_id: String,
    pub node_name: String,
    pub listen_addr: String,
    pub public_endpoint: String,
    pub tun_name: String,
    pub tun_address: String,
    pub tun_prefix: i64,
    pub mtu: Option<i64>,
    pub client_cidr: String,
    pub nat_iface: Option<String>,
    pub setup_nat: i64,
    pub max_clients: i64,
    pub egress_ips_json: String,
    pub blocked_ips_json: String,
    pub protected_ips_json: String,
    pub doh_url: String,
    pub dns_bind_addr: String,
    pub enabled: i64,
}

/// The view of [`ServerNode`].
#[verifier::ext_equal]
pub struct ServerNodeView {
    pub server_id: Seq<char>,
    pub node_name: Seq<char>,
    pub listen_addr: Seq<char>,
    pub public_endpoint: Seq<char>,
    pub tun_name: Seq<char>,
    pub tun_address: Seq<char>,
    pub tun_prefix: i64,
    pub mtu: Option<i64>,
    pub client_cidr: Seq<char>,
    pub nat_iface: Option<Seq<char>>,
    pub setup_nat: i64,
    pub max_clients: i64,
    pub egress_ips_json: Seq<char>,
    pub blocked_ips_json: Seq<char>,
    pub protected_ips_json: Seq<char>,
    pub doh_url: Seq<char>,
    pub dns_bind_addr: Seq<char>,
    pub enabled: i64,
}

impl View for ServerNode {
    type V = ServerNodeView;

    open spec fn view(&self) -> ServerNodeView {
        ServerNodeView {
            server_id: self.server_id@,
            node_name: self.node_name@,
            listen_addr: self.listen_addr@,
            public_endpoint: self.public_endpoint@,
            tun_name: self.tun_name@,
            tun_address: self.tun_address@,
            tun_prefix: self.tun_prefix,
            mtu: self.mtu,
            client_cidr: self.client_cidr@,
            nat_iface: option_view(self.nat_iface),
            setup_nat: self.setup_nat,
            max_clients: self.max_clients,
            egress_ips_json: self.egress_ips_json@,
            blocked_ips_json: self.blocked_ips_json@,
            protected_ips_json: self.protected_ips_json@,
            doh_url: self.doh_url@,
            dns_bind_addr: self.dns_bind_addr@,
            enabled: self.enabled,
        }
    }
}

impl Clone for ServerNode {
    fn clone(&self) -> (copy: Self)
        ensures
            copy@ == self@,
    {
        ServerNode {
            server_id: self.server_id.clone(),
            node_name: self.node_name.clone(),
            listen_addr: self.listen_addr.clone(),
            public_endpoint: self.public_endpoint.clone(),
            tun_name: self.tun_name.clone(),
            tun_address: self.tun_address.clone(),
            tun_prefix: self.tun_prefix,
            mtu: self.mtu,
            client_cidr: self.client_cidr.clone(),
            nat_iface: option_text_copy(&self.nat_iface),
            setup_nat: self.setup_nat,
            max_clients: self.max_clients,
            egress_ips_json: self.egress_ips_json.clone(),
            blocked_ips_json: self.blocked_ips_json.clone(),
            protected_ips_json: self.protected_ips_json.clone(),
            doh_url: self.doh_url.clone(),
            dns_bind_addr: self.dns_bind_addr.clone(),
            enabled: self.enabled,
        }
    }
}

/// A client of the network.
#[derive(Debug)]
pub struct ClientNode {
    pub client_id: String,
    pub device_name: String,
    pub assigned_ip: String,
    pub server_id: Option<String>,
    pub tunnel_token: String,
    pub enabled: i64,
    pub egress_ip: Option<String>,
}

/// The view of [`ClientNode`].
#[verifier::ext_equal]
pub struct ClientNodeView {
    pub client_id: Seq<char>,
    pub device_name: Seq<char>,
    pub assigned_ip: Seq<char>,
    pub server_id: Option<Seq<char>>,
    pub tunnel_token: Seq<char>,
    pub enabled: i64,
    pub egress_ip: Option<Seq<char>>,
}

impl View for ClientNode {
    type V = ClientNodeView;

    open spec fn view(&self) -> ClientNodeView {
        ClientNodeView {
            client_id: self.client_id@,
            device_name: self.device_name@,
            assigned_ip: self.assigned_ip@,
            server_id: option_view(self.server_id),
            tunnel_token: self.tunnel_token@,
            enabled: self.enabled,
            egress_ip: option_view(self.egress_ip),
        }
    }
}

impl Clone for ClientNode {
    fn clone(&self) -> (copy: Self)
        ensures
            copy@ == self@,
    {
        ClientNode {
            client_id: self.client_id.clone(),
            device_name: self.device_name.clone(),
            assigned_ip: self.assigned_ip.clone(),
            server_id: option_text_copy(&self.server_id),
            tunnel_token: self.tunnel_token.clone(),
            enabled: self.enabled,
            egress_ip: option_text_copy(&self.egress_ip),
        }
    }
}

/// A line of the log.
#[derive(Debug)]
pub struct LogRow {
    pub timestamp: String,
    pub level: String,
    pub message: String,
}

/// The view of [`LogRow`].
#[verifier::ext_equal]
pub struct LogRowView {
    pub timestamp: Seq<char>,
    pub level: Seq<char>,
    pub message: Seq<char>,
}

impl View for LogRow {
    type V = LogRowView;

    open spec fn view(&self) -> LogRowView {
        LogRowView {
            timestamp: self.timestamp@,
            level: self.level@,
            message: self.message@,
        }
    }
}

/// A security alert.
#[derive(Debug)]
pub struct AlertRow {
    pub timestamp: String,
    pub level: String,
    pub agent_id: String,
    pub message: String,
}

/// The view of [`AlertRow`].
#[verifier::ext_equal]
pub struct AlertRowView {
    pub timestamp: Seq<char>,
    pub level: Seq<char>,
    pub agent_id: Seq<char>,
    pub message: Seq<char>,
}

impl View for AlertRow {
    type V = AlertRowView;

    open spec fn view(&self) -> AlertRowView {
        AlertRowView {
            timestamp: self.timestamp@,
            level: self.level@,
            agent_id: self.agent_id@,
            message: self.message@,
        }
    }
}

/// A connection of a client.
#[derive(Debug)]
pub struct SessionRow {
    pub agent_id: String,
    pub connected_at: String,
    pub public_ip: Option<String>,
    pub country: Option<String>,
    pub status_message: Option<String>,
}

/// The view of [`SessionRow`].
#[verifier::ext_equal]
pub struct SessionRowView {
    pub agent_id: Seq<char>,
    pub connected_at: Seq<char>,
    pub public_ip: Option<Seq<char>>,
    pub country: Option<Seq<char>>,
    pub status_message: Option<Seq<char>>,
}

impl View for SessionRow {
    type V = SessionRowView;

    open spec fn view(&self) -> SessionRowView {
        SessionRowView {
            agent_id: self.agent_id@,
            connected_at: self.connected_at@,
            public_ip: option_view(self.public_ip),
            country: option_view(self.country),
            status_message: option_view(self.status_message),
        }
    }
}

/// All that the manager keeps.
#[derive(Debug)]
pub struct ManagerStore {
    pub settings: TextMap,
    pub admins: TextMap,
    pub tokens: Vec<BootstrapToken>,
    pub agents: Vec<AgentRow>,
    pub servers: Vec<ServerNode>,
    pub clients: Vec<ClientNode>,
    pub logs: Vec<LogRow>,
    pub alerts: Vec<AlertRow>,
    pub sessions: Vec<SessionRow>,
}

/// The view of [`ManagerStore`]: agents are found by identity only, so that their order is left
/// out.
#[verifier::ext_equal]
pub struct ManagerStoreView {
    pub settings: Map<Seq<char>, Seq<char>>,
    pub admins: Map<Seq<char>, Seq<char>>,
    pub tokens: Seq<BootstrapTokenView>,
    pub agents: Map<Seq<char>, AgentRowView>,
    pub servers: Seq<ServerNodeView>,
    pub clients: Seq<ClientNodeView>,
    pub logs: Seq<LogRowView>,
    pub alerts: Seq<AlertRowView>,
    pub sessions: Seq<SessionRowView>,
}

/// Agents with their identities.
pub open spec fn agent_pairs(agents: Seq<AgentRow>) -> Seq<(Seq<char>, AgentRowView)> {
    Seq::new(agents.len(), |i: int| (agents[i].agent_id@, agents[i]@))
}

impl View for ManagerStore {
    type V = ManagerStoreView;

    open spec fn view(&self) -> ManagerStoreView {
        ManagerStoreView {
            settings: self.settings@,
            admins: self.admins@,
            tokens: views(self.tokens@),
            agents: assoc_map(agent_pairs(self.agents@)),
            servers: views(self.servers@),
            clients: views(self.clients@),
            logs: views(self.logs@),
            alerts: views(self.alerts@),
            sessions: views(self.sessions@),
        }
    }
}

impl Default for ManagerStore {
    /// A store that holds nothing.
    fn default() -> (store: Self)
        ensures
            store.wf(),
            store@ == empty_store(),
    {
        let store = ManagerStore {
            settings: TextMap::default(),
            admins: TextMap::default(),
            tokens: Vec::new(),
            agents: Vec::new(),
            servers: Vec::new(),
            clients: Vec::new(),
            logs: Vec::new(),
            alerts: Vec::new(),
            sessions: Vec::new(),
        };
        assert(store@ =~= empty_store());
        store
    }
}

/// A store that holds nothing.
pub open spec fn empty_store() -> ManagerStoreView {
    ManagerStoreView {
        settings: Map::empty(),
        admins: Map::empty(),
        tokens: Seq::empty(),
        agents: Map::empty(),
        servers: Seq::empty(),
        clients: Seq::empty(),
        logs: Seq::empty(),
        alerts: Seq::empty(),
        sessions: Seq::empty(),
    }
}

impl ManagerStore {
    /// Settings, administrators and agents have keys of their own.
    pub open spec fn wf(&self) -> bool {
        &&& self.settings.wf()
        &&& self.admins.wf()
        &&& distinct_keys(agent_pairs(self.agents@))
    }

    /// Where an agent stands.
    pub fn agent_position(&self, agent_id: &str) -> (r: Option<usize>)
        requires
            self.wf(),
        ensures
            match r {
                Some(i) => i < self.agents@.len() && self.agents@[i as int].agent_id@ == agent_id@
                    && self@.agents.contains_key(agent_id@) && self@.agents[agent_id@]
                    == self.agents@[i as int]@,
                None => !self@.agents.contains_key(agent_id@),
            },
    {
        let ghost pairs = agent_pairs(self.agents@);
        proof {
            lemma_assoc(pairs);
        }
        let n: usize = self.agents.len();
        for i in 0..n
            invariant
                n == self.agents@.len(),
                pairs == agent_pairs(self.agents@),
                forall|i: int|
                    0 <= i < pairs.len() ==> assoc_map(pairs).contains_key((#[trigger] pairs[i]).0)
                        && assoc_map(pairs)[pairs[i].0] == pairs[i].1,
                forall|j: int| 0 <= j < i ==> (#[trigger] pairs[j]).0 != agent_id@,
        {
            assert(pairs[i as int] == (self.agents@[i as int].agent_id@, self.agents@[i as int]@));
            if text_eq(self.agents[i].agent_id.as_str(), agent_id) {
                return Some(i);
            }
        }
        None
    }

    /// Puts an agent in place of the one at a position, which has the same identity.
    pub fn replace_agent(&mut self, at: usize, agent: AgentRow)
        requires
            old(self).wf(),
            at < old(self).agents@.len(),
            agent.agent_id@ == old(self).agents@[at as int].agent_id@,
        ensures
            final(self).wf(),
            final(self)@ == (ManagerStoreView {
                agents: old(self)@.agents.insert(agent.agent_id@, agent@),
                ..old(self)@
            }),
    {
        let ghost pairs = agent_pairs(self.agents@);
        let ghost view = agent@;
        self.agents.set(at, agent);
        proof {
            lemma_assoc_update(pairs, at as int, view);
            assert(agent_pairs(self.agents@) =~= pairs.update(
                at as int,
                (pairs[at as int].0, view),
            ));
        }
    }

    /// Adds an agent that is not known yet.
    pub fn add_agent(&mut self, agent: AgentRow)
        requires
            old(self).wf(),
            !old(self)@.agents.contains_key(agent.agent_id@),
        ensures
            final(self).wf(),
            final(self)@ == (ManagerStoreView {
                agents: old(self)@.agents.insert(agent.agent_id@, agent@),
                ..old(self)@
            }),
    {
        let ghost pairs = agent_pairs(self.agents@);
        let ghost view = agent@;
        let ghost id = agent.agent_id@;
        self.agents.push(agent);
        proof {
            lemma_assoc_push(pairs, id, view);
            assert(agent_pairs(self.agents@) =~= pairs.push((id, view)));
        }
    }

    /// Removes the agent at a position.
    pub fn remove_agent(&mut self, at: usize)
        requires
            old(self).wf(),
            at < old(self).agents@.len(),
        ensures
            final(self).wf(),
            final(self)@ == (ManagerStoreView {
                agents: old(self)@.agents.remove(old(self).agents@[at as int].agent_id@),
                ..old(self)@
            }),
    {
        let ghost pairs = agent_pairs(self.agents@);
        let _ = self.agents.remove(at);
        proof {
            lemma_assoc_remove(pairs, at as int);
            assert(agent_pairs(self.agents@) =~= pairs.remove(at as int));
        }
    }
}

/// The SQL statement that adds a column to a table that does not have it.
pub open spec fn column_statement(
    columns: Seq<Seq<char>>,
    table: Seq<char>,
    column: Seq<char>,
    definition: Seq<char>,
) -> Option<Seq<char>> {
    if columns.contains(column) {
        None
    } else {
        Some("ALTER TABLE "@ + table + " ADD COLUMN "@ + column + " "@ + definition)
    }
}

/// The SQL statement that adds a column to a table that does not have it.
pub fn ensure_column(columns: &Vec<String>, table: &str, column: &str, definition: &str) -> (r:
    Option<String>)
    ensures
        option_view(r) == column_statement(views(columns@), table@, column@, definition@),
{
    let n: usize = columns.len();
    let ghost all = views(columns@);
    for i in 0..n
        invariant
            n == columns@.len(),
            all == views(columns@),
            forall|j: int| 0 <= j < i ==> #[trigger] all[j] != column@,
    {
        assert(all[i as int] == columns@[i as int]@);
        if text_eq(columns[i].as_str(), column) {
            return None;
        }
    }
    let mut statement = String::from_str("ALTER TABLE ");
    statement.append(table);
    statement.append(" ADD COLUMN ");
    statement.append(column);
    statement.append(" ");
    statement.append(definition);
    Some(statement)
}

/// The view of [`BootstrapToken`] holds each field under its own name.
pub proof fn law_view_of_bootstrap_token(value: BootstrapToken)
    ensures
        value@.token == value.token@,
        value@.kind == value.kind@,
        value@.label == value.label@,
        value@.created_at == value.created_at@,
        value@.used_at == option_view(value.used_at),
{
}

/// The view of [`AgentRow`] holds each field under its own name.
pub proof fn law_view_of_agent_row(value: AgentRow)
    ensures
        value@.agent_id == value.agent_id@,
        value@.kind == value.kind@,
        value@.node_name == value.node_name@,
        value@.agent_secret == value.agent_secret@,
        value@.enabled == value.enabled,
        value@.current_version == value.current_version,
        value@.last_seen == option_view(value.last_seen),
        value@.last_error == value.last_error@,
        value@.last_message == value.last_message@,
        value@.connected_clients == value.connected_clients,
        value@.current_country == value.current_country@,
        value@.current_public_ip == value.current_public_ip@,
        value@.upload_bytes == value.upload_bytes,
        value@.download_bytes == value.download_bytes,
{
}

/// The view of [`ServerNode`] holds each field under its own name.
pub proof fn law_view_of_server_node(value: ServerNode)
    ensures
        value@.server_id == value.server_id@,
        value@.node_name == value.node_name@,
        value@.listen_addr == value.listen_addr@,
        value@.public_endpoint == value.public_endpoint@,
        value@.tun_name == value.tun_name@,
        value@.tun_address == value.tun_address@,
        value@.tun_prefix == value.tun_prefix,
        value@.mtu == value.mtu,
        value@.client_cidr == value.client_cidr@,
        value@.nat_iface == option_view(value.nat_iface),
        value@.setup_nat == value.setup_nat,
        value@.max_clients == value.max_clients,
        value@.egress_ips_json == value.egress_ips_json@,
        value@.blocked_ips_json == value.blocked_ips_json@,
        value@.protected_ips_json == value.protected_ips_json@,
        value@.doh_url == value.doh_url@,
        value@.dns_bind_addr == value.dns_bind_addr@,
        value@.enabled == value.enabled,
{
}

/// The view of [`ClientNode`] holds each field under its own name.
pub proof fn law_view_of_client_node(value: ClientNode)
    ensures
        value@.client_id == value.client_id@,
        value@.device_name == value.device_name@,
        value@.assigned_ip == value.assigned_ip@,
        value@.server_id == option_view(value.server_id),
        value@.tunnel_token == value.tunnel_token@,
        value@.enabled == value.enabled,
        value@.egress_ip == option_view(value.egress_ip),
{
}

/// The view of [`LogRow`] holds each field under its own name.
pub proof fn law_view_of_log_row(value: LogRow)
    ensures
        value@.timestamp == value.timestamp@,
        value@.level == value.level@,
        value@.message == value.message@,
{
}

/// The view of [`AlertRow`] holds each field under its own name.
pub proof fn law_view_of_alert_row(value: AlertRow)
    ensures
        value@.timestamp == value.timestamp@,
        value@.level == value.level@,
        value@.agent_id == value.agent_id@,
        value@.message == value.message@,
{
}

/// The view of [`SessionRow`] holds each field under its own name.
pub proof fn law_view_of_session_row(value: SessionRow)
    ensures
        value@.agent_id == value.agent_id@,
        value@.connected_at == value.connected_at@,
        value@.public_ip == option_view(value.public_ip),
        value@.country == option_view(value.country),
        value@.status_message == option_view(value.status_message),
{
}

/// The view of [`ManagerStore`] holds each field under its own name.
pub proof fn law_view_of_manager_store(value: ManagerStore)
    ensures
        value@.settings == value.settings@,
        value@.admins == value.admins@,
        value@.tokens == views(value.tokens@),
        value@.agents == assoc_map(agent_pairs(value.agents@)),
        value@.servers == views(value.servers@),
        value@.clients == views(value.clients@),
        value@.logs == views(value.logs@),
        value@.alerts == views(value.alerts@),
        value@.sessions == views(value.sessions@),
{
}

} // verus!
