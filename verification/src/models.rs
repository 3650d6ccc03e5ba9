//! The records that the manager and its agents exchange.
//!
//! Each record with text in it has a view, a record of the same shape over sequences of
//! characters: two records say the same exactly where their views are equal.

use vstd::prelude::*;

use crate::text::{copy_texts, option_text_copy, option_view, views};

verus! {

/// The two kinds of agent.
#[derive(Clone, Copy, Debug, PartialEq, Eq, Structural)]
pub enum AgentKind {
    Server,
    Client,
}

impl AgentKind {
    /// The name of the kind.
    pub open spec fn name(self) -> Seq<char> {
        match self {
            AgentKind::Server => "server"@,
            AgentKind::Client => "client"@,
        }
    }

    /// The name of the kind.
    pub fn as_str(&self) -> (r: &'static str)
        ensures
            r@ == self.name(),
    {
        match self {
            AgentKind::Server => "server",
            AgentKind::Client => "client",
        }
    }
}

/// What a client sends through the tunnel.
#[derive(Clone, Copy, Debug, PartialEq, Eq, Structural)]
pub enum RouteMode {
    FullTunnel,
}

impl Default for RouteMode {
    fn default() -> (mode: Self)
        ensures
            mode == RouteMode::FullTunnel,
    {
        RouteMode::FullTunnel
    }
}

/// The destinations that a server does not forward to.
#[derive(Debug)]
pub struct FirewallPolicy {
    pub blocked_destinations: Vec<String>,
    pub protected_destinations: Vec<String>,
}

/// The view of [`FirewallPolicy`].
#[verifier::ext_equal]
pub struct FirewallPolicyView {
    pub blocked_destinations: Seq<Seq<char>>,
    pub protected_destinations: Seq<Seq<char>>,
}

impl View for FirewallPolicy {
    type V = FirewallPolicyView;

    open spec fn view(&self) -> FirewallPolicyView {
        FirewallPolicyView {
            blocked_destinations: views(self.blocked_destinations@),
            protected_destinations: views(self.protected_destinations@),
        }
    }
}

impl Clone for FirewallPolicy {
    fn clone(&self) -> (copy: Self)
        ensures
            copy@ == self@,
    {
        FirewallPolicy {
            blocked_destinations: copy_texts(&self.blocked_destinations),
            protected_destinations: copy_texts(&self.protected_destinations),
        }
    }
}

/// Where a server answers DNS queries, and where it forwards them to.
#[derive(Debug)]
pub struct DnsProfile {
    pub bind_addr: String,
    pub doh_url: String,
}

/// The view of [`DnsProfile`].
#[verifier::ext_equal]
pub struct DnsProfileView {
    pub bind_addr: Seq<char>,
    pub doh_url: Seq<char>,
}

impl View for DnsProfile {
    type V = DnsProfileView;

    open spec fn view(&self) -> DnsProfileView {
        DnsProfileView {
            bind_addr: self.bind_addr@,
            doh_url: self.doh_url@,
        }
    }
}

impl Clone for DnsProfile {
    fn clone(&self) -> (copy: Self)
        ensures
            copy@ == self@,
    {
        DnsProfile {
            bind_addr: self.bind_addr.clone(),
            doh_url: self.doh_url.clone(),
        }
    }
}

/// A client that a server reports as connected.
#[derive(Debug)]
pub struct ConnectedClient {
    pub device_name: String,
    pub vpn_ip: String,
    pub public_ip: String,
    pub connected_since: String,
}

/// The view of [`ConnectedClient`].
#[verifier::ext_equal]
pub struct ConnectedClientView {
    pub device_name: Seq<char>,
    pub vpn_ip: Seq<char>,
    pub public_ip: Seq<char>,
    pub connected_since: Seq<char>,
}

impl View for ConnectedClient {
    type V = ConnectedClientView;

    open spec fn view(&self) -> ConnectedClientView {
        ConnectedClientView {
            device_name: self.device_name@,
            vpn_ip: self.vpn_ip@,
            public_ip: self.public_ip@,
            connected_since: self.connected_since@,
        }
    }
}

impl Clone for ConnectedClient {
    fn clone(&self) -> (copy: Self)
        ensures
            copy@ == self@,
    {
        ConnectedClient {
            device_name: self.device_name.clone(),
            vpn_ip: self.vpn_ip.clone(),
            public_ip: self.public_ip.clone(),
            connected_since: self.connected_since.clone(),
        }
    }
}

/// A client that a server may serve.
#[derive(Debug)]
pub struct ManagedClientRecord {
    pub client_id: String,
    pub device_name: String,
    pub enabled: bool,
    pub assigned_ip: String,
    pub tunnel_token: String,
    pub egress_ip: Option<String>,
}

/// The view of [`ManagedClientRecord`].
#[verifier::ext_equal]
pub struct ManagedClientRecordView {
    pub client_id: Seq<char>,
    pub device_name: Seq<char>,
    pub enabled: bool,
    pub assigned_ip: Seq<char>,
    pub tunnel_token: Seq<char>,
    pub egress_ip: Option<Seq<char>>,
}

impl View for ManagedClientRecord {
    type V = ManagedClientRecordView;

    open spec fn view(&self) -> ManagedClientRecordView {
        ManagedClientRecordView {
            client_id: self.client_id@,
            device_name: self.device_name@,
            enabled: self.enabled,
            assigned_ip: self.assigned_ip@,
            tunnel_token: self.tunnel_token@,
            egress_ip: option_view(self.egress_ip),
        }
    }
}

impl Clone for ManagedClientRecord {
    fn clone(&self) -> (copy: Self)
        ensures
            copy@ == self@,
    {
        ManagedClientRecord {
            client_id: self.client_id.clone(),
            device_name: self.device_name.clone(),
            enabled: self.enabled,
            assigned_ip: self.assigned_ip.clone(),
            tunnel_token: self.tunnel_token.clone(),
            egress_ip: option_text_copy(&self.egress_ip),
        }
    }
}

/// What the manager tells a server.
#[derive(Debug)]
pub struct ServerConfig {
    pub version: u64,
    pub server_id: String,
    pub enabled: bool,
    pub node_name: String,
    pub listen_addr: String,
    pub public_endpoint: String,
    pub tun_name: String,
    pub tun_address: String,
    pub tun_prefix: u8,
    pub mtu: Option<u16>,
    pub client_cidr: String,
    pub max_clients: usize,
    pub nat_iface: Option<String>,
    pub setup_nat: bool,
    pub firewall: FirewallPolicy,
    pub dns: DnsProfile,
    pub egress_ips: Vec<String>,
    pub allowed_clients: Vec<ManagedClientRecord>,
    pub poll_interval_seconds: u64,
}

/// The view of [`ServerConfig`].
#[verifier::ext_equal]
pub struct ServerConfigView {
    pub version: u64,
    pub server_id: Seq<char>,
    pub enabled: bool,
    pub node_name: Seq<char>,
    pub listen_addr: Seq<char>,
    pub public_endpoint: Seq<char>,
    pub tun_name: Seq<char>,
    pub tun_address: Seq<char>,
    pub tun_prefix: u8,
    pub mtu: Option<u16>,
    pub client_cidr: Seq<char>,
    pub max_clients: usize,
    pub nat_iface: Option<Seq<char>>,
    pub setup_nat: bool,
    pub firewall: FirewallPolicyView,
    pub dns: DnsProfileView,
    pub egress_ips: Seq<Seq<char>>,
    pub allowed_clients: Seq<ManagedClientRecordView>,
    pub poll_interval_seconds: u64,
}

impl View for ServerConfig {
    type V = ServerConfigView;

    open spec fn view(&self) -> ServerConfigView {
        ServerConfigView {
            version: self.version,
            server_id: self.server_id@,
            enabled: self.enabled,
            node_name: self.node_name@,
            listen_addr: self.listen_addr@,
            public_endpoint: self.public_endpoint@,
            tun_name: self.tun_name@,
            tun_address: self.tun_address@,
            tun_prefix: self.tun_prefix,
            mtu: self.mtu,
            client_cidr: self.client_cidr@,
            max_clients: self.max_clients,
            nat_iface: option_view(self.nat_iface),
            setup_nat: self.setup_nat,
            firewall: self.firewall@,
            dns: self.dns@,
            egress_ips: views(self.egress_ips@),
            allowed_clients: views(self.allowed_clients@),
            poll_interval_seconds: self.poll_interval_seconds,
        }
    }
}

impl Clone for ServerConfig {
    fn clone(&self) -> (copy: Self)
        ensures
            copy@ == self@,
    {
        ServerConfig {
            version: self.version,
            server_id: self.server_id.clone(),
            enabled: self.enabled,
            node_name: self.node_name.clone(),
            listen_addr: self.listen_addr.clone(),
            public_endpoint: self.public_endpoint.clone(),
            tun_name: self.tun_name.clone(),
            tun_address: self.tun_address.clone(),
            tun_prefix: self.tun_prefix,
            mtu: self.mtu,
            client_cidr: self.client_cidr.clone(),
            max_clients: self.max_clients,
            nat_iface: option_text_copy(&self.nat_iface),
            setup_nat: self.setup_nat,
            firewall: self.firewall.clone(),
            dns: self.dns.clone(),
            egress_ips: copy_texts(&self.egress_ips),
            allowed_clients: copy_client_records(&self.allowed_clients),
            poll_interval_seconds: self.poll_interval_seconds,
        }
    }
}

/// What the manager tells a client.
#[derive(Debug)]
pub struct ClientConfig {
    pub version: u64,
    pub client_id: String,
    pub enabled: bool,
    pub device_name: String,
    pub server_id: String,
    pub server_endpoint: String,
    pub tunnel_token: String,
    pub tun_name: String,
    pub tun_address: String,
    pub tun_prefix: u8,
    pub mtu: Option<u16>,
    pub dns_server: String,
    pub route_mode: RouteMode,
    pub egress_ip: Option<String>,
    pub poll_interval_seconds: u64,
}

/// The view of [`ClientConfig`].
#[verifier::ext_equal]
pub struct ClientConfigView {
    pub version: u64,
    pub client_id: Seq<char>,
    pub enabled: bool,
    pub device_name: Seq<char>,
    pub server_id: Seq<char>,
    pub server_endpoint: Seq<char>,
    pub tunnel_token: Seq<char>,
    pub tun_name: Seq<char>,
    pub tun_address: Seq<char>,
    pub tun_prefix: u8,
    pub mtu: Option<u16>,
    pub dns_server: Seq<char>,
    pub route_mode: RouteMode,
    pub egress_ip: Option<Seq<char>>,
    pub poll_interval_seconds: u64,
}

impl View for ClientConfig {
    type V = ClientConfigView;

    open spec fn view(&self) -> ClientConfigView {
        ClientConfigView {
            version: self.version,
            client_id: self.client_id@,
            enabled: self.enabled,
            device_name: self.device_name@,
            server_id: self.server_id@,
            server_endpoint: self.server_endpoint@,
            tunnel_token: self.tunnel_token@,
            tun_name: self.tun_name@,
            tun_address: self.tun_address@,
            tun_prefix: self.tun_prefix,
            mtu: self.mtu,
            dns_server: self.dns_server@,
            route_mode: self.route_mode,
            egress_ip: option_view(self.egress_ip),
            poll_interval_seconds: self.poll_interval_seconds,
        }
    }
}

impl Clone for ClientConfig {
    fn clone(&self) -> (copy: Self)
        ensures
            copy@ == self@,
    {
        ClientConfig {
            version: self.version,
            client_id: self.client_id.clone(),
            enabled: self.enabled,
            device_name: self.device_name.clone(),
            server_id: self.server_id.clone(),
            server_endpoint: self.server_endpoint.clone(),
            tunnel_token: self.tunnel_token.clone(),
            tun_name: self.tun_name.clone(),
            tun_address: self.tun_address.clone(),
            tun_prefix: self.tun_prefix,
            mtu: self.mtu,
            dns_server: self.dns_server.clone(),
            route_mode: self.route_mode,
            egress_ip: option_text_copy(&self.egress_ip),
            poll_interval_seconds: self.poll_interval_seconds,
        }
    }
}

/// What an agent reports of itself.
#[derive(Debug)]
pub struct AgentStatusReport {
    pub applied_version: Option<u64>,
    pub connected_clients: Option<usize>,
    pub connected_client_list: Option<Vec<ConnectedClient>>,
    pub public_ip: Option<String>,
    pub country: Option<String>,
    pub upload_bytes: Option<u64>,
    pub download_bytes: Option<u64>,
    pub last_error: Option<String>,
    pub last_message: Option<String>,
}

/// The view of [`AgentStatusReport`].
#[verifier::ext_equal]
pub struct AgentStatusReportView {
    pub applied_version: Option<u64>,
    pub connected_clients: Option<usize>,
    pub connected_client_list: Option<Seq<ConnectedClientView>>,
    pub public_ip: Option<Seq<char>>,
    pub country: Option<Seq<char>>,
    pub upload_bytes: Option<u64>,
    pub download_bytes: Option<u64>,
    pub last_error: Option<Seq<char>>,
    pub last_message: Option<Seq<char>>,
}

impl View for AgentStatusReport {
    type V = AgentStatusReportView;

    open spec fn view(&self) -> AgentStatusReportView {
        AgentStatusReportView {
            applied_version: self.applied_version,
            connected_clients: self.connected_clients,
            connected_client_list: match self.connected_client_list {
                Some(list) => Some(views(list@)),
                None => None,
            },
            public_ip: option_view(self.public_ip),
            country: option_view(self.country),
            upload_bytes: self.upload_bytes,
            download_bytes: self.download_bytes,
            last_error: option_view(self.last_error),
            last_message: option_view(self.last_message),
        }
    }
}

impl Clone for AgentStatusReport {
    fn clone(&self) -> (copy: Self)
        ensures
            copy@ == self@,
    {
        AgentStatusReport {
            applied_version: self.applied_version,
            connected_clients: self.connected_clients,
            connected_client_list: match &self.connected_client_list {
                Some(list) => Some(copy_connected(list)),
                None => None,
            },
            public_ip: option_text_copy(&self.public_ip),
            country: option_text_copy(&self.country),
            upload_bytes: self.upload_bytes,
            download_bytes: self.download_bytes,
            last_error: option_text_copy(&self.last_error),
            last_message: option_text_copy(&self.last_message),
        }
    }
}

/// How an agent asks to be enrolled.
#[derive(Debug)]
pub struct EnrollmentRequest {
    pub kind: AgentKind,
    pub enrollment_token: String,
    pub node_name: String,
}

/// The view of [`EnrollmentRequest`].
#[verifier::ext_equal]
pub struct EnrollmentRequestView {
    pub kind: AgentKind,
    pub enrollment_token: Seq<char>,
    pub node_name: Seq<char>,
}

impl View for EnrollmentRequest {
    type V = EnrollmentRequestView;

    open spec fn view(&self) -> EnrollmentRequestView {
        EnrollmentRequestView {
            kind: self.kind,
            enrollment_token: self.enrollment_token@,
            node_name: self.node_name@,
        }
    }
}

impl Clone for EnrollmentRequest {
    fn clone(&self) -> (copy: Self)
        ensures
            copy@ == self@,
    {
        EnrollmentRequest {
            kind: self.kind,
            enrollment_token: self.enrollment_token.clone(),
            node_name: self.node_name.clone(),
        }
    }
}

/// The identity of a newly enrolled agent.
#[derive(Debug)]
pub struct EnrollmentResponse {
    pub agent_id: String,
    pub agent_secret: String,
    pub poll_interval_seconds: u64,
    pub config_version: u64,
}

/// The view of [`EnrollmentResponse`].
#[verifier::ext_equal]
pub struct EnrollmentResponseView {
    pub agent_id: Seq<char>,
    pub agent_secret: Seq<char>,
    pub poll_interval_seconds: u64,
    pub config_version: u64,
}

impl View for EnrollmentResponse {
    type V = EnrollmentResponseView;

    open spec fn view(&self) -> EnrollmentResponseView {
        EnrollmentResponseView {
            agent_id: self.agent_id@,
            agent_secret: self.agent_secret@,
            poll_interval_seconds: self.poll_interval_seconds,
            config_version: self.config_version,
        }
    }
}

impl Clone for EnrollmentResponse {
    fn clone(&self) -> (copy: Self)
        ensures
            copy@ == self@,
    {
        EnrollmentResponse {
            agent_id: self.agent_id.clone(),
            agent_secret: self.agent_secret.clone(),
            poll_interval_seconds: self.poll_interval_seconds,
            config_version: self.config_version,
        }
    }
}

/// An agent's regular call to the manager.
#[derive(Debug)]
pub struct HeartbeatRequest {
    pub agent_id: String,
    pub agent_secret: String,
    pub kind: AgentKind,
    pub current_version: Option<u64>,
    pub status: AgentStatusReport,
}

/// The view of [`HeartbeatRequest`].
#[verifier::ext_equal]
pub struct HeartbeatRequestView {
    pub agent_id: Seq<char>,
    pub agent_secret: Seq<char>,
    pub kind: AgentKind,
    pub current_version: Option<u64>,
    pub status: AgentStatusReportView,
}

impl View for HeartbeatRequest {
    type V = HeartbeatRequestView;

    open spec fn view(&self) -> HeartbeatRequestView {
        HeartbeatRequestView {
            agent_id: self.agent_id@,
            agent_secret: self.agent_secret@,
            kind: self.kind,
            current_version: self.current_version,
            status: self.status@,
        }
    }
}

impl Clone for HeartbeatRequest {
    fn clone(&self) -> (copy: Self)
        ensures
            copy@ == self@,
    {
        HeartbeatRequest {
            agent_id: self.agent_id.clone(),
            agent_secret: self.agent_secret.clone(),
            kind: self.kind,
            current_version: self.current_version,
            status: self.status.clone(),
        }
    }
}

/// The manager's answer to a heartbeat.
#[derive(Debug)]
pub struct HeartbeatResponse {
    pub ok: bool,
    pub poll_interval_seconds: u64,
    pub config_changed: bool,
    pub server_config: Option<ServerConfig>,
    pub client_config: Option<ClientConfig>,
    pub message: Option<String>,
}

/// The view of [`HeartbeatResponse`].
#[verifier::ext_equal]
pub struct HeartbeatResponseView {
    pub ok: bool,
    pub poll_interval_seconds: u64,
    pub config_changed: bool,
    pub server_config: Option<ServerConfigView>,
    pub client_config: Option<ClientConfigView>,
    pub message: Option<Seq<char>>,
}

impl View for HeartbeatResponse {
    type V = HeartbeatResponseView;

    open spec fn view(&self) -> HeartbeatResponseView {
        HeartbeatResponseView {
            ok: self.ok,
            poll_interval_seconds: self.poll_interval_seconds,
            config_changed: self.config_changed,
            server_config: option_view(self.server_config),
            client_config: option_view(self.client_config),
            message: option_view(self.message),
        }
    }
}

impl Clone for HeartbeatResponse {
    fn clone(&self) -> (copy: Self)
        ensures
            copy@ == self@,
    {
        HeartbeatResponse {
            ok: self.ok,
            poll_interval_seconds: self.poll_interval_seconds,
            config_changed: self.config_changed,
            server_config: match &self.server_config {
                Some(config) => Some(config.clone()),
                None => None,
            },
            client_config: match &self.client_config {
                Some(config) => Some(config.clone()),
                None => None,
            },
            message: option_text_copy(&self.message),
        }
    }
}

/// An agent's report outside a heartbeat.
#[derive(Debug)]
pub struct StatusRequest {
    pub agent_id: String,
    pub agent_secret: String,
    pub kind: AgentKind,
    pub status: AgentStatusReport,
}

/// The view of [`StatusRequest`].
#[verifier::ext_equal]
pub struct StatusRequestView {
    pub agent_id: Seq<char>,
    pub agent_secret: Seq<char>,
    pub kind: AgentKind,
    pub status: AgentStatusReportView,
}

impl View for StatusRequest {
    type V = StatusRequestView;

    open spec fn view(&self) -> StatusRequestView {
        StatusRequestView {
            agent_id: self.agent_id@,
            agent_secret: self.agent_secret@,
            kind: self.kind,
            status: self.status@,
        }
    }
}

impl Clone for StatusRequest {
    fn clone(&self) -> (copy: Self)
        ensures
            copy@ == self@,
    {
        StatusRequest {
            agent_id: self.agent_id.clone(),
            agent_secret: self.agent_secret.clone(),
            kind: self.kind,
            status: self.status.clone(),
        }
    }
}

/// The manager's answer to a report.
#[derive(Debug)]
pub struct StatusResponse {
    pub ok: bool,
}

/// The view of [`StatusResponse`].
#[verifier::ext_equal]
pub struct StatusResponseView {
    pub ok: bool,
}

impl View for StatusResponse {
    type V = StatusResponseView;

    open spec fn view(&self) -> StatusResponseView {
        StatusResponseView {
            ok: self.ok,
        }
    }
}

impl Clone for StatusResponse {
    fn clone(&self) -> (copy: Self)
        ensures
            copy@ == self@,
    {
        StatusResponse {
            ok: self.ok,
        }
    }
}

/// The identity that an agent keeps on disk.
#[derive(Debug)]
pub struct PersistedAgentState {
    pub agent_id: String,
    pub agent_secret: String,
    pub kind: AgentKind,
    pub enrolled_at: String,
}

/// The view of [`PersistedAgentState`].
#[verifier::ext_equal]
pub struct PersistedAgentStateView {
    pub agent_id: Seq<char>,
    pub agent_secret: Seq<char>,
    pub kind: AgentKind,
    pub enrolled_at: Seq<char>,
}

impl View for PersistedAgentState {
    type V = PersistedAgentStateView;

    open spec fn view(&self) -> PersistedAgentStateView {
        PersistedAgentStateView {
            agent_id: self.agent_id@,
            agent_secret: self.agent_secret@,
            kind: self.kind,
            enrolled_at: self.enrolled_at@,
        }
    }
}

impl Clone for PersistedAgentState {
    fn clone(&self) -> (copy: Self)
        ensures
            copy@ == self@,
    {
        PersistedAgentState {
            agent_id: self.agent_id.clone(),
            agent_secret: self.agent_secret.clone(),
            kind: self.kind,
            enrolled_at: self.enrolled_at.clone(),
        }
    }
}

/// A copy of a list.
pub fn copy_client_records(list: &Vec<ManagedClientRecord>) -> (copy: Vec<ManagedClientRecord>)
    ensures
        views(copy@) == views(list@),
{
    let mut copy: Vec<ManagedClientRecord> = Vec::new();
    let n: usize = list.len();
    for i in 0..n
        invariant
            n == list@.len(),
            views(copy@) == views(list@).take(i as int),
    {
        let ghost before = views(copy@);
        copy.push(list[i].clone());
        assert(views(copy@) =~= before.push(list@[i as int]@));
        assert(views(list@).take(i + 1) =~= before.push(list@[i as int]@));
    }
    assert(views(list@).take(n as int) =~= views(list@));
    copy
}

/// A copy of a list.
pub fn copy_connected(list: &Vec<ConnectedClient>) -> (copy: Vec<ConnectedClient>)
    ensures
        views(copy@) == views(list@),
{
    let mut copy: Vec<ConnectedClient> = Vec::new();
    let n: usize = list.len();
    for i in 0..n
        invariant
            n == list@.len(),
            views(copy@) == views(list@).take(i as int),
    {
        let ghost before = views(copy@);
        copy.push(list[i].clone());
        assert(views(copy@) =~= before.push(list@[i as int]@));
        assert(views(list@).take(i + 1) =~= before.push(list@[i as int]@));
    }
    assert(views(list@).take(n as int) =~= views(list@));
    copy
}

impl Default for FirewallPolicy {
    fn default() -> (policy: Self)
        ensures
            policy.blocked_destinations@.len() == 0,
            policy.protected_destinations@.len() == 0,
    {
        FirewallPolicy { blocked_destinations: Vec::new(), protected_destinations: Vec::new() }
    }
}

/// The report of an agent that has nothing to say.
pub open spec fn empty_status() -> AgentStatusReportView {
    AgentStatusReportView {
        applied_version: None,
        connected_clients: None,
        connected_client_list: None,
        public_ip: None,
        country: None,
        upload_bytes: None,
        download_bytes: None,
        last_error: None,
        last_message: None,
    }
}

impl Default for AgentStatusReport {
    fn default() -> (report: Self)
        ensures
            report@ == empty_status(),
    {
        AgentStatusReport {
            applied_version: None,
            connected_clients: None,
            connected_client_list: None,
            public_ip: None,
            country: None,
            upload_bytes: None,
            download_bytes: None,
            last_error: None,
            last_message: None,
        }
    }
}

/// The view of [`FirewallPolicy`] holds each field under its own name.
pub proof fn law_view_of_firewall_policy(value: FirewallPolicy)
    ensures
        value@.blocked_destinations == views(value.blocked_destinations@),
        value@.protected_destinations == views(value.protected_destinations@),
{
}

/// The view of [`DnsProfile`] holds each field under its own name.
pub proof fn law_view_of_dns_profile(value: DnsProfile)
    ensures
        value@.bind_addr == value.bind_addr@,
        value@.doh_url == value.doh_url@,
{
}

/// The view of [`ConnectedClient`] holds each field under its own name.
pub proof fn law_view_of_connected_client(value: ConnectedClient)
    ensures
        value@.device_name == value.device_name@,
        value@.vpn_ip == value.vpn_ip@,
        value@.public_ip == value.public_ip@,
        value@.connected_since == value.connected_since@,
{
}

/// The view of [`ManagedClientRecord`] holds each field under its own name.
pub proof fn law_view_of_managed_client_record(value: ManagedClientRecord)
    ensures
        value@.client_id == value.client_id@,
        value@.device_name == value.device_name@,
        value@.enabled == value.enabled,
        value@.assigned_ip == value.assigned_ip@,
        value@.tunnel_token == value.tunnel_token@,
        value@.egress_ip == option_view(value.egress_ip),
{
}

/// The view of [`ServerConfig`] holds each field under its own name.
pub proof fn law_view_of_server_config(value: ServerConfig)
    ensures
        value@.version == value.version,
        value@.server_id == value.server_id@,
        value@.enabled == value.enabled,
        value@.node_name == value.node_name@,
        value@.listen_addr == value.listen_addr@,
        value@.public_endpoint == value.public_endpoint@,
        value@.tun_name == value.tun_name@,
        value@.tun_address == value.tun_address@,
        value@.tun_prefix == value.tun_prefix,
        value@.mtu == value.mtu,
        value@.client_cidr == value.client_cidr@,
        value@.max_clients == value.max_clients,
        value@.nat_iface == option_view(value.nat_iface),
        value@.setup_nat == value.setup_nat,
        value@.firewall == value.firewall@,
        value@.dns == value.dns@,
        value@.egress_ips == views(value.egress_ips@),
        value@.allowed_clients == views(value.allowed_clients@),
        value@.poll_interval_seconds == value.poll_interval_seconds,
{
}

/// The view of [`ClientConfig`] holds each field under its own name.
pub proof fn law_view_of_client_config(value: ClientConfig)
    ensures
        value@.version == value.version,
        value@.client_id == value.client_id@,
        value@.enabled == value.enabled,
        value@.device_name == value.device_name@,
        value@.server_id == value.server_id@,
        value@.server_endpoint == value.server_endpoint@,
        value@.tunnel_token == value.tunnel_token@,
        value@.tun_name == value.tun_name@,
        value@.tun_address == value.tun_address@,
        value@.tun_prefix == value.tun_prefix,
        value@.mtu == value.mtu,
        value@.dns_server == value.dns_server@,
        value@.route_mode == value.route_mode,
        value@.egress_ip == option_view(value.egress_ip),
        value@.poll_interval_seconds == value.poll_interval_seconds,
{
}

/// The view of [`AgentStatusReport`] holds each field under its own name.
pub proof fn law_view_of_agent_status_report(value: AgentStatusReport)
    ensures
        value@.applied_version == value.applied_version,
        value@.connected_clients == value.connected_clients,
        value@.connected_client_list == match value.connected_client_list {
            Some(list) => Some(views(list@)),
            None => None,
        },
        value@.public_ip == option_view(value.public_ip),
        value@.country == option_view(value.country),
        value@.upload_bytes == value.upload_bytes,
        value@.download_bytes == value.download_bytes,
        value@.last_error == option_view(value.last_error),
        value@.last_message == option_view(value.last_message),
{
}

/// The view of [`EnrollmentRequest`] holds each field under its own name.
pub proof fn law_view_of_enrollment_request(value: EnrollmentRequest)
    ensures
        value@.kind == value.kind,
        value@.enrollment_token == value.enrollment_token@,
        value@.node_name == value.node_name@,
{
}

/// The view of [`EnrollmentResponse`] holds each field under its own name.
pub proof fn law_view_of_enrollment_response(value: EnrollmentResponse)
    ensures
        value@.agent_id == value.agent_id@,
        value@.agent_secret == value.agent_secret@,
        value@.poll_interval_seconds == value.poll_interval_seconds,
        value@.config_version == value.config_version,
{
}

/// The view of [`HeartbeatRequest`] holds each field under its own name.
pub proof fn law_view_of_heartbeat_request(value: HeartbeatRequest)
    ensures
        value@.agent_id == value.agent_id@,
        value@.agent_secret == value.agent_secret@,
        value@.kind == value.kind,
        value@.current_version == value.current_version,
        value@.status == value.status@,
{
}

/// The view of [`HeartbeatResponse`] holds each field under its own name.
pub proof fn law_view_of_heartbeat_response(value: HeartbeatResponse)
    ensures
        value@.ok == value.ok,
        value@.poll_interval_seconds == value.poll_interval_seconds,
        value@.config_changed == value.config_changed,
        value@.server_config == option_view(value.server_config),
        value@.client_config == option_view(value.client_config),
        value@.message == option_view(value.message),
{
}

/// The view of [`StatusRequest`] holds each field under its own name.
pub proof fn law_view_of_status_request(value: StatusRequest)
    ensures
        value@.agent_id == value.agent_id@,
        value@.agent_secret == value.agent_secret@,
        value@.kind == value.kind,
        value@.status == value.status@,
{
}

/// The view of [`StatusResponse`] holds each field under its own name.
pub proof fn law_view_of_status_response(value: StatusResponse)
    ensures
        value@.ok == value.ok,
{
}

/// The view of [`PersistedAgentState`] holds each field under its own name.
pub proof fn law_view_of_persisted_agent_state(value: PersistedAgentState)
    ensures
        value@.agent_id == value.agent_id@,
        value@.agent_secret == value.agent_secret@,
        value@.kind == value.kind,
        value@.enrolled_at == value.enrolled_at@,
{
}

} // verus!
