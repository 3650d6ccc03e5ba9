//! How agents become known to the manager: single-use tokens, and a new server or client.

use vstd::prelude::*;

use crate::clock::{rfc3339_text, timestamp_text, Timestamp};
use crate::configs::{find_client_node, find_server, POLL_INTERVAL_SECONDS};
use crate::decimal::{
    decimal, law_decimal_round_trip_signed, lemma_decimal_nat_digits, parse_i64, parse_int_spec,
};
use crate::heartbeat::is_valid_agent;
use crate::hex::{is_hex_text, is_uuid_text, new_agent_id, random_token};
use crate::ipv4::{ipv4_of, law_ipv4_round_trip};

use crate::models::{
    AgentKind, EnrollmentRequest, EnrollmentRequestView, EnrollmentResponse, EnrollmentResponseView,
};
use crate::pool::{
    allocate_client_ip, allocated_ip, cidr_of, client_pool_is_countable,
    law_allocated_address_is_free, next_address, pool_is_countable,
};
use crate::security::stored_time;
use crate::settings::{
    bool_to_i64, config_version, current_config_version, empty_to_none, is_set_to,
    law_switches_round_trip, optional_number, parse_bool, parse_optional_i64, saved_as, says_yes,
    setting, settings_value, switch_number, unless_blank,
};
use crate::store::{
    AgentRow, AgentRowView, BootstrapToken, BootstrapTokenView, ClientNode, ClientNodeView,
    ManagerStore, ManagerStoreView, ServerNode, ServerNodeView,
};
use crate::text::{lemma_trim_id, option_view, text_eq, trim, trim_spec, views};
use crate::text_map::TextMap;

verus! {

/// Why a request of an agent is refused.
#[derive(Debug)]
pub enum ApiError {
    /// The request is refused, with an HTTP status.
    Refused { status: u16, message: &'static str },
    /// The manager failed.
    Internal(String),
}

/// The view of [`ApiError`].
pub enum ApiErrorView {
    Refused { status: u16, message: Seq<char> },
    Internal(Seq<char>),
}

impl View for ApiError {
    type V = ApiErrorView;

    open spec fn view(&self) -> ApiErrorView {
        match self {
            ApiError::Refused { status, message } => ApiErrorView::Refused {
                status: *status,
                message: message@,
            },
            ApiError::Internal(message) => ApiErrorView::Internal(message@),
        }
    }
}

/// The token with a text.
pub open spec fn find_token(tokens: Seq<BootstrapTokenView>, token: Seq<char>) -> Option<
    BootstrapTokenView,
>
    decreases tokens.len(),
{
    if tokens.len() == 0 {
        None
    } else if tokens[0].token == token {
        Some(tokens[0])
    } else {
        find_token(tokens.skip(1), token)
    }
}

/// Why a token does not let an agent in, if it does not: unknown, used already, or for another kind
/// of agent.
pub open spec fn token_refusal(
    tokens: Seq<BootstrapTokenView>,
    request: EnrollmentRequestView,
) -> Option<ApiErrorView> {
    match find_token(tokens, trim_spec(request.enrollment_token)) {
        None => Some(
            ApiErrorView::Refused { status: 401, message: "invalid enrollment token"@ },
        ),
        Some(row) => if row.used_at is Some {
            Some(ApiErrorView::Refused { status: 409, message: "bootstrap token already used"@ })
        } else if row.kind != request.kind.name() {
            Some(ApiErrorView::Refused { status: 400, message: "token kind mismatch"@ })
        } else {
            None
        },
    }
}

/// A newly enrolled agent.
pub open spec fn new_agent(
    agent_id: Seq<char>,
    kind: AgentKind,
    node_name: Seq<char>,
    agent_secret: Seq<char>,
) -> AgentRowView {
    AgentRowView {
        agent_id,
        kind: kind.name(),
        node_name: trim_spec(node_name),
        agent_secret,
        enabled: 1,
        current_version: None,
        last_seen: None,
        last_error: Seq::empty(),
        last_message: Seq::empty(),
        connected_clients: 0,
        current_country: Seq::empty(),
        current_public_ip: Seq::empty(),
        upload_bytes: 0,
        download_bytes: 0,
    }
}

/// A number in a text, or a default.
pub open spec fn number_or(value: Seq<char>, default: i64) -> i64 {
    match parse_int_spec(value, i64::MIN as int, i64::MAX as int) {
        Ok(n) => n as i64,
        Err(_) => default,
    }
}

/// A number in a text, or a default.
fn parse_number_or(value: &str, default: i64) -> (r: i64)
    ensures
        r == number_or(value@, default),
{
    match parse_i64(value) {
        Ok(n) => n,
        Err(_) => default,
    }
}

/// A newly enrolled server, with the settings of the network.
pub open spec fn new_server(
    settings: Map<Seq<char>, Seq<char>>,
    server_id: Seq<char>,
    node_name: Seq<char>,
) -> ServerNodeView {
    ServerNodeView {
        server_id,
        node_name: trim_spec(node_name),
        listen_addr: setting(settings, "listen_addr"@),
        public_endpoint: setting(settings, "public_endpoint"@),
        tun_name: setting(settings, "tun_name"@),
        tun_address: setting(settings, "tun_address"@),
        tun_prefix: number_or(setting(settings, "tun_prefix"@), 24),
        mtu: match optional_number(setting(settings, "mtu"@), i64::MIN as int, i64::MAX as int) {
            Some(n) => Some(n as i64),
            None => None,
        },
        client_cidr: setting(settings, "client_cidr"@),
        nat_iface: unless_blank(setting(settings, "nat_iface"@)),
        setup_nat: switch_number(says_yes(setting(settings, "setup_nat"@))),
        max_clients: number_or(setting(settings, "max_clients"@), 32),
        egress_ips_json: setting(settings, "egress_ips_json"@),
        blocked_ips_json: setting(settings, "blocked_ips_json"@),
        protected_ips_json: setting(settings, "protected_ips_json"@),
        doh_url: setting(settings, "doh_url"@),
        dns_bind_addr: setting(settings, "dns_bind_addr"@),
        enabled: 1,
    }
}

/// The server that new clients are assigned to: the first one that was enrolled.
pub open spec fn default_server(servers: Seq<ServerNodeView>) -> Option<Seq<char>> {
    if servers.len() == 0 {
        None
    } else {
        unless_blank(servers[0].server_id)
    }
}

/// A newly enrolled client.
pub open spec fn new_client(
    servers: Seq<ServerNodeView>,
    client_id: Seq<char>,
    device_name: Seq<char>,
    assigned_ip: Seq<char>,
    tunnel_token: Seq<char>,
) -> ClientNodeView {
    ClientNodeView {
        client_id,
        device_name: trim_spec(device_name),
        assigned_ip,
        server_id: default_server(servers),
        tunnel_token,
        enabled: 1,
        egress_ip: None,
    }
}

/// Whether a server has an identity.
pub open spec fn has_server(servers: Seq<ServerNodeView>, server_id: Seq<char>) -> bool {
    exists|i: int| 0 <= i < servers.len() && (#[trigger] servers[i]).server_id == server_id
}

/// Whether a client has an identity.
pub open spec fn has_client(clients: Seq<ClientNodeView>, client_id: Seq<char>) -> bool {
    exists|i: int| 0 <= i < clients.len() && (#[trigger] clients[i]).client_id == client_id
}

/// The store with a new server; an identity that a server has already is an error.
pub open spec fn with_server(
    store: ManagerStoreView,
    server_id: Seq<char>,
    node_name: Seq<char>,
) -> Result<
    ManagerStoreView,
    Seq<char>,
> {
    if has_server(store.servers, server_id) {
        Err("UNIQUE constraint failed: server_nodes.server_id"@)
    } else {
        Ok(
            ManagerStoreView {
                servers: store.servers.push(new_server(store.settings, server_id, node_name)),
                ..store
            },
        )
    }
}

/// The store with a new client; no free address, or an identity that a client has already, is an
/// error.
pub open spec fn with_client(
    store: ManagerStoreView,
    client_id: Seq<char>,
    device_name: Seq<char>,
    tunnel_token: Seq<char>,
) -> Result<ManagerStoreView, Seq<char>> {
    match allocated_ip(
        setting(store.settings, "client_cidr"@),
        setting(store.settings, "tun_address"@),
        store.clients,
    ) {
        Err(message) => Err(message),
        Ok(ip) => if has_client(store.clients, client_id) {
            Err("UNIQUE constraint failed: client_nodes.client_id"@)
        } else {
            Ok(
                ManagerStoreView {
                    clients: store.clients.push(
                        new_client(store.servers, client_id, device_name, ip, tunnel_token),
                    ),
                    ..store
                },
            )
        },
    }
}

/// The tokens, with one marked as used.
pub open spec fn with_used_token(
    tokens: Seq<BootstrapTokenView>,
    token: Seq<char>,
    time: Seq<char>,
) -> Seq<
    BootstrapTokenView,
> {
    Seq::new(
        tokens.len(),
        |i: int|
            if tokens[i].token == token {
                BootstrapTokenView { used_at: Some(time), ..tokens[i] }
            } else {
                tokens[i]
            },
    )
}

/// The fresh values of an enrollment.
pub struct EnrollmentSecrets {
    pub agent_id: String,
    pub agent_secret: String,
    pub tunnel_token: String,
}

/// The view of [`EnrollmentSecrets`].
pub struct EnrollmentSecretsView {
    pub agent_id: Seq<char>,
    pub agent_secret: Seq<char>,
    pub tunnel_token: Seq<char>,
}

impl View for EnrollmentSecrets {
    type V = EnrollmentSecretsView;

    open spec fn view(&self) -> EnrollmentSecretsView {
        EnrollmentSecretsView {
            agent_id: self.agent_id@,
            agent_secret: self.agent_secret@,
            tunnel_token: self.tunnel_token@,
        }
    }
}

/// The store after an enrollment, and the answer.
pub open spec fn enrollment(
    store: ManagerStoreView,
    now: Timestamp,
    request: EnrollmentRequestView,
    fresh: EnrollmentSecretsView,
) -> Result<(ManagerStoreView, EnrollmentResponseView), ApiErrorView> {
    match token_refusal(store.tokens, request) {
        Some(refusal) => Err(refusal),
        None => match config_version(store.settings) {
            Err(message) => Err(ApiErrorView::Internal(message)),
            Ok(version) => if store.agents.contains_key(fresh.agent_id) {
                Err(ApiErrorView::Internal("UNIQUE constraint failed: agents.agent_id"@))
            } else {
                let known = ManagerStoreView {
                    agents: store.agents.insert(
                        fresh.agent_id,
                        new_agent(
                            fresh.agent_id,
                            request.kind,
                            request.node_name,
                            fresh.agent_secret,
                        ),
                    ),
                    ..store
                };
                let placed = match request.kind {
                    AgentKind::Server => with_server(known, fresh.agent_id, request.node_name),
                    AgentKind::Client => with_client(
                        known,
                        fresh.agent_id,
                        request.node_name,
                        fresh.tunnel_token,
                    ),
                };
                match placed {
                    Err(message) => Err(ApiErrorView::Internal(message)),
                    Ok(next) => Ok(
                        (
                            ManagerStoreView {
                                tokens: with_used_token(
                                    next.tokens,
                                    trim_spec(request.enrollment_token),
                                    stored_time(now),
                                ),
                                ..next
                            },
                            EnrollmentResponseView {
                                agent_id: fresh.agent_id,
                                agent_secret: fresh.agent_secret,
                                poll_interval_seconds: POLL_INTERVAL_SECONDS,
                                config_version: version as u64,
                            },
                        ),
                    ),
                }
            },
        },
    }
}

/// Whether an enrollment can be carried out: where it comes to giving a client an address, the pool
/// can be counted through.
pub open spec fn enrollment_is_safe(
    store: ManagerStoreView,
    request: EnrollmentRequestView,
    agent_id: Seq<char>,
) -> bool {
    request.kind == AgentKind::Client && token_refusal(store.tokens, request) is None
        && config_version(store.settings) is Ok && !store.agents.contains_key(agent_id)
        ==> pool_is_countable(
        setting(store.settings, "client_cidr"@),
        setting(store.settings, "tun_address"@),
        store.clients,
    )
}

/// Where a token stands.
fn token_position(tokens: &Vec<BootstrapToken>, token: &str) -> (r: Option<usize>)
    ensures
        match r {
            Some(i) => i < tokens@.len() && find_token(views(tokens@), token@) == Some(
                tokens@[i as int]@,
            ),
            None => find_token(views(tokens@), token@) is None,
        },
{
    let ghost all = views(tokens@);
    let n: usize = tokens.len();
    assert(all.skip(0) =~= all);
    for i in 0..n
        invariant
            n == tokens@.len(),
            all == views(tokens@),
            find_token(all, token@) == find_token(all.skip(i as int), token@),
    {
        assert(all.skip(i as int)[0] == tokens@[i as int]@);
        if text_eq(tokens[i].token.as_str(), token) {
            return Some(i);
        }
        assert(all.skip(i as int).skip(1) =~= all.skip(i + 1));
    }
    None
}

/// Why a token does not let an agent in, if it does not.
pub fn check_token(
    tokens: &Vec<BootstrapToken>,
    request: &EnrollmentRequest,
) -> (r: Option<ApiError>)
    ensures
        option_view(r) == token_refusal(views(tokens@), request@),
{
    let token = trim(request.enrollment_token.as_str());
    match token_position(tokens, token.as_str()) {
        None => Some(ApiError::Refused { status: 401, message: "invalid enrollment token" }),
        Some(at) => {
            let row = &tokens[at];
            if row.used_at.is_some() {
                Some(ApiError::Refused { status: 409, message: "bootstrap token already used" })
            } else if !text_eq(row.kind.as_str(), request.kind.as_str()) {
                Some(ApiError::Refused { status: 400, message: "token kind mismatch" })
            } else {
                None
            }
        },
    }
}

/// Whether a server has an identity.
fn server_exists(servers: &Vec<ServerNode>, server_id: &str) -> (r: bool)
    ensures
        r == has_server(views(servers@), server_id@),
{
    let n: usize = servers.len();
    let ghost all = views(servers@);
    for i in 0..n
        invariant
            n == servers@.len(),
            all == views(servers@),
            forall|j: int| 0 <= j < i ==> (#[trigger] all[j]).server_id != server_id@,
    {
        assert(all[i as int] == servers@[i as int]@);
        if text_eq(servers[i].server_id.as_str(), server_id) {
            return true;
        }
    }
    false
}

/// Whether a client has an identity.
fn client_exists(clients: &Vec<ClientNode>, client_id: &str) -> (r: bool)
    ensures
        r == has_client(views(clients@), client_id@),
{
    let n: usize = clients.len();
    let ghost all = views(clients@);
    for i in 0..n
        invariant
            n == clients@.len(),
            all == views(clients@),
            forall|j: int| 0 <= j < i ==> (#[trigger] all[j]).client_id != client_id@,
    {
        assert(all[i as int] == clients@[i as int]@);
        if text_eq(clients[i].client_id.as_str(), client_id) {
            return true;
        }
    }
    false
}

/// A newly enrolled server, with the settings of the network.
fn make_server(settings: &TextMap, server_id: &str, node_name: &str) -> (node: ServerNode)
    requires
        settings.wf(),
    ensures
        node@ == new_server(settings@, server_id@, node_name@),
{
    ServerNode {
        server_id: server_id.to_owned(),
        node_name: trim(node_name),
        listen_addr: settings_value(settings, "listen_addr"),
        public_endpoint: settings_value(settings, "public_endpoint"),
        tun_name: settings_value(settings, "tun_name"),
        tun_address: settings_value(settings, "tun_address"),
        tun_prefix: parse_number_or(settings_value(settings, "tun_prefix").as_str(), 24),
        mtu: parse_optional_i64(settings_value(settings, "mtu").as_str()),
        client_cidr: settings_value(settings, "client_cidr"),
        nat_iface: empty_to_none(settings_value(settings, "nat_iface").as_str()),
        setup_nat: bool_to_i64(parse_bool(settings_value(settings, "setup_nat").as_str())),
        max_clients: parse_number_or(settings_value(settings, "max_clients").as_str(), 32),
        egress_ips_json: settings_value(settings, "egress_ips_json"),
        blocked_ips_json: settings_value(settings, "blocked_ips_json"),
        protected_ips_json: settings_value(settings, "protected_ips_json"),
        doh_url: settings_value(settings, "doh_url"),
        dns_bind_addr: settings_value(settings, "dns_bind_addr"),
        enabled: 1,
    }
}

/// Adds a server with the settings of the network.
pub fn enroll_server(store: &mut ManagerStore, agent_id: &str, node_name: &str) -> (r: Result<
    (),
    &'static str,
>)
    requires
        old(store).wf(),
    ensures
        final(store).wf(),
        match r {
            Ok(_) => with_server(old(store)@, agent_id@, node_name@) == Ok::<
                ManagerStoreView,
                Seq<char>,
            >(final(store)@),
            Err(message) => with_server(old(store)@, agent_id@, node_name@) == Err::<
                ManagerStoreView,
                Seq<char>,
            >(message@) && *final(store) == *old(store),
        },
{
    if server_exists(&store.servers, agent_id) {
        return Err("UNIQUE constraint failed: server_nodes.server_id");
    }
    let node = make_server(&store.settings, agent_id, node_name);
    let ghost before = views(store.servers@);
    let ghost view = node@;
    store.servers.push(node);
    assert(views(store.servers@) =~= before.push(view));
    Ok(())
}

/// Adds a client with a free address and a tunnel token, assigned to the first server.
pub fn enroll_client(
    store: &mut ManagerStore,
    agent_id: &str,
    device_name: &str,
    tunnel_token: &str,
) -> (r: Result<(), String>)
    requires
        old(store).wf(),
        pool_is_countable(
            setting(old(store)@.settings, "client_cidr"@),
            setting(old(store)@.settings, "tun_address"@),
            old(store)@.clients,
        ),
    ensures
        final(store).wf(),
        match r {
            Ok(_) => with_client(old(store)@, agent_id@, device_name@, tunnel_token@) == Ok::<
                ManagerStoreView,
                Seq<char>,
            >(final(store)@),
            Err(message) => with_client(old(store)@, agent_id@, device_name@, tunnel_token@)
                == Err::<ManagerStoreView, Seq<char>>(message@) && *final(store) == *old(store),
        },
{
    let server_id = if store.servers.len() > 0 {
        empty_to_none(store.servers[0].server_id.as_str())
    } else {
        None
    };
    let cidr = settings_value(&store.settings, "client_cidr");
    let server_ip = settings_value(&store.settings, "tun_address");
    let assigned_ip = match allocate_client_ip(&store.clients, cidr.as_str(), server_ip.as_str()) {
        Ok(ip) => ip,
        Err(message) => {
            return Err(message);
        },
    };
    if client_exists(&store.clients, agent_id) {
        return Err(String::from_str("UNIQUE constraint failed: client_nodes.client_id"));
    }
    let node = ClientNode {
        client_id: agent_id.to_owned(),
        device_name: trim(device_name),
        assigned_ip,
        server_id,
        tunnel_token: tunnel_token.to_owned(),
        enabled: 1,
        egress_ip: None,
    };
    let ghost before = views(store.clients@);
    let ghost view = node@;
    store.clients.push(node);
    assert(views(store.clients@) =~= before.push(view));
    Ok(())
}

/// Marks a token as used.
fn mark_token(tokens: &mut Vec<BootstrapToken>, token: &str, time: &str)
    ensures
        views(final(tokens)@) == with_used_token(views(old(tokens)@), token@, time@),
{
    let n: usize = tokens.len();
    let ghost before = views(tokens@);
    let ghost after = with_used_token(before, token@, time@);
    for i in 0..n
        invariant
            n == tokens@.len(),
            n == before.len(),
            after == with_used_token(before, token@, time@),
            forall|j: int| 0 <= j < i ==> (#[trigger] tokens@[j])@ == after[j],
            forall|j: int| i <= j < n ==> (#[trigger] tokens@[j])@ == before[j],
    {
        assert(tokens@[i as int]@ == before[i as int]);
        if text_eq(tokens[i].token.as_str(), token) {
            let mut row = tokens[i].clone();
            row.used_at = Some(time.to_owned());
            tokens.set(i, row);
        }
    }
    assert(views(tokens@) =~= after);
}

/// Enrolls an agent with given fresh values. A refusal or a failure changes nothing.
pub fn enroll_with(
    store: &mut ManagerStore,
    now: Timestamp,
    request: &EnrollmentRequest,
    fresh: &EnrollmentSecrets,
) -> (r: Result<EnrollmentResponse, ApiError>)
    requires
        old(store).wf(),
        now.is_clock_reading(),
        enrollment_is_safe(old(store)@, request@, fresh@.agent_id),
    ensures
        final(store).wf(),
        match r {
            Ok(response) => enrollment(old(store)@, now, request@, fresh@) == Ok::<
                (ManagerStoreView, EnrollmentResponseView),
                ApiErrorView,
            >((final(store)@, response@)),
            Err(error) => enrollment(old(store)@, now, request@, fresh@) == Err::<
                (ManagerStoreView, EnrollmentResponseView),
                ApiErrorView,
            >(error@) && final(store)@ == old(store)@,
        },
{
    if let Some(refusal) = check_token(&store.tokens, request) {
        return Err(refusal);
    }
    let version: u64 = match current_config_version(&store.settings) {
        Ok(version) => version,
        Err(message) => {
            return Err(ApiError::Internal(message));
        },
    };
    if store.agent_position(fresh.agent_id.as_str()).is_some() {
        return Err(
            ApiError::Internal(String::from_str("UNIQUE constraint failed: agents.agent_id")),
        );
    }
    match request.kind {
        AgentKind::Server => {
            if let Err(message) = enroll_server(
                store,
                fresh.agent_id.as_str(),
                request.node_name.as_str(),
            ) {
                return Err(ApiError::Internal(message.to_owned()));
            }
        },
        AgentKind::Client => {
            if let Err(message) = enroll_client(
                store,
                fresh.agent_id.as_str(),
                request.node_name.as_str(),
                fresh.tunnel_token.as_str(),
            ) {
                return Err(ApiError::Internal(message));
            }
        },
    }
    let agent = AgentRow {
        agent_id: fresh.agent_id.clone(),
        kind: request.kind.as_str().to_owned(),
        node_name: trim(request.node_name.as_str()),
        agent_secret: fresh.agent_secret.clone(),
        enabled: 1,
        current_version: None,
        last_seen: None,
        last_error: String::new(),
        last_message: String::new(),
        connected_clients: 0,
        current_country: String::new(),
        current_public_ip: String::new(),
        upload_bytes: 0,
        download_bytes: 0,
    };
    store.add_agent(agent);
    let token = trim(request.enrollment_token.as_str());
    mark_token(&mut store.tokens, token.as_str(), timestamp_text(now).as_str());
    Ok(
        EnrollmentResponse {
            agent_id: fresh.agent_id.clone(),
            agent_secret: fresh.agent_secret.clone(),
            poll_interval_seconds: POLL_INTERVAL_SECONDS,
            config_version: version,
        },
    )
}

/// Fresh values for an enrollment. Nothing but their shape is known of them.
pub fn fresh_secrets() -> (fresh: EnrollmentSecrets)
    ensures
        is_uuid_text(fresh@.agent_id),
        is_hex_text(fresh@.agent_secret, 48),
        is_hex_text(fresh@.tunnel_token, 48),
{
    EnrollmentSecrets {
        agent_id: new_agent_id(),
        agent_secret: random_token(),
        tunnel_token: random_token(),
    }
}

/// Whether an enrollment can be carried out, whatever identity the agent is given.
pub open spec fn enrollment_is_always_safe(
    store: ManagerStoreView,
    request: EnrollmentRequestView,
) -> bool {
    request.kind == AgentKind::Client && token_refusal(store.tokens, request) is None
        && config_version(store.settings) is Ok ==> pool_is_countable(
        setting(store.settings, "client_cidr"@),
        setting(store.settings, "tun_address"@),
        store.clients,
    )
}

/// Enrolls an agent under a fresh identity, with fresh secrets. A refusal or a failure changes
/// nothing.
pub fn api_enroll(store: &mut ManagerStore, now: Timestamp, request: &EnrollmentRequest) -> (r:
    Result<EnrollmentResponse, ApiError>)
    requires
        old(store).wf(),
        now.is_clock_reading(),
        enrollment_is_always_safe(old(store)@, request@),
    ensures
        final(store).wf(),
        exists|fresh: EnrollmentSecretsView|
            {
                &&& is_uuid_text(fresh.agent_id)
                &&& is_hex_text(fresh.agent_secret, 48)
                &&& is_hex_text(fresh.tunnel_token, 48)
                &&& match r {
                    Ok(response) => #[trigger] enrollment(old(store)@, now, request@, fresh)
                        == Ok::<(ManagerStoreView, EnrollmentResponseView), ApiErrorView>(
                        (final(store)@, response@),
                    ),
                    Err(error) => enrollment(old(store)@, now, request@, fresh) == Err::<
                        (ManagerStoreView, EnrollmentResponseView),
                        ApiErrorView,
                    >(error@) && final(store)@ == old(store)@,
                }
            },
        token_refusal(old(store)@.tokens, request@) matches Some(refusal) ==> (r matches Err(error)
            && error@ == refusal),
{
    let fresh = fresh_secrets();
    let ghost view = fresh@;
    let r = enroll_with(store, now, request, &fresh);
    assert(enrollment(old(store)@, now, request@, view) == enrollment(
        old(store)@,
        now,
        request@,
        fresh@,
    ));
    r
}

/// Whether an enrollment can be carried out, whatever identity the agent is given.
pub fn check_enrollment_is_safe(store: &ManagerStore, request: &EnrollmentRequest) -> (r: bool)
    requires
        store.wf(),
    ensures
        r == enrollment_is_always_safe(store@, request@),
{
    if request.kind != AgentKind::Client || check_token(&store.tokens, request).is_some()
        || current_config_version(&store.settings).is_err() {
        return true;
    }
    client_pool_is_countable(
        &store.clients,
        settings_value(&store.settings, "client_cidr").as_str(),
        settings_value(&store.settings, "tun_address").as_str(),
    )
}

/// A token lets an agent in once: after an enrollment, the same token is refused as used.
pub proof fn law_tokens_are_single_use(
    store: ManagerStoreView,
    now: Timestamp,
    request: EnrollmentRequestView,
    fresh: EnrollmentSecretsView,
    again: EnrollmentRequestView,
)
    requires
        enrollment(store, now, request, fresh) is Ok,
        trim_spec(again.enrollment_token) == trim_spec(request.enrollment_token),
    ensures
        token_refusal(enrollment(store, now, request, fresh)->Ok_0.0.tokens, again) == Some(
            ApiErrorView::Refused { status: 409, message: "bootstrap token already used"@ },
        ),
{
    lemma_used_token(store.tokens, trim_spec(request.enrollment_token), stored_time(now));
}

/// A used token is found as used.
proof fn lemma_used_token(tokens: Seq<BootstrapTokenView>, token: Seq<char>, time: Seq<char>)
    requires
        find_token(tokens, token) is Some,
    ensures
        find_token(with_used_token(tokens, token, time), token) matches Some(row) && row.used_at
            == Some(time),
    decreases tokens.len(),
{
    let after = with_used_token(tokens, token, time);
    if tokens[0].token != token {
        assert(after.skip(1) =~= with_used_token(tokens.skip(1), token, time));
        lemma_used_token(tokens.skip(1), token, time);
    }
}

/// An enrolled agent can report with the identity and the secret that it was given; it is registered
/// as a server with the settings of the network, or as a client of the server that was enrolled
/// first.
pub proof fn law_enrolled_agent_is_known(
    store: ManagerStoreView,
    now: Timestamp,
    request: EnrollmentRequestView,
    fresh: EnrollmentSecretsView,
)
    requires
        enrollment(store, now, request, fresh) is Ok,
    ensures
        ({
            let (after, response) = enrollment(store, now, request, fresh)->Ok_0;
            &&& is_valid_agent(
                after.agents,
                response.agent_id,
                response.agent_secret,
                request.kind,
            )
            &&& request.kind == AgentKind::Server ==> find_server(
                after.servers,
                response.agent_id,
            ) == Some(new_server(store.settings, response.agent_id, request.node_name))
            &&& request.kind == AgentKind::Client ==> (find_client_node(
                after.clients,
                response.agent_id,
            ) matches Some(node) && node.server_id == default_server(store.servers))
        }),
{
    let after = enrollment(store, now, request, fresh)->Ok_0.0;
    if request.kind == AgentKind::Server {
        lemma_find_new_server(store.servers, after.servers.last());
    } else {
        lemma_find_new_client(store.clients, after.clients.last());
    }
}

/// A server that was added under a new identity is found by it.
proof fn lemma_find_new_server(servers: Seq<ServerNodeView>, node: ServerNodeView)
    requires
        !has_server(servers, node.server_id),
    ensures
        find_server(servers.push(node), node.server_id) == Some(node),
    decreases servers.len(),
{
    let all = servers.push(node);
    if servers.len() > 0 {
        assert(all[0] == servers[0]);
        assert(servers[0].server_id != node.server_id);
        assert forall|i: int| 0 <= i < servers.skip(1).len() implies (#[trigger] servers.skip(
            1,
        )[i]).server_id != node.server_id by {
            assert(servers[i + 1].server_id != node.server_id);
        }
        lemma_find_new_server(servers.skip(1), node);
        assert(all.skip(1) =~= servers.skip(1).push(node));
    }
}

/// A client that was added under a new identity is found by it.
proof fn lemma_find_new_client(clients: Seq<ClientNodeView>, node: ClientNodeView)
    requires
        !has_client(clients, node.client_id),
    ensures
        find_client_node(clients.push(node), node.client_id) == Some(node),
    decreases clients.len(),
{
    let all = clients.push(node);
    if clients.len() > 0 {
        assert(all[0] == clients[0]);
        assert(clients[0].client_id != node.client_id);
        assert forall|i: int| 0 <= i < clients.skip(1).len() implies (#[trigger] clients.skip(
            1,
        )[i]).client_id != node.client_id by {
            assert(clients[i + 1].client_id != node.client_id);
        }
        lemma_find_new_client(clients.skip(1), node);
        assert(all.skip(1) =~= clients.skip(1).push(node));
    }
}

/// An enrolled client has an address of its own: neither the server nor another client has it.
pub proof fn law_enrolled_client_has_its_own_address(
    store: ManagerStoreView,
    now: Timestamp,
    request: EnrollmentRequestView,
    fresh: EnrollmentSecretsView,
)
    requires
        enrollment(store, now, request, fresh) is Ok,
        enrollment_is_safe(store, request, fresh.agent_id),
        request.kind == AgentKind::Client,
    ensures
        ({
            let after = enrollment(store, now, request, fresh)->Ok_0.0;
            &&& ipv4_of(after.clients.last().assigned_ip) is Some
            &&& ipv4_of(after.clients.last().assigned_ip) != ipv4_of(
                setting(store.settings, "tun_address"@),
            )
            &&& forall|i: int|
                0 <= i < store.clients.len() ==> ipv4_of((#[trigger] store.clients[i]).assigned_ip)
                    != ipv4_of(after.clients.last().assigned_ip)
        }),
{
    let cidr = setting(store.settings, "client_cidr"@);
    let server_ip = setting(store.settings, "tun_address"@);
    let (network, prefix) = cidr_of(cidr)->Ok_0;
    let server = ipv4_of(server_ip)->Some_0;
    let ip = next_address(network, prefix, server, store.clients)->Some_0;
    law_allocated_address_is_free(network, prefix, server, store.clients);
    law_ipv4_round_trip(ip as u32);
}

/// A newly enrolled server takes each field from the setting of that name: its row has the listen
/// address, the public endpoint, the tunnel device, the client network, the DNS addresses and the
/// lists of the settings, and is enabled. It is the last of the servers; the others stay as they
/// are.
pub proof fn law_enrolled_server_takes_the_settings(
    store: ManagerStoreView,
    now: Timestamp,
    request: EnrollmentRequestView,
    fresh: EnrollmentSecretsView,
)
    requires
        enrollment(store, now, request, fresh) is Ok,
        request.kind == AgentKind::Server,
    ensures
        ({
            let after = enrollment(store, now, request, fresh)->Ok_0.0;
            let row = after.servers.last();
            &&& after.servers.len() == store.servers.len() + 1
            &&& after.servers.drop_last() == store.servers
            &&& after.clients == store.clients
            &&& row.server_id == fresh.agent_id
            &&& row.node_name == trim_spec(request.node_name)
            &&& is_set_to(store.settings, "listen_addr"@, row.listen_addr)
            &&& is_set_to(store.settings, "public_endpoint"@, row.public_endpoint)
            &&& is_set_to(store.settings, "tun_name"@, row.tun_name)
            &&& is_set_to(store.settings, "tun_address"@, row.tun_address)
            &&& is_set_to(store.settings, "client_cidr"@, row.client_cidr)
            &&& is_set_to(store.settings, "egress_ips_json"@, row.egress_ips_json)
            &&& is_set_to(store.settings, "blocked_ips_json"@, row.blocked_ips_json)
            &&& is_set_to(store.settings, "protected_ips_json"@, row.protected_ips_json)
            &&& is_set_to(store.settings, "doh_url"@, row.doh_url)
            &&& is_set_to(store.settings, "dns_bind_addr"@, row.dns_bind_addr)
            &&& row.enabled == 1
        }),
{
    let after = enrollment(store, now, request, fresh)->Ok_0.0;
    assert(after.servers.drop_last() =~= store.servers);
}

/// The numbers and switches of a newly enrolled server: a prefix length, a size of packets and a
/// limit of clients that the settings write are taken over; a missing or unreadable prefix length
/// is 24, a missing limit 32, a missing size none. Address translation is on exactly where its
/// setting says yes; the outside interface is the one in the settings, unless it is blank.
pub proof fn law_enrolled_server_numbers(
    store: ManagerStoreView,
    server_id: Seq<char>,
    node_name: Seq<char>,
    n: nat,
)
    requires
        with_server(store, server_id, node_name) is Ok,
        n <= i64::MAX,
    ensures
        ({
            let row = with_server(store, server_id, node_name)->Ok_0.servers.last();
            let settings = store.settings;
            &&& saved_as(settings, "tun_prefix"@, decimal(n as int)) ==> row.tun_prefix == n
            &&& !settings.contains_key("tun_prefix"@) ==> row.tun_prefix == 24
            &&& saved_as(settings, "max_clients"@, decimal(n as int)) ==> row.max_clients == n
            &&& !settings.contains_key("max_clients"@) ==> row.max_clients == 32
            &&& saved_as(settings, "mtu"@, decimal(n as int)) ==> row.mtu == Some(n as i64)
            &&& !settings.contains_key("mtu"@) ==> row.mtu is None
            &&& saved_as(settings, "setup_nat"@, "true"@) ==> row.setup_nat != 0
            &&& saved_as(settings, "setup_nat"@, "false"@) ==> row.setup_nat == 0
            &&& !settings.contains_key("setup_nat"@) ==> row.setup_nat == 0
            &&& settings.contains_key("nat_iface"@) && trim_spec(settings["nat_iface"@]).len() > 0
                ==> row.nat_iface == Some(trim_spec(settings["nat_iface"@]))
            &&& settings.contains_key("nat_iface"@) && trim_spec(settings["nat_iface"@]).len() == 0
                ==> row.nat_iface is None
        }),
{
    law_decimal_round_trip_signed(n, i64::MIN as int, i64::MAX as int);
    lemma_decimal_nat_digits(n);
    lemma_trim_id(decimal(n as int));
    law_switches_round_trip(true);
    law_switches_round_trip(false);
    reveal_strlit("true");
    reveal_strlit("1");
    reveal_strlit("yes");
    reveal_strlit("on");
    assert("true"@.len() == 4);
    assert("1"@.len() == 1);
    assert("yes"@.len() == 3);
    assert("on"@.len() == 2);
    assert(trim_spec(Seq::<char>::empty()).len() == 0);
}

/// A newly enrolled client has the name of its request, the tunnel token that was made for it, an
/// address of the pool and no egress address; it is enabled, and assigned to the server that was
/// enrolled first, if there is one with a name. It is the last of the clients; the others stay as
/// they are.
pub proof fn law_enrolled_client_row(
    store: ManagerStoreView,
    now: Timestamp,
    request: EnrollmentRequestView,
    fresh: EnrollmentSecretsView,
)
    requires
        enrollment(store, now, request, fresh) is Ok,
        request.kind == AgentKind::Client,
    ensures
        ({
            let after = enrollment(store, now, request, fresh)->Ok_0.0;
            let row = after.clients.last();
            &&& after.clients.len() == store.clients.len() + 1
            &&& after.clients.drop_last() == store.clients
            &&& after.servers == store.servers
            &&& row.client_id == fresh.agent_id
            &&& row.device_name == trim_spec(request.node_name)
            &&& row.tunnel_token == fresh.tunnel_token
            &&& row.enabled == 1
            &&& row.egress_ip is None
            &&& store.servers.len() == 0 ==> row.server_id is None
            &&& store.servers.len() > 0 && trim_spec(store.servers[0].server_id).len() > 0
                ==> row.server_id == Some(trim_spec(store.servers[0].server_id))
            &&& store.servers.len() > 0 && trim_spec(store.servers[0].server_id).len() == 0
                ==> row.server_id is None
        }),
{
    let after = enrollment(store, now, request, fresh)->Ok_0.0;
    assert(after.clients.drop_last() =~= store.clients);
}

/// An enrollment adds one agent, with the kind and name of the request, the secret that was made
/// for it, and nothing reported yet, and answers with its identity, its secret, the version of the
/// configuration and the time between heartbeats. Other agents, the settings, the administrators
/// and the journals stay as they are.
pub proof fn law_enrollment_adds_one_agent(
    store: ManagerStoreView,
    now: Timestamp,
    request: EnrollmentRequestView,
    fresh: EnrollmentSecretsView,
    other: Seq<char>,
)
    requires
        enrollment(store, now, request, fresh) is Ok,
        other != fresh.agent_id,
    ensures
        ({
            let (after, response) = enrollment(store, now, request, fresh)->Ok_0;
            let row = after.agents[fresh.agent_id];
            &&& !store.agents.contains_key(fresh.agent_id)
            &&& after.agents.contains_key(fresh.agent_id)
            &&& row.agent_id == fresh.agent_id
            &&& request.kind == AgentKind::Server ==> row.kind == "server"@
            &&& request.kind == AgentKind::Client ==> row.kind == "client"@
            &&& row.node_name == trim_spec(request.node_name)
            &&& row.agent_secret == fresh.agent_secret
            &&& row.enabled == 1
            &&& row.last_seen is None && row.current_version is None
            &&& row.last_error.len() == 0 && row.last_message.len() == 0
            &&& row.connected_clients == 0 && row.upload_bytes == 0 && row.download_bytes == 0
            &&& row.current_country.len() == 0 && row.current_public_ip.len() == 0
            &&& after.agents.contains_key(other) == store.agents.contains_key(other)
            &&& store.agents.contains_key(other) ==> after.agents[other] == store.agents[other]
            &&& after.settings == store.settings
            &&& after.admins == store.admins
            &&& after.logs == store.logs
            &&& after.alerts == store.alerts
            &&& after.sessions == store.sessions
            &&& response.agent_id == fresh.agent_id
            &&& response.agent_secret == fresh.agent_secret
            &&& response.poll_interval_seconds == 15
            &&& config_version(store.settings) == Ok::<int, Seq<char>>(
                response.config_version as int,
            )
        }),
{
    crate::settings::lemma_version_bounds(store.settings);
}

/// An enrollment uses up its own token and no other: the tokens with its text get the time of use
/// and keep everything else, the others stay as they are.
pub proof fn law_enrollment_uses_its_token(
    store: ManagerStoreView,
    now: Timestamp,
    request: EnrollmentRequestView,
    fresh: EnrollmentSecretsView,
    i: int,
)
    requires
        enrollment(store, now, request, fresh) is Ok,
        0 <= i < store.tokens.len(),
    ensures
        ({
            let after = enrollment(store, now, request, fresh)->Ok_0.0;
            &&& after.tokens.len() == store.tokens.len()
            &&& after.tokens[i].token == store.tokens[i].token
            &&& after.tokens[i].kind == store.tokens[i].kind
            &&& after.tokens[i].label == store.tokens[i].label
            &&& after.tokens[i].created_at == store.tokens[i].created_at
            &&& store.tokens[i].token == trim_spec(request.enrollment_token)
                ==> after.tokens[i].used_at == Some(rfc3339_text(now.secs, now.nanos))
            &&& store.tokens[i].token != trim_spec(request.enrollment_token)
                ==> after.tokens[i].used_at == store.tokens[i].used_at
        }),
{
}

/// Whether a token lets an agent in is decided by the first row with its text: none is refused as
/// unknown, one that was used as used, one for the other kind of agent as a mismatch, and any other
/// lets the agent in.
pub proof fn law_token_decisions(
    tokens: Seq<BootstrapTokenView>,
    request: EnrollmentRequestView,
    k: int,
)
    requires
        0 <= k <= tokens.len(),
        forall|j: int|
            0 <= j < k ==> (#[trigger] tokens[j]).token != trim_spec(request.enrollment_token),
        k < tokens.len() ==> tokens[k].token == trim_spec(request.enrollment_token),
    ensures
        ({
            let right_kind = match request.kind {
                AgentKind::Server => tokens[k].kind == "server"@,
                AgentKind::Client => tokens[k].kind == "client"@,
            };
            &&& k == tokens.len() ==> token_refusal(tokens, request) == Some(
                ApiErrorView::Refused { status: 401, message: "invalid enrollment token"@ },
            )
            &&& k < tokens.len() && tokens[k].used_at is Some ==> token_refusal(tokens, request)
                == Some(
                ApiErrorView::Refused { status: 409, message: "bootstrap token already used"@ },
            )
            &&& k < tokens.len() && tokens[k].used_at is None && !right_kind ==> token_refusal(
                tokens,
                request,
            ) == Some(ApiErrorView::Refused { status: 400, message: "token kind mismatch"@ })
            &&& k < tokens.len() && tokens[k].used_at is None && right_kind ==> token_refusal(
                tokens,
                request,
            ) is None
        }),
{
    lemma_first_token(tokens, trim_spec(request.enrollment_token), k);
}

/// The first token with a text is the one that is found.
proof fn lemma_first_token(tokens: Seq<BootstrapTokenView>, token: Seq<char>, k: int)
    requires
        0 <= k <= tokens.len(),
        forall|j: int| 0 <= j < k ==> (#[trigger] tokens[j]).token != token,
        k < tokens.len() ==> tokens[k].token == token,
    ensures
        k < tokens.len() ==> find_token(tokens, token) == Some(tokens[k]),
        k == tokens.len() ==> find_token(tokens, token) is None,
    decreases k,
{
    if k > 0 {
        assert(tokens[0].token != token);
        assert forall|j: int| 0 <= j < k - 1 implies (#[trigger] tokens.skip(1)[j]).token != token by {
            assert(tokens[j + 1].token != token);
        }
        lemma_first_token(tokens.skip(1), token, k - 1);
    }
}

/// A token that lets an agent in does so wherever the version of the configuration can be read, the
/// identity is new, and, for a client, an address is free; else the agent is refused for the token,
/// or the manager fails.
pub proof fn law_enrollment_succeeds(
    store: ManagerStoreView,
    now: Timestamp,
    request: EnrollmentRequestView,
    fresh: EnrollmentSecretsView,
)
    ensures
        token_refusal(store.tokens, request) matches Some(refusal) ==> enrollment(
            store,
            now,
            request,
            fresh,
        ) == Err::<(ManagerStoreView, EnrollmentResponseView), ApiErrorView>(refusal),
        token_refusal(store.tokens, request) is None ==> (enrollment(store, now, request, fresh)
            is Ok <==> config_version(store.settings) is Ok && !store.agents.contains_key(
            fresh.agent_id,
        ) && match request.kind {
            AgentKind::Server => forall|i: int|
                0 <= i < store.servers.len() ==> (#[trigger] store.servers[i]).server_id
                    != fresh.agent_id,
            AgentKind::Client => allocated_ip(
                setting(store.settings, "client_cidr"@),
                setting(store.settings, "tun_address"@),
                store.clients,
            ) is Ok && forall|i: int|
                0 <= i < store.clients.len() ==> (#[trigger] store.clients[i]).client_id
                    != fresh.agent_id,
        }),
{
}

/// The view of [`EnrollmentSecrets`] holds each field under its own name.
pub proof fn law_view_of_enrollment_secrets(value: EnrollmentSecrets)
    ensures
        value@.agent_id == value.agent_id@,
        value@.agent_secret == value.agent_secret@,
        value@.tunnel_token == value.tunnel_token@,
{
}

} // verus!
