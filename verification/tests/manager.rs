use ntz_proto::admin::{
    create_token_with, delete_client_record, delete_server_record, initialize, login, login_with,
    logout, parse_kind, require_session, session_cookie_text, session_token_from_cookie,
    update_client, update_server, verify_admin, ClientForm, ServerForm,
};
use ntz_proto::clock::{parse_timestamp, timestamp_text, Timestamp};
use ntz_proto::configs::{build_client_config, build_server_config};
use ntz_proto::enrollment::{
    api_enroll, check_enrollment_is_safe, enroll_client, enroll_server, enroll_with, ApiError,
    EnrollmentSecrets,
};
use ntz_proto::heartbeat::{
    api_alerts, api_heartbeat, api_logs, api_status, option_u64_to_i64, validate_agent,
};
use ntz_proto::json::{parse_json_list, parse_json_list_or_empty, to_json_list};
use ntz_proto::listing::{list_clients, list_servers, list_tokens};
use ntz_proto::models::{
    AgentKind, AgentStatusReport, EnrollmentRequest, HeartbeatRequest, StatusRequest,
};
use ntz_proto::pool::{allocate_client_ip, client_pool_is_countable, parse_cidr};
use ntz_proto::security::{
    create_alert, endpoint_host, endpoint_value, known_public_ip, load_agent_security_state,
    previous_seen_within, recent_alert_exists,
};
use ntz_proto::settings::{
    bool_to_i64, bool_to_setting, bump_config_version, clean_optional_text,
    config_version_can_rise, current_config_version, empty_to_none, parse_bool, parse_lines,
    parse_optional_i64, parse_optional_u16, settings_value, update_settings, GlobalSettingsForm,
};
use ntz_proto::store::{ensure_column, AgentRow, ClientNode, ManagerStore, ServerNode};
use ntz_proto::text_map::TextMap;

fn now() -> Timestamp {
    Timestamp { secs: 1_700_000_000, nanos: 250_000_000 }
}

fn later(seconds: i64) -> Timestamp {
    Timestamp { secs: now().secs + seconds, nanos: now().nanos }
}

fn fresh_store() -> ManagerStore {
    let mut store = ManagerStore::default();
    initialize(&mut store, "admin", "admin123");
    store
}

fn store_with_version(version: &str) -> ManagerStore {
    let mut store = ManagerStore::default();
    store.settings.insert("config_version", version);
    store
}

fn agent(id: &str, kind: &str) -> AgentRow {
    AgentRow {
        agent_id: id.to_string(),
        kind: kind.to_string(),
        node_name: id.to_string(),
        agent_secret: "secret".to_string(),
        enabled: 1,
        current_version: None,
        last_seen: None,
        last_error: String::new(),
        last_message: String::new(),
        connected_clients: 0,
        current_country: String::new(),
        current_public_ip: String::new(),
        upload_bytes: 0,
        download_bytes: 0,
    }
}

fn server_node(id: &str, name: &str) -> ServerNode {
    ServerNode {
        server_id: id.to_string(),
        node_name: name.to_string(),
        listen_addr: "0.0.0.0:9000".to_string(),
        public_endpoint: "192.168.1.10:9000".to_string(),
        tun_name: "ntz0".to_string(),
        tun_address: "10.44.0.1".to_string(),
        tun_prefix: 24,
        mtu: Some(1400),
        client_cidr: "10.44.0.0/24".to_string(),
        nat_iface: Some("ens33".to_string()),
        setup_nat: 1,
        max_clients: 32,
        egress_ips_json: "[]".to_string(),
        blocked_ips_json: "[]".to_string(),
        protected_ips_json: "[]".to_string(),
        doh_url: "https://1.1.1.1/dns-query".to_string(),
        dns_bind_addr: "10.44.0.1:53".to_string(),
        enabled: 1,
    }
}

fn client_node(id: &str, name: &str, ip: &str, server_id: Option<&str>) -> ClientNode {
    ClientNode {
        client_id: id.to_string(),
        device_name: name.to_string(),
        assigned_ip: ip.to_string(),
        server_id: server_id.map(|s| s.to_string()),
        tunnel_token: format!("token-{id}"),
        enabled: 1,
        egress_ip: None,
    }
}

fn request(kind: AgentKind, token: &str, name: &str) -> EnrollmentRequest {
    EnrollmentRequest {
        kind,
        enrollment_token: token.to_string(),
        node_name: name.to_string(),
    }
}

fn secrets(id: &str) -> EnrollmentSecrets {
    EnrollmentSecrets {
        agent_id: id.to_string(),
        agent_secret: format!("{id}-secret"),
        tunnel_token: format!("{id}-tunnel"),
    }
}

#[test]
fn parse_lines_trims_and_drops_blank_lines() {
    let parsed = parse_lines(" 10.0.0.1 \n\n10.0.0.2/32 \n");
    assert_eq!(
        parsed,
        vec!["10.0.0.1".to_string(), "10.0.0.2/32".to_string()]
    );
}

#[test]
fn parse_lines_handles_carriage_returns() {
    assert_eq!(parse_lines("a\r\n\r\n b\r"), vec!["a".to_string(), "b".to_string()]);
    assert_eq!(parse_lines(""), Vec::<String>::new());
    assert_eq!(parse_lines("one two"), vec!["one two".to_string()]);
}

#[test]
fn allocate_client_ip_skips_server_address_and_existing_clients() {
    let mut clients: Vec<ClientNode> = Vec::new();

    let first = allocate_client_ip(&clients, "10.44.0.0/24", "10.44.0.1").expect("first IP");
    assert_eq!(first, "10.44.0.10");

    clients.push(ClientNode {
        client_id: "client-1".to_string(),
        device_name: "test-device".to_string(),
        assigned_ip: first,
        server_id: None,
        tunnel_token: "token-1".to_string(),
        enabled: 1,
        egress_ip: None,
    });

    let second = allocate_client_ip(&clients, "10.44.0.0/24", "10.44.0.1").expect("second IP");
    assert_eq!(second, "10.44.0.11");
}

#[test]
fn small_pools_start_low_and_run_out() {
    let clients: Vec<ClientNode> = Vec::new();
    let first = |cidr: &str, server: &str| allocate_client_ip(&clients, cidr, server);
    assert_eq!(first("10.0.0.0/29", "10.0.0.1"), Ok("10.0.0.2".to_string()));
    assert_eq!(first("10.0.0.0/28", "10.0.0.2"), Ok("10.0.0.3".to_string()));
    assert_eq!(first("10.0.0.0/27", "10.0.0.10"), Ok("10.0.0.11".to_string()));
    assert_eq!(first("10.0.0.0/30", "10.0.0.2"), Err("no available client IPs in pool".to_string()));
    assert_eq!(first("10.0.0.0/31", "10.0.0.1"), Err("no available client IPs in pool".to_string()));
    assert_eq!(first("10.0.0.0/32", "10.0.0.1"), Err("no available client IPs in pool".to_string()));
}

#[test]
fn addresses_that_are_none_do_not_take_room() {
    let clients = vec![client_node("c", "c", "garbage", None)];
    assert_eq!(
        allocate_client_ip(&clients, "10.44.0.0/24", "10.44.0.1"),
        Ok("10.44.0.10".to_string())
    );
}

#[test]
fn pools_that_cannot_be_read() {
    let clients: Vec<ClientNode> = Vec::new();
    let err = |cidr: &str, server: &str| allocate_client_ip(&clients, cidr, server).unwrap_err();
    assert_eq!(err("10.44.0.0", "10.44.0.1"), "CIDR must contain '/'");
    assert_eq!(err("10.44.0/24", "10.44.0.1"), "invalid IPv4 address syntax");
    assert_eq!(err("10.44.0.0/x", "10.44.0.1"), "invalid digit found in string");
    assert_eq!(err("10.44.0.0/", "10.44.0.1"), "cannot parse integer from empty string");
    assert_eq!(err("10.44.0.0/256", "10.44.0.1"), "number too large to fit in target type");
    assert_eq!(err("10.44.0.0/24", "nowhere"), "invalid server IP: invalid IPv4 address syntax");
    assert_eq!(parse_cidr("10.44.0.0/24"), Ok((0x0a2c0000, 24)));
    assert_eq!(parse_cidr("10.44.0.0/024"), Ok((0x0a2c0000, 24)));
}

#[test]
fn pools_that_cannot_be_counted() {
    let clients: Vec<ClientNode> = Vec::new();
    assert!(client_pool_is_countable(&clients, "10.44.0.0/24", "10.44.0.1"));
    assert!(!client_pool_is_countable(&clients, "10.44.0.0/0", "10.44.0.1"));
    assert!(!client_pool_is_countable(&clients, "10.44.0.0/33", "10.44.0.1"));
    assert!(!client_pool_is_countable(&clients, "255.255.255.250/24", "10.44.0.1"));
    assert!(client_pool_is_countable(&clients, "255.255.255.240/24", "10.44.0.1"));
    assert!(client_pool_is_countable(&clients, "nonsense", "10.44.0.1"));
}

#[test]
fn delete_server_record_unassigns_clients_and_removes_agent() {
    let mut store = store_with_version("7");
    store.agents.push(agent("server-1", "server"));
    store.servers.push(server_node("server-1", "vpn-1"));
    store.clients.push(client_node("client-1", "client-1", "10.44.0.10", Some("server-1")));

    delete_server_record(&mut store, "server-1").expect("delete server");

    assert_eq!(store.servers.len(), 0);
    assert_eq!(store.agents.len(), 0);
    assert_eq!(store.clients[0].server_id, None);
    let version = current_config_version(&store.settings).expect("version");
    assert_eq!(version, 8);
}

#[test]
fn delete_client_record_removes_client_and_agent() {
    let mut store = store_with_version("4");
    store.agents.push(agent("client-1", "client"));
    store.clients.push(client_node("client-1", "client-1", "10.44.0.10", None));

    delete_client_record(&mut store, "client-1").expect("delete client");

    assert_eq!(store.clients.len(), 0);
    assert_eq!(store.agents.len(), 0);
    let version = current_config_version(&store.settings).expect("version");
    assert_eq!(version, 5);
}

#[test]
fn deleting_leaves_the_others_alone() {
    let mut store = store_with_version("1");
    store.agents.push(agent("server-1", "server"));
    store.agents.push(agent("server-2", "server"));
    store.servers.push(server_node("server-1", "a"));
    store.servers.push(server_node("server-2", "b"));
    store.clients.push(client_node("c", "c", "10.44.0.10", Some("server-2")));
    delete_server_record(&mut store, "server-1").expect("delete server");
    assert_eq!(store.servers.len(), 1);
    assert_eq!(store.servers[0].server_id, "server-2");
    assert_eq!(store.clients[0].server_id.as_deref(), Some("server-2"));
    assert_eq!(store.agents.len(), 1);
    delete_client_record(&mut store, "server-2").expect("delete client");
    assert_eq!(store.agents.len(), 1);
    assert_eq!(current_config_version(&store.settings), Ok(3));
}

#[test]
fn changes_need_a_version() {
    let mut store = ManagerStore::default();
    store.servers.push(server_node("server-1", "a"));
    store.servers.push(server_node("server-2", "b"));
    assert_eq!(
        delete_server_record(&mut store, "server-1"),
        Err("Query returned no rows".to_string())
    );
    assert_eq!(store.servers.len(), 1);
    assert_eq!(store.servers[0].server_id, "server-2");
    store.settings.insert("config_version", "x");
    assert_eq!(
        delete_client_record(&mut store, "c"),
        Err("invalid digit found in string".to_string())
    );
    assert_eq!(store.servers.len(), 1);
    assert_eq!(store.settings.get("config_version").as_deref(), Some("x"));
}

#[test]
fn versions_rise_by_one() {
    let mut settings = TextMap::default();
    settings.insert("config_version", "41");
    assert_eq!(bump_config_version(&mut settings), Ok(42));
    assert_eq!(settings.get("config_version").as_deref(), Some("42"));
    assert!(config_version_can_rise(&settings));
    settings.insert("config_version", "18446744073709551615");
    assert!(!config_version_can_rise(&settings));
    settings.insert("config_version", "18446744073709551616");
    assert_eq!(
        current_config_version(&settings),
        Err("number too large to fit in target type".to_string())
    );
}

#[test]
fn initialization_seeds_and_keeps() {
    let mut store = ManagerStore::default();
    store.settings.insert("tun_name", "mine");
    initialize(&mut store, "admin", "admin123");
    assert_eq!(settings_value(&store.settings, "tun_name"), "mine");
    assert_eq!(settings_value(&store.settings, "config_version"), "1");
    assert_eq!(settings_value(&store.settings, "listen_addr"), "0.0.0.0:9000");
    assert_eq!(settings_value(&store.settings, "public_endpoint"), "127.0.0.1:9000");
    assert_eq!(settings_value(&store.settings, "client_cidr"), "10.44.0.0/24");
    assert_eq!(settings_value(&store.settings, "egress_ips_json"), "[]");
    assert_eq!(settings_value(&store.settings, "missing"), "");
    assert_eq!(store.settings.len(), 16);
    assert!(verify_admin(&store, "admin", "admin123"));
    initialize(&mut store, "admin", "changed");
    assert!(!verify_admin(&store, "admin", "admin123"));
    assert!(verify_admin(&store, " admin ", "changed"));
    assert!(!verify_admin(&store, "root", "changed"));
}

#[test]
fn sessions_last_until_sign_out() {
    let store = fresh_store();
    let mut sessions = TextMap::default();
    assert_eq!(login(&store, &mut sessions, "admin", "wrong"), None);
    let token = login(&store, &mut sessions, "admin", "admin123").expect("token");
    let cookie = Some(format!("theme=dark; ntz_session={token}; x=1"));
    assert_eq!(session_token_from_cookie(&cookie), Some(token.clone()));
    assert_eq!(require_session(&sessions, &cookie).as_deref(), Some("admin"));
    assert_eq!(require_session(&sessions, &None), None);
    assert_eq!(require_session(&sessions, &Some("ntz_session=nope".to_string())), None);
    assert_eq!(
        session_cookie_text("abc"),
        "ntz_session=abc; HttpOnly; Path=/; SameSite=Lax"
    );
    logout(&mut sessions, &cookie);
    assert_eq!(require_session(&sessions, &cookie), None);
    assert!(login_with(&store, &mut sessions, "admin", "admin123", "t"));
    assert_eq!(sessions.get("t").as_deref(), Some("admin"));
}

#[test]
fn tokens_enroll_once() {
    let mut store = fresh_store();
    create_token_with(&mut store, now(), "tok-s", AgentKind::Server, " lab ").expect("token");
    assert_eq!(store.tokens[0].label, "lab");
    assert_eq!(store.tokens[0].kind, "server");
    assert_eq!(
        create_token_with(&mut store, now(), "tok-s", AgentKind::Client, "x"),
        Err("UNIQUE constraint failed: bootstrap_tokens.token")
    );

    let refused = |r: Result<_, ApiError>| match r {
        Ok(_) => (0u16, String::new()),
        Err(ApiError::Refused { status, message }) => (status, message.to_string()),
        Err(ApiError::Internal(message)) => (500, message),
    };
    let mut enroll = |kind: AgentKind, token: &str| {
        refused(api_enroll(&mut store, now(), &request(kind, token, " node ")).map(|_| ()))
    };
    assert_eq!(
        enroll(AgentKind::Server, "unknown"),
        (401, "invalid enrollment token".to_string())
    );
    assert_eq!(enroll(AgentKind::Client, "tok-s"), (400, "token kind mismatch".to_string()));
    assert_eq!(enroll(AgentKind::Server, " tok-s "), (0, String::new()));
    assert_eq!(
        enroll(AgentKind::Server, "tok-s"),
        (409, "bootstrap token already used".to_string())
    );
    assert_eq!(store.servers.len(), 1);
    assert_eq!(store.servers[0].node_name, "node");
    assert_eq!(store.servers[0].max_clients, 32);
    assert_eq!(store.servers[0].nat_iface.as_deref(), Some("eth0"));
    assert_eq!(store.agents.len(), 1);
    assert_eq!(store.tokens[0].used_at, Some(timestamp_text(now())));
}

#[test]
fn enrolled_clients_get_addresses_and_a_server() {
    let mut store = fresh_store();
    for token in ["s", "c1", "c2"] {
        let kind = if token == "s" { AgentKind::Server } else { AgentKind::Client };
        create_token_with(&mut store, now(), token, kind, "x").expect("token");
    }
    let first = request(AgentKind::Client, "c1", "laptop");
    assert!(check_enrollment_is_safe(&store, &first));
    let response = enroll_with(&mut store, now(), &first, &secrets("client-1")).expect("first");
    assert_eq!(response.agent_id, "client-1");
    assert_eq!(response.agent_secret, "client-1-secret");
    assert_eq!(response.poll_interval_seconds, 15);
    assert_eq!(response.config_version, 1);
    assert_eq!(store.clients[0].server_id, None);
    assert_eq!(store.clients[0].assigned_ip, "10.44.0.10");
    assert_eq!(store.clients[0].tunnel_token, "client-1-tunnel");

    enroll_with(&mut store, now(), &request(AgentKind::Server, "s", "vpn"), &secrets("server-1"))
        .expect("server");
    enroll_with(&mut store, now(), &request(AgentKind::Client, "c2", "phone"), &secrets("client-2"))
        .expect("second");
    assert_eq!(store.clients[1].server_id.as_deref(), Some("server-1"));
    assert_eq!(store.clients[1].assigned_ip, "10.44.0.11");
    assert_eq!(validate_agent(&store, "client-2", "client-2-secret", AgentKind::Client), Ok(()));
    assert_eq!(
        validate_agent(&store, "client-2", "client-2-secret", AgentKind::Server),
        Err("invalid agent credentials")
    );
    assert_eq!(
        validate_agent(&store, "client-2", "other", AgentKind::Client),
        Err("invalid agent credentials")
    );
}

#[test]
fn failed_enrollments_change_nothing() {
    let mut store = fresh_store();
    create_token_with(&mut store, now(), "c", AgentKind::Client, "x").expect("token");
    store.agents.push(agent("taken", "client"));
    let request = request(AgentKind::Client, "c", "laptop");
    let message = |r: Result<_, ApiError>| match r {
        Ok(_) => String::new(),
        Err(ApiError::Refused { message, .. }) => message.to_string(),
        Err(ApiError::Internal(message)) => message,
    };
    assert_eq!(
        message(enroll_with(&mut store, now(), &request, &secrets("taken")).map(|_| ())),
        "UNIQUE constraint failed: agents.agent_id"
    );
    store.clients.push(client_node("dup", "dup", "10.44.0.10", None));
    assert_eq!(
        message(enroll_with(&mut store, now(), &request, &secrets("dup")).map(|_| ())),
        "UNIQUE constraint failed: client_nodes.client_id"
    );
    store.settings.insert("client_cidr", "10.44.0.0/30");
    assert_eq!(
        message(enroll_with(&mut store, now(), &request, &secrets("new")).map(|_| ())),
        ""
    );
    assert_eq!(store.clients[1].assigned_ip, "10.44.0.2");
    store.settings.insert("client_cidr", "10.44.0.0/33");
    create_token_with(&mut store, now(), "c3", AgentKind::Client, "x").expect("token");
    let mut other = request;
    other.enrollment_token = "c3".to_string();
    assert!(!check_enrollment_is_safe(&store, &other));
    other.enrollment_token = "none".to_string();
    assert!(check_enrollment_is_safe(&store, &other));
    assert_eq!(enroll_server(&mut store, "s", "n"), Ok(()));
    assert_eq!(
        enroll_server(&mut store, "s", "n"),
        Err("UNIQUE constraint failed: server_nodes.server_id")
    );
    store.settings.insert("client_cidr", "10.44.0.0");
    assert_eq!(
        enroll_client(&mut store, "k", "n", "t"),
        Err("CIDR must contain '/'".to_string())
    );
}

#[test]
fn server_settings_are_read_leniently() {
    let mut store = fresh_store();
    store.settings.insert("tun_prefix", "wide");
    store.settings.insert("max_clients", "many");
    store.settings.insert("mtu", "  ");
    store.settings.insert("nat_iface", "  ");
    store.settings.insert("setup_nat", "off");
    enroll_server(&mut store, "s", " name ").expect("server");
    let node = &store.servers[0];
    assert_eq!((node.tun_prefix, node.max_clients), (24, 32));
    assert_eq!((node.mtu, node.nat_iface.clone(), node.setup_nat), (None, None, 0));
}

#[test]
fn server_config_lists_its_clients_by_name() {
    let mut store = store_with_version("9");
    store.servers.push(server_node("server-1", "vpn"));
    store.servers[0].egress_ips_json = "[\"198.51.100.7\"]".to_string();
    store.clients.push(client_node("c1", "zeta", "10.44.0.10", Some("server-1")));
    store.clients.push(client_node("c2", "alpha", "10.44.0.11", Some("server-1")));
    store.clients.push(client_node("c3", "beta", "10.44.0.12", Some("server-2")));
    store.clients.push(client_node("c4", "beta", "10.44.0.13", None));
    store.clients[1].enabled = 0;
    let config = build_server_config(&store, "server-1").expect("config");
    assert_eq!(config.version, 9);
    assert_eq!(config.tun_prefix, 24);
    assert_eq!(config.mtu, Some(1400));
    assert_eq!(config.egress_ips, vec!["198.51.100.7".to_string()]);
    let names: Vec<&str> = config.allowed_clients.iter().map(|c| c.device_name.as_str()).collect();
    assert_eq!(names, vec!["alpha", "zeta"]);
    assert!(!config.allowed_clients[0].enabled);
    assert!(config.allowed_clients[1].enabled);
    assert_eq!(
        build_server_config(&store, "server-9").err().as_deref(),
        Some("server not registered")
    );
    store.servers[0].blocked_ips_json = "nope".to_string();
    assert!(build_server_config(&store, "server-1").is_err());
}

#[test]
fn client_config_needs_a_server() {
    let mut store = fresh_store();
    store.servers.push(server_node("server-1", "vpn"));
    store.clients.push(client_node("c1", "zeta", "10.44.0.10", Some("server-1")));
    store.clients.push(client_node("c2", "beta", "10.44.0.11", None));
    store.clients.push(client_node("c3", "beta", "10.44.0.12", Some("gone")));
    let config = build_client_config(&store, "c1").expect("config");
    assert!(config.enabled);
    assert_eq!(config.server_endpoint, "192.168.1.10:9000");
    assert_eq!(config.tun_address, "10.44.0.10");
    assert_eq!(config.dns_server, "10.44.0.1");
    assert_eq!(config.tun_prefix, 24);
    assert_eq!(config.mtu, Some(1400));
    assert!(!build_client_config(&store, "c2").expect("config").enabled);
    assert_eq!(build_client_config(&store, "c2").expect("config").server_id, "");
    assert!(!build_client_config(&store, "c3").expect("config").enabled);
    assert_eq!(
        build_client_config(&store, "c9").err().as_deref(),
        Some("client not registered")
    );
}

fn heartbeat(id: &str, kind: AgentKind, version: Option<u64>) -> HeartbeatRequest {
    HeartbeatRequest {
        agent_id: id.to_string(),
        agent_secret: "secret".to_string(),
        kind,
        current_version: version,
        status: AgentStatusReport::default(),
    }
}

#[test]
fn heartbeats_are_recorded_and_answered() {
    let mut store = fresh_store();
    store.agents.push(agent("server-1", "server"));
    store.servers.push(server_node("server-1", "vpn"));
    let ipv6 = TextMap::default();
    let mut request = heartbeat("server-1", AgentKind::Server, None);
    request.status.last_message = Some("fine".to_string());
    request.status.connected_clients = Some(3);
    request.status.applied_version = Some(1);
    let response = api_heartbeat(&mut store, now(), &request, &ipv6).expect("answer");
    assert!(response.ok);
    assert!(response.config_changed);
    assert!(response.server_config.is_some());
    assert!(response.client_config.is_none());
    assert_eq!(response.message.as_deref(), Some("heartbeat accepted"));
    assert_eq!(store.agents[0].last_seen, Some(timestamp_text(now())));
    assert_eq!(store.agents[0].last_message, "fine");
    assert_eq!(store.agents[0].connected_clients, 3);
    assert_eq!(store.agents[0].current_version, Some(1));
    assert_eq!(
        api_logs(&store),
        vec![format!("[{}] [INFO] [server] server-1 heartbeat received", timestamp_text(now()))]
    );

    let response =
        api_heartbeat(&mut store, now(), &heartbeat("server-1", AgentKind::Server, Some(1)), &ipv6)
            .expect("answer");
    assert!(!response.config_changed);
    assert!(response.server_config.is_none());
}

#[test]
fn heartbeats_of_clients_get_client_configs() {
    let mut store = fresh_store();
    store.agents.push(agent("c1", "client"));
    store.clients.push(client_node("c1", "laptop", "10.44.0.10", None));
    let ipv6 = TextMap::default();
    let response =
        api_heartbeat(&mut store, now(), &heartbeat("c1", AgentKind::Client, Some(7)), &ipv6)
            .expect("answer");
    assert!(response.client_config.is_some());
    assert!(response.server_config.is_none());
    assert_eq!(store.sessions.len(), 1);
}

#[test]
fn reports_stay_where_the_answer_fails() {
    let mut store = fresh_store();
    store.agents.push(agent("server-1", "server"));
    let ipv6 = TextMap::default();
    assert_eq!(
        api_heartbeat(&mut store, now(), &heartbeat("server-1", AgentKind::Server, None), &ipv6)
            .err()
            .as_deref(),
        Some("server not registered")
    );
    assert!(store.agents[0].last_seen.is_some());
    assert_eq!(store.logs.len(), 1);
    assert_eq!(
        api_heartbeat(&mut store, now(), &heartbeat("ghost", AgentKind::Server, None), &ipv6)
            .err()
            .as_deref(),
        Some("invalid agent credentials")
    );
    assert_eq!(store.logs.len(), 1);
}

#[test]
fn status_reports_are_recorded() {
    let mut store = fresh_store();
    store.agents.push(agent("server-1", "server"));
    let ipv6 = TextMap::default();
    let mut request = StatusRequest {
        agent_id: "server-1".to_string(),
        agent_secret: "secret".to_string(),
        kind: AgentKind::Server,
        status: AgentStatusReport::default(),
    };
    request.status.upload_bytes = Some(u64::MAX);
    assert!(api_status(&mut store, now(), &request, &ipv6).expect("answer").ok);
    assert_eq!(store.agents[0].upload_bytes, i64::MAX);
    assert_eq!(store.logs.last().map(|row| row.message.as_str()), Some("[server] server-1 status updated"));
    assert_eq!(store.alerts.len(), 1);
    assert_eq!(store.alerts[0].message, "Unusual traffic spike detected");
    request.agent_secret = "wrong".to_string();
    assert_eq!(
        api_status(&mut store, now(), &request, &ipv6).err(),
        Some("invalid agent credentials")
    );
    assert_eq!(option_u64_to_i64(None), 0);
    assert_eq!(option_u64_to_i64(Some(9)), 9);
}

#[test]
fn rapid_changes_raise_alerts() {
    let mut store = fresh_store();
    store.agents.push(agent("server-1", "server"));
    store.servers.push(server_node("server-1", "vpn"));
    let ipv6 = TextMap::default();
    let mut request = heartbeat("server-1", AgentKind::Server, Some(1));
    request.status.country = Some("Norway".to_string());
    request.status.public_ip = Some("192.168.1.10".to_string());
    api_heartbeat(&mut store, now(), &request, &ipv6).expect("first");
    assert_eq!(store.alerts.len(), 0);
    request.status.country = Some(" Chile ".to_string());
    request.status.public_ip = Some("203.0.113.5".to_string());
    api_heartbeat(&mut store, later(60), &request, &ipv6).expect("second");
    let messages: Vec<&str> = store.alerts.iter().map(|a| a.message.as_str()).collect();
    assert_eq!(
        messages,
        vec![
            "Country changed rapidly from Norway to Chile",
            "Public IP changed rapidly from 192.168.1.10 to 203.0.113.5",
            "Unknown public IP detected: 203.0.113.5",
        ]
    );
    assert_eq!(
        api_alerts(&store)[0],
        format!(
            "[{}] [WARN] server-1 - Unknown public IP detected: 203.0.113.5",
            timestamp_text(later(60))
        )
    );
    api_heartbeat(&mut store, later(120), &request, &ipv6).expect("third");
    assert_eq!(store.alerts.len(), 4);
    api_heartbeat(&mut store, later(121), &request, &ipv6).expect("fourth");
    assert_eq!(store.alerts.len(), 4);
}

#[test]
fn slow_changes_raise_none() {
    let mut store = fresh_store();
    store.agents.push(agent("server-1", "server"));
    store.servers.push(server_node("server-1", "vpn"));
    let ipv6 = TextMap::default();
    let mut request = heartbeat("server-1", AgentKind::Server, Some(1));
    request.status.country = Some("Norway".to_string());
    api_heartbeat(&mut store, now(), &request, &ipv6).expect("first");
    request.status.country = Some("Chile".to_string());
    api_heartbeat(&mut store, later(121), &request, &ipv6).expect("second");
    assert_eq!(store.alerts.len(), 0);
}

#[test]
fn alerts_pause_for_five_minutes() {
    let mut store = ManagerStore::default();
    create_alert(&mut store, now(), "WARN", "a", "m");
    assert_eq!(store.logs[0].message, "[ALERT] a - m");
    create_alert(&mut store, later(299), "WARN", "a", "m");
    assert_eq!(store.alerts.len(), 1);
    assert!(recent_alert_exists(&store, later(299), "a", "m", 300));
    assert!(!recent_alert_exists(&store, later(300), "a", "m", 300));
    assert!(!recent_alert_exists(&store, now(), "b", "m", 300));
    create_alert(&mut store, later(300), "WARN", "a", "m");
    assert_eq!(store.alerts.len(), 2);
}

#[test]
fn reconnects_are_counted() {
    let mut store = fresh_store();
    store.agents.push(agent("c1", "client"));
    store.clients.push(client_node("c1", "laptop", "10.44.0.10", None));
    let ipv6 = TextMap::default();
    for i in 0..11 {
        store.agents[0].last_seen = None;
        api_heartbeat(
            &mut store,
            later(i),
            &heartbeat("c1", AgentKind::Client, Some(1)),
            &ipv6,
        )
        .expect("heartbeat");
    }
    assert_eq!(store.sessions.len(), 11);
    assert_eq!(store.alerts.len(), 1);
    assert_eq!(store.alerts[0].message, "Excessive reconnect attempts");
    api_heartbeat(&mut store, later(20), &heartbeat("c1", AgentKind::Client, Some(1)), &ipv6)
        .expect("heartbeat");
    assert_eq!(store.sessions.len(), 11);
}

#[test]
fn security_state_of_an_agent() {
    let mut store = ManagerStore::default();
    store.agents.push(agent("a", "client"));
    assert!(load_agent_security_state(&store, "b").is_none());
    assert!(load_agent_security_state(&store, "a").expect("state").last_seen.is_none());
    store.agents[0].last_seen = Some(timestamp_text(now()));
    let state = load_agent_security_state(&store, "a").expect("state");
    assert_eq!(state.last_seen, Some(now()));
    assert!(previous_seen_within(&state, later(90), 90));
    assert!(!previous_seen_within(&state, later(91), 90));
}

#[test]
fn hosts_of_endpoints() {
    let mut ipv6 = TextMap::default();
    let host = |endpoint: &str, ipv6: &TextMap| endpoint_host(endpoint, ipv6);
    assert_eq!(host(" https://vpn.example.com:9000/ ", &ipv6).as_deref(), Some("vpn.example.com"));
    assert_eq!(host("http://192.0.2.1:9000", &ipv6).as_deref(), Some("192.0.2.1"));
    assert_eq!(host("vpn.example.com", &ipv6).as_deref(), Some("vpn.example.com"));
    assert_eq!(host("[2001:db8::1]", &ipv6).as_deref(), Some("2001:db8:"));
    assert_eq!(host(" / ", &ipv6), None);
    assert_eq!(endpoint_value("https://[2001:DB8::1]:9000/"), "[2001:DB8::1]:9000");
    ipv6.insert("[2001:DB8::1]:9000", "2001:db8::1");
    assert_eq!(host("https://[2001:DB8::1]:9000/", &ipv6).as_deref(), Some("2001:db8::1"));
}

#[test]
fn known_addresses() {
    let mut store = fresh_store();
    let ipv6 = TextMap::default();
    assert!(known_public_ip(&store, &ipv6, "127.0.0.1"));
    assert!(!known_public_ip(&store, &ipv6, "192.168.1.10"));
    store.servers.push(server_node("s", "n"));
    assert!(known_public_ip(&store, &ipv6, "192.168.1.10"));
    store.settings.insert("egress_ips_json", "[\"198.51.100.7\"]");
    assert!(known_public_ip(&store, &ipv6, "198.51.100.7"));
    let mut empty = ManagerStore::default();
    assert!(known_public_ip(&empty, &ipv6, "anything"));
    empty.settings.insert("egress_ips_json", "broken");
    assert!(known_public_ip(&empty, &ipv6, "anything"));
}

#[test]
fn forms_change_servers_and_clients() {
    let mut store = store_with_version("1");
    store.servers.push(server_node("server-1", "a"));
    store.clients.push(client_node("c", "c", "10.44.0.10", Some("server-1")));
    let form = ServerForm {
        listen_addr: " 0.0.0.0:9001 ".to_string(),
        public_endpoint: "vpn:9001".to_string(),
        nat_iface: " ".to_string(),
        max_clients: 5,
        enabled: None,
    };
    assert_eq!(update_server(&mut store, "server-1", &form), Ok(()));
    assert_eq!(store.servers[0].listen_addr, "0.0.0.0:9001");
    assert_eq!(store.servers[0].nat_iface, None);
    assert_eq!((store.servers[0].max_clients, store.servers[0].enabled), (5, 0));
    let form = ClientForm {
        assigned_ip: " 10.44.0.20 ".to_string(),
        server_id: "".to_string(),
        egress_ip: "198.51.100.7".to_string(),
        enabled: Some("on".to_string()),
    };
    assert_eq!(update_client(&mut store, "c", &form), Ok(()));
    assert_eq!(store.clients[0].assigned_ip, "10.44.0.20");
    assert_eq!(store.clients[0].server_id, None);
    assert_eq!(store.clients[0].egress_ip.as_deref(), Some("198.51.100.7"));
    assert_eq!(store.clients[0].enabled, 1);
    assert_eq!(current_config_version(&store.settings), Ok(3));
}

fn settings_form() -> GlobalSettingsForm {
    GlobalSettingsForm {
        listen_addr: " 0.0.0.0:9001 ".to_string(),
        public_endpoint: "vpn:9001".to_string(),
        tun_name: "ntz1".to_string(),
        tun_address: "10.45.0.1".to_string(),
        tun_prefix: 16,
        client_cidr: "10.45.0.0/16".to_string(),
        mtu: "".to_string(),
        nat_iface: "eth1".to_string(),
        setup_nat: Some("on".to_string()),
        max_clients: 64,
        doh_url: "https://dns".to_string(),
        dns_bind_addr: "10.45.0.1:53".to_string(),
        blocked_ips: "10.0.0.0/8\n\n say \"no\" \n".to_string(),
        protected_ips: "".to_string(),
        egress_ips: "198.51.100.7".to_string(),
    }
}

#[test]
fn saved_settings_are_read_back() {
    let mut store = fresh_store();
    assert_eq!(update_settings(&mut store.settings, &settings_form()), Ok(()));
    let value = |key: &str| settings_value(&store.settings, key);
    assert_eq!(value("listen_addr"), "0.0.0.0:9001");
    assert_eq!(value("tun_prefix"), "16");
    assert_eq!(value("max_clients"), "64");
    assert_eq!(value("setup_nat"), "true");
    assert_eq!(value("blocked_ips_json"), "[\"10.0.0.0/8\",\"say \\\"no\\\"\"]");
    assert_eq!(
        parse_json_list_or_empty(&value("blocked_ips_json")),
        vec!["10.0.0.0/8".to_string(), "say \"no\"".to_string()]
    );
    assert_eq!(value("protected_ips_json"), "[]");
    assert_eq!(value("config_version"), "2");
    let mut empty = TextMap::default();
    assert_eq!(
        update_settings(&mut empty, &settings_form()),
        Err("Query returned no rows".to_string())
    );
    assert_eq!(empty.len(), 0);
}

#[test]
fn lists_are_sorted() {
    let mut store = fresh_store();
    store.servers.push(server_node("s1", "b"));
    store.servers.push(server_node("s2", "a"));
    store.servers.push(server_node("s3", "B"));
    store.servers.push(server_node("s4", "a"));
    store.agents.push(agent("s2", "server"));
    store.agents[0].last_seen = Some("yesterday".to_string());
    store.agents[0].current_version = Some(4);
    let ids: Vec<String> = list_servers(&store).into_iter().map(|row| row.server_id).collect();
    assert_eq!(ids, vec!["s3", "s2", "s4", "s1"]);
    let rows = list_servers(&store);
    assert_eq!(rows[1].last_seen, "yesterday");
    assert_eq!(rows[1].current_version, Some(4));
    assert_eq!(rows[0].last_seen, "");
    assert_eq!(rows[0].current_version, None);
    store.clients.push(client_node("c1", "éclair", "10.44.0.10", None));
    store.clients.push(client_node("c2", "zebra", "10.44.0.11", Some("s1")));
    let rows = list_clients(&store);
    assert_eq!(rows[0].client_id, "c2");
    assert_eq!(rows[0].server_id, "s1");
    assert_eq!(rows[1].server_id, "");
    create_token_with(&mut store, now(), "old", AgentKind::Server, "x").expect("token");
    create_token_with(&mut store, later(1), "new", AgentKind::Client, "y").expect("token");
    let tokens: Vec<String> = list_tokens(&store).into_iter().map(|row| row.token).collect();
    assert_eq!(tokens, vec!["new", "old"]);
}

#[test]
fn journals_show_the_newest_rows() {
    let mut store = ManagerStore::default();
    for i in 0..120 {
        ntz_proto::security::write_log(&mut store, later(i), "INFO", &format!("line {i}"));
    }
    let lines = api_logs(&store);
    assert_eq!(lines.len(), 100);
    assert!(lines[0].ends_with("[INFO] line 119"));
    assert!(lines[99].ends_with("[INFO] line 20"));
    for i in 0..60 {
        create_alert(&mut store, later(i), "WARN", "a", &format!("m{i}"));
    }
    let lines = api_alerts(&store);
    assert_eq!(lines.len(), 50);
    assert!(lines[0].ends_with("[WARN] a - m59"));
}

#[test]
fn small_readers() {
    assert_eq!((bool_to_setting(true), bool_to_setting(false)), ("true", "false"));
    assert_eq!((bool_to_i64(true), bool_to_i64(false)), (1, 0));
    for text in ["1", " true ", "yes", "on"] {
        assert!(parse_bool(text));
    }
    for text in ["", "True", "0", "y"] {
        assert!(!parse_bool(text));
    }
    assert_eq!(parse_optional_i64(" -5 "), Some(-5));
    assert_eq!(parse_optional_i64(""), None);
    assert_eq!(parse_optional_i64("x"), None);
    assert_eq!(parse_optional_u16("65535"), Some(65535));
    assert_eq!(parse_optional_u16("65536"), None);
    assert_eq!(parse_optional_u16(" "), None);
    assert_eq!(empty_to_none("  a "), Some("a".to_string()));
    assert_eq!(empty_to_none(" \t"), None);
    assert_eq!(clean_optional_text(&Some(" ".to_string())), None);
    assert_eq!(clean_optional_text(&Some(" b".to_string())), Some("b".to_string()));
    assert_eq!(clean_optional_text(&None), None);
    assert_eq!(parse_kind("server"), Some(AgentKind::Server));
    assert_eq!(parse_kind("client"), Some(AgentKind::Client));
    assert_eq!(parse_kind("Server"), None);
    assert_eq!(AgentKind::Server.as_str(), "server");
}

#[test]
fn json_lists() {
    let list = vec!["a".to_string(), "b \"c\"".to_string()];
    let text = to_json_list(&list).expect("text");
    assert_eq!(text, "[\"a\",\"b \\\"c\\\"\"]");
    assert_eq!(parse_json_list(&text), Ok(list));
    assert!(parse_json_list("{}").is_err());
    assert!(parse_json_list("[1]").is_err());
    assert_eq!(parse_json_list_or_empty("[1]"), Vec::<String>::new());
}

#[test]
fn times_are_read_back() {
    let text = timestamp_text(now());
    assert_eq!(text, "2023-11-14T22:13:20.250+00:00");
    assert_eq!(parse_timestamp(&text), Some(now()));
    assert_eq!(parse_timestamp(" 2023-11-15T00:13:20+02:00 "), Some(Timestamp { secs: 1_700_000_000, nanos: 0 }));
    assert_eq!(parse_timestamp(""), None);
    assert_eq!(parse_timestamp("tomorrow"), None);
    assert_eq!(
        parse_timestamp("2016-12-31T23:59:60Z"),
        Some(Timestamp { secs: 1_483_228_799, nanos: 1_000_000_000 })
    );
}

#[test]
fn columns_are_added_once() {
    let columns = vec!["agent_id".to_string(), "kind".to_string()];
    assert_eq!(ensure_column(&columns, "agents", "kind", "TEXT"), None);
    assert_eq!(
        ensure_column(&columns, "agents", "upload_bytes", "INTEGER NOT NULL DEFAULT 0").as_deref(),
        Some("ALTER TABLE agents ADD COLUMN upload_bytes INTEGER NOT NULL DEFAULT 0")
    );
}

#[test]
fn a_change_reaches_agents() {
    let mut store = fresh_store();
    store.agents.push(agent("server-1", "server"));
    store.servers.push(server_node("server-1", "vpn"));
    let ipv6 = TextMap::default();
    let request = heartbeat("server-1", AgentKind::Server, Some(1));
    assert!(!api_heartbeat(&mut store, now(), &request, &ipv6).expect("answer").config_changed);
    let form = ServerForm {
        listen_addr: "0.0.0.0:9000".to_string(),
        public_endpoint: "vpn:9000".to_string(),
        nat_iface: String::new(),
        max_clients: 4,
        enabled: None,
    };
    assert_eq!(update_server(&mut store, "server-1", &form), Ok(()));
    let answer = api_heartbeat(&mut store, now(), &request, &ipv6).expect("answer");
    let config = answer.server_config.expect("config");
    assert_eq!(config.version, 2);
    assert!(!config.enabled);
    assert_eq!(config.max_clients, 4);
}
