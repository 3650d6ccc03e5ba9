use ntz_proto::agent_loop::{
    client_step, poll_interval, public_address_is_due, record_heartbeat_failure, record_step,
    server_step, step_message, ConfigStep, FIRST_POLL_INTERVAL,
};
use ntz_proto::agent_state::state_path;
use ntz_proto::client_network::{
    apply_linux_network_settings, apply_windows_network_settings, sets_domain,
    windows_default_gateway, windows_server_ip,
};
use ntz_proto::clock::Timestamp;
use ntz_proto::commands::{
    after_command, after_probe, command_failure, plain_command_failure, runs_after_probe,
    AfterProbe, CommandStep, ProgramRun, StepOutcome,
};
use ntz_proto::decimal::{
    decimal_i64, decimal_u64, parse_i64, parse_u16, parse_u64, parse_u8, IntError,
};
use ntz_proto::dns::{forward_doh_query, query_upstream};
use ntz_proto::ipv4::{ipv4_to_text, parse_ipv4};
use ntz_proto::management_client::{
    after_enrollment, after_keeping, enrolled_state, extract_management_error, heartbeat_request,
    load_or_enroll, management_error, refusal_message, status_request, AgentBootstrap, IdentityStep, ManagerHttpClient,
};
use ntz_proto::models::{
    AgentKind, AgentStatusReport, ClientConfig, DnsProfile, EnrollmentResponse, FirewallPolicy,
    ManagedClientRecord, PersistedAgentState, RouteMode, ServerConfig,
};
use ntz_proto::policy::reconcile_server_policy;
use ntz_proto::sessions::{PeerAddr, SessionMaps};
use ntz_proto::sorting::{sorted_positions, text_is_before};
use ntz_proto::status::{
    add_traffic, build_status_snapshot, record_failure, set_connected_clients, set_status_message,
    traffic_sample, RuntimeFailure, StatusLine,
};
use ntz_proto::text::{
    before_last, contains, eq_ignore_ascii_case, join, split, split_once, strip_prefix, text_eq,
    trim, trim_class, trim_end_class, words, CharClass,
};
use ntz_proto::tun::{annotate_tun_error, TunParams};

fn server_config() -> ServerConfig {
    ServerConfig {
        version: 3,
        server_id: "server-1".to_string(),
        enabled: true,
        node_name: "vpn-1".to_string(),
        listen_addr: "0.0.0.0:9000".to_string(),
        public_endpoint: "192.0.2.1:9000".to_string(),
        tun_name: "ntz0".to_string(),
        tun_address: "10.44.0.1".to_string(),
        tun_prefix: 24,
        mtu: Some(1400),
        client_cidr: "10.44.0.0/24".to_string(),
        max_clients: 2,
        nat_iface: Some("eth0".to_string()),
        setup_nat: true,
        firewall: FirewallPolicy {
            blocked_destinations: vec!["10.0.0.0/8".to_string()],
            protected_destinations: vec!["192.168.0.0/16".to_string()],
        },
        dns: DnsProfile {
            bind_addr: "10.44.0.1:53".to_string(),
            doh_url: "https://1.1.1.1/dns-query".to_string(),
        },
        egress_ips: vec![],
        allowed_clients: vec![],
        poll_interval_seconds: 15,
    }
}

fn client_config() -> ClientConfig {
    ClientConfig {
        version: 3,
        client_id: "c".to_string(),
        enabled: true,
        device_name: "laptop".to_string(),
        server_id: "server-1".to_string(),
        server_endpoint: "192.0.2.1:9000".to_string(),
        tunnel_token: "t".to_string(),
        tun_name: "ntz0".to_string(),
        tun_address: "10.44.0.10".to_string(),
        tun_prefix: 24,
        mtu: None,
        dns_server: "10.44.0.1".to_string(),
        route_mode: RouteMode::FullTunnel,
        egress_ip: None,
        poll_interval_seconds: 15,
    }
}

fn shown(step: &CommandStep) -> String {
    let probe = match &step.probe {
        Some(args) => format!("[{}] ", args.join(" ")),
        None => String::new(),
    };
    let mark = if step.required { "" } else { "?" };
    format!("{probe}{}{mark} {}", step.program, step.args.join(" "))
}

#[test]
fn policy_of_a_server() {
    let mut config = server_config();
    config.allowed_clients = vec![
        ManagedClientRecord {
            client_id: "a".to_string(),
            device_name: "a".to_string(),
            enabled: true,
            assigned_ip: "10.44.0.10".to_string(),
            tunnel_token: "t".to_string(),
            egress_ip: Some("198.51.100.7".to_string()),
        },
        ManagedClientRecord {
            client_id: "b".to_string(),
            device_name: "b".to_string(),
            enabled: false,
            assigned_ip: "10.44.0.11".to_string(),
            tunnel_token: "t".to_string(),
            egress_ip: Some("198.51.100.8".to_string()),
        },
        ManagedClientRecord {
            client_id: "c".to_string(),
            device_name: "c".to_string(),
            enabled: true,
            assigned_ip: "10.44.0.12".to_string(),
            tunnel_token: "t".to_string(),
            egress_ip: None,
        },
    ];
    let steps: Vec<String> =
        reconcile_server_policy(&config).expect("plan").iter().map(shown).collect();
    assert_eq!(
        steps,
        vec![
            "ip link set dev ntz0 up",
            "ip route replace 10.44.0.0/24 dev ntz0",
            "sysctl -w net.ipv4.ip_forward=1",
            "[-t filter -L NTZ-FWD] iptables -t filter -N NTZ-FWD",
            "[-t filter -C FORWARD -j NTZ-FWD] iptables -t filter -A FORWARD -j NTZ-FWD",
            "iptables -t filter -F NTZ-FWD",
            "iptables -t filter -A NTZ-FWD -d 192.168.0.0/16 -j DROP",
            "iptables -t filter -A NTZ-FWD -d 10.0.0.0/8 -j DROP",
            "iptables -t filter -A NTZ-FWD -i ntz0 -o eth0 -j ACCEPT",
            "[-C FORWARD -i eth0 -o ntz0 -m conntrack --ctstate RELATED,ESTABLISHED -j ACCEPT] iptables -A FORWARD -i eth0 -o ntz0 -m conntrack --ctstate RELATED,ESTABLISHED -j ACCEPT",
            "[-t nat -L NTZ-SNAT] iptables -t nat -N NTZ-SNAT",
            "[-t nat -C POSTROUTING -j NTZ-SNAT] iptables -t nat -A POSTROUTING -j NTZ-SNAT",
            "iptables -t nat -F NTZ-SNAT",
            "iptables -t nat -A NTZ-SNAT -s 10.44.0.10/32 -o eth0 -j SNAT --to-source 198.51.100.7",
            "iptables -t nat -A NTZ-SNAT -s 10.44.0.0/24 -o eth0 -j MASQUERADE",
        ]
    );
    config.egress_ips = vec!["198.51.100.1".to_string(), "198.51.100.2".to_string()];
    let steps: Vec<String> =
        reconcile_server_policy(&config).expect("plan").iter().map(shown).collect();
    assert_eq!(
        steps.last().map(|s| s.as_str()),
        Some("iptables -t nat -A NTZ-SNAT -s 10.44.0.0/24 -o eth0 -j SNAT --to-source 198.51.100.1")
    );
    config.nat_iface = None;
    assert_eq!(
        reconcile_server_policy(&config).err(),
        Some("NAT interface is required when setup_nat is enabled")
    );
    config.setup_nat = false;
    assert_eq!(reconcile_server_policy(&config).expect("plan").len(), 0);
}

#[test]
fn network_of_a_linux_client() {
    let plan = apply_linux_network_settings(
        &client_config(),
        "192.0.2.1",
        "default via 192.168.1.1 dev wlan0 proto dhcp metric 600\n",
    )
    .expect("plan");
    let routes: Vec<String> = plan.routes.iter().map(shown).collect();
    assert_eq!(
        routes,
        vec![
            "ip route replace 192.0.2.1/32 via 192.168.1.1 dev wlan0",
            "ip route replace default dev ntz0",
        ]
    );
    assert_eq!(shown(&plan.dns), "resolvectl? dns ntz0 10.44.0.1");
    assert_eq!(shown(&plan.domain), "resolvectl? domain ntz0 ~.");
    let error = |route: &str| {
        apply_linux_network_settings(&client_config(), "192.0.2.1", route).err()
    };
    assert_eq!(error("default dev wlan0"), Some("unable to determine default gateway"));
    assert_eq!(error("default via"), Some("unable to determine default gateway"));
    assert_eq!(error("default via 192.168.1.1"), Some("unable to determine default interface"));
}

#[test]
fn network_of_a_windows_client() {
    let steps: Vec<String> =
        apply_windows_network_settings(&client_config(), "192.0.2.1", "192.168.1.1")
            .iter()
            .map(shown)
            .collect();
    assert_eq!(
        steps,
        vec![
            "route? delete 192.0.2.1",
            "route add 192.0.2.1 mask 255.255.255.255 192.168.1.1 metric 5",
            "route? delete 0.0.0.0 mask 0.0.0.0 10.44.0.1",
            "route add 0.0.0.0 mask 0.0.0.0 10.44.0.1 metric 5",
            "netsh interface ipv4 set dnsservers name=ntz0 static 10.44.0.1 primary",
        ]
    );
    let v4 = PeerAddr::V4 { ip: 0xc0000201, port: 9000 };
    assert_eq!(windows_server_ip(v4), Ok("192.0.2.1".to_string()));
    let v6 = PeerAddr::V6 { ip: 1, port: 9000, flowinfo: 0, scope_id: 0 };
    assert_eq!(
        windows_server_ip(v6),
        Err("Windows auto-route setup currently expects an IPv4 server endpoint")
    );
    assert_eq!(windows_default_gateway(true, " 192.168.1.1\r\n", ""), Ok("192.168.1.1".to_string()));
    assert_eq!(windows_default_gateway(false, "x", " denied "), Err("denied".to_string()));
    assert_eq!(
        windows_default_gateway(true, " \n", ""),
        Err("unable to find an IPv4 default gateway for Windows route setup".to_string())
    );
}

#[test]
fn failures_of_commands() {
    let args = vec!["-a".to_string(), "b".to_string()];
    assert_eq!(plain_command_failure("ip", &args), "command failed: ip -a b");
    assert_eq!(command_failure("ip", &args, " oops ", "out"), "command failed: ip -a b (oops)");
    assert_eq!(command_failure("ip", &args, " ", " out\n"), "command failed: ip -a b (out)");
    assert_eq!(
        command_failure("ip", &vec![], "", ""),
        "command failed: ip  (no additional error output)"
    );
}

#[test]
fn status_messages() {
    let mut status = AgentStatusReport::default();
    let line = set_status_message(&mut status, AgentKind::Server, Some(3), None, "hello", true);
    match line {
        Some(StatusLine::Info(text)) => assert_eq!(text, "[server] hello"),
        other => panic!("{other:?}"),
    }
    assert_eq!(status.applied_version, Some(3));
    assert_eq!(status.last_message.as_deref(), Some("hello"));
    assert!(set_status_message(&mut status, AgentKind::Server, None, None, "hello", true).is_none());
    let line = set_status_message(
        &mut status,
        AgentKind::Client,
        None,
        Some("why".to_string()),
        "hello",
        true,
    );
    match line {
        Some(StatusLine::Error(text)) => assert_eq!(text, "[client] hello: why"),
        other => panic!("{other:?}"),
    }
    assert_eq!(status.applied_version, Some(3));
    assert!(
        set_status_message(&mut status, AgentKind::Client, Some(4), None, "bye", false).is_none()
    );
    assert_eq!(status.last_error, None);
}

#[test]
fn traffic_is_counted() {
    let mut status = AgentStatusReport::default();
    add_traffic(&mut status, 10, 0);
    add_traffic(&mut status, u64::MAX, 5);
    assert_eq!(status.upload_bytes, Some(u64::MAX));
    assert_eq!(status.download_bytes, Some(5));
    let mut status = AgentStatusReport::default();
    add_traffic(&mut status, 100, 50);
    let sample = traffic_sample(&status, 40, 60);
    assert_eq!((sample.upload_bps, sample.download_bps), (60, 0));
    assert_eq!(
        sample.line().as_deref(),
        Some("[client] traffic upload_bytes=100 download_bytes=50 upload_bps=60 download_bps=0")
    );
    assert_eq!(traffic_sample(&status, 100, 50).line(), None);
}

#[test]
fn snapshots_count_sessions() {
    let mut maps = SessionMaps::default();
    let addr = PeerAddr::V4 { ip: 1, port: 1 };
    assert_eq!(maps.register_session(addr, "a", "10.44.0.10", [0u8; 32]), Ok(()));
    let mut status = AgentStatusReport::default();
    assert_eq!(build_status_snapshot(&status, &maps).connected_clients, Some(1));
    assert_eq!(status.connected_clients, None);
    set_connected_clients(&mut status, &maps);
    assert_eq!(status.connected_clients, Some(1));
}

#[test]
fn steps_of_agents() {
    assert_eq!(FIRST_POLL_INTERVAL, 15);
    assert_eq!((poll_interval(0), poll_interval(5), poll_interval(60)), (5, 5, 60));
    let mut config = server_config();
    assert_eq!(server_step(&None, &None), ConfigStep::Nothing);
    assert_eq!(server_step(&None, &Some(config.clone())), ConfigStep::Start);
    config.enabled = false;
    assert_eq!(server_step(&None, &Some(config.clone())), ConfigStep::StayIdle);
    let running = Some(server_config());
    assert_eq!(server_step(&running, &Some(config.clone())), ConfigStep::LiveUpdate);
    config.tun_name = "other".to_string();
    assert_eq!(server_step(&running, &Some(config)), ConfigStep::NeedsRestart);
    assert_eq!(server_step(&running, &None), ConfigStep::Nothing);

    let mut config = client_config();
    assert_eq!(client_step(&None, &Some(config.clone())), ConfigStep::Start);
    config.dns_server = "x".to_string();
    let running = Some(client_config());
    assert_eq!(client_step(&running, &Some(config)), ConfigStep::NeedsRestart);
    assert_eq!(client_step(&running, &running.clone()), ConfigStep::LiveUpdate);
    assert_eq!(
        step_message(AgentKind::Client, ConfigStep::StayIdle),
        "client enrolled but waiting for manager assignment"
    );
    assert_eq!(
        step_message(AgentKind::Server, ConfigStep::LiveUpdate),
        "live policy update applied"
    );

    let mut status = AgentStatusReport::default();
    let line = record_step(&mut status, AgentKind::Server, ConfigStep::Start, 8, true);
    assert!(matches!(line, Some(StatusLine::Info(_))));
    assert_eq!(status.applied_version, Some(8));
    assert_eq!(status.last_message.as_deref(), Some("managed VPN server runtime started"));
    assert!(record_step(&mut status, AgentKind::Server, ConfigStep::Nothing, 9, true).is_none());
    assert_eq!(status.applied_version, Some(8));
    record_heartbeat_failure(&mut status, AgentKind::Server, "down".to_string(), false);
    assert_eq!(status.last_error.as_deref(), Some("down"));
    assert_eq!(status.last_message.as_deref(), Some("management heartbeat failed"));
}

fn bootstrap() -> AgentBootstrap {
    AgentBootstrap {
        kind: AgentKind::Client,
        management_url: "http://manager:8080//".to_string(),
        enrollment_token: "tok".to_string(),
        node_name: "laptop".to_string(),
        state_dir: "./state/client".to_string(),
    }
}

#[test]
fn addresses_of_the_manager() {
    let client = ManagerHttpClient::new(&bootstrap().management_url);
    assert_eq!(client.enroll_url(), "http://manager:8080/api/agent/enroll");
    assert_eq!(client.heartbeat_url(), "http://manager:8080/api/agent/heartbeat");
    assert_eq!(client.status_url(), "http://manager:8080/api/agent/status");
    assert_eq!(client.url("/x"), "http://manager:8080/x");
}

#[test]
fn errors_of_the_manager() {
    assert_eq!(
        extract_management_error(r#"{"ok":false,"error":" token kind mismatch "}"#).as_deref(),
        Some("token kind mismatch")
    );
    assert_eq!(
        extract_management_error("<h1>Bad\n  gateway</h1>").as_deref(),
        Some("<h1>Bad gateway</h1>")
    );
    assert_eq!(extract_management_error(r#"{"error":7}"#).as_deref(), Some(r#"{"error":7}"#));
    assert_eq!(extract_management_error(" \n "), None);
    assert_eq!(management_error(Some(" e ".to_string()), "b").as_deref(), Some("e"));
    assert_eq!(
        refusal_message(&Some(r#"{"error":"no"}"#.to_string()), "401 Unauthorized"),
        "management server returned no"
    );
    assert_eq!(
        refusal_message(&Some("".to_string()), "502 Bad Gateway"),
        "management server returned 502 Bad Gateway"
    );
    assert_eq!(refusal_message(&None, "500"), "management server returned 500");
}

/// Runs a step on a chain that holds one rule or more, or none.
fn run_on(step: &CommandStep, chain: &mut Vec<String>, probe_starts: bool) -> StepOutcome {
    let rule = step.args[2..].join(" ");
    let probe = if !probe_starts {
        ProgramRun::NotStarted
    } else if chain.contains(&rule) {
        ProgramRun::Succeeded
    } else {
        ProgramRun::Failed
    };
    match after_probe(step, probe) {
        AfterProbe::RunCommand => {
            chain.push(rule);
            after_command(step, ProgramRun::Succeeded)
        }
        AfterProbe::End(outcome) => outcome,
    }
}

#[test]
fn answers_are_let_in_by_one_rule() {
    let mut config = server_config();
    config.setup_nat = true;
    config.nat_iface = Some("eth0".to_string());
    let steps = reconcile_server_policy(&config).expect("steps");
    let step = steps
        .iter()
        .find(|step| step.args.contains(&"conntrack".to_string()))
        .expect("established rule");
    let mut chain: Vec<String> = vec![];
    assert_eq!(run_on(step, &mut chain, false), StepOutcome::StartFailed);
    assert_eq!(chain.len(), 0);
    assert_eq!(run_on(step, &mut chain, true), StepOutcome::Done);
    assert_eq!(run_on(step, &mut chain, true), StepOutcome::Done);
    assert_eq!(
        chain,
        vec!["-i eth0 -o ntz0 -m conntrack --ctstate RELATED,ESTABLISHED -j ACCEPT".to_string()]
    );
}

#[test]
fn outcomes_of_steps() {
    let step = |probe: Option<Vec<String>>, required: bool| CommandStep {
        probe,
        program: "p".to_string(),
        args: vec![],
        required,
    };
    let plain = step(None, true);
    let probed = step(Some(vec![]), true);
    let optional = step(None, false);
    assert!(runs_after_probe(&plain, true));
    assert!(runs_after_probe(&plain, false));
    assert!(!runs_after_probe(&probed, true));
    assert!(runs_after_probe(&probed, false));
    assert_eq!(after_probe(&plain, ProgramRun::NotStarted), AfterProbe::RunCommand);
    assert_eq!(after_probe(&probed, ProgramRun::Failed), AfterProbe::RunCommand);
    assert_eq!(
        after_probe(&probed, ProgramRun::Succeeded),
        AfterProbe::End(StepOutcome::Done)
    );
    assert_eq!(
        after_probe(&probed, ProgramRun::NotStarted),
        AfterProbe::End(StepOutcome::StartFailed)
    );
    assert_eq!(after_command(&plain, ProgramRun::Succeeded), StepOutcome::Done);
    assert_eq!(after_command(&plain, ProgramRun::Failed), StepOutcome::CommandFailed);
    assert_eq!(after_command(&plain, ProgramRun::NotStarted), StepOutcome::StartFailed);
    assert_eq!(after_command(&optional, ProgramRun::Failed), StepOutcome::Done);
    assert_eq!(after_command(&optional, ProgramRun::NotStarted), StepOutcome::Done);
    assert!(sets_domain(ProgramRun::Succeeded));
    assert!(!sets_domain(ProgramRun::Failed));
    assert!(!sets_domain(ProgramRun::NotStarted));
}

#[test]
fn public_addresses_are_looked_up_every_five_minutes() {
    assert!(public_address_is_due(None));
    assert!(!public_address_is_due(Some(299)));
    assert!(public_address_is_due(Some(300)));
}

#[test]
fn enrolled_identities_are_used_from_then_on() {
    let response = EnrollmentResponse {
        agent_id: "id".to_string(),
        agent_secret: "SECRET".to_lowercase(),
        poll_interval_seconds: 15,
        config_version: 1,
    };
    let now = Timestamp { secs: 0, nanos: 0 };
    let state = after_enrollment::<String>(&bootstrap(), Ok(response), now).expect("state");
    let written = state.clone();
    let state = after_keeping::<String>(state, Ok(())).expect("kept");
    assert_eq!(state.agent_secret, "secret");
    match load_or_enroll::<String>(&bootstrap(), Ok(Some(written))) {
        IdentityStep::Use(found) => {
            assert_eq!(found.agent_id, state.agent_id);
            assert_eq!(found.agent_secret, state.agent_secret);
            assert_eq!(found.enrolled_at, state.enrolled_at);
        }
        other => panic!("{other:?}"),
    }
    assert_eq!(after_enrollment(&bootstrap(), Err("refused"), now).err(), Some("refused"));
    assert_eq!(after_keeping(state, Err("disk full")).err(), Some("disk full"));
    let client = ManagerHttpClient::new("http://m/");
    assert_eq!(client.clone().enroll_url(), client.enroll_url());
}

#[test]
fn identities_are_kept_or_asked_for() {
    let response = EnrollmentResponse {
        agent_id: "id".to_string(),
        agent_secret: "SECRET".to_lowercase(),
        poll_interval_seconds: 15,
        config_version: 1,
    };
    let state = enrolled_state(&bootstrap(), &response, Timestamp { secs: 0, nanos: 0 });
    assert_eq!(state.agent_id, "id");
    assert_eq!(state.kind, AgentKind::Client);
    assert_eq!(state.enrolled_at, "1970-01-01T00:00:00+00:00");
    match load_or_enroll::<String>(&bootstrap(), Ok(None)) {
        IdentityStep::Enroll(request) => {
            assert_eq!(request.enrollment_token, "tok");
            assert_eq!(request.node_name, "laptop");
            assert_eq!(request.kind, AgentKind::Client);
        }
        other => panic!("{other:?}"),
    }
    let kept: PersistedAgentState = state.clone();
    match load_or_enroll::<String>(&bootstrap(), Ok(Some(kept))) {
        IdentityStep::Use(found) => assert_eq!(found.agent_id, "id"),
        other => panic!("{other:?}"),
    }
    match load_or_enroll(&bootstrap(), Err("unreadable")) {
        IdentityStep::Fail(error) => assert_eq!(error, "unreadable"),
        other => panic!("{other:?}"),
    }
    let mut status = AgentStatusReport::default();
    status.applied_version = Some(6);
    let request = heartbeat_request(&state, AgentKind::Client, status.clone());
    assert_eq!(request.current_version, Some(6));
    assert_eq!(request.agent_secret, "secret");
    assert_eq!(status_request(&state, AgentKind::Client, status).agent_id, "id");
}

#[test]
fn where_identities_are_kept() {
    assert_eq!(state_path("./state/client"), "./state/client/agent_state.json");
    assert_eq!(state_path("/var/lib/ntz/"), "/var/lib/ntz/agent_state.json");
    assert_eq!(state_path(""), "agent_state.json");
}

#[test]
fn dns_queries_go_upstream() {
    let mut config = server_config();
    assert_eq!(query_upstream(&config).as_deref(), Some("https://1.1.1.1/dns-query"));
    config.enabled = false;
    assert_eq!(query_upstream(&config), None);
    assert_eq!(forward_doh_query(true, "200 OK", vec![1, 2]), Ok(vec![1, 2]));
    assert_eq!(
        forward_doh_query(false, "503 Service Unavailable", vec![]),
        Err("DoH upstream returned 503 Service Unavailable".to_string())
    );
}

#[test]
fn tunnel_devices() {
    let params = TunParams::of_server(&server_config());
    assert_eq!((params.name.as_str(), params.prefix_v4, params.mtu), ("ntz0", 24, Some(1400)));
    assert_eq!(TunParams::of_client(&client_config()).address_v4, "10.44.0.10");
    assert_eq!(annotate_tun_error("denied", true, &None), "denied");
    assert_eq!(annotate_tun_error("LoadLibrary failed", false, &None), "LoadLibrary failed");
    assert!(annotate_tun_error("LoadLibrary failed", true, &None)
        .starts_with("LoadLibrary failed. No wintun.dll was found in the project directory"));
    assert!(annotate_tun_error("x GetProcAddress failed y", true, &Some("C:\\wintun.dll".to_string()))
        .starts_with("x GetProcAddress failed y. A wintun.dll was found at 'C:\\wintun.dll', but"));
}

#[test]
fn addresses_in_dotted_notation() {
    assert_eq!(parse_ipv4("10.44.0.1"), Some(0x0a2c0001));
    assert_eq!(parse_ipv4("255.255.255.255"), Some(u32::MAX));
    assert_eq!(parse_ipv4("0.0.0.0"), Some(0));
    for text in ["", "1.2.3", "1.2.3.4.5", "01.2.3.4", "256.1.1.1", "1.2.3.+4", " 1.2.3.4", "a.b.c.d"] {
        assert_eq!(parse_ipv4(text), None);
    }
    assert_eq!(ipv4_to_text(0xc0a80164), "192.168.1.100");
}

#[test]
fn numbers_in_decimal_notation() {
    assert_eq!(decimal_u64(0), "0");
    assert_eq!(decimal_u64(u64::MAX), "18446744073709551615");
    assert_eq!(decimal_i64(i64::MIN), "-9223372036854775808");
    assert_eq!(decimal_i64(42), "42");
    assert_eq!(parse_u64("18446744073709551615"), Ok(u64::MAX));
    assert_eq!(parse_u64("18446744073709551616"), Err(IntError::PosOverflow));
    assert_eq!(parse_u64("+7"), Ok(7));
    assert_eq!(parse_u64("-7"), Err(IntError::InvalidDigit));
    assert_eq!(parse_u64(""), Err(IntError::Empty));
    assert_eq!(parse_u64("+"), Err(IntError::InvalidDigit));
    assert_eq!(parse_i64("-9223372036854775808"), Ok(i64::MIN));
    assert_eq!(parse_i64("-9223372036854775809"), Err(IntError::NegOverflow));
    assert_eq!(parse_u8("300x"), Err(IntError::PosOverflow));
    assert_eq!(parse_u8("30x"), Err(IntError::InvalidDigit));
    assert_eq!(parse_u16("65535"), Ok(65535));
    for text in ["", "+", "-", "1a", "99999999999999999999", "-99999999999999999999", "007"] {
        match (parse_i64(text), text.parse::<i64>()) {
            (Ok(a), Ok(b)) => assert_eq!(a, b),
            (Err(a), Err(b)) => assert_eq!(a.message(), b.to_string()),
            _ => panic!("{text}"),
        }
    }
}

#[test]
fn texts_are_taken_apart() {
    assert!(text_eq("é", "é"));
    assert!(!text_eq("a", "b"));
    assert_eq!(trim("\u{3000} a b \n"), "a b");
    assert_eq!(trim_class("//a/b/", CharClass::Slash), "a/b");
    assert_eq!(trim_end_class("//a//", CharClass::Slash), "//a");
    assert_eq!(split("a;;b", CharClass::Semicolon), vec!["a", "", "b"]);
    assert_eq!(split("", CharClass::Dot), vec![""]);
    assert_eq!(words("  a \t b\n"), vec!["a", "b"]);
    assert_eq!(join(&vec!["a".to_string(), "b".to_string()], ", "), "a, b");
    assert_eq!(join(&vec![], ", "), "");
    assert_eq!(split_once("a/b/c", '/'), Some(("a".to_string(), "b/c".to_string())));
    assert_eq!(split_once("abc", '/'), None);
    assert_eq!(before_last("a:b:c", ':').as_deref(), Some("a:b"));
    assert_eq!(before_last("abc", ':'), None);
    assert_eq!(strip_prefix("http://x", "http://").as_deref(), Some("x"));
    assert_eq!(strip_prefix("htt", "http://"), None);
    assert!(contains("abc", "bc"));
    assert!(contains("abc", ""));
    assert!(!contains("abc", "cb"));
    assert!(eq_ignore_ascii_case("SeRver", "server"));
    assert!(!eq_ignore_ascii_case("É", "é"));
    for n in 0..0x3100u32 {
        if let Some(c) = char::from_u32(n) {
            let text = c.to_string();
            assert_eq!(trim(&text).is_empty(), c.is_whitespace());
        }
    }
}

#[test]
fn texts_are_ordered_by_bytes() {
    for (a, b) in [("a", "b"), ("a", "aa"), ("", "a"), ("Z", "a"), ("z", "é"), ("ab", "ab")] {
        assert_eq!(text_is_before(a, b), a < b);
        assert_eq!(text_is_before(b, a), b < a);
    }
    let keys: Vec<String> = ["b", "a", "c", "a"].iter().map(|s| s.to_string()).collect();
    assert_eq!(sorted_positions(&keys, false), vec![1, 3, 0, 2]);
    assert_eq!(sorted_positions(&keys, true), vec![2, 0, 1, 3]);
    assert_eq!(sorted_positions(&vec![], false), Vec::<usize>::new());
}

#[test]
fn failures_are_recorded() {
    let mut status = AgentStatusReport::default();
    status.applied_version = Some(2);
    let line = record_failure(&mut status, RuntimeFailure::DnsUpstream, "down".to_string(), true);
    match line {
        Some(StatusLine::Error(text)) => assert_eq!(text, "[server] DoH resolution failed: down"),
        other => panic!("{other:?}"),
    }
    assert_eq!(status.applied_version, Some(2));
    assert_eq!(status.last_error.as_deref(), Some("down"));
    let line = record_failure(&mut status, RuntimeFailure::NetworkSetup, "x".to_string(), true);
    match line {
        Some(StatusLine::Error(text)) => {
            assert_eq!(text, "[client] network route/DNS setup failed: x")
        }
        other => panic!("{other:?}"),
    }
    assert!(record_failure(&mut status, RuntimeFailure::NetworkSetup, "x".to_string(), true).is_none());
}
