use ntz_proto::client::{
    answer_server_hello, complete_handshake, handle_inbound, handle_outbound,
    handshake_timeout_message, record_public_info, refresh_public_network_info, InboundAction,
};
use ntz_proto::crypto_logic::{HybridHandshake, ReplayGuard};
use ntz_proto::models::{
    AgentStatusReport, ClientConfig, DnsProfile, FirewallPolicy, ManagedClientRecord, RouteMode,
    ServerConfig,
};
use ntz_proto::server::{
    allowed_client, apply_live_update, handle_datagram, outbound_packet, packet_destination,
    packet_source, packet_source_matches, structural_change, DatagramAction, ServerKeys,
};
use ntz_proto::sessions::{PeerAddr, SessionMaps};
use ntz_proto::tunnel_protocol::{
    compute_auth_tag, decode_client_auth, decode_client_hello, decode_server_hello,
    encode_client_auth, encode_client_hello, encode_server_hello,
};

fn peer(port: u16) -> PeerAddr {
    PeerAddr::V4 { ip: 0xcb007101, port }
}

fn record(id: &str, ip: &str) -> ManagedClientRecord {
    ManagedClientRecord {
        client_id: id.to_string(),
        device_name: format!("{id}-device"),
        enabled: true,
        assigned_ip: ip.to_string(),
        tunnel_token: format!("{id}-token"),
        egress_ip: None,
    }
}

fn server_config(clients: Vec<ManagedClientRecord>) -> ServerConfig {
    ServerConfig {
        version: 3,
        server_id: "server-1".to_string(),
        enabled: true,
        node_name: "vpn-1".to_string(),
        listen_addr: "0.0.0.0:9000".to_string(),
        public_endpoint: "192.0.2.1:9000".to_string(),
        tun_name: "ntz0".to_string(),
        tun_address: "10.44.0.1".to_string(),
        tun_prefix: 24,
        mtu: Some(1400),
        client_cidr: "10.44.0.0/24".to_string(),
        max_clients: 2,
        nat_iface: Some("eth0".to_string()),
        setup_nat: true,
        firewall: FirewallPolicy::default(),
        dns: DnsProfile {
            bind_addr: "10.44.0.1:53".to_string(),
            doh_url: "https://1.1.1.1/dns-query".to_string(),
        },
        egress_ips: vec![],
        allowed_clients: clients,
        poll_interval_seconds: 15,
    }
}

fn client_config(id: &str, ip: &str) -> ClientConfig {
    ClientConfig {
        version: 3,
        client_id: id.to_string(),
        enabled: true,
        device_name: format!("{id}-device"),
        server_id: "server-1".to_string(),
        server_endpoint: "192.0.2.1:9000".to_string(),
        tunnel_token: format!("{id}-token"),
        tun_name: "ntz0".to_string(),
        tun_address: ip.to_string(),
        tun_prefix: 24,
        mtu: Some(1400),
        dns_server: "10.44.0.1".to_string(),
        route_mode: RouteMode::FullTunnel,
        egress_ip: None,
        poll_interval_seconds: 15,
    }
}

fn packet(source: [u8; 4], destination: [u8; 4]) -> Vec<u8> {
    let mut p = vec![0u8; 24];
    p[0] = 0x45;
    p[12..16].copy_from_slice(&source);
    p[16..20].copy_from_slice(&destination);
    p[20] = 99;
    p
}

struct Net {
    sessions: SessionMaps,
    status: AgentStatusReport,
    config: ServerConfig,
    keys: ServerKeys,
}

impl Net {
    fn new(clients: Vec<ManagedClientRecord>) -> Net {
        Net {
            sessions: SessionMaps::default(),
            status: AgentStatusReport::default(),
            config: server_config(clients),
            keys: ServerKeys::generate(),
        }
    }

    fn send(&mut self, from: PeerAddr, data: &[u8]) -> DatagramAction {
        handle_datagram(&mut self.sessions, &mut self.status, &self.config, &self.keys, from, data)
    }

    fn connect(&mut self, from: PeerAddr, config: &ClientConfig) -> [u8; 32] {
        let hello = match self.send(from, &encode_client_hello(&config.client_id)) {
            DatagramAction::HelloReply(reply) => reply,
            other => panic!("no reply: {other:?}"),
        };
        let reply = match answer_server_hello(config, &hello) {
            Ok(reply) => reply,
            Err(message) => panic!("{message}"),
        };
        assert!(matches!(self.send(from, &reply.auth), DatagramAction::AuthAccepted(_)));
        reply.session_key
    }
}

#[test]
fn round_trips_client_hello() {
    let packet = encode_client_hello("client-a");
    assert_eq!(decode_client_hello(&packet).as_deref(), Some("client-a"));
}

#[test]
fn round_trips_server_hello() {
    let xpub = [7u8; 32];
    let pq = vec![9u8; 1184];
    let packet = encode_server_hello(&xpub, &pq);
    let decoded = decode_server_hello(&packet).expect("server hello should decode");
    assert_eq!(decoded.0, xpub);
    assert_eq!(decoded.1, pq);
}

#[test]
fn round_trips_client_auth_and_stable_tag() {
    let xpub = [3u8; 32];
    let pq = vec![4u8; 1088];
    let packet = encode_client_auth("client-b", &xpub, &pq, "secret-token");
    let decoded = decode_client_auth(&packet).expect("auth packet should decode");
    assert_eq!(decoded.0, "client-b");
    assert_eq!(decoded.1, xpub);
    assert_eq!(decoded.2, pq);
    assert_eq!(
        decoded.3,
        compute_auth_tag("secret-token", &xpub, &decoded.2)
    );
}

#[test]
fn client_hello_bytes() {
    assert_eq!(encode_client_hello("ab"), b"NTZHELLO\x00\x02ab".to_vec());
    assert_eq!(encode_client_hello("").len(), 10);
    assert_eq!(decode_client_hello(b"NTZHELLO\x00\x02abtrailing").as_deref(), Some("ab"));
}

#[test]
fn malformed_hellos_do_not_decode() {
    assert_eq!(decode_client_hello(b"NTZHELLO\x00"), None);
    assert_eq!(decode_client_hello(b"NTZHELLX\x00\x01a"), None);
    assert_eq!(decode_client_hello(b"NTZHELLO\x00\x03ab"), None);
    assert_eq!(decode_client_hello(b"NTZHELLO\x00\x02\xff\xfe"), None);
    assert_eq!(decode_server_hello(&[0u8; 39]), None);
    assert_eq!(decode_server_hello(&[0u8; 64]), None);
}

#[test]
fn malformed_auths_do_not_decode() {
    let good = encode_client_auth("c", &[1u8; 32], &[], "t");
    assert_eq!(good.len(), 75);
    assert!(decode_client_auth(&good).is_some());
    assert!(decode_client_auth(&good[..74]).is_none());
    let mut other = good.clone();
    other[0] = b'X';
    assert!(decode_client_auth(&other).is_none());
    let mut invalid = good.clone();
    invalid[10] = 0xff;
    assert!(decode_client_auth(&invalid).is_none());
    let mut long = good;
    long[9] = 2;
    assert!(decode_client_auth(&long).is_none());
}

#[test]
fn a_length_of_65536_wraps() {
    let id = "a".repeat(65536);
    let packet = encode_client_hello(&id);
    assert_eq!(packet.len(), 10 + 65536);
    assert_eq!((packet[8], packet[9]), (0, 0));
    assert_eq!(decode_client_hello(&packet).as_deref(), Some(""));
}

#[test]
fn the_tag_binds_every_part() {
    let tag = compute_auth_tag("token", &[1u8; 32], &[2u8; 4]);
    assert_ne!(tag, compute_auth_tag("other", &[1u8; 32], &[2u8; 4]));
    assert_ne!(tag, compute_auth_tag("token", &[9u8; 32], &[2u8; 4]));
    assert_ne!(tag, compute_auth_tag("token", &[1u8; 32], &[3u8; 4]));
}

#[test]
fn handshake_gives_both_ends_the_same_key() {
    let mut net = Net::new(vec![record("a", "10.44.0.10")]);
    let config = client_config("a", "10.44.0.10");
    let key = net.connect(peer(1000), &config);
    assert_eq!(net.status.connected_clients, Some(1));
    let session = net.sessions.lookup_session_by_addr(peer(1000)).expect("session");
    assert_eq!(session.session_key, key);
    assert_eq!(session.assigned_ip, 0x0a2c000a);
    let by_ip = net.sessions.lookup_session_by_ip(0x0a2c000a).expect("session by address");
    assert_eq!(by_ip.addr, peer(1000));
}

#[test]
fn packets_travel_both_ways() {
    let mut net = Net::new(vec![record("a", "10.44.0.10")]);
    let config = client_config("a", "10.44.0.10");
    let key = net.connect(peer(1000), &config);

    let mut status = AgentStatusReport::default();
    let up = packet([10, 44, 0, 10], [1, 1, 1, 1]);
    let datagram = handle_outbound(true, &mut status, &key, &up).expect("datagram");
    assert_eq!(status.upload_bytes, Some(24));
    match net.send(peer(1000), &datagram) {
        DatagramAction::Deliver(p) => assert_eq!(p, up),
        other => panic!("not delivered: {other:?}"),
    }
    assert!(matches!(net.send(peer(1000), &datagram), DatagramAction::Replayed));

    let down = packet([1, 1, 1, 1], [10, 44, 0, 10]);
    let (to, datagram) =
        outbound_packet(&net.sessions, &mut net.status, &down).expect("outbound datagram");
    assert_eq!(to, peer(1000));
    let mut guard = ReplayGuard::default();
    match handle_inbound(true, &mut guard, &mut status, &key, &datagram) {
        InboundAction::Deliver(p) => assert_eq!(p, down),
        other => panic!("not delivered: {other:?}"),
    }
    assert_eq!(status.download_bytes, Some(24));
    assert!(matches!(
        handle_inbound(true, &mut guard, &mut status, &key, &datagram),
        InboundAction::Replayed
    ));
    assert!(matches!(
        handle_inbound(true, &mut guard, &mut status, &key, &[1u8; 40]),
        InboundAction::Undecryptable
    ));
    assert!(matches!(
        handle_inbound(false, &mut guard, &mut status, &key, &[2u8; 40]),
        InboundAction::Disabled
    ));
    assert_eq!(handle_outbound(false, &mut status, &key, &up), None);
}

#[test]
fn spoofed_and_forged_packets_are_dropped() {
    let mut net = Net::new(vec![record("a", "10.44.0.10")]);
    let key = net.connect(peer(1000), &client_config("a", "10.44.0.10"));
    let spoofed =
        HybridHandshake::encrypt_data(&key, &packet([10, 44, 0, 11], [1, 1, 1, 1]));
    assert!(matches!(net.send(peer(1000), &spoofed), DatagramAction::WrongSource));
    assert!(matches!(net.send(peer(1000), &[5u8; 60]), DatagramAction::Undecryptable));
    assert!(matches!(net.send(peer(1000), &[5u8; 5]), DatagramAction::Replayed));
    assert!(matches!(net.send(peer(2000), &[6u8; 60]), DatagramAction::NoSession));
}

#[test]
fn packets_for_nobody_are_dropped() {
    let mut net = Net::new(vec![record("a", "10.44.0.10")]);
    net.connect(peer(1000), &client_config("a", "10.44.0.10"));
    let stray = packet([1, 1, 1, 1], [10, 44, 0, 99]);
    assert!(outbound_packet(&net.sessions, &mut net.status, &stray).is_none());
    assert!(outbound_packet(&net.sessions, &mut net.status, &[0x60u8; 40]).is_none());
}

#[test]
fn hellos_of_unserved_clients_are_ignored() {
    let mut disabled = record("b", "10.44.0.11");
    disabled.enabled = false;
    let mut net = Net::new(vec![record("a", "10.44.0.10"), disabled]);
    let action = net.send(peer(1), &encode_client_hello("b"));
    assert_eq!(
        action.line("203.0.113.1:1", 2).as_deref(),
        Some("[server] Ignored hello from 203.0.113.1:1 for disabled client b")
    );
    let action = net.send(peer(1), &encode_client_hello("c"));
    assert_eq!(
        action.line("203.0.113.1:1", 2).as_deref(),
        Some("[server] Ignored hello from 203.0.113.1:1 for unassigned/unknown client c")
    );
    net.config.enabled = false;
    assert!(matches!(
        net.send(peer(1), &encode_client_hello("a")),
        DatagramAction::ServerDisabled
    ));
}

#[test]
fn auths_are_refused_for_each_reason() {
    let mut disabled = record("b", "10.44.0.11");
    disabled.enabled = false;
    let mut net = Net::new(vec![
        record("a", "10.44.0.10"),
        disabled,
        record("bad", "not-an-ip"),
    ]);
    let auth = |id: &str, token: &str, ciphertext: &[u8]| {
        encode_client_auth(id, &[1u8; 32], ciphertext, token)
    };
    let line = |action: DatagramAction| action.line("p", 2);
    assert_eq!(
        line(net.send(peer(1), &auth("b", "b-token", &[0u8; 1088]))).as_deref(),
        Some("[server] Ignored auth from p for disabled client b")
    );
    assert_eq!(
        line(net.send(peer(1), &auth("z", "z-token", &[0u8; 1088]))).as_deref(),
        Some("[server] Ignored auth from p for unassigned/unknown client z")
    );
    assert_eq!(
        line(net.send(peer(1), &auth("a", "wrong", &[0u8; 1088]))).as_deref(),
        Some("[server] Ignored auth from p for client a because the tunnel token did not match")
    );
    assert!(matches!(
        net.send(peer(1), &auth("a", "a-token", &[0u8; 1000])),
        DatagramAction::AuthUndecodable
    ));
    assert!(matches!(
        net.send(peer(1), &auth("bad", "bad-token", &[0u8; 1088])),
        DatagramAction::AuthFailed("invalid IPv4 address syntax")
    ));
    assert_eq!(net.sessions.session_count(), 0);
    assert_eq!(net.status.connected_clients, None);
    assert_eq!(
        line(net.send(peer(1), &auth("a", "a-token", &[0u8; 1088]))).as_deref(),
        Some("Accepted managed client a from p")
    );
    assert_eq!(net.sessions.session_count(), 1);
}

#[test]
fn the_client_limit_holds() {
    let mut net = Net::new(vec![
        record("a", "10.44.0.10"),
        record("b", "10.44.0.11"),
        record("c", "10.44.0.12"),
    ]);
    net.connect(peer(1), &client_config("a", "10.44.0.10"));
    net.connect(peer(2), &client_config("b", "10.44.0.11"));
    let auth = encode_client_auth("c", &[1u8; 32], &[0u8; 1088], "c-token");
    let action = net.send(peer(3), &auth);
    assert_eq!(
        action.line("p", 2).as_deref(),
        Some("[server] Ignored auth from p because client limit 2 is reached")
    );
    net.connect(peer(4), &client_config("a", "10.44.0.10"));
    assert_eq!(net.sessions.session_count(), 2);
    assert!(net.sessions.lookup_session_by_addr(peer(1)).is_none());
    assert!(net.sessions.lookup_session_by_addr(peer(4)).is_some());
}

#[test]
fn a_client_that_moves_takes_its_address_along() {
    let mut maps = SessionMaps::default();
    assert_eq!(maps.register_session(peer(1), "a", "10.44.0.10", [1u8; 32]), Ok(()));
    assert_eq!(maps.register_session(peer(2), "a", "10.44.0.20", [2u8; 32]), Ok(()));
    assert_eq!(maps.session_count(), 1);
    assert!(maps.lookup_session_by_ip(0x0a2c000a).is_none());
    assert_eq!(maps.lookup_session_by_ip(0x0a2c0014).map(|s| s.session_key), Some([2u8; 32]));
    assert_eq!(
        maps.register_session(peer(3), "b", "10.44.0", [1u8; 32]),
        Err("invalid IPv4 address syntax")
    );
    assert!(maps.within_client_limit(2, "b"));
    assert!(!maps.within_client_limit(1, "b"));
    assert!(maps.within_client_limit(1, "a"));
    assert_eq!(maps.is_fresh_packet(peer(2), &[1u8; 12]), Some(true));
    assert_eq!(maps.is_fresh_packet(peer(2), &[1u8; 12]), Some(false));
    assert_eq!(maps.is_fresh_packet(peer(9), &[1u8; 12]), None);
}

#[test]
fn ipv6_peers_are_told_apart() {
    let mut maps = SessionMaps::default();
    let a = PeerAddr::V6 { ip: 1, port: 9, flowinfo: 0, scope_id: 0 };
    let b = PeerAddr::V6 { ip: 1, port: 9, flowinfo: 0, scope_id: 1 };
    assert_eq!(maps.register_session(a, "a", "10.44.0.10", [1u8; 32]), Ok(()));
    assert!(maps.lookup_session_by_addr(b).is_none());
    assert!(maps.lookup_session_by_addr(a).is_some());
}

#[test]
fn server_hellos_that_a_client_refuses() {
    let config = client_config("a", "10.44.0.10");
    let message = |hello: &[u8]| match answer_server_hello(&config, hello) {
        Ok(_) => "accepted",
        Err(message) => message,
    };
    assert_eq!(message(b"nonsense"), "invalid server hello from managed VPN server");
    let short = encode_server_hello(&[1u8; 32], &[0u8; 1183]);
    assert_eq!(message(&short), "invalid PQ public key length");
    let exact = encode_server_hello(&[1u8; 32], &[0u8; 1184]);
    assert_eq!(message(&exact), "accepted");
}

#[test]
fn handshake_is_a_function_of_its_random_numbers() {
    let config = client_config("a", "10.44.0.10");
    let keys = ServerKeys::generate();
    let hello = encode_server_hello(&keys.x_public, &keys.pq_public);
    let one = complete_handshake(&config, &hello, [1u8; 32], [2u8; 32]).ok().expect("reply");
    let two = complete_handshake(&config, &hello, [1u8; 32], [2u8; 32]).ok().expect("reply");
    let other = complete_handshake(&config, &hello, [1u8; 32], [3u8; 32]).ok().expect("reply");
    assert_eq!(one.auth, two.auth);
    assert_eq!(one.session_key, two.session_key);
    assert_ne!(one.session_key, other.session_key);
}

#[test]
fn packet_addresses() {
    let p = packet([10, 44, 0, 10], [8, 8, 4, 4]);
    assert_eq!(packet_source(&p), Some(0x0a2c000a));
    assert_eq!(packet_destination(&p), Some(0x08080404));
    assert!(packet_source_matches(&p, 0x0a2c000a));
    assert!(!packet_source_matches(&p, 0x0a2c000b));
    assert_eq!(packet_source(&p[..19]), None);
    let mut v6 = p.clone();
    v6[0] = 0x60;
    assert_eq!(packet_source(&v6), None);
    assert_eq!(packet_destination(&v6), None);
    assert!(!packet_source_matches(&v6, 0));
}

#[test]
fn the_first_record_of_an_identity_counts() {
    let mut second = record("a", "10.44.0.99");
    second.enabled = false;
    let config = server_config(vec![record("a", "10.44.0.10"), second]);
    let found = allowed_client(&config, "a").expect("record");
    assert_eq!(found.assigned_ip, "10.44.0.10");
    assert!(allowed_client(&config, "A").is_none());
}

#[test]
fn structural_changes_of_a_server() {
    let config = server_config(vec![]);
    let mut next = config.clone();
    next.max_clients = 99;
    next.enabled = false;
    assert!(!structural_change(&config, &next));
    next.mtu = None;
    assert!(structural_change(&config, &next));
    let mut next = config.clone();
    next.dns.bind_addr = "10.44.0.1:54".to_string();
    assert!(structural_change(&config, &next));
    let mut current = config.clone();
    apply_live_update(&mut current, &next);
    assert_eq!(current.dns.bind_addr, "10.44.0.1:54");
}

#[test]
fn structural_changes_of_a_client() {
    let config = client_config("a", "10.44.0.10");
    let mut next = config.clone();
    next.tunnel_token = "another".to_string();
    assert!(!ntz_proto::client::structural_change(&config, &next));
    next.tun_prefix = 16;
    assert!(ntz_proto::client::structural_change(&config, &next));
}

#[test]
fn timeout_message_names_both_ends() {
    let message = handshake_timeout_message(&client_config("a", "10.44.0.10"));
    assert!(message.starts_with(
        "server 192.0.2.1:9000 did not respond to the initial UDP handshake for client a. Check"
    ));
}

#[test]
fn public_info_is_taken_from_the_document() {
    let mut status = AgentStatusReport::default();
    let document = br#"{"ip":"203.0.113.9","country_name":"Sri Lanka","x":1}"#;
    assert_eq!(refresh_public_network_info(&mut status, document), Ok(()));
    assert_eq!(status.public_ip.as_deref(), Some("203.0.113.9"));
    assert_eq!(status.country.as_deref(), Some("Sri Lanka"));
    assert_eq!(refresh_public_network_info(&mut status, br#"{"ip":7}"#), Ok(()));
    assert_eq!(status.public_ip.as_deref(), Some("203.0.113.9"));
    assert!(refresh_public_network_info(&mut status, b"<html>").is_err());
    record_public_info(&mut status, None, Some("Norway".to_string()));
    assert_eq!(status.country.as_deref(), Some("Norway"));
    assert_eq!(status.public_ip.as_deref(), Some("203.0.113.9"));
}
