//! The data plane of a VPN server: what it does with each datagram and each packet.

use vstd::prelude::*;

use crate::bytes::bytes_eq;
use crate::crypto_logic::{
    decrypted, is_fresh, is_sealed_packet, kem_pair, session_key_of, x25519_pair, DecapsulationKey,
    HybridHandshake,
};
use crate::decimal::{decimal, decimal_u64};
use crate::ipv4::{ipv4_from, ipv4_of, ipv4_syntax_error};
use crate::models::{
    AgentStatusReport, ManagedClientRecord, ManagedClientRecordView, ServerConfig, ServerConfigView,
};
use crate::primitives::{
    kem_decapsulated, x25519_diffie_hellman, x25519_shared, MAX_PLAINTEXT,
};
use crate::sessions::{
    has_room, packet_seen, registered, session_for_ip, PeerAddr, SessionMaps, SessionMapsView,
};
use crate::status::{set_connected_clients, with_session_count};
use crate::text::{option_view, text_eq, views};
use crate::tunnel_protocol::{
    auth_tag, client_auth_parts, client_hello_id, compute_auth_tag, decode_client_auth,
    decode_client_hello, encode_server_hello, server_hello,
};

verus! {

/// How the server process is started.
#[derive(Debug)]
pub struct ServerArgs {
    pub management_url: String,
    pub enrollment_token: String,
    pub state_dir: String,
    pub node_name: String,
    pub verbose: bool,
}

/// The long-term keys of a running server.
pub struct ServerKeys {
    pub x_secret: [u8; 32],
    pub x_public: [u8; 32],
    pub pq_secret: DecapsulationKey,
    pub pq_public: Vec<u8>,
}

/// The view of [`ServerKeys`].
pub struct ServerKeysView {
    pub x_secret: Seq<u8>,
    pub x_public: Seq<u8>,
    pub pq_secret: Seq<u8>,
    pub pq_public: Seq<u8>,
}

impl View for ServerKeys {
    type V = ServerKeysView;

    open spec fn view(&self) -> ServerKeysView {
        ServerKeysView {
            x_secret: self.x_secret@,
            x_public: self.x_public@,
            pq_secret: self.pq_secret.bytes@,
            pq_public: self.pq_public@,
        }
    }
}

impl ServerKeysView {
    /// The public keys belong to the secret ones.
    pub open spec fn valid(self) -> bool {
        &&& x25519_pair(self.x_secret, self.x_public)
        &&& kem_pair(self.pq_secret, self.pq_public)
        &&& self.x_public.len() == 32
        &&& self.pq_public.len() == 1184
    }
}

impl ServerKeys {
    /// Fresh keys.
    pub fn generate() -> (keys: Self)
        ensures
            keys@.valid(),
    {
        let (pq_secret, pq_public) = HybridHandshake::generate_pq_keys();
        let (x_secret, x_public) = HybridHandshake::generate_x25519_keys();
        ServerKeys { x_secret, x_public, pq_secret, pq_public }
    }
}

/// What the server does with a datagram.
#[derive(Debug)]
pub enum DatagramAction {
    /// The server is disabled; the datagram is not looked at.
    ServerDisabled,
    /// A hello of an enabled client is answered with these bytes.
    HelloReply(Vec<u8>),
    /// A hello of a disabled client is ignored.
    HelloDisabled(String),
    /// A hello of a client that the server does not serve is ignored.
    HelloUnknown(String),
    /// An authentication of a disabled client is ignored.
    AuthDisabled(String),
    /// An authentication is ignored, since there are as many sessions as there may be.
    AuthLimit,
    /// An authentication with a wrong tag is ignored.
    AuthTagMismatch(String),
    /// An authentication of a client that the server does not serve is ignored.
    AuthUnknown(String),
    /// An authentication whose ciphertext cannot be decapsulated is ignored.
    AuthUndecodable,
    /// A client has a session now.
    AuthAccepted(String),
    /// A client could not be given a session; receiving ends with this error.
    AuthFailed(&'static str),
    /// The peer has no session.
    NoSession,
    /// The packet was seen before, or holds no nonce.
    Replayed,
    /// The packet does not authenticate.
    Undecryptable,
    /// The packet does not carry the source address that the client was assigned.
    WrongSource,
    /// This packet goes to the tunnel device.
    Deliver(Vec<u8>),
}

/// The view of [`DatagramAction`].
pub enum DatagramView {
    ServerDisabled,
    HelloReply(Seq<u8>),
    HelloDisabled(Seq<char>),
    HelloUnknown(Seq<char>),
    AuthDisabled(Seq<char>),
    AuthLimit,
    AuthTagMismatch(Seq<char>),
    AuthUnknown(Seq<char>),
    AuthUndecodable,
    AuthAccepted(Seq<char>),
    AuthFailed(Seq<char>),
    NoSession,
    Replayed,
    Undecryptable,
    WrongSource,
    Deliver(Seq<u8>),
}

impl View for DatagramAction {
    type V = DatagramView;

    open spec fn view(&self) -> DatagramView {
        match self {
            DatagramAction::ServerDisabled => DatagramView::ServerDisabled,
            DatagramAction::HelloReply(reply) => DatagramView::HelloReply(reply@),
            DatagramAction::HelloDisabled(id) => DatagramView::HelloDisabled(id@),
            DatagramAction::HelloUnknown(id) => DatagramView::HelloUnknown(id@),
            DatagramAction::AuthDisabled(id) => DatagramView::AuthDisabled(id@),
            DatagramAction::AuthLimit => DatagramView::AuthLimit,
            DatagramAction::AuthTagMismatch(id) => DatagramView::AuthTagMismatch(id@),
            DatagramAction::AuthUnknown(id) => DatagramView::AuthUnknown(id@),
            DatagramAction::AuthUndecodable => DatagramView::AuthUndecodable,
            DatagramAction::AuthAccepted(id) => DatagramView::AuthAccepted(id@),
            DatagramAction::AuthFailed(message) => DatagramView::AuthFailed(message@),
            DatagramAction::NoSession => DatagramView::NoSession,
            DatagramAction::Replayed => DatagramView::Replayed,
            DatagramAction::Undecryptable => DatagramView::Undecryptable,
            DatagramAction::WrongSource => DatagramView::WrongSource,
            DatagramAction::Deliver(packet) => DatagramView::Deliver(packet@),
        }
    }
}

/// The first record with an identity.
pub open spec fn find_client(clients: Seq<ManagedClientRecordView>, client_id: Seq<char>) -> Option<
    ManagedClientRecordView,
>
    decreases clients.len(),
{
    if clients.len() == 0 {
        None
    } else if clients[0].client_id == client_id {
        Some(clients[0])
    } else {
        find_client(clients.skip(1), client_id)
    }
}

/// The source address of an IPv4 packet.
pub open spec fn source_of(packet: Seq<u8>) -> Option<u32> {
    if packet.len() < 20 || packet[0] / 16 != 4 {
        None
    } else {
        Some(
            ipv4_from(packet[12] as int, packet[13] as int, packet[14] as int, packet[15] as int),
        )
    }
}

/// The destination address of an IPv4 packet.
pub open spec fn destination_of(packet: Seq<u8>) -> Option<u32> {
    if packet.len() < 20 || packet[0] / 16 != 4 {
        None
    } else {
        Some(
            ipv4_from(packet[16] as int, packet[17] as int, packet[18] as int, packet[19] as int),
        )
    }
}

/// The session key that the server derives for a client authentication.
pub open spec fn server_session_key(
    keys: ServerKeysView,
    client_xpub: Seq<u8>,
    pq_ciphertext: Seq<u8>,
) -> Seq<u8> {
    session_key_of(
        x25519_shared(keys.x_secret, client_xpub),
        kem_decapsulated(keys.pq_secret, pq_ciphertext),
    )
}

/// What becomes of a hello.
pub open spec fn hello_action(
    config: ServerConfigView,
    keys: ServerKeysView,
    id: Seq<char>,
) -> DatagramView {
    match find_client(config.allowed_clients, id) {
        Some(client) => if client.enabled {
            DatagramView::HelloReply(server_hello(keys.x_public, keys.pq_public))
        } else {
            DatagramView::HelloDisabled(id)
        },
        None => DatagramView::HelloUnknown(id),
    }
}

/// What becomes of an authentication, and the sessions after it.
pub open spec fn auth_action(
    maps: SessionMapsView,
    config: ServerConfigView,
    keys: ServerKeysView,
    from: PeerAddr,
    parts: crate::tunnel_protocol::AuthParts,
) -> (DatagramView, SessionMapsView) {
    let id = parts.client_id;
    match find_client(config.allowed_clients, id) {
        Some(client) => if !client.enabled {
            (DatagramView::AuthDisabled(id), maps)
        } else if !has_room(maps, config.max_clients as nat, id) {
            (DatagramView::AuthLimit, maps)
        } else if parts.tag != auth_tag(client.tunnel_token, parts.client_xpub, parts.pq_ciphertext) {
            (DatagramView::AuthTagMismatch(id), maps)
        } else if parts.pq_ciphertext.len() != 1088 {
            (DatagramView::AuthUndecodable, maps)
        } else {
            match ipv4_of(client.assigned_ip) {
                Some(ip) => (
                    DatagramView::AuthAccepted(id),
                    registered(
                        maps,
                        from,
                        id,
                        ip,
                        server_session_key(keys, parts.client_xpub, parts.pq_ciphertext),
                    ),
                ),
                None => (DatagramView::AuthFailed(ipv4_syntax_error()), maps),
            }
        },
        None => (DatagramView::AuthUnknown(id), maps),
    }
}

/// What becomes of a data packet, and the sessions after it.
pub open spec fn packet_action(maps: SessionMapsView, from: PeerAddr, data: Seq<u8>) -> (
    DatagramView,
    SessionMapsView,
) {
    if !maps.by_addr.contains_key(from) {
        (DatagramView::NoSession, maps)
    } else {
        let session = maps.by_addr[from];
        let after = packet_seen(maps, from, data);
        if !is_fresh(session.window, data) {
            (DatagramView::Replayed, after)
        } else {
            match decrypted(session.session_key, data) {
                Some(packet) => if source_of(packet) == Some(session.assigned_ip) {
                    (DatagramView::Deliver(packet), after)
                } else {
                    (DatagramView::WrongSource, after)
                },
                None => (DatagramView::Undecryptable, after),
            }
        }
    }
}

/// What becomes of a datagram, and the sessions after it: it is read as a hello, else as an
/// authentication, else as a data packet.
pub open spec fn datagram_action(
    maps: SessionMapsView,
    config: ServerConfigView,
    keys: ServerKeysView,
    from: PeerAddr,
    data: Seq<u8>,
) -> (DatagramView, SessionMapsView) {
    if !config.enabled {
        (DatagramView::ServerDisabled, maps)
    } else {
        match client_hello_id(data) {
            Some(id) => (hello_action(config, keys, id), maps),
            None => match client_auth_parts(data) {
                Some(parts) => auth_action(maps, config, keys, from, parts),
                None => packet_action(maps, from, data),
            },
        }
    }
}

/// The record of a client that the server may serve.
pub fn allowed_client<'a>(config: &'a ServerConfig, client_id: &str) -> (r: Option<
    &'a ManagedClientRecord,
>)
    ensures
        match r {
            Some(client) => find_client(config@.allowed_clients, client_id@) == Some(client@),
            None => find_client(config@.allowed_clients, client_id@) is None,
        },
{
    let ghost all = views(config.allowed_clients@);
    let n: usize = config.allowed_clients.len();
    assert(all.skip(0) =~= all);
    for i in 0..n
        invariant
            n == config.allowed_clients@.len(),
            all == views(config.allowed_clients@),
            find_client(all, client_id@) == find_client(all.skip(i as int), client_id@),
    {
        let client = &config.allowed_clients[i];
        assert(all.skip(i as int)[0] == client@);
        if text_eq(client.client_id.as_str(), client_id) {
            return Some(client);
        }
        assert(all.skip(i as int).skip(1) =~= all.skip(i + 1));
    }
    None
}

/// The source address of an IPv4 packet.
pub fn packet_source(packet: &[u8]) -> (r: Option<u32>)
    ensures
        r == source_of(packet@),
{
    if packet.len() < 20 || packet[0] / 16 != 4 {
        return None;
    }
    Some(
        packet[12] as u32 * 16777216 + packet[13] as u32 * 65536 + packet[14] as u32 * 256
            + packet[15] as u32,
    )
}

/// The destination address of an IPv4 packet.
pub fn packet_destination(packet: &[u8]) -> (r: Option<u32>)
    ensures
        r == destination_of(packet@),
{
    if packet.len() < 20 || packet[0] / 16 != 4 {
        return None;
    }
    Some(
        packet[16] as u32 * 16777216 + packet[17] as u32 * 65536 + packet[18] as u32 * 256
            + packet[19] as u32,
    )
}

/// Whether an IPv4 packet comes from an address.
pub fn packet_source_matches(packet: &[u8], expected: u32) -> (r: bool)
    ensures
        r == (source_of(packet@) == Some(expected)),
{
    match packet_source(packet) {
        Some(source) => source == expected,
        None => false,
    }
}

/// Answers a hello.
fn handle_hello(config: &ServerConfig, keys: &ServerKeys, client_id: String) -> (action:
    DatagramAction)
    ensures
        action@ == hello_action(config@, keys@, client_id@),
{
    match allowed_client(config, client_id.as_str()) {
        Some(client) => if client.enabled {
            DatagramAction::HelloReply(
                encode_server_hello(&keys.x_public, keys.pq_public.as_slice()),
            )
        } else {
            DatagramAction::HelloDisabled(client_id)
        },
        None => DatagramAction::HelloUnknown(client_id),
    }
}

/// Admits a client that proves that it has the tunnel token.
fn handle_auth(
    sessions: &mut SessionMaps,
    config: &ServerConfig,
    keys: &ServerKeys,
    from: PeerAddr,
    client_id: String,
    client_xpub: &[u8; 32],
    pq_ciphertext: &[u8],
    tag: &[u8; 32],
) -> (action: DatagramAction)
    requires
        old(sessions).wf(),
    ensures
        final(sessions).wf(),
        (action@, final(sessions)@) == auth_action(
            old(sessions)@,
            config@,
            keys@,
            from,
            crate::tunnel_protocol::AuthParts {
                client_id: client_id@,
                client_xpub: client_xpub@,
                pq_ciphertext: pq_ciphertext@,
                tag: tag@,
            },
        ),
{
    let client = match allowed_client(config, client_id.as_str()) {
        Some(client) => client,
        None => {
            return DatagramAction::AuthUnknown(client_id);
        },
    };
    if !client.enabled {
        return DatagramAction::AuthDisabled(client_id);
    }
    if !sessions.within_client_limit(config.max_clients, client_id.as_str()) {
        return DatagramAction::AuthLimit;
    }
    let expected = compute_auth_tag(client.tunnel_token.as_str(), client_xpub, pq_ciphertext);
    if !bytes_eq(tag, &expected) {
        return DatagramAction::AuthTagMismatch(client_id);
    }
    let x_shared = x25519_diffie_hellman(&keys.x_secret, client_xpub);
    match HybridHandshake::decapsulate_pq_key(&keys.pq_secret, pq_ciphertext) {
        Ok(pq_shared) => {
            let session_key = HybridHandshake::derive_session_key(&x_shared, pq_shared.as_slice());
            match sessions.register_session(
                from,
                client_id.as_str(),
                client.assigned_ip.as_str(),
                session_key,
            ) {
                Ok(_) => DatagramAction::AuthAccepted(client_id),
                Err(message) => DatagramAction::AuthFailed(message),
            }
        },
        Err(_) => DatagramAction::AuthUndecodable,
    }
}

/// Opens a data packet.
fn handle_packet(
    sessions: &mut SessionMaps,
    from: PeerAddr,
    data: &[u8],
) -> (action: DatagramAction)
    requires
        old(sessions).wf(),
    ensures
        final(sessions).wf(),
        (action@, final(sessions)@) == packet_action(old(sessions)@, from, data@),
        action@ matches DatagramView::Deliver(packet) ==> is_sealed_packet(
            old(sessions)@.by_addr[from].session_key,
            packet,
            data@,
        ),
{
    let (key, assigned_ip): ([u8; 32], u32) = match sessions.lookup_session_by_addr(from) {
        Some(session) => (session.session_key, session.assigned_ip),
        None => {
            return DatagramAction::NoSession;
        },
    };
    match sessions.is_fresh_packet(from, data) {
        Some(true) => match HybridHandshake::decrypt_data(&key, data) {
            Some(packet) => if packet_source_matches(packet.as_slice(), assigned_ip) {
                DatagramAction::Deliver(packet)
            } else {
                DatagramAction::WrongSource
            },
            None => DatagramAction::Undecryptable,
        },
        _ => DatagramAction::Replayed,
    }
}

/// Handles a datagram: it is read as a hello, else as an authentication, else as a data packet.
/// The status learns the number of sessions when a client is admitted. A packet that is delivered
/// was sealed under the session key of its peer.
pub fn handle_datagram(
    sessions: &mut SessionMaps,
    status: &mut AgentStatusReport,
    config: &ServerConfig,
    keys: &ServerKeys,
    from: PeerAddr,
    data: &[u8],
) -> (action: DatagramAction)
    requires
        old(sessions).wf(),
    ensures
        final(sessions).wf(),
        (action@, final(sessions)@) == datagram_action(
            old(sessions)@,
            config@,
            keys@,
            from,
            data@,
        ),
        action@ matches DatagramView::Deliver(packet) ==> is_sealed_packet(
            old(sessions)@.by_addr[from].session_key,
            packet,
            data@,
        ),
        final(status)@ == if action@ is AuthAccepted {
            with_session_count(old(status)@, final(sessions)@.by_addr.dom().len())
        } else {
            old(status)@
        },
{
    if !config.enabled {
        return DatagramAction::ServerDisabled;
    }
    if let Some(client_id) = decode_client_hello(data) {
        return handle_hello(config, keys, client_id);
    }
    if let Some((client_id, client_xpub, pq_ciphertext, tag)) = decode_client_auth(data) {
        let action = handle_auth(
            sessions,
            config,
            keys,
            from,
            client_id,
            &client_xpub,
            pq_ciphertext.as_slice(),
            &tag,
        );
        if let DatagramAction::AuthAccepted(_) = &action {
            set_connected_clients(status, sessions);
        }
        return action;
    }
    handle_packet(sessions, from, data)
}

/// What a verbose server says of a datagram from a peer.
pub open spec fn datagram_line(action: DatagramView, from: Seq<char>, max_clients: usize) -> Option<
    Seq<char>,
> {
    match action {
        DatagramView::HelloDisabled(id) => Some(
            "[server] Ignored hello from "@ + from + " for disabled client "@ + id,
        ),
        DatagramView::HelloUnknown(id) => Some(
            "[server] Ignored hello from "@ + from + " for unassigned/unknown client "@ + id,
        ),
        DatagramView::AuthDisabled(id) => Some(
            "[server] Ignored auth from "@ + from + " for disabled client "@ + id,
        ),
        DatagramView::AuthLimit => Some(
            "[server] Ignored auth from "@ + from + " because client limit "@ + decimal(
                max_clients as int,
            ) + " is reached"@,
        ),
        DatagramView::AuthTagMismatch(id) => Some(
            "[server] Ignored auth from "@ + from + " for client "@ + id
                + " because the tunnel token did not match"@,
        ),
        DatagramView::AuthUnknown(id) => Some(
            "[server] Ignored auth from "@ + from + " for unassigned/unknown client "@ + id,
        ),
        DatagramView::AuthAccepted(id) => Some(
            "Accepted managed client "@ + id + " from "@ + from,
        ),
        DatagramView::Replayed => Some(
            "[server] Dropped replayed or malformed packet from "@ + from,
        ),
        _ => None,
    }
}

/// Four texts one after the other.
fn line_of(a: &str, b: &str, c: &str, d: &str) -> (r: String)
    ensures
        r@ == a@ + b@ + c@ + d@,
{
    let mut r = a.to_owned();
    r.append(b);
    r.append(c);
    r.append(d);
    r
}

impl DatagramAction {
    /// What a verbose server says of a datagram from a peer.
    pub fn line(&self, from: &str, max_clients: usize) -> (r: Option<String>)
        ensures
            option_view(r) == datagram_line(self@, from@, max_clients),
    {
        match self {
            DatagramAction::HelloDisabled(id) => Some(
                line_of("[server] Ignored hello from ", from, " for disabled client ", id.as_str()),
            ),
            DatagramAction::HelloUnknown(id) => Some(
                line_of(
                    "[server] Ignored hello from ",
                    from,
                    " for unassigned/unknown client ",
                    id.as_str(),
                ),
            ),
            DatagramAction::AuthDisabled(id) => Some(
                line_of("[server] Ignored auth from ", from, " for disabled client ", id.as_str()),
            ),
            DatagramAction::AuthLimit => {
                let limit = decimal_u64(max_clients as u64);
                let mut r = line_of(
                    "[server] Ignored auth from ",
                    from,
                    " because client limit ",
                    limit.as_str(),
                );
                r.append(" is reached");
                Some(r)
            },
            DatagramAction::AuthTagMismatch(id) => {
                let mut r = line_of(
                    "[server] Ignored auth from ",
                    from,
                    " for client ",
                    id.as_str(),
                );
                r.append(" because the tunnel token did not match");
                Some(r)
            },
            DatagramAction::AuthUnknown(id) => Some(
                line_of(
                    "[server] Ignored auth from ",
                    from,
                    " for unassigned/unknown client ",
                    id.as_str(),
                ),
            ),
            DatagramAction::AuthAccepted(id) => Some(
                line_of("Accepted managed client ", id.as_str(), " from ", from),
            ),
            DatagramAction::Replayed => {
                let mut r = String::from_str("[server] Dropped replayed or malformed packet from ");
                r.append(from);
                Some(r)
            },
            _ => None,
        }
    }
}

/// Encrypts a packet from the tunnel device for the client that its destination belongs to.
/// A packet for nobody is dropped. The status learns the number of sessions.
pub fn outbound_packet(sessions: &SessionMaps, status: &mut AgentStatusReport, packet: &[u8]) -> (r:
    Option<(PeerAddr, Vec<u8>)>)
    requires
        sessions.wf(),
        packet@.len() <= MAX_PLAINTEXT,
    ensures
        final(status)@ == with_session_count(old(status)@, sessions@.by_addr.dom().len()),
        match r {
            Some((addr, datagram)) => {
                &&& destination_of(packet@) is Some
                &&& session_for_ip(sessions@, destination_of(packet@)->Some_0) is Some
                &&& addr == session_for_ip(sessions@, destination_of(packet@)->Some_0)->Some_0.addr
                &&& is_sealed_packet(
                    session_for_ip(sessions@, destination_of(packet@)->Some_0)->Some_0.session_key,
                    packet@,
                    datagram@,
                )
            },
            None => destination_of(packet@) is None || session_for_ip(
                sessions@,
                destination_of(packet@)->Some_0,
            ) is None,
        },
{
    let r = match packet_destination(packet) {
        Some(destination) => match sessions.lookup_session_by_ip(destination) {
            Some(session) => Some(
                (session.addr, HybridHandshake::encrypt_data(&session.session_key, packet)),
            ),
            None => None,
        },
        None => None,
    };
    set_connected_clients(status, sessions);
    r
}

/// Whether a new configuration differs from the running one in what only a restart can change.
pub open spec fn is_structural_change(current: ServerConfigView, next: ServerConfigView) -> bool {
    ||| current.listen_addr != next.listen_addr
    ||| current.tun_name != next.tun_name
    ||| current.tun_address != next.tun_address
    ||| current.tun_prefix != next.tun_prefix
    ||| current.mtu != next.mtu
    ||| current.dns.bind_addr != next.dns.bind_addr
}

/// Whether a new configuration differs from the running one in what only a restart can change.
pub fn structural_change(current: &ServerConfig, next: &ServerConfig) -> (r: bool)
    ensures
        r == is_structural_change(current@, next@),
{
    !text_eq(current.listen_addr.as_str(), next.listen_addr.as_str())
        || !text_eq(current.tun_name.as_str(), next.tun_name.as_str())
        || !text_eq(current.tun_address.as_str(), next.tun_address.as_str())
        || current.tun_prefix != next.tun_prefix || !same_mtu(current.mtu, next.mtu)
        || !text_eq(current.dns.bind_addr.as_str(), next.dns.bind_addr.as_str())
}

/// Whether two optional sizes are the same.
pub fn same_mtu(a: Option<u16>, b: Option<u16>) -> (r: bool)
    ensures
        r == (a == b),
{
    match (a, b) {
        (Some(x), Some(y)) => x == y,
        (None, None) => true,
        _ => false,
    }
}

/// Puts a new configuration in place of the running one.
pub fn apply_live_update(config: &mut ServerConfig, next: &ServerConfig)
    ensures
        final(config)@ == next@,
{
    *config = next.clone();
}

/// What a verbose server says of a datagram names the peer, the client where there is one, and why
/// it was ignored; of packets that are delivered or belong to nobody it says nothing.
pub proof fn law_datagram_lines(
    id: Seq<char>,
    from: Seq<char>,
    max_clients: usize,
    packet: Seq<u8>,
)
    ensures
        datagram_line(DatagramView::HelloDisabled(id), from, max_clients) == Some(
            "[server] Ignored hello from "@ + from + " for disabled client "@ + id,
        ),
        datagram_line(DatagramView::HelloUnknown(id), from, max_clients) == Some(
            "[server] Ignored hello from "@ + from + " for unassigned/unknown client "@ + id,
        ),
        datagram_line(DatagramView::AuthDisabled(id), from, max_clients) == Some(
            "[server] Ignored auth from "@ + from + " for disabled client "@ + id,
        ),
        datagram_line(DatagramView::AuthUnknown(id), from, max_clients) == Some(
            "[server] Ignored auth from "@ + from + " for unassigned/unknown client "@ + id,
        ),
        datagram_line(DatagramView::AuthTagMismatch(id), from, max_clients) == Some(
            "[server] Ignored auth from "@ + from + " for client "@ + id
                + " because the tunnel token did not match"@,
        ),
        datagram_line(DatagramView::AuthLimit, from, max_clients) == Some(
            "[server] Ignored auth from "@ + from + " because client limit "@ + decimal(
                max_clients as int,
            ) + " is reached"@,
        ),
        datagram_line(DatagramView::AuthAccepted(id), from, max_clients) == Some(
            "Accepted managed client "@ + id + " from "@ + from,
        ),
        datagram_line(DatagramView::Replayed, from, max_clients) == Some(
            "[server] Dropped replayed or malformed packet from "@ + from,
        ),
        datagram_line(DatagramView::Deliver(packet), from, max_clients) is None,
        datagram_line(DatagramView::NoSession, from, max_clients) is None,
{
}

/// The view of [`ServerKeys`] holds each field under its own name.
pub proof fn law_view_of_server_keys(value: ServerKeys)
    ensures
        value@.x_secret == value.x_secret@,
        value@.x_public == value.x_public@,
        value@.pq_secret == value.pq_secret.bytes@,
        value@.pq_public == value.pq_public@,
{
}

} // verus!
