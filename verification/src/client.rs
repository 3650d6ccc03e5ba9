//! A VPN client: its half of the handshake, its data plane and its network settings.

use vstd::prelude::*;

use crate::bytes::array_at;
use crate::crypto_logic::{
    decrypted, is_fresh, is_sealed_packet, random_32, session_key_of, window_after, x25519_pair,
    HybridHandshake, ReplayGuard,
};
use crate::json::{json_text_at, json_text_field};
use crate::models::{AgentStatusReport, AgentStatusReportView, ClientConfig, ClientConfigView};
use crate::primitives::{
    kem_encapsulate, kem_encapsulated, x25519_diffie_hellman, x25519_public, x25519_shared,
    MAX_PLAINTEXT,
};
use crate::server::same_mtu;
use crate::status::{add_traffic, with_traffic};
use crate::text::{option_view, text_eq};
use crate::tunnel_protocol::{
    auth_tag, client_auth, decode_server_hello, encode_client_auth, server_hello_keys,
};

verus! {

/// How the client process is started.
#[derive(Debug)]
pub struct ClientArgs {
    pub management_url: String,
    pub enrollment_token: String,
    pub state_dir: String,
    pub device_name: String,
    pub verbose: bool,
}

/// What a client has after the handshake: the packet that proves who it is, and the session key.
pub struct HandshakeReply {
    pub auth: Vec<u8>,
    pub session_key: [u8; 32],
}

/// The authentication and the session key that a client makes of a server hello, with its two
/// random numbers.
pub open spec fn client_handshake(
    config: ClientConfigView,
    hello: Seq<u8>,
    x_secret: Seq<u8>,
    m: Seq<u8>,
) -> Result<(Seq<u8>, Seq<u8>), Seq<char>> {
    match server_hello_keys(hello) {
        None => Err("invalid server hello from managed VPN server"@),
        Some((server_xpub, server_pq)) => if server_pq.len() < 1184 {
            Err("invalid PQ public key length"@)
        } else {
            let xpub = x25519_public(x_secret);
            let (ciphertext, pq_shared) = kem_encapsulated(server_pq.take(1184), m);
            Ok(
                (
                    client_auth(
                        config.client_id,
                        xpub,
                        ciphertext,
                        auth_tag(config.tunnel_token, xpub, ciphertext),
                    ),
                    session_key_of(x25519_shared(x_secret, server_xpub), pq_shared),
                ),
            )
        },
    }
}

/// What holds of the keys, the ciphertext and the tag that a client makes of a server hello.
pub open spec fn handshake_material(
    config: ClientConfigView,
    hello: Seq<u8>,
    x_secret: Seq<u8>,
    m: Seq<u8>,
) -> bool {
    let xpub = x25519_public(x_secret);
    let ciphertext = kem_encapsulated(server_hello_keys(hello)->Some_0.1.take(1184), m).0;
    &&& x25519_pair(x_secret, xpub)
    &&& xpub.len() == 32
    &&& ciphertext.len() == 1088
    &&& auth_tag(config.tunnel_token, xpub, ciphertext).len() == 32
}

/// The spec value of a handshake result.
pub open spec fn reply_view(r: Result<HandshakeReply, &'static str>) -> Result<
    (Seq<u8>, Seq<u8>),
    Seq<char>,
> {
    match r {
        Ok(reply) => Ok((reply.auth@, reply.session_key@)),
        Err(message) => Err(message@),
    }
}

/// Answers a server hello with given random numbers.
pub fn complete_handshake(
    config: &ClientConfig,
    hello: &[u8],
    x_secret: [u8; 32],
    m: [u8; 32],
) -> (r:
    Result<HandshakeReply, &'static str>)
    ensures
        reply_view(r) == client_handshake(config@, hello@, x_secret@, m@),
        r is Ok ==> handshake_material(config@, hello@, x_secret@, m@),
{
    let (server_xpub, server_pq) = match decode_server_hello(hello) {
        Some(keys) => keys,
        None => {
            return Err("invalid server hello from managed VPN server");
        },
    };
    if server_pq.len() < 1184 {
        return Err("invalid PQ public key length");
    }
    let pq_key = array_at::<1184>(server_pq.as_slice(), 0);
    assert(pq_key@ =~= server_pq@.take(1184));
    let (_, client_xpub) = HybridHandshake::x25519_keys_from(x_secret);
    match kem_encapsulate(&pq_key, &m) {
        Ok((ciphertext, pq_shared)) => {
            let auth = encode_client_auth(
                config.client_id.as_str(),
                &client_xpub,
                &ciphertext,
                config.tunnel_token.as_str(),
            );
            let x_shared = x25519_diffie_hellman(&x_secret, &server_xpub);
            let session_key = HybridHandshake::derive_session_key(&x_shared, &pq_shared);
            Ok(HandshakeReply { auth, session_key })
        },
        Err(_) => Err("KEM encapsulation failed"),
    }
}

/// Answers a server hello with fresh random numbers.
pub fn answer_server_hello(config: &ClientConfig, hello: &[u8]) -> (r: Result<
    HandshakeReply,
    &'static str,
>)
    ensures
        exists|x_secret: Seq<u8>, m: Seq<u8>|
            x_secret.len() == 32 && m.len() == 32 && reply_view(r)
                == #[trigger] client_handshake(config@, hello@, x_secret, m) && (r is Ok
                ==> handshake_material(config@, hello@, x_secret, m)),
{
    let x_secret = random_32();
    let m = random_32();
    let r = complete_handshake(config, hello, x_secret, m);
    assert(reply_view(r) == client_handshake(config@, hello@, x_secret@, m@));
    r
}

/// What the operator is told when the server does not answer the hello.
pub open spec fn handshake_timeout(config: ClientConfigView) -> Seq<char> {
    "server "@ + config.server_endpoint
        + " did not respond to the initial UDP handshake for client "@ + config.client_id
        + ". Check that the Linux server is running the latest code, UDP/9000 is reachable, and this client is assigned to the currently running server in the manager portal"@
}

/// What the operator is told when the server does not answer the hello.
pub fn handshake_timeout_message(config: &ClientConfig) -> (r: String)
    ensures
        r@ == handshake_timeout(config@),
{
    let mut r = String::from_str("server ");
    r.append(config.server_endpoint.as_str());
    r.append(" did not respond to the initial UDP handshake for client ");
    r.append(config.client_id.as_str());
    r.append(
        ". Check that the Linux server is running the latest code, UDP/9000 is reachable, and this client is assigned to the currently running server in the manager portal",
    );
    r
}

/// What the client does with a datagram from the server.
#[derive(Debug)]
pub enum InboundAction {
    /// The client is disabled; the datagram is not looked at.
    Disabled,
    /// The packet was seen before, or holds no nonce.
    Replayed,
    /// The packet does not authenticate.
    Undecryptable,
    /// This packet goes to the tunnel device.
    Deliver(Vec<u8>),
}

/// The view of [`InboundAction`].
pub enum InboundView {
    Disabled,
    Replayed,
    Undecryptable,
    Deliver(Seq<u8>),
}

impl View for InboundAction {
    type V = InboundView;

    open spec fn view(&self) -> InboundView {
        match self {
            InboundAction::Disabled => InboundView::Disabled,
            InboundAction::Replayed => InboundView::Replayed,
            InboundAction::Undecryptable => InboundView::Undecryptable,
            InboundAction::Deliver(packet) => InboundView::Deliver(packet@),
        }
    }
}

/// What becomes of a datagram from the server.
pub open spec fn inbound_action(
    enabled: bool,
    window: Seq<u128>,
    key: Seq<u8>,
    data: Seq<u8>,
) -> InboundView {
    if !enabled {
        InboundView::Disabled
    } else if !is_fresh(window, data) {
        InboundView::Replayed
    } else {
        match decrypted(key, data) {
            Some(packet) => InboundView::Deliver(packet),
            None => InboundView::Undecryptable,
        }
    }
}

/// Opens a datagram from the server. An enabled client shows it to its replay window; a packet
/// that is delivered was sealed under the session key, and counts as download.
pub fn handle_inbound(
    enabled: bool,
    guard: &mut ReplayGuard,
    status: &mut AgentStatusReport,
    key: &[u8; 32],
    data: &[u8],
) -> (action: InboundAction)
    requires
        old(guard).wf(),
    ensures
        final(guard).wf(),
        final(guard).capacity() == old(guard).capacity(),
        action@ == inbound_action(enabled, old(guard).window(), key@, data@),
        action@ matches InboundView::Deliver(packet) ==> is_sealed_packet(key@, packet, data@),
        final(guard).window() == if enabled {
            window_after(old(guard).window(), old(guard).capacity(), data@)
        } else {
            old(guard).window()
        },
        final(status)@ == match action@ {
            InboundView::Deliver(packet) => with_traffic(old(status)@, 0, packet.len() as u64),
            _ => old(status)@,
        },
{
    if !enabled {
        return InboundAction::Disabled;
    }
    if !guard.is_fresh_packet(data) {
        return InboundAction::Replayed;
    }
    match HybridHandshake::decrypt_data(key, data) {
        Some(packet) => {
            add_traffic(status, 0, packet.len() as u64);
            InboundAction::Deliver(packet)
        },
        None => InboundAction::Undecryptable,
    }
}

/// Encrypts a packet from the tunnel device for the server, and counts it as upload. A disabled
/// client sends nothing.
pub fn handle_outbound(
    enabled: bool,
    status: &mut AgentStatusReport,
    key: &[u8; 32],
    packet: &[u8],
) -> (datagram: Option<Vec<u8>>)
    requires
        packet@.len() <= MAX_PLAINTEXT,
    ensures
        datagram is Some == enabled,
        datagram matches Some(bytes) ==> is_sealed_packet(key@, packet@, bytes@),
        final(status)@ == if enabled {
            with_traffic(old(status)@, packet@.len() as u64, 0)
        } else {
            old(status)@
        },
{
    if !enabled {
        return None;
    }
    let datagram = HybridHandshake::encrypt_data(key, packet);
    add_traffic(status, packet.len() as u64, 0);
    Some(datagram)
}

/// Whether a new configuration differs from the running one in what only a restart can change.
pub open spec fn is_structural_change(current: ClientConfigView, next: ClientConfigView) -> bool {
    ||| current.server_endpoint != next.server_endpoint
    ||| current.tun_name != next.tun_name
    ||| current.tun_address != next.tun_address
    ||| current.tun_prefix != next.tun_prefix
    ||| current.mtu != next.mtu
    ||| current.dns_server != next.dns_server
}

/// Whether a new configuration differs from the running one in what only a restart can change.
pub fn structural_change(current: &ClientConfig, next: &ClientConfig) -> (r: bool)
    ensures
        r == is_structural_change(current@, next@),
{
    !text_eq(current.server_endpoint.as_str(), next.server_endpoint.as_str())
        || !text_eq(current.tun_name.as_str(), next.tun_name.as_str())
        || !text_eq(current.tun_address.as_str(), next.tun_address.as_str())
        || current.tun_prefix != next.tun_prefix || !same_mtu(current.mtu, next.mtu)
        || !text_eq(current.dns_server.as_str(), next.dns_server.as_str())
}

/// What a lookup of the client's public address found, in the document that the service answered
/// with: the fields `ip` and `country_name`, where they are texts. Nothing changes where a field
/// is missing or the document is no JSON.
pub open spec fn with_public_info(
    status: AgentStatusReportView,
    ip: Option<Seq<char>>,
    country: Option<Seq<char>>,
) -> AgentStatusReportView {
    AgentStatusReportView {
        public_ip: if ip is Some {
            ip
        } else {
            status.public_ip
        },
        country: if country is Some {
            country
        } else {
            status.country
        },
        ..status
    }
}

/// Records what is known of the client's public address; what is not known stays.
pub fn record_public_info(
    status: &mut AgentStatusReport,
    public_ip: Option<String>,
    country: Option<String>,
)
    ensures
        final(status)@ == with_public_info(
            old(status)@,
            option_view(public_ip),
            option_view(country),
        ),
{
    if public_ip.is_some() {
        status.public_ip = public_ip;
    }
    if country.is_some() {
        status.country = country;
    }
}

/// Records the client's public address from the document that the lookup service answered with.
/// A document that is no JSON is an error, and nothing changes.
pub fn refresh_public_network_info(status: &mut AgentStatusReport, document: &[u8]) -> (r: Result<
    (),
    String,
>)
    ensures
        match (json_text_at(document@, "ip"@), json_text_at(document@, "country_name"@)) {
            (Ok(ip), Ok(country)) => r is Ok && final(status)@ == with_public_info(
                old(status)@,
                ip,
                country,
            ),
            (Err(error), _) => r matches Err(message) && message@ == error && final(status)@ == old(
                status,
            )@,
            (_, Err(error)) => r matches Err(message) && message@ == error && final(status)@ == old(
                status,
            )@,
        },
{
    let public_ip = match json_text_field(document, "ip") {
        Ok(found) => found,
        Err(error) => {
            return Err(error);
        },
    };
    let country = match json_text_field(document, "country_name") {
        Ok(found) => found,
        Err(error) => {
            return Err(error);
        },
    };
    record_public_info(status, public_ip, country);
    Ok(())
}

/// What a lookup of the public address found is recorded, what it did not find stays, and nothing
/// else of the status changes.
pub proof fn law_public_address_is_recorded(
    status: AgentStatusReportView,
    ip: Option<Seq<char>>,
    country: Option<Seq<char>>,
)
    ensures
        ({
            let after = with_public_info(status, ip, country);
            &&& ip matches Some(text) ==> after.public_ip == Some(text)
            &&& ip is None ==> after.public_ip == status.public_ip
            &&& country matches Some(text) ==> after.country == Some(text)
            &&& country is None ==> after.country == status.country
            &&& after.applied_version == status.applied_version
            &&& after.connected_clients == status.connected_clients
            &&& after.connected_client_list == status.connected_client_list
            &&& after.upload_bytes == status.upload_bytes
            &&& after.download_bytes == status.download_bytes
            &&& after.last_error == status.last_error
            &&& after.last_message == status.last_message
        }),
{
}

/// A client that gets no answer names the server and itself.
pub proof fn law_timeouts_name_both_ends(config: ClientConfigView)
    ensures
        handshake_timeout(config) == "server "@ + config.server_endpoint
            + " did not respond to the initial UDP handshake for client "@ + config.client_id
            + ". Check that the Linux server is running the latest code, UDP/9000 is reachable, and this client is assigned to the currently running server in the manager portal"@,
{
}

} // verus!
