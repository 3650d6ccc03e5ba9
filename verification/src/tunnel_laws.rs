//! What holds of the tunnel as a whole: client and server taken together.

use vstd::prelude::*;
use vstd::utf8::encode_utf8;

use crate::client::{client_handshake, handshake_material, inbound_action, InboundView};
use crate::crypto_logic::{
    decrypted, is_fresh, is_sealed_packet, law_replay_is_refused, law_session_keys_agree, nonce_of,
    session_key_of, window_after, window_after_all,
};
use crate::ipv4::ipv4_of;
use crate::models::{ClientConfigView, ManagedClientRecordView, ServerConfigView};
use crate::primitives::{
    hkdf_of, kem_decapsulated, kem_encapsulated, opened, sha256_of, x25519_public, x25519_shared,
    MAX_PLAINTEXT,
};
use crate::server::{
    auth_action, datagram_action, destination_of, find_client, hello_action, packet_action,
    source_of, DatagramView, ServerKeysView,
};
use crate::sessions::{
    has_room, new_session, packet_seen, registered, session_for_ip, without_client, PeerAddr,
    SessionMapsView,
};
use crate::tunnel_protocol::{
    auth_tag, client_auth, client_auth_parts, client_hello, client_hello_id,
    law_client_auth_round_trip, law_client_hello_round_trip, law_messages_are_distinct,
    law_server_hello_round_trip, server_hello, AuthParts,
};

verus! {

/// The hello of an enabled client that the server serves is answered with the server's public
/// keys, and changes nothing.
pub proof fn law_hello_is_answered(
    maps: SessionMapsView,
    config: ServerConfigView,
    keys: ServerKeysView,
    from: PeerAddr,
    client: ManagedClientRecordView,
)
    requires
        config.enabled,
        find_client(config.allowed_clients, client.client_id) == Some(client),
        client.enabled,
        encode_utf8(client.client_id).len() < 65536,
    ensures
        datagram_action(maps, config, keys, from, client_hello(client.client_id)) == (
            DatagramView::HelloReply(server_hello(keys.x_public, keys.pq_public)),
            maps,
        ),
{
    law_client_hello_round_trip(client.client_id, Seq::empty());
    assert(client_hello(client.client_id) + Seq::<u8>::empty() =~= client_hello(client.client_id));
}

/// A client answers the hello of a server: its answer decodes to its identity, its public key, a
/// ciphertext of 1088 bytes and the tag of its tunnel token over both. Its session key is that of
/// what the server's secret shares with the client's public key and of the secret in the
/// ciphertext; where the ciphertext decapsulates to that secret, it is the key that the server
/// derives from its own secrets and the answer.
pub proof fn law_client_answers_the_hello(
    keys: ServerKeysView,
    client_config: ClientConfigView,
    x_secret: Seq<u8>,
    m: Seq<u8>,
)
    requires
        keys.valid(),
        encode_utf8(client_config.client_id).len() < 65536,
        handshake_material(
            client_config,
            server_hello(keys.x_public, keys.pq_public),
            x_secret,
            m,
        ),
    ensures
        ({
            let hello = server_hello(keys.x_public, keys.pq_public);
            let pq_shared = kem_encapsulated(keys.pq_public, m).1;
            &&& client_handshake(client_config, hello, x_secret, m) matches Ok((auth, session_key))
            &&& client_auth_parts(auth) matches Some(parts)
            &&& parts.client_id == client_config.client_id
            &&& parts.client_xpub == x25519_public(x_secret)
            &&& parts.pq_ciphertext == kem_encapsulated(keys.pq_public, m).0
            &&& parts.pq_ciphertext.len() == 1088
            &&& parts.tag == auth_tag(
                client_config.tunnel_token,
                parts.client_xpub,
                parts.pq_ciphertext,
            )
            &&& session_key == session_key_of(
                x25519_shared(keys.x_secret, parts.client_xpub),
                pq_shared,
            )
            &&& kem_decapsulated(keys.pq_secret, parts.pq_ciphertext) == pq_shared ==> session_key
                == session_key_of(
                x25519_shared(keys.x_secret, parts.client_xpub),
                kem_decapsulated(keys.pq_secret, parts.pq_ciphertext),
            )
        }),
{
    law_server_hello_round_trip(keys.x_public, keys.pq_public);
    assert(keys.pq_public.take(1184) =~= keys.pq_public);
    let xpub = x25519_public(x_secret);
    let ciphertext = kem_encapsulated(keys.pq_public, m).0;
    let tag = auth_tag(client_config.tunnel_token, xpub, ciphertext);
    law_client_auth_round_trip(client_config.client_id, xpub, ciphertext, tag);
}

/// The handshake completes: where the client knows the tunnel token of an enabled record and there
/// is room, the server admits it with the very session key that the client derived. The
/// post-quantum half rests on the client's ciphertext decapsulating to the client's secret.
pub proof fn law_handshake_completes(
    maps: SessionMapsView,
    config: ServerConfigView,
    keys: ServerKeysView,
    from: PeerAddr,
    client: ManagedClientRecordView,
    client_config: ClientConfigView,
    x_secret: Seq<u8>,
    m: Seq<u8>,
)
    requires
        config.enabled,
        keys.valid(),
        find_client(config.allowed_clients, client.client_id) == Some(client),
        client.enabled,
        encode_utf8(client.client_id).len() < 65536,
        has_room(maps, config.max_clients as nat, client.client_id),
        ipv4_of(client.assigned_ip) is Some,
        client_config.client_id == client.client_id,
        client_config.tunnel_token == client.tunnel_token,
        handshake_material(
            client_config,
            server_hello(keys.x_public, keys.pq_public),
            x_secret,
            m,
        ),
        kem_decapsulated(keys.pq_secret, kem_encapsulated(keys.pq_public, m).0)
            == kem_encapsulated(keys.pq_public, m).1,
    ensures
        client_handshake(
            client_config,
            server_hello(keys.x_public, keys.pq_public),
            x_secret,
            m,
        ) matches Ok((auth, session_key)) && datagram_action(maps, config, keys, from, auth) == (
            DatagramView::AuthAccepted(client.client_id),
            registered(
                maps,
                from,
                client.client_id,
                ipv4_of(client.assigned_ip)->Some_0,
                session_key,
            ),
        ),
{
    law_server_hello_round_trip(keys.x_public, keys.pq_public);
    assert(keys.pq_public.take(1184) =~= keys.pq_public);
    let xpub = x25519_public(x_secret);
    let (ciphertext, pq_shared) = kem_encapsulated(keys.pq_public, m);
    let tag = auth_tag(client.tunnel_token, xpub, ciphertext);
    let auth = client_auth(client.client_id, xpub, ciphertext, tag);
    law_client_auth_round_trip(client.client_id, xpub, ciphertext, tag);
    law_messages_are_distinct(auth);
    law_session_keys_agree(
        keys.x_secret,
        keys.x_public,
        x_secret,
        xpub,
        keys.pq_secret,
        ciphertext,
        pq_shared,
    );
}

/// A session comes only from an authentication of an enabled client that the server serves, with
/// the tag of its tunnel token, and only while there is room; the session is that client's.
pub proof fn law_sessions_are_authenticated(
    maps: SessionMapsView,
    config: ServerConfigView,
    keys: ServerKeysView,
    from: PeerAddr,
    data: Seq<u8>,
)
    ensures
        ({
            let (action, after) = datagram_action(maps, config, keys, from, data);
            match action {
                DatagramView::AuthAccepted(id) => {
                    &&& config.enabled
                    &&& client_auth_parts(data) matches Some(parts)
                    &&& parts.client_id == id
                    &&& find_client(config.allowed_clients, id) matches Some(client)
                    &&& client.enabled
                    &&& has_room(maps, config.max_clients as nat, id)
                    &&& parts.tag == auth_tag(
                        client.tunnel_token,
                        parts.client_xpub,
                        parts.pq_ciphertext,
                    )
                    &&& ipv4_of(client.assigned_ip) matches Some(ip)
                    &&& after.by_addr[from].assigned_ip == ip
                    &&& after.addr_by_client[id] == from
                },
                _ => {
                    &&& after.addr_by_client == maps.addr_by_client
                    &&& after.addr_by_ip == maps.addr_by_ip
                    &&& after.by_addr.dom() == maps.by_addr.dom()
                    &&& forall|addr: PeerAddr| #[trigger]
                        maps.by_addr.contains_key(addr) ==> after.by_addr[addr].session_key
                            == maps.by_addr[addr].session_key && after.by_addr[addr].assigned_ip
                            == maps.by_addr[addr].assigned_ip
                },
            }
        }),
{
    let (action, after) = datagram_action(maps, config, keys, from, data);
    if !(action is AuthAccepted) {
        assert(after.by_addr.dom() =~= maps.by_addr.dom());
    }
}

/// A packet reaches the tunnel device only where the peer has a session, the packet authenticates
/// under its key, was not seen before, and carries the address that the client was assigned.
pub proof fn law_delivered_packets_are_authentic(
    maps: SessionMapsView,
    config: ServerConfigView,
    keys: ServerKeysView,
    from: PeerAddr,
    data: Seq<u8>,
)
    ensures
        datagram_action(maps, config, keys, from, data).0 matches DatagramView::Deliver(packet) ==> {
            &&& config.enabled
            &&& maps.by_addr.contains_key(from)
            &&& decrypted(maps.by_addr[from].session_key, data) == Some(packet)
            &&& is_fresh(maps.by_addr[from].window, data)
            &&& source_of(packet) == Some(maps.by_addr[from].assigned_ip)
        },
{
}

/// A disabled server acts on nothing.
pub proof fn law_disabled_server_is_silent(
    maps: SessionMapsView,
    config: ServerConfigView,
    keys: ServerKeysView,
    from: PeerAddr,
    data: Seq<u8>,
)
    requires
        !config.enabled,
    ensures
        datagram_action(maps, config, keys, from, data) == (DatagramView::ServerDisabled, maps),
{
}

/// A client that is disabled, or that the server does not serve, gets neither an answer nor a
/// session.
pub proof fn law_unserved_clients_are_refused(
    maps: SessionMapsView,
    config: ServerConfigView,
    keys: ServerKeysView,
    from: PeerAddr,
    data: Seq<u8>,
    client_id: Seq<char>,
)
    requires
        find_client(config.allowed_clients, client_id) matches Some(client) ==> !client.enabled,
        client_hello_id(data) == Some(client_id) || (client_auth_parts(data) matches Some(parts)
            && parts.client_id == client_id),
    ensures
        ({
            let (action, after) = datagram_action(maps, config, keys, from, data);
            after == maps && !(action is HelloReply) && !(action is AuthAccepted)
        }),
{
    law_messages_are_distinct(data);
}

/// A registered session is found by its peer address and by its tunnel address.
pub proof fn law_registered_session_is_reachable(
    maps: SessionMapsView,
    addr: PeerAddr,
    client_id: Seq<char>,
    ip: u32,
    key: Seq<u8>,
)
    ensures
        ({
            let after = registered(maps, addr, client_id, ip, key);
            &&& after.by_addr.contains_key(addr)
            &&& after.by_addr[addr] == new_session(addr, ip, key)
            &&& session_for_ip(after, ip) == Some(new_session(addr, ip, key))
            &&& after.addr_by_client.contains_key(client_id)
            &&& after.addr_by_client[client_id] == addr
        }),
{
}

/// What a client with a session sends reaches the server's tunnel device: a packet from the
/// client's own address, encrypted under the session key, unless its random nonce makes it look
/// like a handshake message or was used before.
pub proof fn law_client_packets_reach_the_server(
    maps: SessionMapsView,
    config: ServerConfigView,
    keys: ServerKeysView,
    from: PeerAddr,
    packet: Seq<u8>,
    datagram: Seq<u8>,
)
    requires
        config.enabled,
        maps.by_addr.contains_key(from),
        is_sealed_packet(maps.by_addr[from].session_key, packet, datagram),
        source_of(packet) == Some(maps.by_addr[from].assigned_ip),
        is_fresh(maps.by_addr[from].window, datagram),
        client_hello_id(datagram) is None,
        client_auth_parts(datagram) is None,
    ensures
        datagram_action(maps, config, keys, from, datagram) == (
            DatagramView::Deliver(packet),
            packet_seen(maps, from, datagram),
        ),
{
}

/// What the server sends to a client reaches the client's tunnel device, unless its random nonce
/// was used before.
pub proof fn law_server_packets_reach_the_client(
    window: Seq<u128>,
    key: Seq<u8>,
    packet: Seq<u8>,
    datagram: Seq<u8>,
)
    requires
        is_sealed_packet(key, packet, datagram),
        is_fresh(window, datagram),
    ensures
        inbound_action(true, window, key, datagram) == InboundView::Deliver(packet),
{
}

/// Every client has the session at its address, no two clients have the same address, there are no
/// other sessions, and every tunnel address leads to a session that it was assigned to.
pub open spec fn coherent(maps: SessionMapsView) -> bool {
    &&& maps.by_addr.dom().finite()
    &&& maps.addr_by_client.dom().finite()
    &&& forall|id: Seq<char>| #[trigger]
        maps.addr_by_client.contains_key(id) ==> maps.by_addr.contains_key(maps.addr_by_client[id])
    &&& forall|a: Seq<char>, b: Seq<char>|
        #![trigger maps.addr_by_client[a], maps.addr_by_client[b]]
        maps.addr_by_client.contains_key(a) && maps.addr_by_client.contains_key(b)
            && maps.addr_by_client[a] == maps.addr_by_client[b] ==> a == b
    &&& forall|addr: PeerAddr| #[trigger]
        maps.by_addr.contains_key(addr) ==> exists|id: Seq<char>|
            maps.addr_by_client.contains_key(id) && #[trigger] maps.addr_by_client[id] == addr
    &&& forall|ip: u32| #[trigger]
        maps.addr_by_ip.contains_key(ip) ==> maps.by_addr.contains_key(maps.addr_by_ip[ip])
            && maps.by_addr[maps.addr_by_ip[ip]].assigned_ip == ip
}

/// A server starts with coherent sessions.
pub proof fn law_no_sessions_are_coherent()
    ensures
        coherent(
            SessionMapsView {
                by_addr: Map::empty(),
                addr_by_client: Map::empty(),
                addr_by_ip: Map::empty(),
            },
        ),
{
}

/// With coherent sessions, a packet for a tunnel address goes to the client that was assigned that
/// address.
pub proof fn law_packets_go_to_the_right_client(maps: SessionMapsView, ip: u32)
    requires
        coherent(maps),
    ensures
        session_for_ip(maps, ip) matches Some(session) ==> session.assigned_ip == ip,
{
}

/// The number of sessions stays within the limit, as long as no client takes over the address of
/// another: a datagram leaves coherent sessions coherent, and their number does not rise above the
/// limit.
pub proof fn law_session_limit_holds(
    maps: SessionMapsView,
    config: ServerConfigView,
    keys: ServerKeysView,
    from: PeerAddr,
    data: Seq<u8>,
)
    requires
        coherent(maps),
        client_auth_parts(data) matches Some(parts) ==> forall|id: Seq<char>|
            maps.addr_by_client.contains_key(id) && #[trigger] maps.addr_by_client[id] == from
                ==> id == parts.client_id,
    ensures
        ({
            let after = datagram_action(maps, config, keys, from, data).1;
            &&& coherent(after)
            &&& after.by_addr.dom().len() <= maps.by_addr.dom().len() || after.by_addr.dom().len()
                <= config.max_clients
        }),
{
    let (action, after) = datagram_action(maps, config, keys, from, data);
    if action is AuthAccepted {
        let id = client_auth_parts(data)->Some_0.client_id;
        let others = without_client(maps, id);
        if maps.addr_by_client.contains_key(id) {
            let previous = maps.addr_by_client[id];
            assert(maps.by_addr.contains_key(previous));
            assert(others.by_addr =~= maps.by_addr.remove(previous));
            assert(after.by_addr.dom() =~= maps.by_addr.dom().remove(previous).insert(from));
        } else {
            assert(after.by_addr.dom() =~= maps.by_addr.dom().insert(from));
        }
        assert(after.addr_by_client.dom() =~= maps.addr_by_client.dom().insert(id));
        assert forall|other: Seq<char>| #[trigger]
            after.addr_by_client.contains_key(other) implies after.by_addr.contains_key(
            after.addr_by_client[other],
        ) by {
            if other != id {
                assert(maps.addr_by_client.contains_key(other));
                assert(maps.by_addr.contains_key(maps.addr_by_client[other]));
            }
        }
        assert forall|addr: PeerAddr| #[trigger]
            after.by_addr.contains_key(addr) implies exists|other: Seq<char>|
            after.addr_by_client.contains_key(other) && #[trigger] after.addr_by_client[other]
                == addr by {
            if addr == from {
                assert(after.addr_by_client[id] == addr);
            } else {
                assert(maps.by_addr.contains_key(addr));
                let other = choose|other: Seq<char>|
                    maps.addr_by_client.contains_key(other) && #[trigger] maps.addr_by_client[other]
                        == addr;
                assert(after.addr_by_client[other] == addr);
            }
        }
        assert forall|a: Seq<char>, b: Seq<char>|
            #![trigger after.addr_by_client[a], after.addr_by_client[b]]
            after.addr_by_client.contains_key(a) && after.addr_by_client.contains_key(b)
                && after.addr_by_client[a] == after.addr_by_client[b] implies a == b by {
            if a != id && b != id {
                assert(maps.addr_by_client[a] == maps.addr_by_client[b]);
            } else if a != id {
                assert(maps.addr_by_client[a] == from);
            } else if b != id {
                assert(maps.addr_by_client[b] == from);
            }
        }
        assert forall|ip: u32| #[trigger] after.addr_by_ip.contains_key(ip) implies after.by_addr.contains_key(
            after.addr_by_ip[ip],
        ) && after.by_addr[after.addr_by_ip[ip]].assigned_ip == ip by {
            if after.addr_by_ip[ip] != from {
                assert(maps.addr_by_ip.contains_key(ip));
            } else if maps.addr_by_ip.contains_key(ip) && maps.addr_by_ip[ip] == from {
                assert(maps.by_addr.contains_key(from));
                let other = choose|other: Seq<char>|
                    maps.addr_by_client.contains_key(other) && #[trigger] maps.addr_by_client[other]
                        == from;
                assert(other == id);
            }
        }
    } else {
        assert(after.by_addr.dom() =~= maps.by_addr.dom());
        assert forall|addr: PeerAddr| #[trigger]
            after.by_addr.contains_key(addr) implies exists|other: Seq<char>|
            after.addr_by_client.contains_key(other) && #[trigger] after.addr_by_client[other]
                == addr by {
            assert(maps.by_addr.contains_key(addr));
            let other = choose|other: Seq<char>|
                maps.addr_by_client.contains_key(other) && #[trigger] maps.addr_by_client[other]
                    == addr;
            assert(after.addr_by_client[other] == addr);
        }
        assert forall|ip: u32| #[trigger] after.addr_by_ip.contains_key(ip) implies after.by_addr.contains_key(
            after.addr_by_ip[ip],
        ) && after.by_addr[after.addr_by_ip[ip]].assigned_ip == ip by {
            assert(maps.addr_by_ip.contains_key(ip));
        }
    }
}

/// The sessions after a peer has sent some data packets.
pub open spec fn after_packets(maps: SessionMapsView, from: PeerAddr, packets: Seq<Seq<u8>>) -> SessionMapsView
    decreases packets.len(),
{
    if packets.len() == 0 {
        maps
    } else {
        packet_action(after_packets(maps, from, packets.drop_last()), from, packets.last()).1
    }
}

/// What data packets change: the replay window of their session, and nothing else.
proof fn lemma_after_packets(maps: SessionMapsView, from: PeerAddr, packets: Seq<Seq<u8>>)
    requires
        maps.by_addr.contains_key(from),
    ensures
        ({
            let after = after_packets(maps, from, packets);
            let session = maps.by_addr[from];
            &&& after.by_addr.contains_key(from)
            &&& after.by_addr[from].window == window_after_all(
                session.window,
                session.capacity,
                packets,
            )
            &&& after.by_addr[from].capacity == session.capacity
        }),
    decreases packets.len(),
{
    if packets.len() > 0 {
        lemma_after_packets(maps, from, packets.drop_last());
    }
}

/// A datagram that a server delivered is refused when it comes again before as many other data
/// packets of that peer as the replay window holds.
pub proof fn law_server_refuses_replays(
    maps: SessionMapsView,
    from: PeerAddr,
    data: Seq<u8>,
    later: Seq<Seq<u8>>,
)
    requires
        packet_action(maps, from, data).0 is Deliver,
        maps.by_addr[from].window.len() <= maps.by_addr[from].capacity,
        later.len() < maps.by_addr[from].capacity,
    ensures
        packet_action(
            after_packets(packet_action(maps, from, data).1, from, later),
            from,
            data,
        ).0 == DatagramView::Replayed,
{
    let session = maps.by_addr[from];
    lemma_after_packets(packet_action(maps, from, data).1, from, later);
    law_replay_is_refused(session.window, session.capacity, data, later);
}

/// A datagram that a client delivered is refused when it comes again before as many other packets
/// as the replay window holds.
pub proof fn law_client_refuses_replays(
    window: Seq<u128>,
    capacity: nat,
    key: Seq<u8>,
    data: Seq<u8>,
    later: Seq<Seq<u8>>,
)
    requires
        inbound_action(true, window, key, data) is Deliver,
        window.len() <= capacity,
        later.len() < capacity,
    ensures
        inbound_action(
            true,
            window_after_all(window_after(window, capacity, data), capacity, later),
            key,
            data,
        ) == InboundView::Replayed,
{
    law_replay_is_refused(window, capacity, data, later);
}

/// Registering a session leaves the sessions of other clients alone: at every peer address but the
/// new one and the one that the client had before, there is the same session, with its key, its
/// replay window and its tunnel address, or none as before; every other client has the address that
/// it had; and every tunnel address but the new one and the one that the client's previous session
/// had leads where it led.
pub proof fn law_registration_leaves_others_alone(
    maps: SessionMapsView,
    addr: PeerAddr,
    client_id: Seq<char>,
    ip: u32,
    key: Seq<u8>,
    other: PeerAddr,
    other_id: Seq<char>,
    other_ip: u32,
)
    requires
        other != addr,
        maps.addr_by_client.contains_key(client_id) ==> maps.addr_by_client[client_id] != other,
        other_id != client_id,
        other_ip != ip,
        maps.addr_by_client.contains_key(client_id) && maps.by_addr.contains_key(
            maps.addr_by_client[client_id],
        ) ==> maps.by_addr[maps.addr_by_client[client_id]].assigned_ip != other_ip,
    ensures
        ({
            let after = registered(maps, addr, client_id, ip, key);
            &&& after.by_addr.contains_key(other) == maps.by_addr.contains_key(other)
            &&& maps.by_addr.contains_key(other) ==> after.by_addr[other].session_key
                == maps.by_addr[other].session_key && after.by_addr[other].window
                == maps.by_addr[other].window && after.by_addr[other].capacity
                == maps.by_addr[other].capacity && after.by_addr[other].assigned_ip
                == maps.by_addr[other].assigned_ip && after.by_addr[other].addr
                == maps.by_addr[other].addr
            &&& after.addr_by_client.contains_key(other_id) == maps.addr_by_client.contains_key(
                other_id,
            )
            &&& maps.addr_by_client.contains_key(other_id) ==> after.addr_by_client[other_id]
                == maps.addr_by_client[other_id]
            &&& after.addr_by_ip.contains_key(other_ip) == maps.addr_by_ip.contains_key(other_ip)
            &&& maps.addr_by_ip.contains_key(other_ip) ==> after.addr_by_ip[other_ip]
                == maps.addr_by_ip[other_ip]
        }),
{
}

/// A client has one session, the one that it registered last: it stands at the new peer address,
/// with the new key and tunnel address and an empty replay window of 4096 nonces, and is found by
/// the client and by the tunnel address; at the address that the client had before there is none
/// any more, and the tunnel address that it had before leads nowhere, unless they are the new ones.
pub proof fn law_registration_replaces_the_session(
    maps: SessionMapsView,
    addr: PeerAddr,
    client_id: Seq<char>,
    ip: u32,
    key: Seq<u8>,
)
    ensures
        ({
            let after = registered(maps, addr, client_id, ip, key);
            &&& after.by_addr.contains_key(addr)
            &&& after.by_addr[addr].session_key == key
            &&& after.by_addr[addr].assigned_ip == ip
            &&& after.by_addr[addr].addr == addr
            &&& after.by_addr[addr].window.len() == 0
            &&& after.by_addr[addr].capacity == 4096
            &&& after.addr_by_client.contains_key(client_id)
            &&& after.addr_by_client[client_id] == addr
            &&& after.addr_by_ip.contains_key(ip)
            &&& after.addr_by_ip[ip] == addr
            &&& maps.addr_by_client.contains_key(client_id) && maps.by_addr.contains_key(
                maps.addr_by_client[client_id],
            ) ==> {
                let previous = maps.addr_by_client[client_id];
                &&& previous != addr ==> !after.by_addr.contains_key(previous)
                &&& maps.by_addr[previous].assigned_ip != ip ==> !after.addr_by_ip.contains_key(
                    maps.by_addr[previous].assigned_ip,
                )
            }
        }),
{
}

/// Whether a client may have a session is decided by the number of sessions and by whether it is
/// known: below the limit everybody may, at the limit only a client that was admitted before.
pub proof fn law_room_for_sessions(maps: SessionMapsView, max_clients: nat, client_id: Seq<char>)
    ensures
        maps.by_addr.dom().len() < max_clients ==> has_room(maps, max_clients, client_id),
        maps.addr_by_client.contains_key(client_id) ==> has_room(maps, max_clients, client_id),
        maps.by_addr.dom().len() >= max_clients && !maps.addr_by_client.contains_key(client_id)
            ==> !has_room(maps, max_clients, client_id),
{
}

/// A packet for a tunnel address goes to the session at the peer address that the tunnel address
/// leads to, and nowhere where it leads nowhere.
pub proof fn law_tunnel_addresses_lead_to_sessions(maps: SessionMapsView, ip: u32, addr: PeerAddr)
    ensures
        maps.addr_by_ip.contains_key(ip) && maps.addr_by_ip[ip] == addr
            && maps.by_addr.contains_key(addr) ==> session_for_ip(maps, ip) == Some(
            maps.by_addr[addr],
        ),
        !maps.addr_by_ip.contains_key(ip) ==> session_for_ip(maps, ip) is None,
        maps.addr_by_ip.contains_key(ip) && !maps.by_addr.contains_key(maps.addr_by_ip[ip])
            ==> session_for_ip(maps, ip) is None,
{
}

/// A data packet changes nothing but the replay window of its own session: the session keeps its
/// key, its tunnel address and the size of its window, and every other session stays as it is.
pub proof fn law_packets_change_one_window(
    maps: SessionMapsView,
    from: PeerAddr,
    data: Seq<u8>,
    other: PeerAddr,
)
    requires
        other != from,
    ensures
        ({
            let after = packet_action(maps, from, data).1;
            &&& after.addr_by_client == maps.addr_by_client
            &&& after.addr_by_ip == maps.addr_by_ip
            &&& after.by_addr.contains_key(other) == maps.by_addr.contains_key(other)
            &&& maps.by_addr.contains_key(other) ==> after.by_addr[other] == maps.by_addr[other]
            &&& after.by_addr.contains_key(from) == maps.by_addr.contains_key(from)
            &&& maps.by_addr.contains_key(from) ==> {
                &&& after.by_addr[from].session_key == maps.by_addr[from].session_key
                &&& after.by_addr[from].assigned_ip == maps.by_addr[from].assigned_ip
                &&& after.by_addr[from].addr == maps.by_addr[from].addr
                &&& after.by_addr[from].capacity == maps.by_addr[from].capacity
                &&& is_fresh(maps.by_addr[from].window, data) && maps.by_addr[from].capacity > 0
                    ==> after.by_addr[from].window.last() == nonce_of(data) as u128
                &&& !is_fresh(maps.by_addr[from].window, data) ==> after.by_addr[from].window
                    == maps.by_addr[from].window
            }
        }),
{
}

/// What becomes of a data packet: a peer without a session is told nothing; a packet that is too
/// short for a nonce or whose nonce the window holds is a replay; a fresh one that does not open
/// under the session key is dropped; one that opens is delivered exactly where it is an IPv4
/// packet from the tunnel address of the session.
pub proof fn law_packet_decisions(maps: SessionMapsView, from: PeerAddr, data: Seq<u8>)
    ensures
        ({
            let action = packet_action(maps, from, data).0;
            let session = maps.by_addr[from];
            let replayed = data.len() < 12 || exists|i: int|
                0 <= i < session.window.len() && #[trigger] session.window[i] == nonce_of(
                    data,
                ) as u128;
            &&& !maps.by_addr.contains_key(from) ==> action == DatagramView::NoSession
            &&& maps.by_addr.contains_key(from) && replayed ==> action == DatagramView::Replayed
            &&& maps.by_addr.contains_key(from) && !replayed && decrypted(
                session.session_key,
                data,
            ) is None ==> action == DatagramView::Undecryptable
            &&& maps.by_addr.contains_key(from) && !replayed ==> (decrypted(
                session.session_key,
                data,
            ) matches Some(packet) ==> action == if packet.len() >= 20 && packet[0] as int / 16
                == 4 && packet[12] as int * 16777216 + packet[13] as int * 65536
                + packet[14] as int * 256 + packet[15] as int == session.assigned_ip {
                DatagramView::Deliver(packet)
            } else {
                DatagramView::WrongSource
            })
        }),
{
    if maps.by_addr.contains_key(from) {
        let session = maps.by_addr[from];
        assert(session.window.contains(nonce_of(data) as u128) == exists|i: int|
            0 <= i < session.window.len() && #[trigger] session.window[i] == nonce_of(
                data,
            ) as u128);
    }
}

/// The addresses of an IPv4 packet: the source stands in the bytes 12 to 15, the destination in the
/// bytes 16 to 19, both most significant byte first. Shorter packets and packets of another version
/// have none.
pub proof fn law_packet_addresses(packet: Seq<u8>)
    ensures
        packet.len() >= 20 && 64 <= packet[0] < 80 ==> (source_of(packet) matches Some(ip) && ip
            == packet[12] as int * 16777216 + packet[13] as int * 65536 + packet[14] as int * 256
            + packet[15] as int),
        packet.len() >= 20 && 64 <= packet[0] < 80 ==> (destination_of(packet) matches Some(ip)
            && ip == packet[16] as int * 16777216 + packet[17] as int * 65536
            + packet[18] as int * 256 + packet[19] as int),
        packet.len() < 20 || packet[0] < 64 || packet[0] >= 80 ==> source_of(packet) is None
            && destination_of(packet) is None,
{
}

/// What becomes of an authentication, decided by the first record with its identity: none, a
/// disabled one, no room, a tag that is not the digest of the tunnel token, the public key and the
/// ciphertext, or a ciphertext of the wrong length, and the sessions stay as they are; else the
/// client has a session at its peer address, whose key is derived from what the server's X25519
/// secret shares with the client's public key and from what the ciphertext decapsulates to.
pub proof fn law_authentication_decisions(
    maps: SessionMapsView,
    config: ServerConfigView,
    keys: ServerKeysView,
    from: PeerAddr,
    parts: AuthParts,
    k: int,
)
    requires
        0 <= k < config.allowed_clients.len(),
        config.allowed_clients[k].client_id == parts.client_id,
        forall|j: int|
            0 <= j < k ==> (#[trigger] config.allowed_clients[j]).client_id != parts.client_id,
    ensures
        ({
            let (action, after) = auth_action(maps, config, keys, from, parts);
            let client = config.allowed_clients[k];
            let id = parts.client_id;
            let room = maps.by_addr.dom().len() < config.max_clients
                || maps.addr_by_client.contains_key(id);
            let right_tag = parts.tag == sha256_of(
                encode_utf8(client.tunnel_token) + parts.client_xpub + parts.pq_ciphertext,
            );
            &&& !client.enabled ==> action == DatagramView::AuthDisabled(id) && after == maps
            &&& client.enabled && !room ==> action == DatagramView::AuthLimit && after == maps
            &&& client.enabled && room && !right_tag ==> action == DatagramView::AuthTagMismatch(id)
                && after == maps
            &&& client.enabled && room && right_tag && parts.pq_ciphertext.len() != 1088 ==> action
                == DatagramView::AuthUndecodable && after == maps
            &&& client.enabled && room && right_tag && parts.pq_ciphertext.len() == 1088 ==> (
            ipv4_of(client.assigned_ip) matches Some(ip) ==> action == DatagramView::AuthAccepted(
                id,
            ) && after.by_addr.contains_key(from) && after.by_addr[from].assigned_ip == ip
                && after.by_addr[from].session_key == hkdf_of(
                sha256_of(
                    x25519_shared(keys.x_secret, parts.client_xpub) + kem_decapsulated(
                        keys.pq_secret,
                        parts.pq_ciphertext,
                    ),
                ),
                encode_utf8("ntz-proto-hybrid-v1"@),
            ) && after.addr_by_client[id] == from && after.addr_by_ip[ip] == from)
        }),
{
    lemma_first_record(config.allowed_clients, parts.client_id, k);
}

/// The first record with an identity is the one that is found.
proof fn lemma_first_record(clients: Seq<ManagedClientRecordView>, client_id: Seq<char>, k: int)
    requires
        0 <= k < clients.len(),
        clients[k].client_id == client_id,
        forall|j: int| 0 <= j < k ==> (#[trigger] clients[j]).client_id != client_id,
    ensures
        find_client(clients, client_id) == Some(clients[k]),
    decreases k,
{
    if k > 0 {
        assert(clients[0].client_id != client_id);
        assert forall|j: int| 0 <= j < k - 1 implies (#[trigger] clients.skip(1)[j]).client_id
            != client_id by {
            assert(clients[j + 1].client_id != client_id);
        }
        lemma_first_record(clients.skip(1), client_id, k - 1);
    }
}

/// No record is found where none has the identity.
proof fn lemma_no_record(clients: Seq<ManagedClientRecordView>, client_id: Seq<char>)
    requires
        forall|j: int| 0 <= j < clients.len() ==> (#[trigger] clients[j]).client_id != client_id,
    ensures
        find_client(clients, client_id) is None,
    decreases clients.len(),
{
    if clients.len() > 0 {
        assert(clients[0].client_id != client_id);
        assert forall|j: int| 0 <= j < clients.skip(1).len() implies (#[trigger] clients.skip(
            1,
        )[j]).client_id != client_id by {
            assert(clients[j + 1].client_id != client_id);
        }
        lemma_no_record(clients.skip(1), client_id);
    }
}

/// A client that no record names gets nothing: its hello and its authentication are ignored, and
/// the sessions stay as they are.
pub proof fn law_strangers_get_nothing(
    maps: SessionMapsView,
    config: ServerConfigView,
    keys: ServerKeysView,
    from: PeerAddr,
    parts: AuthParts,
)
    requires
        forall|j: int|
            0 <= j < config.allowed_clients.len() ==> (
            #[trigger] config.allowed_clients[j]).client_id != parts.client_id,
    ensures
        auth_action(maps, config, keys, from, parts) == (
            DatagramView::AuthUnknown(parts.client_id),
            maps,
        ),
        hello_action(config, keys, parts.client_id) == DatagramView::HelloUnknown(parts.client_id),
{
    lemma_no_record(config.allowed_clients, parts.client_id);
}

/// A hello is decided by the first record with its identity: an enabled client is answered with
/// the bytes `NTZSHLO1` and the server's two public keys, a disabled one is not answered.
pub proof fn law_hello_decisions(
    config: ServerConfigView,
    keys: ServerKeysView,
    id: Seq<char>,
    k: int,
)
    requires
        0 <= k < config.allowed_clients.len(),
        config.allowed_clients[k].client_id == id,
        forall|j: int| 0 <= j < k ==> (#[trigger] config.allowed_clients[j]).client_id != id,
    ensures
        config.allowed_clients[k].enabled ==> hello_action(config, keys, id)
            == DatagramView::HelloReply(
            seq![78u8, 84, 90, 83, 72, 76, 79, 49] + keys.x_public + keys.pq_public,
        ),
        !config.allowed_clients[k].enabled ==> hello_action(config, keys, id)
            == DatagramView::HelloDisabled(id),
{
    lemma_first_record(config.allowed_clients, id, k);
}

/// How a datagram is read: an enabled server takes what starts with `NTZHELLO` and holds an identity
/// as a hello, what starts with `NTZAUTH1` and holds an identity, a key and a tag as an
/// authentication, and everything else as a data packet.
pub proof fn law_datagrams_are_told_apart(
    maps: SessionMapsView,
    config: ServerConfigView,
    keys: ServerKeysView,
    from: PeerAddr,
    data: Seq<u8>,
)
    requires
        config.enabled,
    ensures
        client_hello_id(data) matches Some(id) ==> data.take(8) == seq![
            78u8,
            84,
            90,
            72,
            69,
            76,
            76,
            79,
        ] && datagram_action(maps, config, keys, from, data) == (
            hello_action(config, keys, id),
            maps,
        ),
        client_auth_parts(data) matches Some(parts) ==> data.take(8) == seq![
            78u8,
            84,
            90,
            65,
            85,
            84,
            72,
            49,
        ] && datagram_action(maps, config, keys, from, data) == auth_action(
            maps,
            config,
            keys,
            from,
            parts,
        ),
        client_hello_id(data) is None && client_auth_parts(data) is None ==> datagram_action(
            maps,
            config,
            keys,
            from,
            data,
        ) == packet_action(maps, from, data),
{
    law_messages_are_distinct(data);
}

/// What becomes of a datagram from the server: a disabled client looks at none; a packet that is too
/// short for a nonce or whose nonce the window holds is a replay; any other is delivered exactly
/// where it opens under the session key.
pub proof fn law_inbound_decisions(window: Seq<u128>, key: Seq<u8>, data: Seq<u8>)
    ensures
        ({
            let replayed = data.len() < 12 || exists|i: int|
                0 <= i < window.len() && #[trigger] window[i] == nonce_of(data) as u128;
            &&& inbound_action(false, window, key, data) == InboundView::Disabled
            &&& replayed ==> inbound_action(true, window, key, data) == InboundView::Replayed
            &&& !replayed ==> inbound_action(true, window, key, data) == match decrypted(key, data) {
                Some(packet) => InboundView::Deliver(packet),
                None => InboundView::Undecryptable,
            }
        }),
{
    assert(window.contains(nonce_of(data) as u128) == exists|i: int|
        0 <= i < window.len() && #[trigger] window[i] == nonce_of(data) as u128);
}

/// A packet is a nonce of 12 bytes and a ciphertext: it decrypts to what the ciphertext opens to
/// under that nonce, for every length that one nonce can encrypt.
pub proof fn law_packet_layout(key: Seq<u8>, nonce: Seq<u8>, ciphertext: Seq<u8>)
    requires
        nonce.len() == 12,
        ciphertext.len() <= MAX_PLAINTEXT + 16,
    ensures
        decrypted(key, nonce + ciphertext) == opened(key, nonce, ciphertext),
        MAX_PLAINTEXT == 64 * (0x1_0000_0000 - 2),
{
    assert((nonce + ciphertext).take(12) =~= nonce);
    assert((nonce + ciphertext).skip(12) =~= ciphertext);
}

/// Clients are served at once: after two of them have registered, from different peer addresses and
/// with different tunnel addresses, each has its own session with its own key, and packets for
/// either tunnel address go to the client that was assigned it.
pub proof fn law_clients_are_served_at_once(
    maps: SessionMapsView,
    a: (PeerAddr, Seq<char>, u32, Seq<u8>),
    b: (PeerAddr, Seq<char>, u32, Seq<u8>),
)
    requires
        coherent(maps),
        a.0 != b.0,
        a.1 != b.1,
        a.2 != b.2,
        maps.addr_by_client.contains_key(b.1) ==> maps.addr_by_client[b.1] != a.0
            && maps.by_addr[maps.addr_by_client[b.1]].assigned_ip != a.2,
    ensures
        ({
            let after = registered(
                registered(maps, a.0, a.1, a.2, a.3),
                b.0,
                b.1,
                b.2,
                b.3,
            );
            &&& after.by_addr.contains_key(a.0) && after.by_addr[a.0].session_key == a.3
            &&& after.by_addr.contains_key(b.0) && after.by_addr[b.0].session_key == b.3
            &&& after.by_addr[a.0].assigned_ip == a.2
            &&& after.by_addr[b.0].assigned_ip == b.2
            &&& session_for_ip(after, a.2) matches Some(session) && session.session_key == a.3
                && session.addr == a.0
            &&& session_for_ip(after, b.2) matches Some(session) && session.session_key == b.3
                && session.addr == b.0
        }),
{
}

} // verus!
