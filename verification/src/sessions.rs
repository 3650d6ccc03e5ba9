//! The sessions of a VPN server: by peer address, by client and by tunnel address.

use std::collections::HashMap;
use vstd::prelude::*;

use crate::assoc::{
    assoc_map, distinct_keys, lemma_assoc, lemma_assoc_push, lemma_assoc_remove,
    lemma_assoc_update,
};
use crate::crypto_logic::{is_fresh, law_window_is_bounded, window_after, ReplayGuard, DEFAULT_REPLAY_WINDOW};
use crate::ipv4::{ipv4_of, ipv4_syntax_error, parse_ipv4};
use crate::text::text_eq;

verus! {

broadcast use vstd::std_specs::hash::group_hash_axioms;

/// The address of a peer on the outside network.
#[allow(inconsistent_fields)]
#[derive(Clone, Copy, Debug, PartialEq, Eq, Structural)]
pub enum PeerAddr {
    V4 { ip: u32, port: u16 },
    V6 { ip: u128, port: u16, flowinfo: u32, scope_id: u32 },
}

/// A client that completed the handshake.
#[derive(Debug)]
pub struct ClientSession {
    pub assigned_ip: u32,
    pub addr: PeerAddr,
    pub session_key: [u8; 32],
    pub replay_guard: ReplayGuard,
}

/// The view of a session.
#[verifier::ext_equal]
pub struct SessionView {
    pub assigned_ip: u32,
    pub addr: PeerAddr,
    pub session_key: Seq<u8>,
    pub window: Seq<u128>,
    pub capacity: nat,
}

impl View for ClientSession {
    type V = SessionView;

    open spec fn view(&self) -> SessionView {
        SessionView {
            assigned_ip: self.assigned_ip,
            addr: self.addr,
            session_key: self.session_key@,
            window: self.replay_guard.window(),
            capacity: self.replay_guard.capacity(),
        }
    }
}

/// The sessions of a server.
#[derive(Debug)]
pub struct SessionMaps {
    by_addr: Vec<ClientSession>,
    addr_by_client: Vec<(String, PeerAddr)>,
    addr_by_ip: HashMap<u32, PeerAddr>,
}

/// The view of the sessions of a server: three maps.
#[verifier::ext_equal]
pub struct SessionMapsView {
    pub by_addr: Map<PeerAddr, SessionView>,
    pub addr_by_client: Map<Seq<char>, PeerAddr>,
    pub addr_by_ip: Map<u32, PeerAddr>,
}

/// Sessions with their addresses.
pub open spec fn session_pairs(sessions: Seq<ClientSession>) -> Seq<(PeerAddr, SessionView)> {
    Seq::new(sessions.len(), |i: int| (sessions[i].addr, sessions[i]@))
}

/// Clients with their addresses.
pub open spec fn client_pairs(clients: Seq<(String, PeerAddr)>) -> Seq<(Seq<char>, PeerAddr)> {
    Seq::new(clients.len(), |i: int| (clients[i].0@, clients[i].1))
}

/// A session that was just agreed on, with nothing received yet.
pub open spec fn new_session(addr: PeerAddr, ip: u32, key: Seq<u8>) -> SessionView {
    SessionView {
        assigned_ip: ip,
        addr,
        session_key: key,
        window: Seq::empty(),
        capacity: DEFAULT_REPLAY_WINDOW as nat,
    }
}

/// The sessions without the one that a client has at present.
pub open spec fn without_client(maps: SessionMapsView, client_id: Seq<char>) -> SessionMapsView {
    if maps.addr_by_client.contains_key(client_id) && maps.by_addr.contains_key(
        maps.addr_by_client[client_id],
    ) {
        let previous = maps.addr_by_client[client_id];
        SessionMapsView {
            by_addr: maps.by_addr.remove(previous),
            addr_by_client: maps.addr_by_client,
            addr_by_ip: maps.addr_by_ip.remove(maps.by_addr[previous].assigned_ip),
        }
    } else {
        maps
    }
}

/// The sessions after a client has been given a session at `addr`, in place of the one that it
/// had.
pub open spec fn registered(
    maps: SessionMapsView,
    addr: PeerAddr,
    client_id: Seq<char>,
    ip: u32,
    key: Seq<u8>,
) -> SessionMapsView {
    let others = without_client(maps, client_id);
    SessionMapsView {
        by_addr: others.by_addr.insert(addr, new_session(addr, ip, key)),
        addr_by_client: others.addr_by_client.insert(client_id, addr),
        addr_by_ip: others.addr_by_ip.insert(ip, addr),
    }
}

/// The sessions after the replay window of the session at `addr` has seen a packet.
pub open spec fn packet_seen(
    maps: SessionMapsView,
    addr: PeerAddr,
    data: Seq<u8>,
) -> SessionMapsView {
    let session = maps.by_addr[addr];
    SessionMapsView {
        by_addr: maps.by_addr.insert(
            addr,
            SessionView { window: window_after(session.window, session.capacity, data), ..session },
        ),
        ..maps
    }
}

/// The session that packets for a tunnel address go to.
pub open spec fn session_for_ip(maps: SessionMapsView, ip: u32) -> Option<SessionView> {
    if maps.addr_by_ip.contains_key(ip) && maps.by_addr.contains_key(maps.addr_by_ip[ip]) {
        Some(maps.by_addr[maps.addr_by_ip[ip]])
    } else {
        None
    }
}

/// Whether a client may have a session: it has one already, or there is room for one more.
pub open spec fn has_room(maps: SessionMapsView, max_clients: nat, client_id: Seq<char>) -> bool {
    maps.by_addr.dom().len() < max_clients || maps.addr_by_client.contains_key(client_id)
}

impl View for SessionMaps {
    type V = SessionMapsView;

    closed spec fn view(&self) -> SessionMapsView {
        SessionMapsView {
            by_addr: assoc_map(session_pairs(self.by_addr@)),
            addr_by_client: assoc_map(client_pairs(self.addr_by_client@)),
            addr_by_ip: self.addr_by_ip@,
        }
    }
}

impl Default for SessionMaps {
    /// No sessions.
    fn default() -> (maps: Self)
        ensures
            maps.wf(),
            maps@ == (SessionMapsView {
                by_addr: Map::empty(),
                addr_by_client: Map::empty(),
                addr_by_ip: Map::empty(),
            }),
    {
        SessionMaps { by_addr: Vec::new(), addr_by_client: Vec::new(), addr_by_ip: HashMap::new() }
    }
}

impl SessionMaps {
    /// No address and no client occurs twice, and every replay window is well formed.
    pub closed spec fn wf(&self) -> bool {
        &&& distinct_keys(session_pairs(self.by_addr@))
        &&& distinct_keys(client_pairs(self.addr_by_client@))
        &&& forall|i: int|
            0 <= i < self.by_addr@.len() ==> (#[trigger] self.by_addr@[i]).replay_guard.wf()
    }

    /// Where the session at `addr` stands.
    fn position(&self, addr: PeerAddr) -> (r: Option<usize>)
        requires
            self.wf(),
        ensures
            match r {
                Some(i) => i < self.by_addr@.len() && self.by_addr@[i as int].addr == addr
                    && self@.by_addr.contains_key(addr) && self@.by_addr[addr]
                    == self.by_addr@[i as int]@,
                None => !self@.by_addr.contains_key(addr),
            },
    {
        let ghost pairs = session_pairs(self.by_addr@);
        proof {
            lemma_assoc(pairs);
        }
        let n: usize = self.by_addr.len();
        for i in 0..n
            invariant
                n == self.by_addr@.len(),
                self.wf(),
                pairs == session_pairs(self.by_addr@),
                forall|i: int|
                    0 <= i < pairs.len() ==> assoc_map(pairs).contains_key((#[trigger] pairs[i]).0)
                        && assoc_map(pairs)[pairs[i].0] == pairs[i].1,
                forall|j: int| 0 <= j < i ==> (#[trigger] pairs[j]).0 != addr,
        {
            assert(pairs[i as int] == (self.by_addr@[i as int].addr, self.by_addr@[i as int]@));
            if self.by_addr[i].addr == addr {
                return Some(i);
            }
        }
        None
    }

    /// Where a client stands.
    fn client_position(&self, client_id: &str) -> (r: Option<usize>)
        requires
            self.wf(),
        ensures
            match r {
                Some(i) => i < self.addr_by_client@.len() && self.addr_by_client@[i as int].0@
                    == client_id@ && self@.addr_by_client.contains_key(client_id@)
                    && self@.addr_by_client[client_id@] == self.addr_by_client@[i as int].1,
                None => !self@.addr_by_client.contains_key(client_id@),
            },
    {
        let ghost pairs = client_pairs(self.addr_by_client@);
        proof {
            lemma_assoc(pairs);
        }
        let n: usize = self.addr_by_client.len();
        for i in 0..n
            invariant
                n == self.addr_by_client@.len(),
                pairs == client_pairs(self.addr_by_client@),
                forall|i: int|
                    0 <= i < pairs.len() ==> assoc_map(pairs).contains_key((#[trigger] pairs[i]).0)
                        && assoc_map(pairs)[pairs[i].0] == pairs[i].1,
                forall|j: int| 0 <= j < i ==> (#[trigger] pairs[j]).0 != client_id@,
        {
            assert(pairs[i as int] == (
                self.addr_by_client@[i as int].0@,
                self.addr_by_client@[i as int].1,
            ));
            if text_eq(self.addr_by_client[i].0.as_str(), client_id) {
                return Some(i);
            }
        }
        None
    }

    /// How many sessions there are.
    pub fn session_count(&self) -> (n: usize)
        requires
            self.wf(),
        ensures
            n == self@.by_addr.dom().len(),
            self@.by_addr.dom().finite(),
    {
        proof {
            lemma_assoc(session_pairs(self.by_addr@));
        }
        self.by_addr.len()
    }

    /// Whether a client may have a session: it has one already, or there is room for one more.
    pub fn within_client_limit(&self, max_clients: usize, client_id: &str) -> (r: bool)
        requires
            self.wf(),
        ensures
            r == has_room(self@, max_clients as nat, client_id@),
    {
        self.session_count() < max_clients || self.client_position(client_id).is_some()
    }

    /// Gives a client a session at `addr`, in place of the one that it had. A text that is no
    /// IPv4 address is refused, and nothing changes.
    pub fn register_session(
        &mut self,
        addr: PeerAddr,
        client_id: &str,
        assigned_ip: &str,
        session_key: [u8; 32],
    ) -> (r: Result<(), &'static str>)
        requires
            old(self).wf(),
        ensures
            final(self).wf(),
            match r {
                Ok(_) => ipv4_of(assigned_ip@) is Some && final(self)@ == registered(
                    old(self)@,
                    addr,
                    client_id@,
                    ipv4_of(assigned_ip@)->Some_0,
                    session_key@,
                ),
                Err(message) => ipv4_of(assigned_ip@) is None && message@ == ipv4_syntax_error()
                    && *final(self) == *old(self),
            },
            forall|other: PeerAddr|
                #![trigger final(self)@.by_addr.contains_key(other)]
                #![trigger final(self)@.by_addr[other]]
                other != addr && !(old(self)@.addr_by_client.contains_key(client_id@)
                    && old(self)@.addr_by_client[client_id@] == other)
                    ==> final(self)@.by_addr.contains_key(other)
                    == old(self)@.by_addr.contains_key(other) && (
                old(self)@.by_addr.contains_key(other) ==> final(self)@.by_addr[other]
                    == old(self)@.by_addr[other]),
    {
        let ip: u32 = match parse_ipv4(assigned_ip) {
            Some(ip) => ip,
            None => {
                return Err("invalid IPv4 address syntax");
            },
        };
        match self.client_position(client_id) {
            Some(at) => {
                let previous = self.addr_by_client[at].1;
                self.remove_session(previous);
                self.set_client_address(at, addr);
            },
            None => {
                self.add_client(client_id, addr);
            },
        }
        self.addr_by_ip.insert(ip, addr);
        let session = ClientSession {
            assigned_ip: ip,
            addr,
            session_key,
            replay_guard: ReplayGuard::default(),
        };
        self.put_session(session);
        assert(self@ =~= registered(old(self)@, addr, client_id@, ip, session_key@));
        Ok(())
    }

    /// Removes the session at `addr`, if there is one, and its tunnel address.
    fn remove_session(&mut self, addr: PeerAddr)
        requires
            old(self).wf(),
        ensures
            final(self).wf(),
            final(self).addr_by_client == old(self).addr_by_client,
            final(self)@ == if old(self)@.by_addr.contains_key(addr) {
                SessionMapsView {
                    by_addr: old(self)@.by_addr.remove(addr),
                    addr_by_client: old(self)@.addr_by_client,
                    addr_by_ip: old(self)@.addr_by_ip.remove(
                        old(self)@.by_addr[addr].assigned_ip,
                    ),
                }
            } else {
                old(self)@
            },
    {
        if let Some(i) = self.position(addr) {
            let ghost pairs = session_pairs(self.by_addr@);
            let ip: u32 = self.by_addr[i].assigned_ip;
            let _ = self.by_addr.remove(i);
            self.addr_by_ip.remove(&ip);
            proof {
                lemma_assoc_remove(pairs, i as int);
                assert(session_pairs(self.by_addr@) =~= pairs.remove(i as int));
            }
        }
    }

    /// Changes the address of the client at a position.
    fn set_client_address(&mut self, at: usize, addr: PeerAddr)
        requires
            old(self).wf(),
            at < old(self).addr_by_client@.len(),
        ensures
            final(self).wf(),
            final(self)@ == (SessionMapsView {
                addr_by_client: old(self)@.addr_by_client.insert(
                    old(self).addr_by_client@[at as int].0@,
                    addr,
                ),
                ..old(self)@
            }),
    {
        let ghost pairs = client_pairs(self.addr_by_client@);
        let name = self.addr_by_client[at].0.clone();
        self.addr_by_client.set(at, (name, addr));
        proof {
            lemma_assoc_update(pairs, at as int, addr);
            assert(client_pairs(self.addr_by_client@) =~= pairs.update(
                at as int,
                (pairs[at as int].0, addr),
            ));
        }
    }

    /// Adds a client that is not known yet.
    fn add_client(&mut self, client_id: &str, addr: PeerAddr)
        requires
            old(self).wf(),
            !old(self)@.addr_by_client.contains_key(client_id@),
        ensures
            final(self).wf(),
            final(self)@ == (SessionMapsView {
                addr_by_client: old(self)@.addr_by_client.insert(client_id@, addr),
                ..old(self)@
            }),
    {
        let ghost pairs = client_pairs(self.addr_by_client@);
        self.addr_by_client.push((client_id.to_owned(), addr));
        proof {
            lemma_assoc_push(pairs, client_id@, addr);
            assert(client_pairs(self.addr_by_client@) =~= pairs.push((client_id@, addr)));
        }
    }

    /// Stores a session under its address, in place of any other there.
    fn put_session(&mut self, session: ClientSession)
        requires
            old(self).wf(),
            session.replay_guard.wf(),
        ensures
            final(self).wf(),
            final(self)@ == (SessionMapsView {
                by_addr: old(self)@.by_addr.insert(session.addr, session@),
                ..old(self)@
            }),
    {
        let ghost pairs = session_pairs(self.by_addr@);
        let ghost view = session@;
        let addr = session.addr;
        match self.position(addr) {
            Some(i) => {
                self.by_addr.set(i, session);
                proof {
                    lemma_assoc_update(pairs, i as int, view);
                    assert(session_pairs(self.by_addr@) =~= pairs.update(i as int, (addr, view)));
                }
            },
            None => {
                self.by_addr.push(session);
                proof {
                    lemma_assoc_push(pairs, addr, view);
                    assert(session_pairs(self.by_addr@) =~= pairs.push((addr, view)));
                }
            },
        }
    }

    /// The session at a peer address.
    pub fn lookup_session_by_addr(&self, addr: PeerAddr) -> (r: Option<&ClientSession>)
        requires
            self.wf(),
        ensures
            match r {
                Some(session) => self@.by_addr.contains_key(addr) && session@
                    == self@.by_addr[addr],
                None => !self@.by_addr.contains_key(addr),
            },
    {
        match self.position(addr) {
            Some(i) => Some(&self.by_addr[i]),
            None => None,
        }
    }

    /// The session that packets for a tunnel address go to.
    pub fn lookup_session_by_ip(&self, destination: u32) -> (r: Option<&ClientSession>)
        requires
            self.wf(),
        ensures
            match r {
                Some(session) => session_for_ip(self@, destination) == Some(session@),
                None => session_for_ip(self@, destination) is None,
            },
    {
        match self.addr_by_ip.get(&destination) {
            Some(addr) => self.lookup_session_by_addr(*addr),
            None => None,
        }
    }

    /// Shows a packet to the replay window of the session at `addr`.
    pub fn is_fresh_packet(&mut self, addr: PeerAddr, data: &[u8]) -> (r: Option<bool>)
        requires
            old(self).wf(),
        ensures
            final(self).wf(),
            match r {
                Some(fresh) => old(self)@.by_addr.contains_key(addr) && fresh == is_fresh(
                    old(self)@.by_addr[addr].window,
                    data@,
                ) && final(self)@ == packet_seen(old(self)@, addr, data@),
                None => !old(self)@.by_addr.contains_key(addr) && *final(self) == *old(self),
            },
    {
        match self.position(addr) {
            Some(i) => {
                let ghost pairs = session_pairs(self.by_addr@);
                let ghost session = self.by_addr@[i as int]@;
                let fresh = self.by_addr[i].replay_guard.is_fresh_packet(data);
                proof {
                    let view = SessionView {
                        window: window_after(session.window, session.capacity, data@),
                        ..session
                    };
                    lemma_assoc_update(pairs, i as int, view);
                    assert(self.by_addr@[i as int]@ == view);
                    assert(session_pairs(self.by_addr@) =~= pairs.update(i as int, (addr, view)));
                }
                Some(fresh)
            },
            None => None,
        }
    }
}

/// The replay window of every session stays within its capacity, and every session stands under its
/// own address.
pub proof fn law_sessions_are_well_formed(maps: SessionMaps, addr: PeerAddr)
    requires
        maps.wf(),
        maps@.by_addr.contains_key(addr),
    ensures
        maps@.by_addr[addr].addr == addr,
        1 <= maps@.by_addr[addr].capacity,
        maps@.by_addr[addr].window.len() <= maps@.by_addr[addr].capacity,
{
    let pairs = session_pairs(maps.by_addr@);
    lemma_assoc(pairs);
    let i = choose|i: int| 0 <= i < pairs.len() && (#[trigger] pairs[i]).0 == addr;
    assert(pairs[i] == (maps.by_addr@[i].addr, maps.by_addr@[i]@));
    law_window_is_bounded(maps.by_addr@[i].replay_guard);
}

/// The view of [`ClientSession`] holds each field under its own name.
pub proof fn law_view_of_client_session(value: ClientSession)
    ensures
        value@.assigned_ip == value.assigned_ip,
        value@.addr == value.addr,
        value@.session_key == value.session_key@,
        value@.window == value.replay_guard.window(),
        value@.capacity == value.replay_guard.capacity(),
{
}

} // verus!
