//! What administrators do: sign in, create tokens, change and remove servers and clients.

use vstd::prelude::*;
use vstd::utf8::encode_utf8;

use crate::clock::{rfc3339_text, timestamp_text, Timestamp};
use crate::configs::{
    client_config, law_client_config_carries_the_row, law_server_config_carries_the_row,
    lemma_first_server, server_config,
};
use crate::enrollment::{
    law_enrolled_server_numbers, law_token_decisions, token_refusal, with_server,
};
use crate::heartbeat::is_valid_agent;
use crate::hex::{hex_of, is_hex_text, random_token, sha256_hex, sha256_hex_of};
use crate::models::{AgentKind, EnrollmentRequestView};
use crate::primitives::sha256_of;
use crate::security::stored_time;
use crate::settings::{
    bool_to_i64, bump_config_version, config_version, empty_to_none, law_form_is_saved_by_name,
    law_version_rises, seed_settings, switch_number, unless_blank, version_can_rise, with_defaults,
    with_form, with_next_version, GlobalSettingsForm,
};
use crate::store::{
    AgentRowView, BootstrapToken, BootstrapTokenView, ClientNode, ClientNodeView, ManagerStore,
    ManagerStoreView, ServerNode, ServerNodeView,
};
use crate::text::{
    in_class, law_split_at_separator, lemma_split_whole, lemma_trim_id, option_view, split, split_spec, strip_prefix,
    strip_prefix_spec, text_eq, trim, trim_spec, views, CharClass,
};
use crate::text_map::TextMap;

verus! {

/// The store when the manager starts: the administrator has the given password, and missing
/// settings have their defaults.
pub open spec fn initialized(
    store: ManagerStoreView,
    user: Seq<char>,
    password: Seq<char>,
) -> ManagerStoreView {
    ManagerStoreView {
        admins: store.admins.insert(user, sha256_hex_of(password)),
        settings: with_defaults(store.settings),
        ..store
    }
}

/// Prepares the store when the manager starts.
pub fn initialize(store: &mut ManagerStore, admin_user: &str, admin_pass: &str)
    requires
        old(store).wf(),
    ensures
        final(store).wf(),
        final(store)@ == initialized(old(store)@, admin_user@, admin_pass@),
{
    let hash = sha256_hex(admin_pass);
    store.admins.insert(admin_user, hash.as_str());
    seed_settings(&mut store.settings);
}

/// Whether a name and a password are an administrator's.
pub open spec fn is_admin(
    admins: Map<Seq<char>, Seq<char>>,
    username: Seq<char>,
    password: Seq<char>,
) -> bool {
    admins.contains_key(trim_spec(username)) && admins[trim_spec(username)] == sha256_hex_of(
        password,
    )
}

/// Whether a name and a password are an administrator's.
pub fn verify_admin(store: &ManagerStore, username: &str, password: &str) -> (r: bool)
    requires
        store.wf(),
    ensures
        r == is_admin(store@.admins, username@, password@),
{
    match store.admins.get(trim(username).as_str()) {
        Some(stored) => text_eq(stored.as_str(), sha256_hex(password).as_str()),
        None => false,
    }
}

/// The first session token among the parts of a cookie header.
pub open spec fn first_session(parts: Seq<Seq<char>>) -> Option<Seq<char>>
    decreases parts.len(),
{
    if parts.len() == 0 {
        None
    } else {
        match strip_prefix_spec(trim_spec(parts[0]), "ntz_session="@) {
            Some(token) => Some(token),
            None => first_session(parts.skip(1)),
        }
    }
}

/// The session token in a cookie header.
pub open spec fn session_in_cookie(cookie: Option<Seq<char>>) -> Option<Seq<char>> {
    match cookie {
        Some(header) => first_session(split_spec(header, CharClass::Semicolon)),
        None => None,
    }
}

/// The session token in a cookie header.
pub fn session_token_from_cookie(cookie: &Option<String>) -> (r: Option<String>)
    ensures
        option_view(r) == session_in_cookie(option_view(*cookie)),
{
    let header = match cookie {
        Some(header) => header,
        None => {
            return None;
        },
    };
    let parts = split(header.as_str(), CharClass::Semicolon);
    let ghost all = views(parts@);
    let n: usize = parts.len();
    assert(all.skip(0) =~= all);
    for i in 0..n
        invariant
            n == parts@.len(),
            all == views(parts@),
            option_view(*cookie) == Some(header@),
            all == split_spec(header@, CharClass::Semicolon),
            first_session(all) == first_session(all.skip(i as int)),
    {
        assert(all.skip(i as int)[0] == parts@[i as int]@);
        let trimmed = trim(parts[i].as_str());
        if let Some(token) = strip_prefix(trimmed.as_str(), "ntz_session=") {
            return Some(token);
        }
        assert(all.skip(i as int).skip(1) =~= all.skip(i + 1));
    }
    None
}

/// Who is signed in with a cookie.
pub open spec fn signed_in(
    sessions: Map<Seq<char>, Seq<char>>,
    cookie: Option<Seq<char>>,
) -> Option<
    Seq<char>,
> {
    match session_in_cookie(cookie) {
        Some(token) => if sessions.contains_key(token) {
            Some(sessions[token])
        } else {
            None
        },
        None => None,
    }
}

/// Who is signed in with a cookie.
pub fn require_session(sessions: &TextMap, cookie: &Option<String>) -> (r: Option<String>)
    requires
        sessions.wf(),
    ensures
        option_view(r) == signed_in(sessions@, option_view(*cookie)),
{
    match session_token_from_cookie(cookie) {
        Some(token) => sessions.get(token.as_str()),
        None => None,
    }
}

/// The cookie that keeps a session.
pub open spec fn session_cookie(token: Seq<char>) -> Seq<char> {
    "ntz_session="@ + token + "; HttpOnly; Path=/; SameSite=Lax"@
}

/// The cookie that keeps a session.
pub fn session_cookie_text(token: &str) -> (r: String)
    ensures
        r@ == session_cookie(token@),
{
    let mut r = String::from_str("ntz_session=");
    r.append(token);
    r.append("; HttpOnly; Path=/; SameSite=Lax");
    r
}

/// The cookie that ends a session.
pub const ENDED_SESSION_COOKIE: &'static str =
    "ntz_session=deleted; Max-Age=0; Path=/; HttpOnly; SameSite=Lax";

/// Signs an administrator in under a given session token. A wrong name or password changes nothing.
pub fn login_with(
    store: &ManagerStore,
    sessions: &mut TextMap,
    username: &str,
    password: &str,
    token: &str,
) -> (r: bool)
    requires
        store.wf(),
        old(sessions).wf(),
    ensures
        final(sessions).wf(),
        r == is_admin(store@.admins, username@, password@),
        final(sessions)@ == if r {
            old(sessions)@.insert(token@, username@)
        } else {
            old(sessions)@
        },
{
    if !verify_admin(store, username, password) {
        return false;
    }
    sessions.insert(token, username);
    true
}

/// Signs an administrator in under a fresh session token.
pub fn login(store: &ManagerStore, sessions: &mut TextMap, username: &str, password: &str) -> (r:
    Option<String>)
    requires
        store.wf(),
        old(sessions).wf(),
    ensures
        final(sessions).wf(),
        match r {
            Some(token) => is_admin(store@.admins, username@, password@) && is_hex_text(token@, 48)
                && final(sessions)@ == old(sessions)@.insert(token@, username@),
            None => !is_admin(store@.admins, username@, password@) && final(sessions)@ == old(
                sessions,
            )@,
        },
{
    let token = random_token();
    if login_with(store, sessions, username, password, token.as_str()) {
        Some(token)
    } else {
        None
    }
}

/// The sessions after somebody signed out.
pub open spec fn signed_out(sessions: Map<Seq<char>, Seq<char>>, cookie: Option<Seq<char>>) -> Map<
    Seq<char>,
    Seq<char>,
> {
    match session_in_cookie(cookie) {
        Some(token) => sessions.remove(token),
        None => sessions,
    }
}

/// Signs out whoever is signed in with a cookie.
pub fn logout(sessions: &mut TextMap, cookie: &Option<String>)
    requires
        old(sessions).wf(),
    ensures
        final(sessions).wf(),
        final(sessions)@ == signed_out(old(sessions)@, option_view(*cookie)),
{
    if let Some(token) = session_token_from_cookie(cookie) {
        sessions.remove(token.as_str());
    }
}

/// The kind of agent that a form names.
pub open spec fn kind_of(text: Seq<char>) -> Option<AgentKind> {
    if text == "server"@ {
        Some(AgentKind::Server)
    } else if text == "client"@ {
        Some(AgentKind::Client)
    } else {
        None
    }
}

/// The kind of agent that a form names.
pub fn parse_kind(text: &str) -> (r: Option<AgentKind>)
    ensures
        r == kind_of(text@),
{
    if text_eq(text, "server") {
        Some(AgentKind::Server)
    } else if text_eq(text, "client") {
        Some(AgentKind::Client)
    } else {
        None
    }
}

/// Whether a token exists.
pub open spec fn has_token(tokens: Seq<BootstrapTokenView>, token: Seq<char>) -> bool {
    exists|i: int| 0 <= i < tokens.len() && (#[trigger] tokens[i]).token == token
}

/// The store with a new enrollment token.
pub open spec fn with_token(
    store: ManagerStoreView,
    now: Timestamp,
    token: Seq<char>,
    kind: AgentKind,
    label: Seq<char>,
) -> Result<ManagerStoreView, Seq<char>> {
    if has_token(store.tokens, token) {
        Err("UNIQUE constraint failed: bootstrap_tokens.token"@)
    } else {
        Ok(
            ManagerStoreView {
                tokens: store.tokens.push(
                    BootstrapTokenView {
                        token,
                        kind: kind.name(),
                        label: trim_spec(label),
                        created_at: stored_time(now),
                        used_at: None,
                    },
                ),
                ..store
            },
        )
    }
}

/// Adds an enrollment token with a given text.
pub fn create_token_with(
    store: &mut ManagerStore,
    now: Timestamp,
    token: &str,
    kind: AgentKind,
    label: &str,
) -> (r: Result<(), &'static str>)
    requires
        old(store).wf(),
        now.is_clock_reading(),
    ensures
        final(store).wf(),
        match r {
            Ok(_) => with_token(old(store)@, now, token@, kind, label@) == Ok::<
                ManagerStoreView,
                Seq<char>,
            >(final(store)@),
            Err(message) => with_token(old(store)@, now, token@, kind, label@) == Err::<
                ManagerStoreView,
                Seq<char>,
            >(message@) && final(store)@ == old(store)@,
        },
{
    let n: usize = store.tokens.len();
    let ghost all = views(store.tokens@);
    for i in 0..n
        invariant
            *store == *old(store),
            store.wf(),
            n == store.tokens@.len(),
            all == views(store.tokens@),
            forall|j: int| 0 <= j < i ==> (#[trigger] all[j]).token != token@,
    {
        assert(all[i as int] == store.tokens@[i as int]@);
        if text_eq(store.tokens[i].token.as_str(), token) {
            return Err("UNIQUE constraint failed: bootstrap_tokens.token");
        }
    }
    let row = BootstrapToken {
        token: token.to_owned(),
        kind: kind.as_str().to_owned(),
        label: trim(label),
        created_at: timestamp_text(now),
        used_at: None,
    };
    let ghost view = row@;
    store.tokens.push(row);
    assert(views(store.tokens@) =~= all.push(view));
    Ok(())
}

/// Adds an enrollment token with a fresh random text.
pub fn create_token(store: &mut ManagerStore, now: Timestamp, kind: AgentKind, label: &str) -> (r:
    Result<(), &'static str>)
    requires
        old(store).wf(),
        now.is_clock_reading(),
    ensures
        final(store).wf(),
        exists|token: Seq<char>|
            is_hex_text(token, 48) && match r {
                Ok(_) => #[trigger] with_token(old(store)@, now, token, kind, label@) == Ok::<
                    ManagerStoreView,
                    Seq<char>,
                >(final(store)@),
                Err(message) => with_token(old(store)@, now, token, kind, label@) == Err::<
                    ManagerStoreView,
                    Seq<char>,
                >(message@) && final(store)@ == old(store)@,
            },
{
    let token = random_token();
    let ghost text = token@;
    let r = create_token_with(store, now, token.as_str(), kind, label);
    assert(with_token(old(store)@, now, text, kind, label@) == with_token(
        old(store)@,
        now,
        token@,
        kind,
        label@,
    ));
    r
}

/// The form that changes a server.
#[derive(Debug)]
pub struct ServerForm {
    pub listen_addr: String,
    pub public_endpoint: String,
    pub nat_iface: String,
    pub max_clients: usize,
    pub enabled: Option<String>,
}

/// The form that changes a client.
#[derive(Debug)]
pub struct ClientForm {
    pub assigned_ip: String,
    pub server_id: String,
    pub egress_ip: String,
    pub enabled: Option<String>,
}

/// A server as a form asks for it.
pub open spec fn changed_server(node: ServerNodeView, form: ServerForm) -> ServerNodeView {
    ServerNodeView {
        listen_addr: trim_spec(form.listen_addr@),
        public_endpoint: trim_spec(form.public_endpoint@),
        nat_iface: unless_blank(form.nat_iface@),
        max_clients: form.max_clients as i64,
        enabled: switch_number(form.enabled is Some),
        ..node
    }
}

/// A client as a form asks for it.
pub open spec fn changed_client(node: ClientNodeView, form: ClientForm) -> ClientNodeView {
    ClientNodeView {
        assigned_ip: trim_spec(form.assigned_ip@),
        server_id: unless_blank(form.server_id@),
        egress_ip: unless_blank(form.egress_ip@),
        enabled: switch_number(form.enabled is Some),
        ..node
    }
}

/// The servers, with one changed.
pub open spec fn with_changed_server(
    servers: Seq<ServerNodeView>,
    id: Seq<char>,
    form: ServerForm,
) -> Seq<
    ServerNodeView,
> {
    Seq::new(
        servers.len(),
        |i: int|
            if servers[i].server_id == id {
                changed_server(servers[i], form)
            } else {
                servers[i]
            },
    )
}

/// The clients, with one changed.
pub open spec fn with_changed_client(
    clients: Seq<ClientNodeView>,
    id: Seq<char>,
    form: ClientForm,
) -> Seq<
    ClientNodeView,
> {
    Seq::new(
        clients.len(),
        |i: int|
            if clients[i].client_id == id {
                changed_client(clients[i], form)
            } else {
                clients[i]
            },
    )
}

/// Changes a server as a form asks, and raises the version of the configuration. Where there is no
/// version, that is an error, and nothing changes.
pub fn update_server(
    store: &mut ManagerStore,
    id: &str,
    form: &ServerForm,
) -> (r: Result<(), String>)
    requires
        old(store).wf(),
        version_can_rise(old(store)@.settings),
    ensures
        final(store).wf(),
        match r {
            Ok(_) => config_version(old(store)@.settings) is Ok && final(store)@ == (
            ManagerStoreView {
                servers: with_changed_server(old(store)@.servers, id@, *form),
                settings: with_next_version(old(store)@.settings),
                ..old(store)@
            }),
            Err(message) => config_version(old(store)@.settings) == Err::<int, Seq<char>>(message@)
                && final(store)@ == old(store)@,
        },
{
    if let Err(message) = bump_config_version(&mut store.settings) {
        return Err(message);
    }
    let n: usize = store.servers.len();
    let ghost before = views(store.servers@);
    let ghost after = with_changed_server(before, id@, *form);
    let ghost start = *store;
    for i in 0..n
        invariant
            n == store.servers@.len(),
            n == before.len(),
            after == with_changed_server(before, id@, *form),
            forall|j: int| 0 <= j < i ==> (#[trigger] store.servers@[j])@ == after[j],
            forall|j: int| i <= j < n ==> (#[trigger] store.servers@[j])@ == before[j],
            store.settings == start.settings,
            store.admins == start.admins,
            store.tokens == start.tokens,
            store.agents == start.agents,
            store.clients == start.clients,
            store.logs == start.logs,
            store.alerts == start.alerts,
            store.sessions == start.sessions,
    {
        assert(store.servers@[i as int]@ == before[i as int]);
        if text_eq(store.servers[i].server_id.as_str(), id) {
            let mut node = store.servers[i].clone();
            node.listen_addr = trim(form.listen_addr.as_str());
            node.public_endpoint = trim(form.public_endpoint.as_str());
            node.nat_iface = empty_to_none(form.nat_iface.as_str());
            node.max_clients = #[verifier::truncate] (form.max_clients as i64);
            node.enabled = bool_to_i64(form.enabled.is_some());
            store.servers.set(i, node);
        }
    }
    assert(views(store.servers@) =~= after);
    Ok(())
}

/// Changes a client as a form asks, and raises the version of the configuration. Where there is no
/// version, that is an error, and nothing changes.
pub fn update_client(
    store: &mut ManagerStore,
    id: &str,
    form: &ClientForm,
) -> (r: Result<(), String>)
    requires
        old(store).wf(),
        version_can_rise(old(store)@.settings),
    ensures
        final(store).wf(),
        match r {
            Ok(_) => config_version(old(store)@.settings) is Ok && final(store)@ == (
            ManagerStoreView {
                clients: with_changed_client(old(store)@.clients, id@, *form),
                settings: with_next_version(old(store)@.settings),
                ..old(store)@
            }),
            Err(message) => config_version(old(store)@.settings) == Err::<int, Seq<char>>(message@)
                && final(store)@ == old(store)@,
        },
{
    if let Err(message) = bump_config_version(&mut store.settings) {
        return Err(message);
    }
    let n: usize = store.clients.len();
    let ghost before = views(store.clients@);
    let ghost after = with_changed_client(before, id@, *form);
    let ghost start = *store;
    for i in 0..n
        invariant
            n == store.clients@.len(),
            n == before.len(),
            after == with_changed_client(before, id@, *form),
            forall|j: int| 0 <= j < i ==> (#[trigger] store.clients@[j])@ == after[j],
            forall|j: int| i <= j < n ==> (#[trigger] store.clients@[j])@ == before[j],
            store.settings == start.settings,
            store.admins == start.admins,
            store.tokens == start.tokens,
            store.agents == start.agents,
            store.servers == start.servers,
            store.logs == start.logs,
            store.alerts == start.alerts,
            store.sessions == start.sessions,
    {
        assert(store.clients@[i as int]@ == before[i as int]);
        if text_eq(store.clients[i].client_id.as_str(), id) {
            let mut node = store.clients[i].clone();
            node.assigned_ip = trim(form.assigned_ip.as_str());
            node.server_id = empty_to_none(form.server_id.as_str());
            node.egress_ip = empty_to_none(form.egress_ip.as_str());
            node.enabled = bool_to_i64(form.enabled.is_some());
            store.clients.set(i, node);
        }
    }
    assert(views(store.clients@) =~= after);
    Ok(())
}

/// The clients, with those of a server assigned to none.
pub open spec fn unassigned(clients: Seq<ClientNodeView>, server_id: Seq<char>) -> Seq<
    ClientNodeView,
> {
    Seq::new(
        clients.len(),
        |i: int|
            if clients[i].server_id == Some(server_id) {
                ClientNodeView { server_id: None, ..clients[i] }
            } else {
                clients[i]
            },
    )
}

/// The servers without those that have an identity.
pub open spec fn without_server(servers: Seq<ServerNodeView>, server_id: Seq<char>) -> Seq<
    ServerNodeView,
>
    decreases servers.len(),
{
    if servers.len() == 0 {
        Seq::empty()
    } else {
        let before = without_server(servers.drop_last(), server_id);
        if servers.last().server_id == server_id {
            before
        } else {
            before.push(servers.last())
        }
    }
}

/// The clients without those that have an identity.
pub open spec fn without_client(clients: Seq<ClientNodeView>, client_id: Seq<char>) -> Seq<
    ClientNodeView,
>
    decreases clients.len(),
{
    if clients.len() == 0 {
        Seq::empty()
    } else {
        let before = without_client(clients.drop_last(), client_id);
        if clients.last().client_id == client_id {
            before
        } else {
            before.push(clients.last())
        }
    }
}

/// The agents without one of a kind.
pub open spec fn without_agent(
    agents: Map<Seq<char>, AgentRowView>,
    agent_id: Seq<char>,
    kind: AgentKind,
) -> Map<
    Seq<char>,
    AgentRowView,
> {
    if agents.contains_key(agent_id) && agents[agent_id].kind == kind.name() {
        agents.remove(agent_id)
    } else {
        agents
    }
}

/// Removes an agent, if it is of that kind.
fn delete_agent(store: &mut ManagerStore, agent_id: &str, kind: AgentKind)
    requires
        old(store).wf(),
    ensures
        final(store).wf(),
        final(store)@ == (ManagerStoreView {
            agents: without_agent(old(store)@.agents, agent_id@, kind),
            ..old(store)@
        }),
{
    if let Some(at) = store.agent_position(agent_id) {
        if text_eq(store.agents[at].kind.as_str(), kind.as_str()) {
            store.remove_agent(at);
        }
    }
}

/// The servers without those that have an identity.
fn keep_other_servers(servers: &Vec<ServerNode>, server_id: &str) -> (kept: Vec<ServerNode>)
    ensures
        views(kept@) == without_server(views(servers@), server_id@),
{
    let ghost all = views(servers@);
    let n: usize = servers.len();
    let mut kept: Vec<ServerNode> = Vec::new();
    assert(views(kept@) =~= without_server(all.take(0), server_id@));
    for i in 0..n
        invariant
            n == servers@.len(),
            all == views(servers@),
            views(kept@) == without_server(all.take(i as int), server_id@),
    {
        let ghost before = views(kept@);
        assert(all.take(i + 1).drop_last() =~= all.take(i as int));
        assert(all.take(i + 1).last() == servers@[i as int]@);
        if !text_eq(servers[i].server_id.as_str(), server_id) {
            kept.push(servers[i].clone());
            assert(views(kept@) =~= before.push(servers@[i as int]@));
        }
    }
    assert(all.take(n as int) =~= all);
    kept
}

/// The clients without those that have an identity.
fn keep_other_clients(clients: &Vec<ClientNode>, client_id: &str) -> (kept: Vec<ClientNode>)
    ensures
        views(kept@) == without_client(views(clients@), client_id@),
{
    let ghost all = views(clients@);
    let n: usize = clients.len();
    let mut kept: Vec<ClientNode> = Vec::new();
    assert(views(kept@) =~= without_client(all.take(0), client_id@));
    for i in 0..n
        invariant
            n == clients@.len(),
            all == views(clients@),
            views(kept@) == without_client(all.take(i as int), client_id@),
    {
        let ghost before = views(kept@);
        assert(all.take(i + 1).drop_last() =~= all.take(i as int));
        assert(all.take(i + 1).last() == clients@[i as int]@);
        if !text_eq(clients[i].client_id.as_str(), client_id) {
            kept.push(clients[i].clone());
            assert(views(kept@) =~= before.push(clients@[i as int]@));
        }
    }
    assert(all.take(n as int) =~= all);
    kept
}

/// The clients, with those of a server assigned to none.
fn unassign_clients(clients: &Vec<ClientNode>, server_id: &str) -> (r: Vec<ClientNode>)
    ensures
        views(r@) == unassigned(views(clients@), server_id@),
{
    let ghost all = views(clients@);
    let ghost after = unassigned(all, server_id@);
    let n: usize = clients.len();
    let mut r: Vec<ClientNode> = Vec::new();
    assert(views(r@) =~= after.take(0));
    for i in 0..n
        invariant
            n == clients@.len(),
            all == views(clients@),
            after == unassigned(all, server_id@),
            views(r@) == after.take(i as int),
    {
        let mut node = clients[i].clone();
        assert(all[i as int] == node@);
        let assigned = match &node.server_id {
            Some(id) => text_eq(id.as_str(), server_id),
            None => false,
        };
        if assigned {
            node.server_id = None;
        }
        let ghost before = views(r@);
        assert(node@ == after[i as int]);
        r.push(node);
        assert(views(r@) =~= before.push(after[i as int]));
        assert(after.take(i + 1) =~= before.push(after[i as int]));
    }
    assert(after.take(n as int) =~= after);
    r
}

/// The store without the rows of a server: its clients are assigned to none, and its agent is gone.
pub open spec fn without_server_rows(store: ManagerStoreView, server_id: Seq<char>) -> (
    ManagerStoreView) {
    ManagerStoreView {
        clients: unassigned(store.clients, server_id),
        servers: without_server(store.servers, server_id),
        agents: without_agent(store.agents, server_id, AgentKind::Server),
        ..store
    }
}

/// The store without the rows of a client: its agent is gone too.
pub open spec fn without_client_rows(store: ManagerStoreView, client_id: Seq<char>) -> (
    ManagerStoreView) {
    ManagerStoreView {
        clients: without_client(store.clients, client_id),
        agents: without_agent(store.agents, client_id, AgentKind::Client),
        ..store
    }
}

/// The store without a server, with the version of the configuration raised.
pub open spec fn server_deleted(store: ManagerStoreView, server_id: Seq<char>) -> ManagerStoreView {
    ManagerStoreView {
        settings: with_next_version(store.settings),
        ..without_server_rows(store, server_id)
    }
}

/// The store without a client, with the version of the configuration raised.
pub open spec fn client_deleted(store: ManagerStoreView, client_id: Seq<char>) -> ManagerStoreView {
    ManagerStoreView {
        settings: with_next_version(store.settings),
        ..without_client_rows(store, client_id)
    }
}

/// Removes a server, then raises the version of the configuration. Where there is no version, that
/// is an error, and the rows are gone all the same: undoing that is the caller's part.
pub fn delete_server_record(store: &mut ManagerStore, server_id: &str) -> (r: Result<(), String>)
    requires
        old(store).wf(),
        version_can_rise(old(store)@.settings),
    ensures
        final(store).wf(),
        match r {
            Ok(_) => config_version(old(store)@.settings) is Ok && final(store)@ == server_deleted(
                old(store)@,
                server_id@,
            ),
            Err(message) => config_version(old(store)@.settings) == Err::<int, Seq<char>>(message@)
                && final(store)@ == without_server_rows(old(store)@, server_id@),
        },
{
    store.clients = unassign_clients(&store.clients, server_id);
    store.servers = keep_other_servers(&store.servers, server_id);
    delete_agent(store, server_id, AgentKind::Server);
    match bump_config_version(&mut store.settings) {
        Ok(_) => Ok(()),
        Err(message) => Err(message),
    }
}

/// Removes a client, then raises the version of the configuration. Where there is no version, that
/// is an error, and the rows are gone all the same: undoing that is the caller's part.
pub fn delete_client_record(store: &mut ManagerStore, client_id: &str) -> (r: Result<(), String>)
    requires
        old(store).wf(),
        version_can_rise(old(store)@.settings),
    ensures
        final(store).wf(),
        match r {
            Ok(_) => config_version(old(store)@.settings) is Ok && final(store)@ == client_deleted(
                old(store)@,
                client_id@,
            ),
            Err(message) => config_version(old(store)@.settings) == Err::<int, Seq<char>>(message@)
                && final(store)@ == without_client_rows(old(store)@, client_id@),
        },
{
    store.clients = keep_other_clients(&store.clients, client_id);
    delete_agent(store, client_id, AgentKind::Client);
    match bump_config_version(&mut store.settings) {
        Ok(_) => Ok(()),
        Err(message) => Err(message),
    }
}

/// What is left of the servers has other identities, and every server with another identity is left.
proof fn lemma_without_server(servers: Seq<ServerNodeView>, server_id: Seq<char>)
    ensures
        forall|i: int|
            0 <= i < without_server(servers, server_id).len() ==> (#[trigger] without_server(
                servers,
                server_id,
            )[i]).server_id != server_id,
        forall|i: int|
            0 <= i < servers.len() && servers[i].server_id != server_id ==> without_server(
                servers,
                server_id,
            ).contains(#[trigger] servers[i]),
    decreases servers.len(),
{
    if servers.len() > 0 {
        let fewer = servers.drop_last();
        lemma_without_server(fewer, server_id);
        let before = without_server(fewer, server_id);
        let after = without_server(servers, server_id);
        assert forall|i: int|
            0 <= i < servers.len() && servers[i].server_id != server_id implies after.contains(
            #[trigger] servers[i],
        ) by {
            if i < fewer.len() {
                assert(fewer[i] == servers[i]);
                let k = choose|k: int| 0 <= k < before.len() && before[k] == fewer[i];
                assert(after[k] == servers[i]);
            } else {
                assert(after[after.len() - 1] == servers[i]);
            }
        }
    }
}

/// What is left of the clients has other identities, and every client with another identity is left.
proof fn lemma_without_client(clients: Seq<ClientNodeView>, client_id: Seq<char>)
    ensures
        forall|i: int|
            0 <= i < without_client(clients, client_id).len() ==> (#[trigger] without_client(
                clients,
                client_id,
            )[i]).client_id != client_id,
        forall|i: int|
            0 <= i < clients.len() && clients[i].client_id != client_id ==> without_client(
                clients,
                client_id,
            ).contains(#[trigger] clients[i]),
    decreases clients.len(),
{
    if clients.len() > 0 {
        let fewer = clients.drop_last();
        lemma_without_client(fewer, client_id);
        let before = without_client(fewer, client_id);
        let after = without_client(clients, client_id);
        assert forall|i: int|
            0 <= i < clients.len() && clients[i].client_id != client_id implies after.contains(
            #[trigger] clients[i],
        ) by {
            if i < fewer.len() {
                assert(fewer[i] == clients[i]);
                let k = choose|k: int| 0 <= k < before.len() && before[k] == fewer[i];
                assert(after[k] == clients[i]);
            } else {
                assert(after[after.len() - 1] == clients[i]);
            }
        }
    }
}

/// A removed server is gone, no client is assigned to it, its agent can no longer report, every
/// other server is left, and the version of the configuration is one higher.
pub proof fn law_deleted_server_is_gone(store: ManagerStoreView, server_id: Seq<char>)
    requires
        config_version(store.settings) is Ok,
        version_can_rise(store.settings),
    ensures
        ({
            let after = server_deleted(store, server_id);
            &&& forall|i: int|
                0 <= i < after.servers.len() ==> (#[trigger] after.servers[i]).server_id
                    != server_id
            &&& forall|i: int|
                0 <= i < after.clients.len() ==> (#[trigger] after.clients[i]).server_id != Some(
                    server_id,
                )
            &&& after.clients.len() == store.clients.len()
            &&& forall|i: int|
                0 <= i < store.servers.len() && store.servers[i].server_id != server_id
                    ==> after.servers.contains(#[trigger] store.servers[i])
            &&& forall|secret: Seq<char>|
                !(#[trigger] is_valid_agent(after.agents, server_id, secret, AgentKind::Server))
            &&& config_version(after.settings) == Ok::<int, Seq<char>>(
                config_version(store.settings)->Ok_0 + 1,
            )
        }),
{
    lemma_without_server(store.servers, server_id);
    law_version_rises(store.settings);
}

/// A removed client is gone, its agent can no longer report, every other client is left, and the
/// version of the configuration is one higher.
pub proof fn law_deleted_client_is_gone(store: ManagerStoreView, client_id: Seq<char>)
    requires
        config_version(store.settings) is Ok,
        version_can_rise(store.settings),
    ensures
        ({
            let after = client_deleted(store, client_id);
            &&& forall|i: int|
                0 <= i < after.clients.len() ==> (#[trigger] after.clients[i]).client_id
                    != client_id
            &&& forall|i: int|
                0 <= i < store.clients.len() && store.clients[i].client_id != client_id
                    ==> after.clients.contains(#[trigger] store.clients[i])
            &&& forall|secret: Seq<char>|
                !(#[trigger] is_valid_agent(after.agents, client_id, secret, AgentKind::Client))
            &&& config_version(after.settings) == Ok::<int, Seq<char>>(
                config_version(store.settings)->Ok_0 + 1,
            )
        }),
{
    lemma_without_client(store.clients, client_id);
    law_version_rises(store.settings);
}

/// The administrator that the manager was started with can sign in with that password and no other
/// text with another digest, if the name has no white space around it.
pub proof fn law_configured_admin_can_sign_in(
    store: ManagerStoreView,
    user: Seq<char>,
    password: Seq<char>,
    other: Seq<char>,
)
    requires
        trim_spec(user) == user,
    ensures
        is_admin(initialized(store, user, password).admins, user, password),
        is_admin(initialized(store, user, password).admins, user, other) ==> sha256_hex_of(other)
            == sha256_hex_of(password),
{
}

/// The cookie of a session is read back as its token, if the token is made of hexadecimal digits.
pub proof fn law_cookie_carries_the_session(token: Seq<char>)
    requires
        is_hex_text(token, 48),
    ensures
        session_in_cookie(Some("ntz_session="@ + token)) == Some(token),
{
    reveal_strlit("ntz_session=");
    let cookie = "ntz_session="@ + token;
    assert forall|i: int| 0 <= i < cookie.len() implies !in_class(
        #[trigger] cookie[i],
        CharClass::Semicolon,
    ) by {
        if i >= 12 {
            assert(cookie[i] == token[i - 12]);
        }
    }
    lemma_split_whole(cookie, CharClass::Semicolon);
    assert(cookie.last() == token[47]);
    lemma_trim_id(cookie);
    assert(cookie.take(12) =~= "ntz_session="@);
    assert(cookie.skip(12) =~= token);
    assert(split_spec(cookie, CharClass::Semicolon)[0] == cookie);
}

/// Whoever signed in is known by the cookie of the session, until signing out.
pub proof fn law_session_lasts_until_sign_out(
    sessions: Map<Seq<char>, Seq<char>>,
    token: Seq<char>,
    username: Seq<char>,
)
    requires
        is_hex_text(token, 48),
    ensures
        signed_in(sessions.insert(token, username), Some("ntz_session="@ + token)) == Some(username),
        signed_in(
            signed_out(sessions.insert(token, username), Some("ntz_session="@ + token)),
            Some("ntz_session="@ + token),
        ) is None,
{
    law_cookie_carries_the_session(token);
}

/// When the manager starts, the given administrator has the digest of the given password, other
/// administrators keep theirs, missing settings get their defaults, and nothing else changes.
pub proof fn law_start_keeps_what_is_there(
    store: ManagerStoreView,
    user: Seq<char>,
    password: Seq<char>,
    other: Seq<char>,
)
    requires
        other != user,
    ensures
        ({
            let after = initialized(store, user, password);
            &&& after.admins.contains_key(user)
            &&& after.admins[user] == hex_of(sha256_of(encode_utf8(password)))
            &&& after.admins.contains_key(other) == store.admins.contains_key(other)
            &&& store.admins.contains_key(other) ==> after.admins[other] == store.admins[other]
            &&& after.settings == with_defaults(store.settings)
            &&& after.tokens == store.tokens
            &&& after.agents == store.agents
            &&& after.servers == store.servers
            &&& after.clients == store.clients
            &&& after.logs == store.logs
            &&& after.alerts == store.alerts
            &&& after.sessions == store.sessions
        }),
{
}

/// Whoever has no entry is no administrator, and whoever has one is with a password exactly where
/// its digest is the stored one.
pub proof fn law_admin_decisions(
    admins: Map<Seq<char>, Seq<char>>,
    username: Seq<char>,
    password: Seq<char>,
)
    ensures
        !admins.contains_key(trim_spec(username)) ==> !is_admin(admins, username, password),
        admins.contains_key(trim_spec(username)) ==> (is_admin(admins, username, password)
            <==> admins[trim_spec(username)] == hex_of(sha256_of(encode_utf8(password)))),
{
}

/// The cookie of a session names the session and keeps it from scripts and other sites.
pub proof fn law_session_cookie_text(token: Seq<char>)
    ensures
        session_cookie(token) == "ntz_session="@ + token + "; HttpOnly; Path=/; SameSite=Lax"@,
        ENDED_SESSION_COOKIE@
            == "ntz_session=deleted; Max-Age=0; Path=/; HttpOnly; SameSite=Lax"@,
{
}

/// Signing out ends one session: every other one stays. Without a cookie of a session nobody is
/// signed in, and nothing ends.
pub proof fn law_sign_out_ends_one_session(
    sessions: Map<Seq<char>, Seq<char>>,
    cookie: Option<Seq<char>>,
    other: Seq<char>,
)
    requires
        session_in_cookie(cookie) != Some(other),
    ensures
        signed_out(sessions, cookie).contains_key(other) == sessions.contains_key(other),
        sessions.contains_key(other) ==> signed_out(sessions, cookie)[other] == sessions[other],
        session_in_cookie(cookie) matches Some(token) ==> !signed_out(
            sessions,
            cookie,
        ).contains_key(token),
        session_in_cookie(cookie) matches Some(token) ==> (signed_in(sessions, cookie) is Some
            <==> sessions.contains_key(token)),
        session_in_cookie(cookie) is None ==> signed_in(sessions, cookie) is None,
        session_in_cookie(None) is None,
{
}

/// A new token has the text that was made for it, the kind that was asked for, the trimmed label and
/// the time of now, and was not used yet; it is the last of the tokens, and nothing else changes. A
/// text that a token has already is refused.
pub proof fn law_new_token_row(
    store: ManagerStoreView,
    now: Timestamp,
    token: Seq<char>,
    kind: AgentKind,
    label: Seq<char>,
)
    ensures
        (exists|i: int| 0 <= i < store.tokens.len() && (#[trigger] store.tokens[i]).token == token)
            ==> with_token(store, now, token, kind, label) is Err,
        (forall|i: int| 0 <= i < store.tokens.len() ==> (#[trigger] store.tokens[i]).token != token)
            ==> ({
            &&& with_token(store, now, token, kind, label) matches Ok(after)
            &&& after.tokens.len() == store.tokens.len() + 1
            &&& after.tokens.drop_last() == store.tokens
            &&& after.tokens.last().token == token
            &&& kind == AgentKind::Server ==> after.tokens.last().kind == "server"@
            &&& kind == AgentKind::Client ==> after.tokens.last().kind == "client"@
            &&& after.tokens.last().label == trim_spec(label)
            &&& after.tokens.last().created_at == rfc3339_text(now.secs, now.nanos)
            &&& after.tokens.last().used_at is None
            &&& after.settings == store.settings
            &&& after.admins == store.admins
            &&& after.agents == store.agents
            &&& after.servers == store.servers
            &&& after.clients == store.clients
        }),
{
    if let Ok(after) = with_token(store, now, token, kind, label) {
        assert(after.tokens.drop_last() =~= store.tokens);
    }
}

/// Two words name a kind of agent, and no other text does.
pub proof fn law_kinds_by_name(text: Seq<char>)
    ensures
        kind_of("server"@) == Some(AgentKind::Server),
        kind_of("client"@) == Some(AgentKind::Client),
        kind_of(text) matches Some(kind) ==> text == kind.name(),
{
    reveal_strlit("server");
    reveal_strlit("client");
    assert("server"@[0] != "client"@[0]);
}

/// A new token lets in an agent of the kind that it was made for.
pub proof fn law_new_token_lets_in(
    store: ManagerStoreView,
    now: Timestamp,
    token: Seq<char>,
    kind: AgentKind,
    label: Seq<char>,
    request: EnrollmentRequestView,
)
    requires
        with_token(store, now, token, kind, label) is Ok,
        trim_spec(request.enrollment_token) == token,
        request.kind == kind,
    ensures
        token_refusal(with_token(store, now, token, kind, label)->Ok_0.tokens, request) is None,
{
    let after = with_token(store, now, token, kind, label)->Ok_0;
    assert forall|j: int| 0 <= j < store.tokens.len() implies (#[trigger] after.tokens[j]).token
        != token by {
        assert(after.tokens[j] == store.tokens[j]);
    }
    law_token_decisions(after.tokens, request, store.tokens.len() as int);
}

/// The form of a server changes the rows with its identity, field by field, and no others: the
/// listen address, the public endpoint, the outside interface, the limit of clients and the switch
/// are those of the form, everything else stays.
pub proof fn law_server_form_changes_one(
    servers: Seq<ServerNodeView>,
    id: Seq<char>,
    form: ServerForm,
    i: int,
)
    requires
        0 <= i < servers.len(),
    ensures
        ({
            let after = with_changed_server(servers, id, form);
            let before = servers[i];
            &&& after.len() == servers.len()
            &&& before.server_id != id ==> after[i] == before
            &&& before.server_id == id ==> {
                &&& after[i].listen_addr == trim_spec(form.listen_addr@)
                &&& after[i].public_endpoint == trim_spec(form.public_endpoint@)
                &&& trim_spec(form.nat_iface@).len() > 0 ==> after[i].nat_iface == Some(
                    trim_spec(form.nat_iface@),
                )
                &&& trim_spec(form.nat_iface@).len() == 0 ==> after[i].nat_iface is None
                &&& form.max_clients <= i64::MAX ==> after[i].max_clients == form.max_clients
                &&& after[i].enabled != 0 <==> form.enabled is Some
                &&& after[i].server_id == before.server_id
                &&& after[i].node_name == before.node_name
                &&& after[i].tun_name == before.tun_name
                &&& after[i].tun_address == before.tun_address
                &&& after[i].tun_prefix == before.tun_prefix
                &&& after[i].mtu == before.mtu
                &&& after[i].client_cidr == before.client_cidr
                &&& after[i].setup_nat == before.setup_nat
                &&& after[i].egress_ips_json == before.egress_ips_json
                &&& after[i].blocked_ips_json == before.blocked_ips_json
                &&& after[i].protected_ips_json == before.protected_ips_json
                &&& after[i].doh_url == before.doh_url
                &&& after[i].dns_bind_addr == before.dns_bind_addr
            }
        }),
{
}

/// The form of a client changes the rows with its identity, field by field, and no others: the
/// tunnel address, the server, the egress address and the switch are those of the form; the
/// identity, the name and the tunnel token stay.
pub proof fn law_client_form_changes_one(
    clients: Seq<ClientNodeView>,
    id: Seq<char>,
    form: ClientForm,
    i: int,
)
    requires
        0 <= i < clients.len(),
    ensures
        ({
            let after = with_changed_client(clients, id, form);
            let before = clients[i];
            &&& after.len() == clients.len()
            &&& before.client_id != id ==> after[i] == before
            &&& before.client_id == id ==> {
                &&& after[i].assigned_ip == trim_spec(form.assigned_ip@)
                &&& trim_spec(form.server_id@).len() > 0 ==> after[i].server_id == Some(
                    trim_spec(form.server_id@),
                )
                &&& trim_spec(form.server_id@).len() == 0 ==> after[i].server_id is None
                &&& trim_spec(form.egress_ip@).len() > 0 ==> after[i].egress_ip == Some(
                    trim_spec(form.egress_ip@),
                )
                &&& trim_spec(form.egress_ip@).len() == 0 ==> after[i].egress_ip is None
                &&& after[i].enabled != 0 <==> form.enabled is Some
                &&& after[i].client_id == before.client_id
                &&& after[i].device_name == before.device_name
                &&& after[i].tunnel_token == before.tunnel_token
            }
        }),
{
}

/// Removing a server takes its clients' assignment away and nothing else of them, leaves the clients
/// of other servers and the agents of other identities as they are, adds no server, and touches
/// neither tokens nor administrators nor journals.
pub proof fn law_deleting_a_server_spares_the_rest(
    store: ManagerStoreView,
    server_id: Seq<char>,
    i: int,
    other: Seq<char>,
)
    requires
        0 <= i < store.clients.len(),
        other != server_id,
    ensures
        ({
            let after = server_deleted(store, server_id);
            let before = store.clients[i];
            &&& after.clients.len() == store.clients.len()
            &&& before.server_id != Some(server_id) ==> after.clients[i] == before
            &&& before.server_id == Some(server_id) ==> after.clients[i].server_id is None
            &&& after.clients[i].client_id == before.client_id
            &&& after.clients[i].device_name == before.device_name
            &&& after.clients[i].assigned_ip == before.assigned_ip
            &&& after.clients[i].tunnel_token == before.tunnel_token
            &&& after.clients[i].enabled == before.enabled
            &&& after.clients[i].egress_ip == before.egress_ip
            &&& after.agents.contains_key(other) == store.agents.contains_key(other)
            &&& store.agents.contains_key(other) ==> after.agents[other] == store.agents[other]
            &&& store.agents.contains_key(server_id) && store.agents[server_id].kind == "client"@
                ==> after.agents.contains_key(server_id)
            &&& after.tokens == store.tokens
            &&& after.admins == store.admins
            &&& after.logs == store.logs
            &&& after.alerts == store.alerts
            &&& after.sessions == store.sessions
        }),
        forall|k: int|
            0 <= k < server_deleted(store, server_id).servers.len() ==> store.servers.contains(
                #[trigger] server_deleted(store, server_id).servers[k],
            ),
{
    reveal_strlit("server");
    reveal_strlit("client");
    assert("server"@[0] != "client"@[0]);
    lemma_servers_left(store.servers, server_id);
}

/// Every server that is left was there.
proof fn lemma_servers_left(servers: Seq<ServerNodeView>, server_id: Seq<char>)
    ensures
        forall|k: int|
            0 <= k < without_server(servers, server_id).len() ==> servers.contains(
                #[trigger] without_server(servers, server_id)[k],
            ),
    decreases servers.len(),
{
    if servers.len() > 0 {
        let fewer = servers.drop_last();
        lemma_servers_left(fewer, server_id);
        let left = without_server(servers, server_id);
        let before = without_server(fewer, server_id);
        assert forall|k: int| 0 <= k < left.len() implies servers.contains(#[trigger] left[k]) by {
            if k < before.len() {
                assert(left[k] == before[k]);
                let j = choose|j: int| 0 <= j < fewer.len() && fewer[j] == before[k];
                assert(servers[j] == left[k]);
            } else {
                assert(servers[servers.len() - 1] == left[k]);
            }
        }
    }
}

/// Removing a client leaves servers, other clients and the agents of other identities as they are,
/// adds no client, and touches neither tokens nor administrators nor journals.
pub proof fn law_deleting_a_client_spares_the_rest(
    store: ManagerStoreView,
    client_id: Seq<char>,
    other: Seq<char>,
)
    requires
        other != client_id,
    ensures
        ({
            let after = client_deleted(store, client_id);
            &&& after.servers == store.servers
            &&& after.agents.contains_key(other) == store.agents.contains_key(other)
            &&& store.agents.contains_key(other) ==> after.agents[other] == store.agents[other]
            &&& store.agents.contains_key(client_id) && store.agents[client_id].kind == "server"@
                ==> after.agents.contains_key(client_id)
            &&& after.tokens == store.tokens
            &&& after.admins == store.admins
            &&& after.logs == store.logs
            &&& after.alerts == store.alerts
            &&& after.sessions == store.sessions
        }),
        forall|k: int|
            0 <= k < client_deleted(store, client_id).clients.len() ==> store.clients.contains(
                #[trigger] client_deleted(store, client_id).clients[k],
            ),
{
    reveal_strlit("server");
    reveal_strlit("client");
    assert("server"@[0] != "client"@[0]);
    lemma_clients_left(store.clients, client_id);
}

/// Every client that is left was there.
proof fn lemma_clients_left(clients: Seq<ClientNodeView>, client_id: Seq<char>)
    ensures
        forall|k: int|
            0 <= k < without_client(clients, client_id).len() ==> clients.contains(
                #[trigger] without_client(clients, client_id)[k],
            ),
    decreases clients.len(),
{
    if clients.len() > 0 {
        let fewer = clients.drop_last();
        lemma_clients_left(fewer, client_id);
        let left = without_client(clients, client_id);
        let before = without_client(fewer, client_id);
        assert forall|k: int| 0 <= k < left.len() implies clients.contains(#[trigger] left[k]) by {
            if k < before.len() {
                assert(left[k] == before[k]);
                let j = choose|j: int| 0 <= j < fewer.len() && fewer[j] == before[k];
                assert(clients[j] == left[k]);
            } else {
                assert(clients[clients.len() - 1] == left[k]);
            }
        }
    }
}

/// A session is found among other cookies: a part of the header that is no session is passed over,
/// and the first that is one counts.
pub proof fn law_session_among_cookies(first: Seq<char>, rest: Seq<char>, token: Seq<char>)
    requires
        forall|i: int| 0 <= i < first.len() ==> (#[trigger] first[i]) != ';',
    ensures
        trim_spec(first) == "ntz_session="@ + token ==> session_in_cookie(
            Some(first.push(';') + rest),
        ) == Some(token),
        trim_spec(first).len() < 12 || trim_spec(first).take(12) != "ntz_session="@
            ==> session_in_cookie(Some(first.push(';') + rest)) == session_in_cookie(Some(rest)),
        trim_spec(first).len() < 12 || trim_spec(first).take(12) != "ntz_session="@
            ==> session_in_cookie(Some(first)) is None,
{
    reveal_strlit("ntz_session=");
    assert("ntz_session="@.len() == 12);
    law_split_at_separator(first, ';', rest, CharClass::Semicolon);
    let parts = split_spec(first.push(';') + rest, CharClass::Semicolon);
    assert(parts[0] == first);
    assert(parts.skip(1) =~= split_spec(rest, CharClass::Semicolon));
    lemma_split_whole(first, CharClass::Semicolon);
    let alone = split_spec(first, CharClass::Semicolon);
    assert(alone[0] == first);
    assert(first_session(alone.skip(1)) is None);
    let session = "ntz_session="@ + token;
    assert(session.take(12) =~= "ntz_session="@);
    assert(session.skip(12) =~= token);
}

/// What an administrator saves for a server is what the server is told next: the listen address, the
/// public endpoint, the outside interface, the limit of clients and the switch of the form, under
/// the next version.
pub proof fn law_saved_server_form_is_told(
    store: ManagerStoreView,
    id: Seq<char>,
    form: ServerForm,
    k: int,
)
    requires
        0 <= k < store.servers.len(),
        store.servers[k].server_id == id,
        forall|j: int| 0 <= j < k ==> (#[trigger] store.servers[j]).server_id != id,
        config_version(store.settings) is Ok,
        version_can_rise(store.settings),
        server_config(store, id) is Ok,
        form.max_clients <= i64::MAX,
    ensures
        ({
            let after = ManagerStoreView {
                servers: with_changed_server(store.servers, id, form),
                settings: with_next_version(store.settings),
                ..store
            };
            &&& server_config(after, id) matches Ok(config)
            &&& config.listen_addr == trim_spec(form.listen_addr@)
            &&& config.public_endpoint == trim_spec(form.public_endpoint@)
            &&& config.max_clients == form.max_clients
            &&& config.enabled <==> form.enabled is Some
            &&& trim_spec(form.nat_iface@).len() > 0 ==> config.nat_iface == Some(
                trim_spec(form.nat_iface@),
            )
            &&& config.version == config_version(store.settings)->Ok_0 + 1
        }),
{
    let after = ManagerStoreView {
        servers: with_changed_server(store.servers, id, form),
        settings: with_next_version(store.settings),
        ..store
    };
    law_version_rises(store.settings);
    law_server_form_changes_one(store.servers, id, form, k);
    lemma_first_server(store.servers, id, k);
    assert forall|j: int| 0 <= j < k implies (#[trigger] after.servers[j]).server_id != id by {
        assert(store.servers[j].server_id != id);
    }
    lemma_first_server(after.servers, id, k);
    law_server_config_carries_the_row(after, id, k);
}

/// What an administrator saves for a client is what the client is told next, and what its server is
/// told of it: the tunnel address, the server, the egress address and the switch of the form.
pub proof fn law_saved_client_form_is_told(
    store: ManagerStoreView,
    id: Seq<char>,
    form: ClientForm,
    k: int,
)
    requires
        0 <= k < store.clients.len(),
        store.clients[k].client_id == id,
        forall|j: int| 0 <= j < k ==> (#[trigger] store.clients[j]).client_id != id,
        config_version(store.settings) is Ok,
        version_can_rise(store.settings),
        trim_spec(form.server_id@).len() > 0,
    ensures
        ({
            let after = ManagerStoreView {
                clients: with_changed_client(store.clients, id, form),
                settings: with_next_version(store.settings),
                ..store
            };
            &&& client_config(after, id) matches Ok(config)
            &&& config.tun_address == trim_spec(form.assigned_ip@)
            &&& config.server_id == trim_spec(form.server_id@)
            &&& form.enabled is None ==> !config.enabled
            &&& trim_spec(form.egress_ip@).len() > 0 ==> config.egress_ip == Some(
                trim_spec(form.egress_ip@),
            )
            &&& config.tunnel_token == store.clients[k].tunnel_token
            &&& after.clients[k].server_id == Some(trim_spec(form.server_id@))
            &&& config.version == config_version(store.settings)->Ok_0 + 1
        }),
{
    let after = ManagerStoreView {
        clients: with_changed_client(store.clients, id, form),
        settings: with_next_version(store.settings),
        ..store
    };
    law_version_rises(store.settings);
    law_client_form_changes_one(store.clients, id, form, k);
    assert forall|j: int| 0 <= j < k implies (#[trigger] after.clients[j]).client_id != id by {
        assert(store.clients[j].client_id != id);
    }
    law_client_config_carries_the_row(after, id, k);
}

/// What an administrator saves as settings is what a server that enrolls next is made with: the
/// listen address, the public endpoint, the tunnel device, the client network, the DNS addresses,
/// the limit of clients and the switch for address translation of the form.
pub proof fn law_saved_settings_make_new_servers(
    store: ManagerStoreView,
    form: GlobalSettingsForm,
    server_id: Seq<char>,
    node_name: Seq<char>,
)
    requires
        config_version(store.settings) is Ok,
        version_can_rise(store.settings),
        form.max_clients <= i64::MAX,
        forall|i: int|
            0 <= i < store.servers.len() ==> (#[trigger] store.servers[i]).server_id != server_id,
    ensures
        ({
            let saved = ManagerStoreView {
                settings: with_next_version(with_form(store.settings, form)),
                ..store
            };
            &&& with_server(saved, server_id, node_name) matches Ok(after)
            &&& after.servers.last().listen_addr == trim_spec(form.listen_addr@)
            &&& after.servers.last().public_endpoint == trim_spec(form.public_endpoint@)
            &&& after.servers.last().tun_name == trim_spec(form.tun_name@)
            &&& after.servers.last().tun_address == trim_spec(form.tun_address@)
            &&& after.servers.last().tun_prefix == form.tun_prefix
            &&& after.servers.last().client_cidr == trim_spec(form.client_cidr@)
            &&& after.servers.last().max_clients == form.max_clients
            &&& after.servers.last().doh_url == trim_spec(form.doh_url@)
            &&& after.servers.last().dns_bind_addr == trim_spec(form.dns_bind_addr@)
            &&& after.servers.last().setup_nat != 0 <==> form.setup_nat is Some
        }),
{
    let saved = ManagerStoreView {
        settings: with_next_version(with_form(store.settings, form)),
        ..store
    };
    law_form_is_saved_by_name(store.settings, form, Seq::empty());
    law_enrolled_server_numbers(saved, server_id, node_name, form.tun_prefix as nat);
    law_enrolled_server_numbers(saved, server_id, node_name, form.max_clients as nat);
}

} // verus!
