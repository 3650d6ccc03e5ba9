//! The pages and forms of the portal. Everything but signing in needs a session.

use vstd::prelude::*;

use crate::admin::{
    client_deleted, create_token, delete_client_record, delete_server_record, is_admin, kind_of,
    login, logout, parse_kind, require_session, server_deleted, session_cookie,
    session_cookie_text, signed_in, signed_out, update_client, update_server, with_changed_client,
    with_changed_server, with_token, ClientForm, ServerForm, ENDED_SESSION_COOKIE,
};
use crate::clock::Timestamp;
use crate::dashboard::{dashboard_html, render_dashboard, DashboardView};
use crate::hex::is_hex_text;
use crate::html::{
    error_page_html, escaped, law_errors_are_shown, login_html, render_error_page, render_login,
    shows,
};
use crate::listing::{
    law_lists_show_the_store, list_clients, list_servers, list_tokens, listed_clients,
    listed_servers, listed_tokens,
};
use crate::settings::{
    config_version, current_config_version, lists_read_back, update_settings, version_can_rise,
    with_form, with_next_version, GlobalSettingsForm,
};
use crate::store::{ManagerStore, ManagerStoreView};
use crate::text::option_view;
use crate::text_map::TextMap;

verus! {

/// What the portal answers.
#[derive(Debug)]
pub enum PortalReply {
    /// A page.
    Page(String),
    /// Go to another page.
    Redirect(&'static str),
    /// Go to another page, which is told of an error.
    RedirectWithError { path: &'static str, message: &'static str },
    /// Go to another page, with a cookie.
    RedirectWithCookie { path: &'static str, cookie: String },
    /// The manager failed; the page says how.
    Failure(String),
}

/// The view of [`PortalReply`].
pub enum PortalView {
    Page(Seq<char>),
    Redirect(Seq<char>),
    RedirectWithError { path: Seq<char>, message: Seq<char> },
    RedirectWithCookie { path: Seq<char>, cookie: Seq<char> },
    Failure(Seq<char>),
}

impl View for PortalReply {
    type V = PortalView;

    open spec fn view(&self) -> PortalView {
        match self {
            PortalReply::Page(html) => PortalView::Page(html@),
            PortalReply::Redirect(path) => PortalView::Redirect(path@),
            PortalReply::RedirectWithError { path, message } => PortalView::RedirectWithError {
                path: path@,
                message: message@,
            },
            PortalReply::RedirectWithCookie { path, cookie } => PortalView::RedirectWithCookie {
                path: path@,
                cookie: cookie@,
            },
            PortalReply::Failure(html) => PortalView::Failure(html@),
        }
    }
}

/// The answer to whoever is not signed in.
pub open spec fn to_login() -> PortalView {
    PortalView::Redirect("/login"@)
}

/// The answer to a change that was made, or that failed.
pub open spec fn change_answer(outcome: Result<(), Seq<char>>) -> PortalView {
    match outcome {
        Ok(_) => PortalView::Redirect("/"@),
        Err(message) => PortalView::Failure(error_page_html(message)),
    }
}

/// The error of a version that cannot be read, or nothing.
pub open spec fn version_outcome(settings: Map<Seq<char>, Seq<char>>) -> Result<(), Seq<char>> {
    match config_version(settings) {
        Ok(_) => Ok(()),
        Err(message) => Err(message),
    }
}

/// The answer to a change that was made, or that failed.
fn answer_change(outcome: Result<(), String>) -> (reply: PortalReply)
    ensures
        reply@ == match outcome {
            Ok(_) => change_answer(Ok(())),
            Err(message) => change_answer(Err(message@)),
        },
{
    match outcome {
        Ok(_) => PortalReply::Redirect("/"),
        Err(message) => PortalReply::Failure(render_error_page(message.as_str())),
    }
}

/// The page for signing in.
pub fn login_page() -> (reply: PortalReply)
    ensures
        reply@ == PortalView::Page(login_html(None)),
{
    PortalReply::Page(render_login(None))
}

/// Signs an administrator in: the right name and password start a session under a fresh token, any
/// other change nothing and are told so.
pub fn login_submit(
    store: &ManagerStore,
    sessions: &mut TextMap,
    username: &str,
    password: &str,
) -> (reply:
    PortalReply)
    requires
        store.wf(),
        old(sessions).wf(),
    ensures
        final(sessions).wf(),
        if is_admin(store@.admins, username@, password@) {
            exists|token: Seq<char>|
                is_hex_text(token, 48) && final(sessions)@ == old(sessions)@.insert(
                    token,
                    username@,
                ) && reply@ == (PortalView::RedirectWithCookie {
                    path: "/"@,
                    cookie: #[trigger] session_cookie(token),
                })
        } else {
            final(sessions)@ == old(sessions)@ && reply@ == PortalView::Page(
                login_html(Some("Invalid username or password"@)),
            )
        },
{
    match login(store, sessions, username, password) {
        Some(token) => PortalReply::RedirectWithCookie {
            path: "/",
            cookie: session_cookie_text(token.as_str()),
        },
        None => PortalReply::Page(render_login(Some("Invalid username or password"))),
    }
}

/// Ends the session of a cookie.
pub fn logout_submit(sessions: &mut TextMap, cookie: &Option<String>) -> (reply: PortalReply)
    requires
        old(sessions).wf(),
    ensures
        final(sessions).wf(),
        final(sessions)@ == signed_out(old(sessions)@, option_view(*cookie)),
        reply@ == (PortalView::RedirectWithCookie {
            path: "/login"@,
            cookie: ENDED_SESSION_COOKIE@,
        }),
{
    logout(sessions, cookie);
    PortalReply::RedirectWithCookie { path: "/login", cookie: String::from_str(ENDED_SESSION_COOKIE) }
}

/// What the dashboard is made from.
pub open spec fn dashboard_data(
    store: ManagerStoreView,
    version: u64,
    now: Timestamp,
) -> DashboardView {
    DashboardView {
        version,
        settings: store.settings,
        servers: listed_servers(store),
        clients: listed_clients(store),
        tokens: listed_tokens(store),
        now,
    }
}

/// The dashboard, for whoever is signed in.
pub fn dashboard(
    store: &ManagerStore,
    sessions: &TextMap,
    cookie: &Option<String>,
    now: Timestamp,
) -> (reply:
    PortalReply)
    requires
        store.wf(),
        sessions.wf(),
        now.valid(),
    ensures
        reply@ == if signed_in(sessions@, option_view(*cookie)) is None {
            to_login()
        } else {
            match config_version(store@.settings) {
                Ok(version) => PortalView::Page(
                    dashboard_html(dashboard_data(store@, version as u64, now)),
                ),
                Err(message) => PortalView::Failure(error_page_html(message)),
            }
        },
{
    if require_session(sessions, cookie).is_none() {
        return PortalReply::Redirect("/login");
    }
    let servers = list_servers(store);
    let clients = list_clients(store);
    let tokens = list_tokens(store);
    match current_config_version(&store.settings) {
        Ok(version) => PortalReply::Page(
            render_dashboard(version, &store.settings, &servers, &clients, &tokens, now),
        ),
        Err(message) => PortalReply::Failure(render_error_page(message.as_str())),
    }
}

/// Creates an enrollment token, for whoever is signed in.
pub fn create_token_submit(
    store: &mut ManagerStore,
    sessions: &TextMap,
    cookie: &Option<String>,
    now: Timestamp,
    kind: &str,
    label: &str,
) -> (reply: PortalReply)
    requires
        old(store).wf(),
        sessions.wf(),
        now.is_clock_reading(),
    ensures
        final(store).wf(),
        if signed_in(sessions@, option_view(*cookie)) is None {
            reply@ == to_login() && final(store)@ == old(store)@
        } else if kind_of(kind@) is None {
            reply@ == (PortalView::RedirectWithError {
                path: "/"@,
                message: "Unsupported token type requested"@,
            }) && final(store)@ == old(store)@
        } else {
            exists|token: Seq<char>|
                is_hex_text(token, 48) && match #[trigger] with_token(
                    old(store)@,
                    now,
                    token,
                    kind_of(kind@)->Some_0,
                    label@,
                ) {
                    Ok(after) => reply@ == change_answer(Ok(())) && final(store)@ == after,
                    Err(message) => reply@ == change_answer(Err(message)) && final(store)@ == old(
                        store,
                    )@,
                }
        },
{
    if require_session(sessions, cookie).is_none() {
        return PortalReply::Redirect("/login");
    }
    match parse_kind(kind) {
        None => PortalReply::RedirectWithError {
            path: "/",
            message: "Unsupported token type requested",
        },
        Some(kind) => match create_token(store, now, kind, label) {
            Ok(_) => PortalReply::Redirect("/"),
            Err(message) => PortalReply::Failure(render_error_page(message)),
        },
    }
}

/// Changes the settings of the network, for whoever is signed in.
pub fn update_settings_submit(
    store: &mut ManagerStore,
    sessions: &TextMap,
    cookie: &Option<String>,
    form: &GlobalSettingsForm,
) -> (reply: PortalReply)
    requires
        old(store).wf(),
        sessions.wf(),
        signed_in(sessions@, option_view(*cookie)) is Some ==> version_can_rise(
            old(store)@.settings,
        ),
    ensures
        final(store).wf(),
        if signed_in(sessions@, option_view(*cookie)) is None {
            reply@ == to_login() && final(store)@ == old(store)@
        } else {
            reply@ == change_answer(version_outcome(old(store)@.settings)) && final(store)@ == if (
            config_version(old(store)@.settings) is Ok) {
                ManagerStoreView {
                    settings: with_next_version(with_form(old(store)@.settings, *form)),
                    ..old(store)@
                }
            } else {
                old(store)@
            } && (config_version(old(store)@.settings) is Ok ==> lists_read_back(*form))
        },
{
    if require_session(sessions, cookie).is_none() {
        return PortalReply::Redirect("/login");
    }
    answer_change(update_settings(&mut store.settings, form))
}

/// Changes a server, for whoever is signed in.
pub fn update_server_submit(
    store: &mut ManagerStore,
    sessions: &TextMap,
    cookie: &Option<String>,
    id: &str,
    form: &ServerForm,
) -> (reply: PortalReply)
    requires
        old(store).wf(),
        sessions.wf(),
        signed_in(sessions@, option_view(*cookie)) is Some ==> version_can_rise(
            old(store)@.settings,
        ),
    ensures
        final(store).wf(),
        if signed_in(sessions@, option_view(*cookie)) is None {
            reply@ == to_login() && final(store)@ == old(store)@
        } else {
            reply@ == change_answer(version_outcome(old(store)@.settings)) && final(store)@ == if (
            config_version(old(store)@.settings) is Ok) {
                ManagerStoreView {
                    servers: with_changed_server(old(store)@.servers, id@, *form),
                    settings: with_next_version(old(store)@.settings),
                    ..old(store)@
                }
            } else {
                old(store)@
            }
        },
{
    if require_session(sessions, cookie).is_none() {
        return PortalReply::Redirect("/login");
    }
    answer_change(update_server(store, id, form))
}

/// Changes a client, for whoever is signed in.
pub fn update_client_submit(
    store: &mut ManagerStore,
    sessions: &TextMap,
    cookie: &Option<String>,
    id: &str,
    form: &ClientForm,
) -> (reply: PortalReply)
    requires
        old(store).wf(),
        sessions.wf(),
        signed_in(sessions@, option_view(*cookie)) is Some ==> version_can_rise(
            old(store)@.settings,
        ),
    ensures
        final(store).wf(),
        if signed_in(sessions@, option_view(*cookie)) is None {
            reply@ == to_login() && final(store)@ == old(store)@
        } else {
            reply@ == change_answer(version_outcome(old(store)@.settings)) && final(store)@ == if (
            config_version(old(store)@.settings) is Ok) {
                ManagerStoreView {
                    clients: with_changed_client(old(store)@.clients, id@, *form),
                    settings: with_next_version(old(store)@.settings),
                    ..old(store)@
                }
            } else {
                old(store)@
            }
        },
{
    if require_session(sessions, cookie).is_none() {
        return PortalReply::Redirect("/login");
    }
    answer_change(update_client(store, id, form))
}

/// Removes a server, for whoever is signed in. A store whose version cannot be read is left as it
/// is: removal and version are one change.
pub fn delete_server(
    store: &mut ManagerStore,
    sessions: &TextMap,
    cookie: &Option<String>,
    id: &str,
) -> (reply: PortalReply)
    requires
        old(store).wf(),
        sessions.wf(),
        signed_in(sessions@, option_view(*cookie)) is Some ==> version_can_rise(
            old(store)@.settings,
        ),
    ensures
        final(store).wf(),
        if signed_in(sessions@, option_view(*cookie)) is None {
            reply@ == to_login() && final(store)@ == old(store)@
        } else {
            reply@ == change_answer(version_outcome(old(store)@.settings)) && final(store)@ == if (
            config_version(old(store)@.settings) is Ok) {
                server_deleted(old(store)@, id@)
            } else {
                old(store)@
            }
        },
{
    if require_session(sessions, cookie).is_none() {
        return PortalReply::Redirect("/login");
    }
    if let Err(message) = current_config_version(&store.settings) {
        return PortalReply::Failure(render_error_page(message.as_str()));
    }
    answer_change(delete_server_record(store, id))
}

/// Removes a client, for whoever is signed in. A store whose version cannot be read is left as it
/// is: removal and version are one change.
pub fn delete_client(
    store: &mut ManagerStore,
    sessions: &TextMap,
    cookie: &Option<String>,
    id: &str,
) -> (reply: PortalReply)
    requires
        old(store).wf(),
        sessions.wf(),
        signed_in(sessions@, option_view(*cookie)) is Some ==> version_can_rise(
            old(store)@.settings,
        ),
    ensures
        final(store).wf(),
        if signed_in(sessions@, option_view(*cookie)) is None {
            reply@ == to_login() && final(store)@ == old(store)@
        } else {
            reply@ == change_answer(version_outcome(old(store)@.settings)) && final(store)@ == if (
            config_version(old(store)@.settings) is Ok) {
                client_deleted(old(store)@, id@)
            } else {
                old(store)@
            }
        },
{
    if require_session(sessions, cookie).is_none() {
        return PortalReply::Redirect("/login");
    }
    if let Err(message) = current_config_version(&store.settings) {
        return PortalReply::Failure(render_error_page(message.as_str()));
    }
    answer_change(delete_client_record(store, id))
}

/// A change that was made leads back to the dashboard, one that failed is shown with its reason, and
/// whoever is not signed in is led to the page for signing in.
pub proof fn law_portal_answers(message: Seq<char>)
    ensures
        change_answer(Ok(())) == PortalView::Redirect("/"@),
        change_answer(Err(message)) matches PortalView::Failure(page) && shows(
            page,
            escaped(message),
        ),
        to_login() == PortalView::Redirect("/login"@),
{
    law_errors_are_shown(message);
}

/// The dashboard shows what the store holds: its settings, and all its servers, clients and tokens.
pub proof fn law_dashboard_is_of_the_store(store: ManagerStoreView, version: u64, now: Timestamp)
    ensures
        ({
            let d = dashboard_data(store, version, now);
            &&& d.version == version
            &&& d.settings == store.settings
            &&& d.now == now
            &&& d.servers.len() == store.servers.len()
            &&& d.clients.len() == store.clients.len()
            &&& d.tokens.len() == store.tokens.len()
            &&& d.servers == listed_servers(store)
            &&& d.clients == listed_clients(store)
            &&& d.tokens == listed_tokens(store)
        }),
{
    law_lists_show_the_store(store, 0, 0, 0);
}

} // verus!
