use ntz_proto::admin::{initialize, ClientForm, ServerForm, ENDED_SESSION_COOKIE};
use ntz_proto::clock::{timestamp_text, Timestamp};
use ntz_proto::dashboard::{
    render_note, render_server_select, render_token_row, server_display_name,
};
use ntz_proto::html::{
    display_text, escape_html, render_badge, render_card_actions, render_error_page,
    render_input_field, render_login, render_meta_card, render_page, render_select_field,
    render_textarea_field, render_toggle_field,
};
use ntz_proto::listing::{list_servers, TokenRow};
use ntz_proto::portal::{
    create_token_submit, dashboard, delete_client, delete_server, login_page, login_submit,
    logout_submit, update_client_submit, update_server_submit, update_settings_submit, PortalReply,
};
use ntz_proto::presence::{
    format_applied_version, format_last_seen, format_timestamp, format_used_timestamp,
    heartbeat_age_seconds, heartbeat_state, humanize_elapsed, render_config_badge,
    render_enabled_badge, render_heartbeat_badge, render_token_kind_badge,
    render_token_state_badge, was_seen_this_minute, HeartbeatState,
};
use ntz_proto::settings::{current_config_version, GlobalSettingsForm};
use ntz_proto::store::{ClientNode, ManagerStore, ServerNode};
use ntz_proto::text_map::TextMap;

fn now() -> Timestamp {
    Timestamp { secs: 1_700_000_000, nanos: 0 }
}

fn ago(seconds: i64) -> String {
    timestamp_text(Timestamp { secs: now().secs - seconds, nanos: 0 })
}

struct Portal {
    store: ManagerStore,
    sessions: TextMap,
    cookie: Option<String>,
}

fn signed_in() -> Portal {
    let mut store = ManagerStore::default();
    initialize(&mut store, "admin", "pw");
    let mut sessions = TextMap::default();
    let cookie = match login_submit(&store, &mut sessions, "admin", "pw") {
        PortalReply::RedirectWithCookie { path, cookie } => {
            assert_eq!(path, "/");
            assert!(cookie.ends_with("; HttpOnly; Path=/; SameSite=Lax"));
            cookie.split(';').next().map(|part| part.to_string())
        }
        other => panic!("not signed in: {other:?}"),
    };
    Portal { store, sessions, cookie }
}

fn server(id: &str, name: &str) -> ServerNode {
    ServerNode {
        server_id: id.to_string(),
        node_name: name.to_string(),
        listen_addr: "0.0.0.0:9000".to_string(),
        public_endpoint: "192.0.2.1:9000".to_string(),
        tun_name: "ntz0".to_string(),
        tun_address: "10.44.0.1".to_string(),
        tun_prefix: 24,
        mtu: None,
        client_cidr: "10.44.0.0/24".to_string(),
        nat_iface: None,
        setup_nat: 1,
        max_clients: 32,
        egress_ips_json: "[]".to_string(),
        blocked_ips_json: "[]".to_string(),
        protected_ips_json: "[]".to_string(),
        doh_url: "https://dns".to_string(),
        dns_bind_addr: "10.44.0.1:53".to_string(),
        enabled: 1,
    }
}

#[test]
fn escaping() {
    assert_eq!(
        escape_html("<a href=\"x\">&'</a>"),
        "&lt;a href=&quot;x&quot;&gt;&amp;&#39;&lt;/a&gt;"
    );
    assert_eq!(escape_html("&lt;"), "&amp;lt;");
    assert_eq!(escape_html("plain é"), "plain é");
}

#[test]
fn pieces_of_forms() {
    assert_eq!(
        render_input_field("L<", "n", "text", "v\"", "h"),
        r#"<label class="field"><span>L&lt;</span><input type="text" name="n" value="v&quot;"/><small>h</small></label>"#
    );
    assert_eq!(
        render_select_field("L", "n", "<option>", "h"),
        r#"<label class="field"><span>L</span><select name="n"><option></select><small>h</small></label>"#
    );
    assert_eq!(
        render_textarea_field("L", "n", "<v>", "h"),
        r#"<label class="field"><span>L</span><textarea name="n">&lt;v&gt;</textarea><small>h</small></label>"#
    );
    assert_eq!(
        render_toggle_field("L", "n", true, "h"),
        r#"<div class="toggle"><label><input type="checkbox" name="n" checked /><span>L</span></label><small>h</small></div>"#
    );
    assert_eq!(
        render_toggle_field("L", "n", false, "h"),
        r#"<div class="toggle"><label><input type="checkbox" name="n"  /><span>L</span></label><small>h</small></div>"#
    );
    assert_eq!(render_badge("A&B", "ok"), r#"<span class="pill ok">A&amp;B</span>"#);
    assert_eq!(
        render_meta_card("L", "<b>v</b>"),
        r#"<div class="meta-card"><strong>L</strong><b>v</b></div>"#
    );
    let actions = render_card_actions("f", "Save", "help", "/x/delete", "Remove", "Sure?");
    assert!(actions.contains(r#"form="f">Save</button>"#));
    assert!(actions.contains(r#"action="/x/delete" data-confirm="Sure?">"#));
    assert_eq!(display_text("  ", "none"), "none");
    assert_eq!(display_text(" x ", "none"), "x");
}

#[test]
fn pages_have_style_and_script() {
    let page = render_page("T<", "<p>body</p>");
    assert!(page.starts_with("<!DOCTYPE html><html lang=\"en\"><head>"));
    assert!(page.contains("<title>T&lt;</title><style>\n:root{--bg:#f8f1e6;"));
    assert!(page.contains("</style></head><body><p>body</p><script>\nfunction escapeClientHtml"));
    assert!(page.contains("});\n\n\nasync function refreshLogs() {"));
    assert!(page.ends_with("refreshAlerts();\n\n</script></body></html>"));
    let error = render_error_page("bad <thing>");
    assert!(error.contains(r#"<pre class="error-block">bad &lt;thing&gt;</pre>"#));
    assert!(error.contains("<title>NTZ Manager Error</title>"));
    assert!(render_login(None).contains("Open NTZ Manager"));
    assert!(!render_login(None).contains("Sign-in failed."));
    assert!(render_login(Some("no")).contains("<strong>Sign-in failed.</strong><div>no</div>"));
}

#[test]
fn presence_fades() {
    assert_eq!(heartbeat_state(&ago(0), now()), HeartbeatState::Online);
    assert_eq!(heartbeat_state(&ago(45), now()), HeartbeatState::Online);
    assert_eq!(heartbeat_state(&ago(46), now()), HeartbeatState::Stale);
    assert_eq!(heartbeat_state(&ago(300), now()), HeartbeatState::Stale);
    assert_eq!(heartbeat_state(&ago(301), now()), HeartbeatState::Offline);
    assert_eq!(heartbeat_state("", now()), HeartbeatState::Pending);
    assert_eq!(heartbeat_state(&ago(-50), now()), HeartbeatState::Online);
    assert_eq!(heartbeat_age_seconds(&ago(7), now()), Some(7));
    assert_eq!(heartbeat_age_seconds(&ago(-7), now()), Some(0));
    assert_eq!(heartbeat_age_seconds("x", now()), None);
    assert!(was_seen_this_minute(&ago(59), now()));
    assert!(!was_seen_this_minute(&ago(60), now()));
    assert!(!was_seen_this_minute("", now()));
}

#[test]
fn elapsed_times_in_words() {
    assert_eq!(humanize_elapsed(0), "just now");
    assert_eq!(humanize_elapsed(4), "just now");
    assert_eq!(humanize_elapsed(5), "5s ago");
    assert_eq!(humanize_elapsed(59), "59s ago");
    assert_eq!(humanize_elapsed(60), "1m ago");
    assert_eq!(humanize_elapsed(3599), "59m ago");
    assert_eq!(humanize_elapsed(3600), "1h ago");
    assert_eq!(humanize_elapsed(86_399), "23h ago");
    assert_eq!(humanize_elapsed(172_800), "2d ago");
    assert_eq!(humanize_elapsed(-1), "0d ago");
    assert_eq!(humanize_elapsed(-86_400), "-1d ago");
}

#[test]
fn times_in_words() {
    assert_eq!(format_last_seen(&ago(7), now()), "7s ago (2023-11-14 22:13 UTC)");
    assert_eq!(format_last_seen("", now()), "No heartbeat received yet");
    assert_eq!(format_timestamp(&ago(0)), "2023-11-14 22:13 UTC");
    assert_eq!(format_timestamp(" soon "), "soon");
    assert_eq!(format_timestamp(""), "Not yet");
    assert_eq!(format_used_timestamp(" "), "Not used yet");
    assert_eq!(format_used_timestamp(&ago(0)), "2023-11-14 22:13 UTC");
    assert_eq!(format_applied_version(Some(3), 3), "v3 (current)");
    assert_eq!(format_applied_version(Some(3), 4), "v3 (manager on v4)");
    assert_eq!(format_applied_version(None, 4), "Not reported yet (manager on v4)");
}

#[test]
fn badges() {
    assert_eq!(render_heartbeat_badge(&ago(1), now()), render_badge("Online", "ok"));
    assert_eq!(render_heartbeat_badge(&ago(100), now()), render_badge("Stale", "warn"));
    assert_eq!(render_heartbeat_badge(&ago(900), now()), render_badge("Offline", "muted-pill"));
    assert_eq!(render_heartbeat_badge("", now()), render_badge("Pending", "muted-pill"));
    assert_eq!(render_enabled_badge(true), render_badge("Enabled", "ok"));
    assert_eq!(render_enabled_badge(false), render_badge("Disabled", "muted-pill"));
    assert_eq!(render_config_badge(Some(2), 2), render_badge("Config current", "info"));
    assert_eq!(render_config_badge(Some(1), 2), render_badge("Needs refresh", "warn"));
    assert_eq!(render_config_badge(None, 2), render_badge("Config pending", "muted-pill"));
    assert_eq!(render_token_kind_badge(" SERVER "), render_badge("Server", "info"));
    assert_eq!(render_token_kind_badge("client"), render_badge("Client", "info"));
    assert_eq!(render_token_state_badge(""), render_badge("Ready", "ok"));
    assert_eq!(render_token_state_badge("x"), render_badge("Used", "muted-pill"));
}

#[test]
fn notes() {
    assert!(render_note("", "").contains("Waiting for status"));
    assert_eq!(
        render_note("fine", " "),
        r#"<div class="note success"><strong>Agent note</strong><div>fine</div></div>"#
    );
    assert_eq!(
        render_note("", "boom"),
        r#"<div class="note error"><strong>Last error</strong><div>boom</div></div>"#
    );
    assert_eq!(
        render_note("m", "boom"),
        r#"<div class="note error"><strong>Last error</strong><div>boom</div><small>Agent note: m</small></div>"#
    );
}

#[test]
fn servers_of_clients() {
    let mut store = ManagerStore::default();
    store.servers.push(server("s1", "vpn <1>"));
    let rows = list_servers(&store);
    assert_eq!(server_display_name(" ", &rows), "Unassigned");
    assert_eq!(server_display_name(" s1 ", &rows), "vpn <1> (s1)");
    assert_eq!(server_display_name("s2", &rows), "s2");
    assert_eq!(
        render_server_select("s1", &rows),
        r#"<option value="">Unassigned</option><option value="s1" selected>vpn &lt;1&gt; (s1)</option>"#
    );
    assert_eq!(
        render_server_select("s2", &rows),
        r#"<option value="">Unassigned</option><option value="s1">vpn &lt;1&gt; (s1)</option>"#
    );
}

#[test]
fn token_rows() {
    let row = render_token_row(&TokenRow {
        token: "t".to_string(),
        kind: "server".to_string(),
        label: "<lab>".to_string(),
        created_at: ago(0),
        used_at: String::new(),
    });
    assert!(row.starts_with(r#"<tr><td><div class="token"><code>t</code>"#));
    assert!(row.contains("<td>&lt;lab&gt;</td><td>2023-11-14 22:13 UTC</td><td>Not used yet</td></tr>"));
}

#[test]
fn signing_in_and_out() {
    let mut portal = signed_in();
    assert!(matches!(login_page(), PortalReply::Page(_)));
    match login_submit(&portal.store, &mut portal.sessions, "admin", "wrong") {
        PortalReply::Page(html) => assert!(html.contains("Invalid username or password")),
        other => panic!("{other:?}"),
    }
    assert!(matches!(
        dashboard(&portal.store, &portal.sessions, &portal.cookie, now()),
        PortalReply::Page(_)
    ));
    match logout_submit(&mut portal.sessions, &portal.cookie) {
        PortalReply::RedirectWithCookie { path, cookie } => {
            assert_eq!(path, "/login");
            assert_eq!(cookie, ENDED_SESSION_COOKIE);
        }
        other => panic!("{other:?}"),
    }
    assert!(matches!(
        dashboard(&portal.store, &portal.sessions, &portal.cookie, now()),
        PortalReply::Redirect("/login")
    ));
}

#[test]
fn the_dashboard_shows_the_network() {
    let mut portal = signed_in();
    portal.store.servers.push(server("s1", "vpn-1"));
    portal.store.clients.push(ClientNode {
        client_id: "c1".to_string(),
        device_name: "laptop <x>".to_string(),
        assigned_ip: "10.44.0.10".to_string(),
        server_id: Some("s1".to_string()),
        tunnel_token: "secret-tunnel-token".to_string(),
        enabled: 1,
        egress_ip: None,
    });
    let html = match dashboard(&portal.store, &portal.sessions, &portal.cookie, now()) {
        PortalReply::Page(html) => html,
        other => panic!("{other:?}"),
    };
    assert!(html.contains("<h3>vpn-1</h3>"));
    assert!(html.contains("<h3>laptop &lt;x&gt;</h3>"));
    assert!(html.contains("Remove server &#39;vpn-1&#39; and unassign any clients linked to it?"));
    assert!(html.contains(r#"<span class="pill info">Config v1</span>"#));
    assert!(html.contains(r#"<div class="value">0/1</div><div class="muted">Nodes with heartbeats in the last 45 seconds."#));
    assert!(html.contains(r#"<div class="value">1/1</div><div class="muted">Enrolled devices already mapped to a server."#));
    assert!(html.contains("No bootstrap tokens yet."));
    assert!(html.contains(r#"name="client_cidr" value="10.44.0.0/24"/>"#));
    assert!(!html.contains("secret-tunnel-token"));
    portal.store.settings.remove("config_version");
    match dashboard(&portal.store, &portal.sessions, &portal.cookie, now()) {
        PortalReply::Failure(page) => assert!(page.contains("Query returned no rows")),
        other => panic!("{other:?}"),
    }
}

#[test]
fn an_empty_network_says_so() {
    let portal = signed_in();
    let html = match dashboard(&portal.store, &portal.sessions, &portal.cookie, now()) {
        PortalReply::Page(html) => html,
        other => panic!("{other:?}"),
    };
    assert!(html.contains("No server nodes enrolled yet."));
    assert!(html.contains("No client devices enrolled yet."));
}

#[test]
fn tokens_from_the_portal() {
    let mut portal = signed_in();
    let reply = create_token_submit(
        &mut portal.store,
        &portal.sessions,
        &portal.cookie,
        now(),
        "server",
        " lab ",
    );
    assert!(matches!(reply, PortalReply::Redirect("/")));
    assert_eq!(portal.store.tokens.len(), 1);
    assert_eq!(portal.store.tokens[0].label, "lab");
    assert_eq!(portal.store.tokens[0].token.len(), 48);
    let reply = create_token_submit(
        &mut portal.store,
        &portal.sessions,
        &portal.cookie,
        now(),
        "router",
        "x",
    );
    assert!(matches!(
        reply,
        PortalReply::RedirectWithError { path: "/", message: "Unsupported token type requested" }
    ));
    let reply =
        create_token_submit(&mut portal.store, &portal.sessions, &None, now(), "server", "x");
    assert!(matches!(reply, PortalReply::Redirect("/login")));
    assert_eq!(portal.store.tokens.len(), 1);
}

#[test]
fn changes_from_the_portal() {
    let mut portal = signed_in();
    portal.store.servers.push(server("s1", "vpn-1"));
    let server_form = ServerForm {
        listen_addr: "a".to_string(),
        public_endpoint: "b".to_string(),
        nat_iface: "c".to_string(),
        max_clients: 1,
        enabled: Some("on".to_string()),
    };
    let client_form = ClientForm {
        assigned_ip: "a".to_string(),
        server_id: "b".to_string(),
        egress_ip: "c".to_string(),
        enabled: None,
    };
    let settings_form = GlobalSettingsForm {
        listen_addr: "a".to_string(),
        public_endpoint: "b".to_string(),
        tun_name: "c".to_string(),
        tun_address: "d".to_string(),
        tun_prefix: 8,
        client_cidr: "e".to_string(),
        mtu: "f".to_string(),
        nat_iface: "g".to_string(),
        setup_nat: None,
        max_clients: 1,
        doh_url: "h".to_string(),
        dns_bind_addr: "i".to_string(),
        blocked_ips: String::new(),
        protected_ips: String::new(),
        egress_ips: String::new(),
    };
    for cookie in [portal.cookie.clone(), None] {
        let (sessions, store) = (&portal.sessions, &mut portal.store);
        let replies = vec![
            update_server_submit(store, sessions, &cookie, "s1", &server_form),
            update_client_submit(store, sessions, &cookie, "c1", &client_form),
            update_settings_submit(store, sessions, &cookie, &settings_form),
            delete_client(store, sessions, &cookie, "c1"),
            delete_server(store, sessions, &cookie, "s1"),
        ];
        for reply in replies {
            let expected = if cookie.is_some() { "/" } else { "/login" };
            match reply {
                PortalReply::Redirect(path) => assert_eq!(path, expected),
                other => panic!("{other:?}"),
            }
        }
    }
    assert_eq!(current_config_version(&portal.store.settings), Ok(6));
    assert_eq!(portal.store.servers.len(), 0);
    portal.store.settings.remove("config_version");
    portal.store.servers.push(server("s1", "vpn-1"));
    let (sessions, store) = (&portal.sessions, &mut portal.store);
    assert!(matches!(
        delete_server(store, sessions, &portal.cookie, "s1"),
        PortalReply::Failure(_)
    ));
    assert!(matches!(
        delete_client(store, sessions, &portal.cookie, "c1"),
        PortalReply::Failure(_)
    ));
    assert_eq!(store.servers.len(), 1);
    assert_eq!(sessions.clone().len(), sessions.len());
}
