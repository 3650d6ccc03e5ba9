//! The dashboard.

use vstd::prelude::*;

use crate::clock::Timestamp;
use crate::decimal::{decimal, decimal_u64};
use crate::html::{
    badge_html, card_actions_html, code_html, display_text, escape_html, escaped, input_field_html,
    law_pages_show_their_body, lemma_shows, meta_card_html, page_html, render_badge,
    render_card_actions, render_code, render_input_field, render_meta_card, render_page,
    render_select_field, render_textarea_field, render_toggle_field, select_field_html, shows,
    text_or, textarea_field_html, toggle_field_html,
};
use crate::json::{json_list_or_empty, parse_json_list_or_empty};
use crate::listing::{
    ClientRow, ClientRowView, ServerRow, ServerRowView, TokenRow, TokenRowView,
};
use crate::presence::{
    applied_text, config_badge_html, enabled_badge_html, format_applied_version, format_last_seen,
    format_timestamp, format_used_timestamp, heartbeat_badge_html, heartbeat_state, last_seen_text,
    presence, render_config_badge, render_enabled_badge, render_heartbeat_badge,
    render_token_kind_badge, render_token_state_badge, seen_this_minute, time_text,
    token_kind_badge_html, token_state_badge_html, used_text, was_seen_this_minute, HeartbeatState,
};
use crate::settings::{parse_bool, says_yes, setting, settings_value};
use crate::text::{join, join_spec, text_eq, trim, trim_spec, views};
use crate::text_map::TextMap;

verus! {

/// What an agent said beside an error.
pub open spec fn error_extra_html(message: Seq<char>) -> Seq<char> {
    "<small>Agent note: "@
        + escaped(message)
        + "</small>"@
}

/// What an agent said beside an error.
pub fn render_error_extra(message: &str) -> (html: String)
    ensures
        html@ == error_extra_html(message@),
{
    let mut html = String::from_str("<small>Agent note: ");
    html.append(escape_html(message).as_str());
    html.append("</small>");
    html
}

/// What an agent said beside an error, or nothing.
pub open spec fn optional_extra_html(message: Seq<char>) -> Seq<char> {
    if trim_spec(message).len() == 0 {
        Seq::empty()
    } else {
        error_extra_html(message)
    }
}

/// What an agent said beside an error, or nothing.
fn render_optional_extra(message: &str) -> (html: String)
    ensures
        html@ == optional_extra_html(message@),
{
    if trim(message).as_str().is_empty() {
        String::new()
    } else {
        render_error_extra(message)
    }
}

/// The last error of an agent.
pub open spec fn error_note_html(message: Seq<char>, error: Seq<char>) -> Seq<char> {
    r#"<div class="note error"><strong>Last error</strong><div>"#@
        + escaped(error)
        + "</div>"@
        + optional_extra_html(message)
        + "</div>"@
}

/// The last error of an agent.
pub fn render_error_note(message: &str, error: &str) -> (html: String)
    ensures
        html@ == error_note_html(message@, error@),
{
    let mut html = String::from_str(r#"<div class="note error"><strong>Last error</strong><div>"#);
    html.append(escape_html(error).as_str());
    html.append("</div>");
    html.append(render_optional_extra(message).as_str());
    html.append("</div>");
    html
}

/// The last message of an agent.
pub open spec fn success_note_html(message: Seq<char>) -> Seq<char> {
    r#"<div class="note success"><strong>Agent note</strong><div>"#@
        + escaped(message)
        + "</div></div>"@
}

/// The last message of an agent.
pub fn render_success_note(message: &str) -> (html: String)
    ensures
        html@ == success_note_html(message@),
{
    let mut html = String::from_str(
        r#"<div class="note success"><strong>Agent note</strong><div>"#,
    );
    html.append(escape_html(message).as_str());
    html.append("</div></div>");
    html
}

/// What an agent last said: its error, else its message, else that it said nothing yet.
pub open spec fn note_html(message: Seq<char>, error: Seq<char>) -> Seq<char> {
    if trim_spec(error).len() > 0 {
        error_note_html(message, error)
    } else if trim_spec(message).len() > 0 {
        success_note_html(message)
    } else {
        r#"<div class="note info"><strong>Waiting for status</strong><div>No detailed agent message has been reported yet.</div></div>"#@
    }
}

/// What an agent last said: its error, else its message, else that it said nothing yet.
pub fn render_note(message: &str, error: &str) -> (html: String)
    ensures
        html@ == note_html(message@, error@),
{
    if !trim(error).as_str().is_empty() {
        render_error_note(message, error)
    } else if !trim(message).as_str().is_empty() {
        render_success_note(message)
    } else {
        String::from_str(r#"<div class="note info"><strong>Waiting for status</strong><div>No detailed agent message has been reported yet.</div></div>"#)
    }
}

/// The name and identity of a server.
pub open spec fn server_label(node_name: Seq<char>, server_id: Seq<char>) -> Seq<char> {
    node_name + " ("@ + server_id + ")"@
}

/// The name and identity of a server.
fn make_server_label(node_name: &str, server_id: &str) -> (r: String)
    ensures
        r@ == server_label(node_name@, server_id@),
{
    let mut r = node_name.to_owned();
    r.append(" (");
    r.append(server_id);
    r.append(")");
    r
}

/// The first listed server with an identity.
pub open spec fn listed_server(servers: Seq<ServerRowView>, server_id: Seq<char>) -> Option<
    ServerRowView,
>
    decreases servers.len(),
{
    if servers.len() == 0 {
        None
    } else if servers[0].server_id == server_id {
        Some(servers[0])
    } else {
        listed_server(servers.skip(1), server_id)
    }
}

/// How the server of a client is shown.
pub open spec fn server_name(server_id: Seq<char>, servers: Seq<ServerRowView>) -> Seq<char> {
    if trim_spec(server_id).len() == 0 {
        "Unassigned"@
    } else {
        match listed_server(servers, trim_spec(server_id)) {
            Some(server) => server_label(server.node_name, server.server_id),
            None => trim_spec(server_id),
        }
    }
}

/// How the server of a client is shown.
pub fn server_display_name(server_id: &str, servers: &Vec<ServerRow>) -> (r: String)
    ensures
        r@ == server_name(server_id@, views(servers@)),
{
    let trimmed = trim(server_id);
    if trimmed.as_str().is_empty() {
        return String::from_str("Unassigned");
    }
    let ghost all = views(servers@);
    let n: usize = servers.len();
    assert(all.skip(0) =~= all);
    for i in 0..n
        invariant
            n == servers@.len(),
            all == views(servers@),
            trimmed@ == trim_spec(server_id@),
            trimmed@.len() > 0,
            listed_server(all, trimmed@) == listed_server(all.skip(i as int), trimmed@),
    {
        let server = &servers[i];
        assert(all.skip(i as int)[0] == server@);
        if text_eq(server.server_id.as_str(), trimmed.as_str()) {
            return make_server_label(server.node_name.as_str(), server.server_id.as_str());
        }
        assert(all.skip(i as int).skip(1) =~= all.skip(i + 1));
    }
    trimmed
}

/// The attribute of a selected option.
pub open spec fn selected_attribute(selected: bool) -> Seq<char> {
    if selected {
        " selected"@
    } else {
        ""@
    }
}

/// The attribute of a selected option.
fn selected_text(selected: bool) -> (r: &'static str)
    ensures
        r@ == selected_attribute(selected),
{
    if selected {
        " selected"
    } else {
        ""
    }
}

/// The option for a server.
pub open spec fn server_option_html(server: ServerRowView, selected: bool) -> Seq<char> {
    r#"<option value=""#@
        + escaped(server.server_id)
        + r#"""#@
        + selected_attribute(selected)
        + ">"@
        + escaped(server_label(server.node_name, server.server_id))
        + "</option>"@
}

/// The option for a server.
pub fn render_server_option(server: &ServerRow, selected: bool) -> (html: String)
    ensures
        html@ == server_option_html(server@, selected),
{
    let mut html = String::from_str(r#"<option value=""#);
    html.append(escape_html(server.server_id.as_str()).as_str());
    html.append(r#"""#);
    html.append(selected_text(selected));
    html.append(">");
    html.append(
        escape_html(
            make_server_label(server.node_name.as_str(), server.server_id.as_str()).as_str(),
        ).as_str(),
    );
    html.append("</option>");
    html
}

/// The options for the server of a client.
pub open spec fn server_options_html(
    selected_id: Seq<char>,
    servers: Seq<ServerRowView>,
) -> Seq<char>
    decreases servers.len(),
{
    if servers.len() == 0 {
        r#"<option value="">Unassigned</option>"#@
    } else {
        server_options_html(selected_id, servers.drop_last()) + server_option_html(
            servers.last(),
            servers.last().server_id == selected_id,
        )
    }
}

/// The options for the server of a client.
pub fn render_server_select(selected_server_id: &str, servers: &Vec<ServerRow>) -> (html: String)
    ensures
        html@ == server_options_html(selected_server_id@, views(servers@)),
{
    let mut html = String::from_str(r#"<option value="">Unassigned</option>"#);
    let ghost all = views(servers@);
    let n: usize = servers.len();
    assert(all.take(0).len() == 0);
    for i in 0..n
        invariant
            n == servers@.len(),
            all == views(servers@),
            html@ == server_options_html(selected_server_id@, all.take(i as int)),
    {
        let server = &servers[i];
        assert(all.take(i + 1).drop_last() =~= all.take(i as int));
        assert(all.take(i + 1).last() == server@);
        let selected = text_eq(server.server_id.as_str(), selected_server_id);
        html.append(render_server_option(server, selected).as_str());
    }
    assert(all.take(n as int) =~= all);
    html
}

/// The row for a token.
#[verifier::opaque]
pub open spec fn token_row_html(token: TokenRowView) -> Seq<char> {
    r#"<tr><td><div class="token"><code>"#@
        + escaped(token.token)
        + r#"</code><button class="btn-secondary" type="button" data-copy=""#@
        + escaped(token.token)
        + r#"">Copy token</button><button class="btn-secondary" type="button" data-copy-command data-kind=""#@
        + escaped(token.kind)
        + r#"" data-token=""#@
        + escaped(token.token)
        + r#"" data-label=""#@
        + escaped(token.label)
        + r#"">Copy run command</button></div></td><td>"#@
        + token_kind_badge_html(token.kind)
        + " "@
        + token_state_badge_html(token.used_at)
        + "</td><td>"@
        + escaped(token.label)
        + "</td><td>"@
        + escaped(time_text(token.created_at))
        + "</td><td>"@
        + escaped(used_text(token.used_at))
        + "</td></tr>"@
}

/// The row for a token.
pub fn render_token_row(token: &TokenRow) -> (html: String)
    ensures
        html@ == token_row_html(token@),
{
    reveal(token_row_html);
    let mut html = String::from_str(r#"<tr><td><div class="token"><code>"#);
    html.append(escape_html(token.token.as_str()).as_str());
    html.append(r#"</code><button class="btn-secondary" type="button" data-copy=""#);
    html.append(escape_html(token.token.as_str()).as_str());
    html.append(
        r#"">Copy token</button><button class="btn-secondary" type="button" data-copy-command data-kind=""#,
    );
    html.append(escape_html(token.kind.as_str()).as_str());
    html.append(r#"" data-token=""#);
    html.append(escape_html(token.token.as_str()).as_str());
    html.append(r#"" data-label=""#);
    html.append(escape_html(token.label.as_str()).as_str());
    html.append(r#"">Copy run command</button></div></td><td>"#);
    html.append(render_token_kind_badge(token.kind.as_str()).as_str());
    html.append(" ");
    html.append(render_token_state_badge(token.used_at.as_str()).as_str());
    html.append("</td><td>");
    html.append(escape_html(token.label.as_str()).as_str());
    html.append("</td><td>");
    html.append(escape_html(format_timestamp(token.created_at.as_str()).as_str()).as_str());
    html.append("</td><td>");
    html.append(escape_html(format_used_timestamp(token.used_at.as_str()).as_str()).as_str());
    html.append("</td></tr>");
    html
}

/// The facts on the card of a server.
#[verifier::opaque]
pub open spec fn server_meta_html(
    server: ServerRowView,
    desired_version: u64,
    now: Timestamp,
) -> Seq<char> {
    meta_card_html("Server ID"@, code_html(server.server_id))
        + meta_card_html("Last heartbeat"@, escaped(last_seen_text(server.last_seen, now)))
        + meta_card_html("Public endpoint"@, code_html(text_or(server.public_endpoint, "Not set"@)))
        + meta_card_html("Connected clients"@, escaped(decimal(server.connected_clients as int)))
        + meta_card_html(
              "Applied config"@,
              escaped(applied_text(server.current_version, desired_version)),
          )
        + meta_card_html("NAT interface"@, code_html(text_or(server.nat_iface, "Not set"@)))
}

/// The facts on the card of a server.
pub fn render_server_meta(
    server: &ServerRow,
    desired_version: u64,
    now: Timestamp,
) -> (html: String)
    requires
        now.valid(),
    ensures
        html@ == server_meta_html(server@, desired_version, now),
{
    reveal(server_meta_html);
    let mut html = render_meta_card("Server ID", render_code(server.server_id.as_str()).as_str());
    html.append(
        render_meta_card(
            "Last heartbeat",
            escape_html(format_last_seen(server.last_seen.as_str(), now).as_str()).as_str(),
        ).as_str(),
    );
    html.append(
        render_meta_card(
            "Public endpoint",
            render_code(display_text(server.public_endpoint.as_str(), "Not set").as_str()).as_str(),
        ).as_str(),
    );
    html.append(
        render_meta_card(
            "Connected clients",
            escape_html(decimal_u64(server.connected_clients as u64).as_str()).as_str(),
        ).as_str(),
    );
    html.append(
        render_meta_card(
            "Applied config",
            escape_html(
                format_applied_version(server.current_version, desired_version).as_str(),
            ).as_str(),
        ).as_str(),
    );
    html.append(
        render_meta_card(
            "NAT interface",
            render_code(display_text(server.nat_iface.as_str(), "Not set").as_str()).as_str(),
        ).as_str(),
    );
    html
}

/// The identity of the form of a server.
pub open spec fn server_form_id(server_id: Seq<char>) -> Seq<char> {
    "server-form-"@
        + server_id
}

/// The identity of the form of a server.
pub fn make_server_form_id(server_id: &str) -> (html: String)
    ensures
        html@ == server_form_id(server_id@),
{
    let mut html = String::from_str("server-form-");
    html.append(server_id);
    html
}

/// Where a server is removed.
pub open spec fn server_delete_path(server_id: Seq<char>) -> Seq<char> {
    "/servers/"@
        + server_id
        + "/delete"@
}

/// Where a server is removed.
pub fn make_server_delete_path(server_id: &str) -> (html: String)
    ensures
        html@ == server_delete_path(server_id@),
{
    let mut html = String::from_str("/servers/");
    html.append(server_id);
    html.append("/delete");
    html
}

/// The question before a server is removed.
pub open spec fn server_question(node_name: Seq<char>) -> Seq<char> {
    "Remove server '"@
        + node_name
        + "' and unassign any clients linked to it?"@
}

/// The question before a server is removed.
pub fn make_server_question(node_name: &str) -> (html: String)
    ensures
        html@ == server_question(node_name@),
{
    let mut html = String::from_str("Remove server '");
    html.append(node_name);
    html.append("' and unassign any clients linked to it?");
    html
}

/// The identity of the form of a client.
pub open spec fn client_form_id(client_id: Seq<char>) -> Seq<char> {
    "client-form-"@
        + client_id
}

/// The identity of the form of a client.
pub fn make_client_form_id(client_id: &str) -> (html: String)
    ensures
        html@ == client_form_id(client_id@),
{
    let mut html = String::from_str("client-form-");
    html.append(client_id);
    html
}

/// Where a client is removed.
pub open spec fn client_delete_path(client_id: Seq<char>) -> Seq<char> {
    "/clients/"@
        + client_id
        + "/delete"@
}

/// Where a client is removed.
pub fn make_client_delete_path(client_id: &str) -> (html: String)
    ensures
        html@ == client_delete_path(client_id@),
{
    let mut html = String::from_str("/clients/");
    html.append(client_id);
    html.append("/delete");
    html
}

/// The question before a client is removed.
pub open spec fn client_question(device_name: Seq<char>) -> Seq<char> {
    "Remove client '"@
        + device_name
        + "' from the manager? The device will need to enroll again to come back."@
}

/// The question before a client is removed.
pub fn make_client_question(device_name: &str) -> (html: String)
    ensures
        html@ == client_question(device_name@),
{
    let mut html = String::from_str("Remove client '");
    html.append(device_name);
    html.append("' from the manager? The device will need to enroll again to come back.");
    html
}

/// The card of a server.
#[verifier::opaque]
pub open spec fn server_card_html(
    server: ServerRowView,
    desired_version: u64,
    now: Timestamp,
) -> Seq<char> {
    r#"<article class="card"><div class="item-top"><div><span class="eyebrow">Server node</span><h3>"#@
        + escaped(server.node_name)
        + r#"</h3><p class="muted">Managed Linux tunnel server with policy pushed from the control plane.</p></div><div class="badges">"#@
        + enabled_badge_html(server.enabled)
        + heartbeat_badge_html(server.last_seen, now)
        + config_badge_html(server.current_version, desired_version)
        + r#" </div></div><div class="meta">"#@
        + server_meta_html(server, desired_version, now)
        + "</div>"@
        + note_html(server.last_message, server.last_error)
        + r#"<form id=""#@
        + escaped(server_form_id(server.server_id))
        + r#"" class="grid" method="post" action="/servers/"#@
        + escaped(server.server_id)
        + r#"">"#@
        + toggle_field_html(
              "Server enabled"@,
              "enabled"@,
              server.enabled,
              "Disable a node here if it should stay enrolled but stop accepting managed traffic."@,
          )
        + r#"<div class="grid two">"#@
        + input_field_html(
              "Listen address"@,
              "listen_addr"@,
              "text"@,
              server.listen_addr,
              "UDP bind address on the Linux host."@,
          )
        + input_field_html(
              "Public endpoint"@,
              "public_endpoint"@,
              "text"@,
              server.public_endpoint,
              "Reachable address clients should dial."@,
          )
        + input_field_html(
              "NAT interface"@,
              "nat_iface"@,
              "text"@,
              server.nat_iface,
              "Linux WAN interface used for forwarding and NAT."@,
          )
        + input_field_html(
              "Max clients"@,
              "max_clients"@,
              "number"@,
              decimal(server.max_clients as int),
              "Maximum active client sessions for this node."@,
          )
        + " </div></form>"@
        + card_actions_html(
              server_form_id(server.server_id),
              "Save server"@,
              "Update this node's reachability details here, or remove it once the server has been retired."@,
              server_delete_path(server.server_id),
              "Remove server"@,
              server_question(server.node_name),
          )
        + "</article>"@
}

/// The card of a server.
pub fn render_server_card(
    server: &ServerRow,
    desired_version: u64,
    now: Timestamp,
) -> (html: String)
    requires
        now.valid(),
    ensures
        html@ == server_card_html(server@, desired_version, now),
{
    reveal(server_card_html);
    let mut html = String::from_str(
        r#"<article class="card"><div class="item-top"><div><span class="eyebrow">Server node</span><h3>"#,
    );
    html.append(escape_html(server.node_name.as_str()).as_str());
    html.append(
        r#"</h3><p class="muted">Managed Linux tunnel server with policy pushed from the control plane.</p></div><div class="badges">"#,
    );
    html.append(render_enabled_badge(server.enabled).as_str());
    html.append(render_heartbeat_badge(server.last_seen.as_str(), now).as_str());
    html.append(render_config_badge(server.current_version, desired_version).as_str());
    html.append(r#" </div></div><div class="meta">"#);
    html.append(render_server_meta(server, desired_version, now).as_str());
    html.append("</div>");
    html.append(render_note(server.last_message.as_str(), server.last_error.as_str()).as_str());
    html.append(r#"<form id=""#);
    html.append(escape_html(make_server_form_id(server.server_id.as_str()).as_str()).as_str());
    html.append(r#"" class="grid" method="post" action="/servers/"#);
    html.append(escape_html(server.server_id.as_str()).as_str());
    html.append(r#"">"#);
    html.append(
        render_toggle_field(
            "Server enabled",
            "enabled",
            server.enabled,
            "Disable a node here if it should stay enrolled but stop accepting managed traffic.",
        ).as_str(),
    );
    html.append(r#"<div class="grid two">"#);
    html.append(
        render_input_field(
            "Listen address",
            "listen_addr",
            "text",
            server.listen_addr.as_str(),
            "UDP bind address on the Linux host.",
        ).as_str(),
    );
    html.append(
        render_input_field(
            "Public endpoint",
            "public_endpoint",
            "text",
            server.public_endpoint.as_str(),
            "Reachable address clients should dial.",
        ).as_str(),
    );
    html.append(
        render_input_field(
            "NAT interface",
            "nat_iface",
            "text",
            server.nat_iface.as_str(),
            "Linux WAN interface used for forwarding and NAT.",
        ).as_str(),
    );
    html.append(
        render_input_field(
            "Max clients",
            "max_clients",
            "number",
            decimal_u64(server.max_clients as u64).as_str(),
            "Maximum active client sessions for this node.",
        ).as_str(),
    );
    html.append(" </div></form>");
    html.append(
        render_card_actions(
            make_server_form_id(server.server_id.as_str()).as_str(),
            "Save server",
            "Update this node's reachability details here, or remove it once the server has been retired.",
            make_server_delete_path(server.server_id.as_str()).as_str(),
            "Remove server",
            make_server_question(server.node_name.as_str()).as_str(),
        ).as_str(),
    );
    html.append("</article>");
    html
}

/// The facts on the card of a client.
#[verifier::opaque]
pub open spec fn client_meta_html(
    client: ClientRowView,
    servers: Seq<ServerRowView>,
    desired_version: u64,
    now: Timestamp,
) -> Seq<char> {
    meta_card_html("Client ID"@, code_html(client.client_id))
        + meta_card_html("Assigned server"@, escaped(server_name(client.server_id, servers)))
        + meta_card_html("Tunnel IP"@, code_html(text_or(client.assigned_ip, "Not set"@)))
        + meta_card_html("Egress IP"@, code_html(text_or(client.egress_ip, "Not set"@)))
        + meta_card_html("Last heartbeat"@, escaped(last_seen_text(client.last_seen, now)))
        + meta_card_html(
              "Applied config"@,
              escaped(applied_text(client.current_version, desired_version)),
          )
}

/// The facts on the card of a client.
pub fn render_client_meta(
    client: &ClientRow,
    servers: &Vec<ServerRow>,
    desired_version: u64,
    now: Timestamp,
) -> (html: String)
    requires
        now.valid(),
    ensures
        html@ == client_meta_html(client@, views(servers@), desired_version, now),
{
    reveal(client_meta_html);
    let mut html = render_meta_card("Client ID", render_code(client.client_id.as_str()).as_str());
    html.append(
        render_meta_card(
            "Assigned server",
            escape_html(server_display_name(client.server_id.as_str(), servers).as_str()).as_str(),
        ).as_str(),
    );
    html.append(
        render_meta_card(
            "Tunnel IP",
            render_code(display_text(client.assigned_ip.as_str(), "Not set").as_str()).as_str(),
        ).as_str(),
    );
    html.append(
        render_meta_card(
            "Egress IP",
            render_code(display_text(client.egress_ip.as_str(), "Not set").as_str()).as_str(),
        ).as_str(),
    );
    html.append(
        render_meta_card(
            "Last heartbeat",
            escape_html(format_last_seen(client.last_seen.as_str(), now).as_str()).as_str(),
        ).as_str(),
    );
    html.append(
        render_meta_card(
            "Applied config",
            escape_html(
                format_applied_version(client.current_version, desired_version).as_str(),
            ).as_str(),
        ).as_str(),
    );
    html
}

/// The card of a client.
#[verifier::opaque]
pub open spec fn client_card_html(
    client: ClientRowView,
    servers: Seq<ServerRowView>,
    desired_version: u64,
    now: Timestamp,
) -> Seq<char> {
    r#"<article class="card"><div class="item-top"><div><span class="eyebrow">Client device</span><h3>"#@
        + escaped(client.device_name)
        + r#"</h3><p class="muted">Managed endpoint that receives tunnel assignment, DNS settings, and server mapping.</p></div><div class="badges">"#@
        + enabled_badge_html(client.enabled)
        + heartbeat_badge_html(client.last_seen, now)
        + config_badge_html(client.current_version, desired_version)
        + r#" </div></div><div class="meta">"#@
        + client_meta_html(client, servers, desired_version, now)
        + "</div>"@
        + note_html(client.last_message, client.last_error)
        + r#"<form id=""#@
        + escaped(client_form_id(client.client_id))
        + r#"" class="grid" method="post" action="/clients/"#@
        + escaped(client.client_id)
        + r#"">"#@
        + toggle_field_html(
              "Client enabled"@,
              "enabled"@,
              client.enabled,
              "Disable a device here if it should stay enrolled but no longer receive an active tunnel config."@,
          )
        + r#"<div class="grid two">"#@
        + input_field_html(
              "Assigned IP"@,
              "assigned_ip"@,
              "text"@,
              client.assigned_ip,
              "Static tunnel IP pushed to the device."@,
          )
        + select_field_html(
              "Assigned server"@,
              "server_id"@,
              server_options_html(client.server_id, servers),
              "Choose which enrolled server should accept this client."@,
          )
        + input_field_html(
              "Egress IP override"@,
              "egress_ip"@,
              "text"@,
              client.egress_ip,
              "Optional per-client SNAT address."@,
          )
        + " </div></form>"@
        + card_actions_html(
              client_form_id(client.client_id),
              "Save client"@,
              "Adjust assignment details here, or remove the record if the device should enroll from scratch later."@,
              client_delete_path(client.client_id),
              "Remove client"@,
              client_question(client.device_name),
          )
        + "</article>"@
}

/// The card of a client.
pub fn render_client_card(
    client: &ClientRow,
    servers: &Vec<ServerRow>,
    desired_version: u64,
    now: Timestamp,
) -> (html: String)
    requires
        now.valid(),
    ensures
        html@ == client_card_html(client@, views(servers@), desired_version, now),
{
    reveal(client_card_html);
    let mut html = String::from_str(
        r#"<article class="card"><div class="item-top"><div><span class="eyebrow">Client device</span><h3>"#,
    );
    html.append(escape_html(client.device_name.as_str()).as_str());
    html.append(
        r#"</h3><p class="muted">Managed endpoint that receives tunnel assignment, DNS settings, and server mapping.</p></div><div class="badges">"#,
    );
    html.append(render_enabled_badge(client.enabled).as_str());
    html.append(render_heartbeat_badge(client.last_seen.as_str(), now).as_str());
    html.append(render_config_badge(client.current_version, desired_version).as_str());
    html.append(r#" </div></div><div class="meta">"#);
    html.append(render_client_meta(client, servers, desired_version, now).as_str());
    html.append("</div>");
    html.append(render_note(client.last_message.as_str(), client.last_error.as_str()).as_str());
    html.append(r#"<form id=""#);
    html.append(escape_html(make_client_form_id(client.client_id.as_str()).as_str()).as_str());
    html.append(r#"" class="grid" method="post" action="/clients/"#);
    html.append(escape_html(client.client_id.as_str()).as_str());
    html.append(r#"">"#);
    html.append(
        render_toggle_field(
            "Client enabled",
            "enabled",
            client.enabled,
            "Disable a device here if it should stay enrolled but no longer receive an active tunnel config.",
        ).as_str(),
    );
    html.append(r#"<div class="grid two">"#);
    html.append(
        render_input_field(
            "Assigned IP",
            "assigned_ip",
            "text",
            client.assigned_ip.as_str(),
            "Static tunnel IP pushed to the device.",
        ).as_str(),
    );
    html.append(
        render_select_field(
            "Assigned server",
            "server_id",
            render_server_select(client.server_id.as_str(), servers).as_str(),
            "Choose which enrolled server should accept this client.",
        ).as_str(),
    );
    html.append(
        render_input_field(
            "Egress IP override",
            "egress_ip",
            "text",
            client.egress_ip.as_str(),
            "Optional per-client SNAT address.",
        ).as_str(),
    );
    html.append(" </div></form>");
    html.append(
        render_card_actions(
            make_client_form_id(client.client_id.as_str()).as_str(),
            "Save client",
            "Adjust assignment details here, or remove the record if the device should enroll from scratch later.",
            make_client_delete_path(client.client_id.as_str()).as_str(),
            "Remove client",
            make_client_question(client.device_name.as_str()).as_str(),
        ).as_str(),
    );
    html.append("</article>");
    html
}

/// The rows for all tokens.
pub open spec fn token_rows_html_of(rows: Seq<TokenRowView>) -> Seq<char>
    decreases rows.len(),
{
    if rows.len() == 0 {
        Seq::empty()
    } else {
        token_rows_html_of(rows.drop_last()) + token_row_html(rows.last())
    }
}

/// The rows for all tokens. Where there are none, a remark says so.
pub open spec fn token_rows_html(rows: Seq<TokenRowView>) -> Seq<char> {
    if rows.len() == 0 {
        r#"<tr><td colspan="5"><div class="empty">No bootstrap tokens yet. Create a server token first, then a client token for each device.</div></td></tr>"#@
    } else {
        token_rows_html_of(rows)
    }
}

/// The rows for all tokens. Where there are none, a remark says so.
pub fn render_token_rows(rows: &Vec<TokenRow>) -> (html: String)
    ensures
        html@ == token_rows_html(views(rows@)),
{
    let n: usize = rows.len();
    if n == 0 {
        return String::from_str(r#"<tr><td colspan="5"><div class="empty">No bootstrap tokens yet. Create a server token first, then a client token for each device.</div></td></tr>"#);
    }
    let mut html = String::new();
    let ghost all = views(rows@);
    assert(html@ =~= token_rows_html_of(all.take(0)));
    for i in 0..n
        invariant
            n == rows@.len(),
            all == views(rows@),
            html@ == token_rows_html_of(all.take(i as int)),
    {
        let row = &rows[i];
        assert(all.take(i + 1).drop_last() =~= all.take(i as int));
        assert(all.take(i + 1).last() == row@);
        html.append(render_token_row(row).as_str());
    }
    assert(all.take(n as int) =~= all);
    html
}

/// The cards of all servers.
pub open spec fn server_cards_html_of(
    rows: Seq<ServerRowView>,
    version: u64,
    now: Timestamp,
) -> Seq<char>
    decreases rows.len(),
{
    if rows.len() == 0 {
        Seq::empty()
    } else {
        server_cards_html_of(rows.drop_last(), version, now) + server_card_html(
            rows.last(),
            version,
            now,
        )
    }
}

/// The cards of all servers. Where there are none, a remark says so.
pub open spec fn server_cards_html(
    rows: Seq<ServerRowView>,
    version: u64,
    now: Timestamp,
) -> Seq<char> {
    if rows.len() == 0 {
        r#"<div class="card"><div class="empty">No server nodes enrolled yet. Create a server token, run the Linux server agent, and this section will fill in automatically.</div></div>"#@
    } else {
        server_cards_html_of(rows, version, now)
    }
}

/// The cards of all servers. Where there are none, a remark says so.
pub fn render_server_cards(rows: &Vec<ServerRow>, version: u64, now: Timestamp) -> (html: String)
    requires
        now.valid(),
    ensures
        html@ == server_cards_html(views(rows@), version, now),
{
    let n: usize = rows.len();
    if n == 0 {
        return String::from_str(r#"<div class="card"><div class="empty">No server nodes enrolled yet. Create a server token, run the Linux server agent, and this section will fill in automatically.</div></div>"#);
    }
    let mut html = String::new();
    let ghost all = views(rows@);
    assert(html@ =~= server_cards_html_of(all.take(0), version, now));
    for i in 0..n
        invariant
            n == rows@.len(),
            all == views(rows@),
            now.valid(),
            html@ == server_cards_html_of(all.take(i as int), version, now),
    {
        let row = &rows[i];
        assert(all.take(i + 1).drop_last() =~= all.take(i as int));
        assert(all.take(i + 1).last() == row@);
        html.append(render_server_card(row, version, now).as_str());
    }
    assert(all.take(n as int) =~= all);
    html
}

/// The cards of all clients.
pub open spec fn client_cards_html_of(
    rows: Seq<ClientRowView>,
    servers: Seq<ServerRowView>,
    version: u64,
    now: Timestamp,
) -> Seq<char>
    decreases rows.len(),
{
    if rows.len() == 0 {
        Seq::empty()
    } else {
        client_cards_html_of(rows.drop_last(), servers, version, now) + client_card_html(
            rows.last(),
            servers,
            version,
            now,
        )
    }
}

/// The cards of all clients. Where there are none, a remark says so.
pub open spec fn client_cards_html(
    rows: Seq<ClientRowView>,
    servers: Seq<ServerRowView>,
    version: u64,
    now: Timestamp,
) -> Seq<char> {
    if rows.len() == 0 {
        r#"<div class="card"><div class="empty">No client devices enrolled yet. Create a client token and run the client agent to populate this section.</div></div>"#@
    } else {
        client_cards_html_of(rows, servers, version, now)
    }
}

/// The cards of all clients. Where there are none, a remark says so.
pub fn render_client_cards(
    rows: &Vec<ClientRow>,
    servers: &Vec<ServerRow>,
    version: u64,
    now: Timestamp,
) -> (html: String)
    requires
        now.valid(),
    ensures
        html@ == client_cards_html(views(rows@), views(servers@), version, now),
{
    let n: usize = rows.len();
    if n == 0 {
        return String::from_str(r#"<div class="card"><div class="empty">No client devices enrolled yet. Create a client token and run the client agent to populate this section.</div></div>"#);
    }
    let mut html = String::new();
    let ghost all = views(rows@);
    assert(html@ =~= client_cards_html_of(all.take(0), views(servers@), version, now));
    for i in 0..n
        invariant
            n == rows@.len(),
            all == views(rows@),
            now.valid(),
            html@ == client_cards_html_of(all.take(i as int), views(servers@), version, now),
    {
        let row = &rows[i];
        assert(all.take(i + 1).drop_last() =~= all.take(i as int));
        assert(all.take(i + 1).last() == row@);
        html.append(render_client_card(row, servers, version, now).as_str());
    }
    assert(all.take(n as int) =~= all);
    html
}

/// How many servers are online.
pub open spec fn healthy_servers(rows: Seq<ServerRowView>, now: Timestamp) -> nat
    decreases rows.len(),
{
    if rows.len() == 0 {
        0
    } else {
        let before = healthy_servers(rows.drop_last(), now);
        if presence(rows.last().last_seen, now) == HeartbeatState::Online {
            before + 1
        } else {
            before
        }
    }
}

/// How many servers are online.
pub fn count_healthy_servers(rows: &Vec<ServerRow>, now: Timestamp) -> (count: usize)
    requires
        now.valid(),
    ensures
        count == healthy_servers(views(rows@), now),
        count <= rows@.len(),
{
    let n: usize = rows.len();
    let mut count: usize = 0;
    let ghost all = views(rows@);
    for i in 0..n
        invariant
            n == rows@.len(),
            all == views(rows@),
            count <= i,
            now.valid(),
            count == healthy_servers(all.take(i as int), now),
    {
        let row = &rows[i];
        assert(all.take(i + 1).drop_last() =~= all.take(i as int));
        assert(all.take(i + 1).last() == row@);
        if heartbeat_state(row.last_seen.as_str(), now) == HeartbeatState::Online {
            count = count + 1;
        }
    }
    assert(all.take(n as int) =~= all);
    count
}

/// How many clients have a server.
pub open spec fn assigned_clients(rows: Seq<ClientRowView>) -> nat
    decreases rows.len(),
{
    if rows.len() == 0 {
        0
    } else {
        let before = assigned_clients(rows.drop_last());
        if trim_spec(rows.last().server_id).len() > 0 {
            before + 1
        } else {
            before
        }
    }
}

/// How many clients have a server.
pub fn count_assigned_clients(rows: &Vec<ClientRow>) -> (count: usize)
    ensures
        count == assigned_clients(views(rows@)),
        count <= rows@.len(),
{
    let n: usize = rows.len();
    let mut count: usize = 0;
    let ghost all = views(rows@);
    for i in 0..n
        invariant
            n == rows@.len(),
            all == views(rows@),
            count <= i,
            count == assigned_clients(all.take(i as int)),
    {
        let row = &rows[i];
        assert(all.take(i + 1).drop_last() =~= all.take(i as int));
        assert(all.take(i + 1).last() == row@);
        if !trim(row.server_id.as_str()).as_str().is_empty() {
            count = count + 1;
        }
    }
    assert(all.take(n as int) =~= all);
    count
}

/// How many tokens were not used.
pub open spec fn unused_tokens(rows: Seq<TokenRowView>) -> nat
    decreases rows.len(),
{
    if rows.len() == 0 {
        0
    } else {
        let before = unused_tokens(rows.drop_last());
        if trim_spec(rows.last().used_at).len() == 0 {
            before + 1
        } else {
            before
        }
    }
}

/// How many tokens were not used.
pub fn count_unused_tokens(rows: &Vec<TokenRow>) -> (count: usize)
    ensures
        count == unused_tokens(views(rows@)),
        count <= rows@.len(),
{
    let n: usize = rows.len();
    let mut count: usize = 0;
    let ghost all = views(rows@);
    for i in 0..n
        invariant
            n == rows@.len(),
            all == views(rows@),
            count <= i,
            count == unused_tokens(all.take(i as int)),
    {
        let row = &rows[i];
        assert(all.take(i + 1).drop_last() =~= all.take(i as int));
        assert(all.take(i + 1).last() == row@);
        if trim(row.used_at.as_str()).as_str().is_empty() {
            count = count + 1;
        }
    }
    assert(all.take(n as int) =~= all);
    count
}

/// How many servers were seen less than a minute ago.
pub open spec fn servers_this_minute(rows: Seq<ServerRowView>, now: Timestamp) -> nat
    decreases rows.len(),
{
    if rows.len() == 0 {
        0
    } else {
        let before = servers_this_minute(rows.drop_last(), now);
        if seen_this_minute(rows.last().last_seen, now) {
            before + 1
        } else {
            before
        }
    }
}

/// How many servers were seen less than a minute ago.
pub fn count_servers_this_minute(rows: &Vec<ServerRow>, now: Timestamp) -> (count: usize)
    requires
        now.valid(),
    ensures
        count == servers_this_minute(views(rows@), now),
        count <= rows@.len(),
{
    let n: usize = rows.len();
    let mut count: usize = 0;
    let ghost all = views(rows@);
    for i in 0..n
        invariant
            n == rows@.len(),
            all == views(rows@),
            count <= i,
            now.valid(),
            count == servers_this_minute(all.take(i as int), now),
    {
        let row = &rows[i];
        assert(all.take(i + 1).drop_last() =~= all.take(i as int));
        assert(all.take(i + 1).last() == row@);
        if was_seen_this_minute(row.last_seen.as_str(), now) {
            count = count + 1;
        }
    }
    assert(all.take(n as int) =~= all);
    count
}

/// How many clients were seen less than a minute ago.
pub open spec fn clients_this_minute(rows: Seq<ClientRowView>, now: Timestamp) -> nat
    decreases rows.len(),
{
    if rows.len() == 0 {
        0
    } else {
        let before = clients_this_minute(rows.drop_last(), now);
        if seen_this_minute(rows.last().last_seen, now) {
            before + 1
        } else {
            before
        }
    }
}

/// How many clients were seen less than a minute ago.
pub fn count_clients_this_minute(rows: &Vec<ClientRow>, now: Timestamp) -> (count: usize)
    requires
        now.valid(),
    ensures
        count == clients_this_minute(views(rows@), now),
        count <= rows@.len(),
{
    let n: usize = rows.len();
    let mut count: usize = 0;
    let ghost all = views(rows@);
    for i in 0..n
        invariant
            n == rows@.len(),
            all == views(rows@),
            count <= i,
            now.valid(),
            count == clients_this_minute(all.take(i as int), now),
    {
        let row = &rows[i];
        assert(all.take(i + 1).drop_last() =~= all.take(i as int));
        assert(all.take(i + 1).last() == row@);
        if was_seen_this_minute(row.last_seen.as_str(), now) {
            count = count + 1;
        }
    }
    assert(all.take(n as int) =~= all);
    count
}

/// The figures of the network.
#[verifier::opaque]
pub open spec fn stats_html(
    version: u64,
    healthy: nat,
    servers: nat,
    assigned: nat,
    clients: nat,
    unused: nat,
) -> Seq<char> {
    r#"<div class="stat"><div class="eyebrow">Config version</div><div class="value">v"#@
        + decimal(version as int)
        + r#"</div><div class="muted">Every settings save increments the version agents pull.</div></div>"#@
        + r#"<div class="stat"><div class="eyebrow">Healthy servers</div><div class="value">"#@
        + decimal(healthy as int)
        + "/"@
        + decimal(servers as int)
        + r#"</div><div class="muted">Nodes with heartbeats in the last 45 seconds.</div></div>"#@
        + r#"<div class="stat"><div class="eyebrow">Assigned clients</div><div class="value">"#@
        + decimal(assigned as int)
        + "/"@
        + decimal(clients as int)
        + r#"</div><div class="muted">Enrolled devices already mapped to a server.</div></div>"#@
        + r#"<div class="stat"><div class="eyebrow">Tokens ready</div><div class="value">"#@
        + decimal(unused as int)
        + r#"</div><div class="muted">Unused bootstrap tokens available right now.</div></div>"#@
}

/// The figures of the network.
pub fn render_stats(
    version: u64,
    healthy: usize,
    servers: usize,
    assigned: usize,
    clients: usize,
    unused: usize,
) -> (html: String)
    ensures
        html@ == stats_html(
            version,
            healthy as nat,
            servers as nat,
            assigned as nat,
            clients as nat,
            unused as nat,
        ),
{
    reveal(stats_html);
    let mut html = String::from_str(
        r#"<div class="stat"><div class="eyebrow">Config version</div><div class="value">v"#,
    );
    html.append(decimal_u64(version as u64).as_str());
    html.append(
        r#"</div><div class="muted">Every settings save increments the version agents pull.</div></div>"#,
    );
    html.append(
        r#"<div class="stat"><div class="eyebrow">Healthy servers</div><div class="value">"#,
    );
    html.append(decimal_u64(healthy as u64).as_str());
    html.append("/");
    html.append(decimal_u64(servers as u64).as_str());
    html.append(
        r#"</div><div class="muted">Nodes with heartbeats in the last 45 seconds.</div></div>"#,
    );
    html.append(
        r#"<div class="stat"><div class="eyebrow">Assigned clients</div><div class="value">"#,
    );
    html.append(decimal_u64(assigned as u64).as_str());
    html.append("/");
    html.append(decimal_u64(clients as u64).as_str());
    html.append(
        r#"</div><div class="muted">Enrolled devices already mapped to a server.</div></div>"#,
    );
    html.append(r#"<div class="stat"><div class="eyebrow">Tokens ready</div><div class="value">"#);
    html.append(decimal_u64(unused as u64).as_str());
    html.append(
        r#"</div><div class="muted">Unused bootstrap tokens available right now.</div></div>"#,
    );
    html
}

/// The figures of this minute.
#[verifier::opaque]
pub open spec fn live_stats_html(clients: nat, servers: nat, offline: nat) -> Seq<char> {
    r#"
    <div class="live-grid">

        <div class="live-card online">
            <span>Online Clients</span>
            <h2>"#@
        + decimal(clients as int)
        + r#"</h2>
        </div>

        <div class="live-card active">
            <span>Online Servers</span>
            <h2>"#@
        + decimal(servers as int)
        + r#"</h2>
        </div>

        <div class="live-card offline">
            <span>Offline Servers</span>
            <h2>"#@
        + decimal(offline as int)
        + r#"</h2>
        </div>

    </div>
    "#@
}

/// The figures of this minute.
pub fn render_live_stats(clients: usize, servers: usize, offline: usize) -> (html: String)
    ensures
        html@ == live_stats_html(clients as nat, servers as nat, offline as nat),
{
    reveal(live_stats_html);
    let mut html = String::from_str(
        r#"
    <div class="live-grid">

        <div class="live-card online">
            <span>Online Clients</span>
            <h2>"#,
    );
    html.append(decimal_u64(clients as u64).as_str());
    html.append(
        r#"</h2>
        </div>

        <div class="live-card active">
            <span>Online Servers</span>
            <h2>"#,
    );
    html.append(decimal_u64(servers as u64).as_str());
    html.append(
        r#"</h2>
        </div>

        <div class="live-card offline">
            <span>Offline Servers</span>
            <h2>"#,
    );
    html.append(decimal_u64(offline as u64).as_str());
    html.append(
        r#"</h2>
        </div>

    </div>
    "#,
    );
    html
}

/// The form for the settings of the network.
#[verifier::opaque]
pub open spec fn settings_form_html(settings: Map<Seq<char>, Seq<char>>) -> Seq<char> {
    r#"<form class="grid" method="post" action="/settings"><div class="grid two">"#@
        + input_field_html(
              "Server listen address"@,
              "listen_addr"@,
              "text"@,
              setting(settings, "listen_addr"@),
              "UDP address the Linux server binds to."@,
          )
        + input_field_html(
              "Public endpoint"@,
              "public_endpoint"@,
              "text"@,
              setting(settings, "public_endpoint"@),
              "Reachable IP:port clients use to reach the server."@,
          )
        + r#"</div><div class="grid three">"#@
        + input_field_html(
              "TUN name"@,
              "tun_name"@,
              "text"@,
              setting(settings, "tun_name"@),
              "Shared interface name pushed to agents."@,
          )
        + input_field_html(
              "Server TUN IP"@,
              "tun_address"@,
              "text"@,
              setting(settings, "tun_address"@),
              "IPv4 address used on the server tunnel interface."@,
          )
        + input_field_html(
              "TUN prefix"@,
              "tun_prefix"@,
              "number"@,
              setting(settings, "tun_prefix"@),
              "CIDR prefix for the tunnel network."@,
          )
        + r#"</div><div class="grid three">"#@
        + input_field_html(
              "Client CIDR"@,
              "client_cidr"@,
              "text"@,
              setting(settings, "client_cidr"@),
              "Pool used when assigning client tunnel addresses."@,
          )
        + input_field_html(
              "MTU"@,
              "mtu"@,
              "number"@,
              setting(settings, "mtu"@),
              "Leave blank to keep the platform default."@,
          )
        + input_field_html(
              "Max clients"@,
              "max_clients"@,
              "number"@,
              setting(settings, "max_clients"@),
              "Default concurrency cap for new server nodes."@,
          )
        + "</div>"@
        + toggle_field_html(
              "Setup NAT automatically"@,
              "setup_nat"@,
              says_yes(setting(settings, "setup_nat"@)),
              "Linux server nodes program routes and iptables when enabled."@,
          )
        + r#"<div class="grid three">"#@
        + input_field_html(
              "NAT interface"@,
              "nat_iface"@,
              "text"@,
              setting(settings, "nat_iface"@),
              "Linux WAN interface used for NAT and forwarding."@,
          )
        + input_field_html(
              "DoH upstream URL"@,
              "doh_url"@,
              "text"@,
              setting(settings, "doh_url"@),
              "DNS-over-HTTPS endpoint used by the server-side DNS proxy."@,
          )
        + input_field_html(
              "DNS bind address"@,
              "dns_bind_addr"@,
              "text"@,
              setting(settings, "dns_bind_addr"@),
              "Address the managed DNS proxy listens on."@,
          )
        + r#"</div><div class="grid three">"#@
        + textarea_field_html(
              "Blocked destinations"@,
              "blocked_ips"@,
              join_spec(json_list_or_empty(setting(settings, "blocked_ips_json"@)), "\n"@),
              "One CIDR or IP per line. These destinations are dropped for tunnel clients."@,
          )
        + textarea_field_html(
              "Protected destinations"@,
              "protected_ips"@,
              join_spec(json_list_or_empty(setting(settings, "protected_ips_json"@)), "\n"@),
              "Sensitive networks you never want reachable from the VPN."@,
          )
        + textarea_field_html(
              "Egress IP pool"@,
              "egress_ips"@,
              join_spec(json_list_or_empty(setting(settings, "egress_ips_json"@)), "\n"@),
              "Optional source IPs used for per-client SNAT."@,
          )
        + r#"</div><button class="btn" type="submit">Save global settings</button></form>"#@
}

/// The form for the settings of the network.
pub fn render_settings_form(settings: &TextMap) -> (html: String)
    requires
        settings.wf(),
    ensures
        html@ == settings_form_html(settings@),
{
    reveal(settings_form_html);
    let mut html = String::from_str(
        r#"<form class="grid" method="post" action="/settings"><div class="grid two">"#,
    );
    html.append(
        render_input_field(
            "Server listen address",
            "listen_addr",
            "text",
            settings_value(settings, "listen_addr").as_str(),
            "UDP address the Linux server binds to.",
        ).as_str(),
    );
    html.append(
        render_input_field(
            "Public endpoint",
            "public_endpoint",
            "text",
            settings_value(settings, "public_endpoint").as_str(),
            "Reachable IP:port clients use to reach the server.",
        ).as_str(),
    );
    html.append(r#"</div><div class="grid three">"#);
    html.append(
        render_input_field(
            "TUN name",
            "tun_name",
            "text",
            settings_value(settings, "tun_name").as_str(),
            "Shared interface name pushed to agents.",
        ).as_str(),
    );
    html.append(
        render_input_field(
            "Server TUN IP",
            "tun_address",
            "text",
            settings_value(settings, "tun_address").as_str(),
            "IPv4 address used on the server tunnel interface.",
        ).as_str(),
    );
    html.append(
        render_input_field(
            "TUN prefix",
            "tun_prefix",
            "number",
            settings_value(settings, "tun_prefix").as_str(),
            "CIDR prefix for the tunnel network.",
        ).as_str(),
    );
    html.append(r#"</div><div class="grid three">"#);
    html.append(
        render_input_field(
            "Client CIDR",
            "client_cidr",
            "text",
            settings_value(settings, "client_cidr").as_str(),
            "Pool used when assigning client tunnel addresses.",
        ).as_str(),
    );
    html.append(
        render_input_field(
            "MTU",
            "mtu",
            "number",
            settings_value(settings, "mtu").as_str(),
            "Leave blank to keep the platform default.",
        ).as_str(),
    );
    html.append(
        render_input_field(
            "Max clients",
            "max_clients",
            "number",
            settings_value(settings, "max_clients").as_str(),
            "Default concurrency cap for new server nodes.",
        ).as_str(),
    );
    html.append("</div>");
    html.append(
        render_toggle_field(
            "Setup NAT automatically",
            "setup_nat",
            parse_bool(settings_value(settings, "setup_nat").as_str()),
            "Linux server nodes program routes and iptables when enabled.",
        ).as_str(),
    );
    html.append(r#"<div class="grid three">"#);
    html.append(
        render_input_field(
            "NAT interface",
            "nat_iface",
            "text",
            settings_value(settings, "nat_iface").as_str(),
            "Linux WAN interface used for NAT and forwarding.",
        ).as_str(),
    );
    html.append(
        render_input_field(
            "DoH upstream URL",
            "doh_url",
            "text",
            settings_value(settings, "doh_url").as_str(),
            "DNS-over-HTTPS endpoint used by the server-side DNS proxy.",
        ).as_str(),
    );
    html.append(
        render_input_field(
            "DNS bind address",
            "dns_bind_addr",
            "text",
            settings_value(settings, "dns_bind_addr").as_str(),
            "Address the managed DNS proxy listens on.",
        ).as_str(),
    );
    html.append(r#"</div><div class="grid three">"#);
    html.append(
        render_textarea_field(
            "Blocked destinations",
            "blocked_ips",
            join(
                &parse_json_list_or_empty(settings_value(settings, "blocked_ips_json").as_str()),
                "\n",
            ).as_str(),
            "One CIDR or IP per line. These destinations are dropped for tunnel clients.",
        ).as_str(),
    );
    html.append(
        render_textarea_field(
            "Protected destinations",
            "protected_ips",
            join(
                &parse_json_list_or_empty(settings_value(settings, "protected_ips_json").as_str()),
                "\n",
            ).as_str(),
            "Sensitive networks you never want reachable from the VPN.",
        ).as_str(),
    );
    html.append(
        render_textarea_field(
            "Egress IP pool",
            "egress_ips",
            join(
                &parse_json_list_or_empty(settings_value(settings, "egress_ips_json").as_str()),
                "\n",
            ).as_str(),
            "Optional source IPs used for per-client SNAT.",
        ).as_str(),
    );
    html.append(r#"</div><button class="btn" type="submit">Save global settings</button></form>"#);
    html
}

/// The version of the configuration, in words.
pub open spec fn version_label(version: u64) -> Seq<char> {
    "Config v"@
        + decimal(version as int)
}

/// The version of the configuration, in words.
pub fn make_version_label(version: u64) -> (html: String)
    ensures
        html@ == version_label(version),
{
    let mut html = String::from_str("Config v");
    html.append(decimal_u64(version as u64).as_str());
    html
}

/// What the dashboard is made from.
pub struct DashboardView {
    pub version: u64,
    pub settings: Map<Seq<char>, Seq<char>>,
    pub servers: Seq<ServerRowView>,
    pub clients: Seq<ClientRowView>,
    pub tokens: Seq<TokenRowView>,
    pub now: Timestamp,
}

/// The figures of the network.
pub open spec fn dashboard_stats_html(d: DashboardView) -> Seq<char> {
    stats_html(
        d.version,
        healthy_servers(d.servers, d.now),
        d.servers.len(),
        assigned_clients(d.clients),
        d.clients.len(),
        unused_tokens(d.tokens),
    )
}

/// The figures of this minute.
pub open spec fn dashboard_live_html(d: DashboardView) -> Seq<char> {
    live_stats_html(
        clients_this_minute(d.clients, d.now),
        servers_this_minute(d.servers, d.now),
        (d.servers.len() - servers_this_minute(d.servers, d.now)) as nat,
    )
}

/// The body of the dashboard.
pub open spec fn dashboard_body_html(d: DashboardView) -> Seq<char> {
    r#"<div class="page"><header class="topbar"><div class="brand"><span class="eyebrow">NTZ control plane</span><h1>Operate your VPN network without fighting the interface.</h1><p class="lead">Create enrollment tokens, check node health, and keep client-to-server assignments tidy from one responsive dashboard.</p></div><div class="actions">"#@
        + badge_html(version_label(d.version), "info"@)
        + r#"<a class="btn-secondary" href="/logout">Logout</a></div></header>"#@
        + dashboard_live_html(d)
        + r#"<section class="hero"><article class="card strong"><span class="eyebrow">Quick start</span><h2>Bring the network online in three steps</h2><p class="lead">The manager already stores your shared tunnel defaults. What usually matters most is keeping the public endpoint correct and making sure each client lands on the right server.</p><ol class="steps"><li><strong>Create a server token</strong> and enroll your Linux VPN host.</li><li><strong>Create client tokens</strong> for every device you want to manage.</li><li><strong>Review heartbeats</strong>, fix assignments, and confirm the public endpoint is reachable.</li></ol><div class="meta">"#@
        + meta_card_html(
              "Public endpoint"@,
              code_html(text_or(setting(d.settings, "public_endpoint"@), "Not set"@)),
          )
        + meta_card_html(
              "Client pool"@,
              code_html(text_or(setting(d.settings, "client_cidr"@), "Not set"@)),
          )
        + r#"</div></article><div class="stats">"#@
        + dashboard_stats_html(d)
        + r#"</div></section><div class="layout"><section class="card strong"><div class="section-head"><div><span class="eyebrow">Global profile</span><h2>Default network settings</h2></div><p class="muted">These values seed new server nodes and shape client allocation, DNS proxy behavior, and egress handling.</p></div>"#@
        + settings_form_html(d.settings)
        + r#"</section><section class="card"><div class="section-head"><div><span class="eyebrow">Enrollment</span><h2>Bootstrap tokens</h2></div><p class="muted">Tokens are single-use by design, so the table doubles as a clean audit trail.</p></div><form class="grid" method="post" action="/tokens"><div class="grid two">"#@
        + select_field_html(
              "Token type"@,
              "kind"@,
              r#"<option value="server">Server node</option><option value="client">Client device</option>"#@,
              "Server tokens enroll Linux nodes. Client tokens enroll end-user devices."@,
          )
        + input_field_html(
              "Friendly label"@,
              "label"@,
              "text"@,
              "lab-node"@,
              "Use a label that will still make sense later."@,
          )
        + r#"</div><button class="btn" type="submit">Create bootstrap token</button></form><div class="table-wrap"><table class="table"><thead><tr><th>Token</th><th>Type</th><th>Label</th><th>Created</th><th>Used</th></tr></thead><tbody>"#@
        + token_rows_html(d.tokens)
        + r#"</tbody></table></div></section></div><section class="section-head"><div><span class="eyebrow">Linux nodes</span><h2>Server fleet</h2></div><p class="muted">Server cards show heartbeat freshness, applied config version, and connected client counts.</p></section><div class="list">"#@
        + server_cards_html(d.servers, d.version, d.now)
        + r#"</div><section class="section-head"><div><span class="eyebrow">Managed devices</span><h2>Client inventory</h2></div><p class="muted">Assign each client to the correct server and keep tunnel IPs or egress overrides readable.</p></section><div class="list">"#@
        + client_cards_html(d.clients, d.servers, d.version, d.now)
        + "</div>"@
        + r#"
<section class="card strong">
    <div class="section-head">
        <div>
            <span class="eyebrow">Security center</span>
            <h2>Threat detection alerts</h2>
            <p class="muted">
                Impossible travel, reconnect abuse, unknown IPs,
                and traffic spikes surface here as agents report status.
            </p>
        </div>
    </div>

    <div id="alerts-panel" class="alerts-panel">
        <div class="empty">Loading alerts...</div>
    </div>
</section>
"#@
        + r#"
<section class="card strong">
    <div class="section-head">
        <div>
            <span class="eyebrow">Live server logs</span>
            <h2>Real-time VPN activity</h2>
            <p class="muted">
                Heartbeats, client activity, status updates,
                and future connection events appear here.
            </p>
        </div>
    </div>

    <div
        id="logs-container"
        style="
            margin-top:20px;
            background:#0f172a;
            color:#00ff9d;
            border-radius:20px;
            padding:20px;
            height:320px;
            overflow-y:auto;
            font-family:Consolas, monospace;
            font-size:14px;
            border:1px solid rgba(255,255,255,0.08);
        "
    >
        Loading logs...
    </div>
</section>
"#@
        + "</div>"@
}

/// The dashboard.
pub open spec fn dashboard_html(d: DashboardView) -> Seq<char> {
    page_html("NTZ Manager"@, dashboard_body_html(d))
}

/// The dashboard.
pub fn render_dashboard(
    version: u64,
    settings: &TextMap,
    servers: &Vec<ServerRow>,
    clients: &Vec<ClientRow>,
    tokens: &Vec<TokenRow>,
    now: Timestamp,
) -> (html: String)
    requires
        settings.wf(),
        now.valid(),
    ensures
        html@ == dashboard_html(
            DashboardView {
                version,
                settings: settings@,
                servers: views(servers@),
                clients: views(clients@),
                tokens: views(tokens@),
                now,
            },
        ),
{
    let stats = render_stats(
        version,
        count_healthy_servers(servers, now),
        servers.len(),
        count_assigned_clients(clients),
        clients.len(),
        count_unused_tokens(tokens),
    );
    let online: usize = count_servers_this_minute(servers, now);
    let live = render_live_stats(
        count_clients_this_minute(clients, now),
        online,
        servers.len() - online,
    );
    let ghost d = DashboardView {
        version,
        settings: settings@,
        servers: views(servers@),
        clients: views(clients@),
        tokens: views(tokens@),
        now,
    };
    assert(d.servers.len() == servers@.len());
    assert(d.clients.len() == clients@.len());
    assert(stats@ == dashboard_stats_html(d));
    assert(live@ == dashboard_live_html(d));
    let mut html = String::from_str(
        r#"<div class="page"><header class="topbar"><div class="brand"><span class="eyebrow">NTZ control plane</span><h1>Operate your VPN network without fighting the interface.</h1><p class="lead">Create enrollment tokens, check node health, and keep client-to-server assignments tidy from one responsive dashboard.</p></div><div class="actions">"#,
    );
    html.append(render_badge(make_version_label(version).as_str(), "info").as_str());
    html.append(r#"<a class="btn-secondary" href="/logout">Logout</a></div></header>"#);
    html.append(live.as_str());
    html.append(
        r#"<section class="hero"><article class="card strong"><span class="eyebrow">Quick start</span><h2>Bring the network online in three steps</h2><p class="lead">The manager already stores your shared tunnel defaults. What usually matters most is keeping the public endpoint correct and making sure each client lands on the right server.</p><ol class="steps"><li><strong>Create a server token</strong> and enroll your Linux VPN host.</li><li><strong>Create client tokens</strong> for every device you want to manage.</li><li><strong>Review heartbeats</strong>, fix assignments, and confirm the public endpoint is reachable.</li></ol><div class="meta">"#,
    );
    html.append(
        render_meta_card(
            "Public endpoint",
            render_code(
                display_text(
                    settings_value(settings, "public_endpoint").as_str(),
                    "Not set",
                ).as_str(),
            ).as_str(),
        ).as_str(),
    );
    html.append(
        render_meta_card(
            "Client pool",
            render_code(
                display_text(settings_value(settings, "client_cidr").as_str(), "Not set").as_str(),
            ).as_str(),
        ).as_str(),
    );
    html.append(r#"</div></article><div class="stats">"#);
    html.append(stats.as_str());
    html.append(
        r#"</div></section><div class="layout"><section class="card strong"><div class="section-head"><div><span class="eyebrow">Global profile</span><h2>Default network settings</h2></div><p class="muted">These values seed new server nodes and shape client allocation, DNS proxy behavior, and egress handling.</p></div>"#,
    );
    html.append(render_settings_form(settings).as_str());
    html.append(
        r#"</section><section class="card"><div class="section-head"><div><span class="eyebrow">Enrollment</span><h2>Bootstrap tokens</h2></div><p class="muted">Tokens are single-use by design, so the table doubles as a clean audit trail.</p></div><form class="grid" method="post" action="/tokens"><div class="grid two">"#,
    );
    html.append(
        render_select_field(
            "Token type",
            "kind",
            r#"<option value="server">Server node</option><option value="client">Client device</option>"#,
            "Server tokens enroll Linux nodes. Client tokens enroll end-user devices.",
        ).as_str(),
    );
    html.append(
        render_input_field(
            "Friendly label",
            "label",
            "text",
            "lab-node",
            "Use a label that will still make sense later.",
        ).as_str(),
    );
    html.append(
        r#"</div><button class="btn" type="submit">Create bootstrap token</button></form><div class="table-wrap"><table class="table"><thead><tr><th>Token</th><th>Type</th><th>Label</th><th>Created</th><th>Used</th></tr></thead><tbody>"#,
    );
    html.append(render_token_rows(tokens).as_str());
    html.append(
        r#"</tbody></table></div></section></div><section class="section-head"><div><span class="eyebrow">Linux nodes</span><h2>Server fleet</h2></div><p class="muted">Server cards show heartbeat freshness, applied config version, and connected client counts.</p></section><div class="list">"#,
    );
    html.append(render_server_cards(servers, version, now).as_str());
    html.append(
        r#"</div><section class="section-head"><div><span class="eyebrow">Managed devices</span><h2>Client inventory</h2></div><p class="muted">Assign each client to the correct server and keep tunnel IPs or egress overrides readable.</p></section><div class="list">"#,
    );
    html.append(render_client_cards(clients, servers, version, now).as_str());
    html.append("</div>");
    html.append(
        r#"
<section class="card strong">
    <div class="section-head">
        <div>
            <span class="eyebrow">Security center</span>
            <h2>Threat detection alerts</h2>
            <p class="muted">
                Impossible travel, reconnect abuse, unknown IPs,
                and traffic spikes surface here as agents report status.
            </p>
        </div>
    </div>

    <div id="alerts-panel" class="alerts-panel">
        <div class="empty">Loading alerts...</div>
    </div>
</section>
"#,
    );
    html.append(
        r#"
<section class="card strong">
    <div class="section-head">
        <div>
            <span class="eyebrow">Live server logs</span>
            <h2>Real-time VPN activity</h2>
            <p class="muted">
                Heartbeats, client activity, status updates,
                and future connection events appear here.
            </p>
        </div>
    </div>

    <div
        id="logs-container"
        style="
            margin-top:20px;
            background:#0f172a;
            color:#00ff9d;
            border-radius:20px;
            padding:20px;
            height:320px;
            overflow-y:auto;
            font-family:Consolas, monospace;
            font-size:14px;
            border:1px solid rgba(255,255,255,0.08);
        "
    >
        Loading logs...
    </div>
</section>
"#,
    );
    html.append("</div>");
    assert(html@ == dashboard_body_html(d));
    render_page("NTZ Manager", html.as_str())
}

/// The card of a server shows its name, its identity, its badges and what its agent last said, its
/// facts, and a form with its listen address, public endpoint, outside interface, limit of clients
/// and switch, and leads to its removal.
pub proof fn law_server_card_shows_the_server(server: ServerRowView, version: u64, now: Timestamp)
    ensures
        shows(
            server_card_html(server, version, now),
            input_field_html(
                "Listen address"@,
                "listen_addr"@,
                "text"@,
                server.listen_addr,
                "UDP bind address on the Linux host."@,
            ),
        ),
        shows(
            server_card_html(server, version, now),
            input_field_html(
                "Public endpoint"@,
                "public_endpoint"@,
                "text"@,
                server.public_endpoint,
                "Reachable address clients should dial."@,
            ),
        ),
        shows(
            server_card_html(server, version, now),
            input_field_html(
                "NAT interface"@,
                "nat_iface"@,
                "text"@,
                server.nat_iface,
                "Linux WAN interface used for forwarding and NAT."@,
            ),
        ),
        shows(
            server_card_html(server, version, now),
            input_field_html(
                "Max clients"@,
                "max_clients"@,
                "number"@,
                decimal(server.max_clients as int),
                "Maximum active client sessions for this node."@,
            ),
        ),
        shows(
            server_card_html(server, version, now),
            toggle_field_html(
                "Server enabled"@,
                "enabled"@,
                server.enabled,
                "Disable a node here if it should stay enrolled but stop accepting managed traffic."@,
            ),
        ),
        shows(
            server_card_html(server, version, now),
            escaped(server.node_name),
        ),
        shows(
            server_card_html(server, version, now),
            escaped(server.server_id),
        ),
        shows(
            server_card_html(server, version, now),
            escaped("server-form-"@ + server.server_id),
        ),
        shows(
            server_card_html(server, version, now),
            enabled_badge_html(server.enabled),
        ),
        shows(
            server_card_html(server, version, now),
            heartbeat_badge_html(server.last_seen, now),
        ),
        shows(
            server_card_html(server, version, now),
            config_badge_html(server.current_version, version),
        ),
        shows(
            server_card_html(server, version, now),
            note_html(server.last_message, server.last_error),
        ),
        shows(
            server_card_html(server, version, now),
            escaped("/servers/"@ + server.server_id + "/delete"@),
        ),
        shows(
            server_card_html(server, version, now),
            meta_card_html("Server ID"@, code_html(server.server_id)),
        ),
        shows(
            server_card_html(server, version, now),
            meta_card_html("Last heartbeat"@, escaped(last_seen_text(server.last_seen, now))),
        ),
        shows(
            server_card_html(server, version, now),
            meta_card_html("Public endpoint"@, code_html(text_or(server.public_endpoint, "Not set"@))),
        ),
        shows(
            server_card_html(server, version, now),
            meta_card_html("Connected clients"@, escaped(decimal(server.connected_clients as int))),
        ),
        shows(
            server_card_html(server, version, now),
            meta_card_html("Applied config"@, escaped(applied_text(server.current_version, version))),
        ),
        shows(
            server_card_html(server, version, now),
            meta_card_html("NAT interface"@, code_html(text_or(server.nat_iface, "Not set"@))),
        ),
{
    reveal(server_card_html);
    reveal(server_meta_html);
    lemma_shows();
}

/// The card of a client shows its name, its identity, its badges and what its agent last said, its
/// facts, and a form with its tunnel address, its server, its egress address and its switch, and
/// leads to its removal.
pub proof fn law_client_card_shows_the_client(
    client: ClientRowView,
    servers: Seq<ServerRowView>,
    version: u64,
    now: Timestamp,
)
    ensures
        shows(
            client_card_html(client, servers, version, now),
            input_field_html(
                "Assigned IP"@,
                "assigned_ip"@,
                "text"@,
                client.assigned_ip,
                "Static tunnel IP pushed to the device."@,
            ),
        ),
        shows(
            client_card_html(client, servers, version, now),
            input_field_html(
                "Egress IP override"@,
                "egress_ip"@,
                "text"@,
                client.egress_ip,
                "Optional per-client SNAT address."@,
            ),
        ),
        shows(
            client_card_html(client, servers, version, now),
            toggle_field_html(
                "Client enabled"@,
                "enabled"@,
                client.enabled,
                "Disable a device here if it should stay enrolled but no longer receive an active tunnel config."@,
            ),
        ),
        shows(
            client_card_html(client, servers, version, now),
            select_field_html(
                "Assigned server"@,
                "server_id"@,
                server_options_html(client.server_id, servers),
                "Choose which enrolled server should accept this client."@,
            ),
        ),
        shows(
            client_card_html(client, servers, version, now),
            escaped(client.device_name),
        ),
        shows(
            client_card_html(client, servers, version, now),
            escaped(client.client_id),
        ),
        shows(
            client_card_html(client, servers, version, now),
            escaped("client-form-"@ + client.client_id),
        ),
        shows(
            client_card_html(client, servers, version, now),
            enabled_badge_html(client.enabled),
        ),
        shows(
            client_card_html(client, servers, version, now),
            heartbeat_badge_html(client.last_seen, now),
        ),
        shows(
            client_card_html(client, servers, version, now),
            config_badge_html(client.current_version, version),
        ),
        shows(
            client_card_html(client, servers, version, now),
            note_html(client.last_message, client.last_error),
        ),
        shows(
            client_card_html(client, servers, version, now),
            escaped("/clients/"@ + client.client_id + "/delete"@),
        ),
        shows(
            client_card_html(client, servers, version, now),
            meta_card_html("Client ID"@, code_html(client.client_id)),
        ),
        shows(
            client_card_html(client, servers, version, now),
            meta_card_html("Assigned server"@, escaped(server_name(client.server_id, servers))),
        ),
        shows(
            client_card_html(client, servers, version, now),
            meta_card_html("Tunnel IP"@, code_html(text_or(client.assigned_ip, "Not set"@))),
        ),
        shows(
            client_card_html(client, servers, version, now),
            meta_card_html("Egress IP"@, code_html(text_or(client.egress_ip, "Not set"@))),
        ),
        shows(
            client_card_html(client, servers, version, now),
            meta_card_html("Last heartbeat"@, escaped(last_seen_text(client.last_seen, now))),
        ),
        shows(
            client_card_html(client, servers, version, now),
            meta_card_html("Applied config"@, escaped(applied_text(client.current_version, version))),
        ),
{
    reveal(client_card_html);
    reveal(client_meta_html);
    lemma_shows();
}

/// The form for the settings shows each setting under its name.
pub proof fn law_settings_form_shows_the_settings(settings: Map<Seq<char>, Seq<char>>)
    ensures
        shows(
            settings_form_html(settings),
            input_field_html(
                "Server listen address"@,
                "listen_addr"@,
                "text"@,
                setting(settings, "listen_addr"@),
                "UDP address the Linux server binds to."@,
            ),
        ),
        shows(
            settings_form_html(settings),
            input_field_html(
                "Public endpoint"@,
                "public_endpoint"@,
                "text"@,
                setting(settings, "public_endpoint"@),
                "Reachable IP:port clients use to reach the server."@,
            ),
        ),
        shows(
            settings_form_html(settings),
            input_field_html(
                "TUN name"@,
                "tun_name"@,
                "text"@,
                setting(settings, "tun_name"@),
                "Shared interface name pushed to agents."@,
            ),
        ),
        shows(
            settings_form_html(settings),
            input_field_html(
                "Server TUN IP"@,
                "tun_address"@,
                "text"@,
                setting(settings, "tun_address"@),
                "IPv4 address used on the server tunnel interface."@,
            ),
        ),
        shows(
            settings_form_html(settings),
            input_field_html(
                "TUN prefix"@,
                "tun_prefix"@,
                "number"@,
                setting(settings, "tun_prefix"@),
                "CIDR prefix for the tunnel network."@,
            ),
        ),
        shows(
            settings_form_html(settings),
            input_field_html(
                "Client CIDR"@,
                "client_cidr"@,
                "text"@,
                setting(settings, "client_cidr"@),
                "Pool used when assigning client tunnel addresses."@,
            ),
        ),
        shows(
            settings_form_html(settings),
            input_field_html(
                "MTU"@,
                "mtu"@,
                "number"@,
                setting(settings, "mtu"@),
                "Leave blank to keep the platform default."@,
            ),
        ),
        shows(
            settings_form_html(settings),
            input_field_html(
                "Max clients"@,
                "max_clients"@,
                "number"@,
                setting(settings, "max_clients"@),
                "Default concurrency cap for new server nodes."@,
            ),
        ),
        shows(
            settings_form_html(settings),
            input_field_html(
                "NAT interface"@,
                "nat_iface"@,
                "text"@,
                setting(settings, "nat_iface"@),
                "Linux WAN interface used for NAT and forwarding."@,
            ),
        ),
        shows(
            settings_form_html(settings),
            input_field_html(
                "DoH upstream URL"@,
                "doh_url"@,
                "text"@,
                setting(settings, "doh_url"@),
                "DNS-over-HTTPS endpoint used by the server-side DNS proxy."@,
            ),
        ),
        shows(
            settings_form_html(settings),
            input_field_html(
                "DNS bind address"@,
                "dns_bind_addr"@,
                "text"@,
                setting(settings, "dns_bind_addr"@),
                "Address the managed DNS proxy listens on."@,
            ),
        ),
        shows(
            settings_form_html(settings),
            toggle_field_html(
                "Setup NAT automatically"@,
                "setup_nat"@,
                says_yes(setting(settings, "setup_nat"@)),
                "Linux server nodes program routes and iptables when enabled."@,
            ),
        ),
        shows(
            settings_form_html(settings),
            textarea_field_html(
                "Blocked destinations"@,
                "blocked_ips"@,
                join_spec(json_list_or_empty(setting(settings, "blocked_ips_json"@)), "\n"@),
                "One CIDR or IP per line. These destinations are dropped for tunnel clients."@,
            ),
        ),
        shows(
            settings_form_html(settings),
            textarea_field_html(
                "Protected destinations"@,
                "protected_ips"@,
                join_spec(json_list_or_empty(setting(settings, "protected_ips_json"@)), "\n"@),
                "Sensitive networks you never want reachable from the VPN."@,
            ),
        ),
        shows(
            settings_form_html(settings),
            textarea_field_html(
                "Egress IP pool"@,
                "egress_ips"@,
                join_spec(json_list_or_empty(setting(settings, "egress_ips_json"@)), "\n"@),
                "Optional source IPs used for per-client SNAT."@,
            ),
        ),
{
    reveal(settings_form_html);
    lemma_shows();
}

/// The row of a token shows its text, its label, its badges and its times.
pub proof fn law_token_row_shows_the_token(token: TokenRowView)
    ensures
        shows(
            token_row_html(token),
            escaped(token.token),
        ),
        shows(
            token_row_html(token),
            escaped(token.label),
        ),
        shows(
            token_row_html(token),
            escaped(token.kind),
        ),
        shows(
            token_row_html(token),
            token_kind_badge_html(token.kind),
        ),
        shows(
            token_row_html(token),
            token_state_badge_html(token.used_at),
        ),
        shows(
            token_row_html(token),
            escaped(time_text(token.created_at)),
        ),
        shows(
            token_row_html(token),
            escaped(used_text(token.used_at)),
        ),
{
    reveal(token_row_html);
    lemma_shows();
}

/// The lists show each of their rows.
proof fn lemma_lists_show_rows(d: DashboardView, s: int, c: int, t: int)
    ensures
        0 <= s < d.servers.len() ==> shows(
            server_cards_html_of(d.servers, d.version, d.now),
            server_card_html(d.servers[s], d.version, d.now),
        ),
        0 <= c < d.clients.len() ==> shows(
            client_cards_html_of(d.clients, d.servers, d.version, d.now),
            client_card_html(d.clients[c], d.servers, d.version, d.now),
        ),
        0 <= t < d.tokens.len() ==> shows(
            token_rows_html_of(d.tokens),
            token_row_html(d.tokens[t]),
        ),
{
    lemma_server_cards(d.servers, d.version, d.now, s);
    lemma_client_cards(d.clients, d.servers, d.version, d.now, c);
    lemma_token_rows(d.tokens, t);
}

/// The cards of the servers show each server.
proof fn lemma_server_cards(rows: Seq<ServerRowView>, version: u64, now: Timestamp, i: int)
    ensures
        0 <= i < rows.len() ==> shows(
            server_cards_html_of(rows, version, now),
            server_card_html(rows[i], version, now),
        ),
    decreases rows.len(),
{
    if 0 <= i < rows.len() {
        lemma_server_cards(rows.drop_last(), version, now, i);
        lemma_shows();
    }
}

/// The cards of the clients show each client.
proof fn lemma_client_cards(
    rows: Seq<ClientRowView>,
    servers: Seq<ServerRowView>,
    version: u64,
    now: Timestamp,
    i: int,
)
    ensures
        0 <= i < rows.len() ==> shows(
            client_cards_html_of(rows, servers, version, now),
            client_card_html(rows[i], servers, version, now),
        ),
    decreases rows.len(),
{
    if 0 <= i < rows.len() {
        lemma_client_cards(rows.drop_last(), servers, version, now, i);
        lemma_shows();
    }
}

/// The rows of the tokens show each token.
proof fn lemma_token_rows(rows: Seq<TokenRowView>, i: int)
    ensures
        0 <= i < rows.len() ==> shows(token_rows_html_of(rows), token_row_html(rows[i])),
    decreases rows.len(),
{
    if 0 <= i < rows.len() {
        lemma_token_rows(rows.drop_last(), i);
        lemma_shows();
    }
}

/// The body of the dashboard shows its lists, the settings and the figures.
proof fn lemma_body_shows_parts(d: DashboardView)
    ensures
        shows(dashboard_body_html(d), settings_form_html(d.settings)),
        shows(dashboard_body_html(d), dashboard_stats_html(d)),
        shows(dashboard_body_html(d), dashboard_live_html(d)),
        shows(dashboard_body_html(d), token_rows_html(d.tokens)),
        shows(dashboard_body_html(d), server_cards_html(d.servers, d.version, d.now)),
        shows(dashboard_body_html(d), client_cards_html(d.clients, d.servers, d.version, d.now)),
{
    lemma_shows();
}

/// What one piece shows of another is shown wherever that piece is.
proof fn lemma_shows_chain(a: Seq<char>, b: Seq<char>, c: Seq<char>)
    requires
        shows(a, b),
        shows(b, c),
    ensures
        shows(a, c),
{
    reveal(shows);
    let i = choose|i: int|
        0 <= i && i + b.len() <= a.len() && #[trigger] a.subrange(i, i + b.len()) == b;
    let j = choose|j: int|
        0 <= j && j + c.len() <= b.len() && #[trigger] b.subrange(j, j + c.len()) == c;
    assert(a.subrange(i + j, i + j + c.len()) =~= c) by {
        assert forall|k: int| 0 <= k < c.len() implies a[i + j + k] == c[k] by {
            assert(b.subrange(j, j + c.len())[k] == c[k]);
            assert(a.subrange(i, i + b.len())[j + k] == b[j + k]);
        }
    }
}

/// The dashboard shows the card of every server and of every client, the row of every token, the
/// settings, and the figures of the network.
pub proof fn law_dashboard_shows_everything(d: DashboardView, s: int, c: int, t: int)
    ensures
        0 <= s < d.servers.len() ==> shows(
            dashboard_html(d),
            server_card_html(d.servers[s], d.version, d.now),
        ),
        0 <= c < d.clients.len() ==> shows(
            dashboard_html(d),
            client_card_html(d.clients[c], d.servers, d.version, d.now),
        ),
        0 <= t < d.tokens.len() ==> shows(dashboard_html(d), token_row_html(d.tokens[t])),
        shows(dashboard_html(d), settings_form_html(d.settings)),
        shows(
            dashboard_html(d),
            stats_html(
                d.version,
                healthy_servers(d.servers, d.now),
                d.servers.len(),
                assigned_clients(d.clients),
                d.clients.len(),
                unused_tokens(d.tokens),
            ),
        ),
{
    let page = dashboard_html(d);
    let body = dashboard_body_html(d);
    law_pages_show_their_body("NTZ Manager"@, body);
    lemma_body_shows_parts(d);
    lemma_lists_show_rows(d, s, c, t);
    lemma_shows_chain(page, body, settings_form_html(d.settings));
    lemma_shows_chain(page, body, dashboard_stats_html(d));
    if 0 <= s < d.servers.len() {
        let cards = server_cards_html(d.servers, d.version, d.now);
        lemma_shows_chain(page, body, cards);
        lemma_shows_chain(page, cards, server_card_html(d.servers[s], d.version, d.now));
    }
    if 0 <= c < d.clients.len() {
        let cards = client_cards_html(d.clients, d.servers, d.version, d.now);
        lemma_shows_chain(page, body, cards);
        lemma_shows_chain(
            page,
            cards,
            client_card_html(d.clients[c], d.servers, d.version, d.now),
        );
    }
    if 0 <= t < d.tokens.len() {
        let rows = token_rows_html(d.tokens);
        lemma_shows_chain(page, body, rows);
        lemma_shows_chain(page, rows, token_row_html(d.tokens[t]));
    }
}

/// The figures count what they say: a server that is online, a client with a server, a token that
/// was not used, an agent that was seen this minute each count for one, and no others do.
pub proof fn law_figures_count_rows(
    servers: Seq<ServerRowView>,
    server: ServerRowView,
    clients: Seq<ClientRowView>,
    client: ClientRowView,
    tokens: Seq<TokenRowView>,
    token: TokenRowView,
    now: Timestamp,
)
    ensures
        healthy_servers(Seq::empty(), now) == 0,
        healthy_servers(servers.push(server), now) == healthy_servers(servers, now) + (if presence(
            server.last_seen,
            now,
        ) == HeartbeatState::Online {
            1nat
        } else {
            0
        }),
        assigned_clients(Seq::empty()) == 0,
        assigned_clients(clients.push(client)) == assigned_clients(clients) + (if trim_spec(
            client.server_id,
        ).len() > 0 {
            1nat
        } else {
            0
        }),
        unused_tokens(Seq::empty()) == 0,
        unused_tokens(tokens.push(token)) == unused_tokens(tokens) + (if trim_spec(
            token.used_at,
        ).len() == 0 {
            1nat
        } else {
            0
        }),
        servers_this_minute(Seq::empty(), now) == 0,
        servers_this_minute(servers.push(server), now) == servers_this_minute(servers, now) + (
        if seen_this_minute(server.last_seen, now) {
            1nat
        } else {
            0
        }),
        clients_this_minute(Seq::empty(), now) == 0,
        clients_this_minute(clients.push(client), now) == clients_this_minute(clients, now) + (
        if seen_this_minute(client.last_seen, now) {
            1nat
        } else {
            0
        }),
{
    assert(servers.push(server).drop_last() =~= servers);
    assert(clients.push(client).drop_last() =~= clients);
    assert(tokens.push(token).drop_last() =~= tokens);
}

/// What an agent last said: its error where there is one, else its message.
pub proof fn law_notes_show_what_was_said(message: Seq<char>, error: Seq<char>)
    ensures
        trim_spec(error).len() > 0 ==> shows(note_html(message, error), escaped(error)),
        trim_spec(error).len() > 0 && trim_spec(message).len() > 0 ==> shows(
            note_html(message, error),
            escaped(message),
        ),
        trim_spec(error).len() == 0 && trim_spec(message).len() > 0 ==> shows(
            note_html(message, error),
            escaped(message),
        ),
{
    lemma_shows();
}

/// The server of a client is shown with its name and its identity; one that is not listed with its
/// identity alone, and none as none.
pub proof fn law_servers_of_clients_are_named(
    server_id: Seq<char>,
    servers: Seq<ServerRowView>,
    k: int,
)
    requires
        0 <= k <= servers.len(),
        forall|j: int| 0 <= j < k ==> (#[trigger] servers[j]).server_id != trim_spec(server_id),
        k < servers.len() ==> servers[k].server_id == trim_spec(server_id),
    ensures
        trim_spec(server_id).len() == 0 ==> server_name(server_id, servers) == "Unassigned"@,
        trim_spec(server_id).len() > 0 && k < servers.len() ==> server_name(server_id, servers)
            == servers[k].node_name + " ("@ + servers[k].server_id + ")"@,
        trim_spec(server_id).len() > 0 && k == servers.len() ==> server_name(server_id, servers)
            == trim_spec(server_id),
{
    lemma_listed_server(servers, trim_spec(server_id), k);
}

/// The first listed server with an identity is the one that is found.
proof fn lemma_listed_server(servers: Seq<ServerRowView>, server_id: Seq<char>, k: int)
    requires
        0 <= k <= servers.len(),
        forall|j: int| 0 <= j < k ==> (#[trigger] servers[j]).server_id != server_id,
        k < servers.len() ==> servers[k].server_id == server_id,
    ensures
        k < servers.len() ==> listed_server(servers, server_id) == Some(servers[k]),
        k == servers.len() ==> listed_server(servers, server_id) is None,
    decreases k,
{
    if k > 0 {
        assert(servers[0].server_id != server_id);
        assert forall|j: int| 0 <= j < k - 1 implies (#[trigger] servers.skip(1)[j]).server_id
            != server_id by {
            assert(servers[j + 1].server_id != server_id);
        }
        lemma_listed_server(servers.skip(1), server_id, k - 1);
    }
}

/// The choice of a client's server offers none and every listed server, with its name and identity,
/// and has the one selected that the client is assigned to, and no other.
pub proof fn law_server_choice(
    selected_id: Seq<char>,
    servers: Seq<ServerRowView>,
    server: ServerRowView,
)
    ensures
        server_options_html(selected_id, Seq::empty())
            == r#"<option value="">Unassigned</option>"#@,
        server_options_html(selected_id, servers.push(server)) == server_options_html(
            selected_id,
            servers,
        ) + (r#"<option value=""#@ + escaped(server.server_id) + r#"""#@ + (if server.server_id
            == selected_id {
            " selected"@
        } else {
            ""@
        }) + ">"@ + escaped(server.node_name + " ("@ + server.server_id + ")"@) + "</option>"@),
{
    assert(servers.push(server).drop_last() =~= servers);
}

/// The figures of this minute are those of the clients and servers that were seen, and the servers
/// that were not.
pub proof fn law_live_figures(d: DashboardView)
    ensures
        servers_this_minute(d.servers, d.now) <= d.servers.len(),
        shows(dashboard_live_html(d), decimal(clients_this_minute(d.clients, d.now) as int)),
        shows(dashboard_live_html(d), decimal(servers_this_minute(d.servers, d.now) as int)),
        shows(
            dashboard_live_html(d),
            decimal(d.servers.len() - servers_this_minute(d.servers, d.now)),
        ),
        shows(dashboard_html(d), dashboard_live_html(d)),
        shows(dashboard_html(d), badge_html("Config v"@ + decimal(d.version as int), "info"@)),
{
    reveal(live_stats_html);
    lemma_minute_bound(d.servers, d.now);
    let body = dashboard_body_html(d);
    law_pages_show_their_body("NTZ Manager"@, body);
    lemma_body_shows_parts(d);
    lemma_shows_chain(dashboard_html(d), body, dashboard_live_html(d));
    lemma_shows();
    assert(shows(body, badge_html(version_label(d.version), "info"@)));
    lemma_shows_chain(dashboard_html(d), body, badge_html(version_label(d.version), "info"@));
}

/// No more servers were seen than there are.
proof fn lemma_minute_bound(rows: Seq<ServerRowView>, now: Timestamp)
    ensures
        servers_this_minute(rows, now) <= rows.len(),
    decreases rows.len(),
{
    if rows.len() > 0 {
        lemma_minute_bound(rows.drop_last(), now);
    }
}

} // verus!
