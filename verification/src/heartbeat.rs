//! The regular calls of agents to the manager, and the journals that they leave.

use vstd::prelude::*;

use crate::clock::{rfc3339_text, timestamp_text, Timestamp};
use crate::configs::{
    build_client_config, build_server_config, client_config, server_config, POLL_INTERVAL_SECONDS,
};
use crate::listing::or_empty;
use crate::models::{
    AgentKind, AgentStatusReport, AgentStatusReportView, HeartbeatRequest, HeartbeatRequestView,
    HeartbeatResponse, HeartbeatResponseView, StatusRequest, StatusResponse,
};
use crate::security::{
    after_report, process_security_report, stored_time, with_log, write_log,
};
use crate::settings::{
    config_version, current_config_version, law_version_rises, version_can_rise, with_next_version,
};
use crate::status::{counter, counter_value};
use crate::store::{AgentRowView, AlertRowView, LogRowView, ManagerStore, ManagerStoreView};
use crate::text::{option_text_or_empty, text_eq, views};
use crate::text_map::TextMap;

verus! {

/// Whether an agent is who it says: known, of that kind, with that secret, and enabled.
pub open spec fn is_valid_agent(
    agents: Map<Seq<char>, AgentRowView>,
    agent_id: Seq<char>,
    agent_secret: Seq<char>,
    kind: AgentKind,
) -> bool {
    &&& agents.contains_key(agent_id)
    &&& agents[agent_id].kind == kind.name()
    &&& agents[agent_id].agent_secret == agent_secret
    &&& agents[agent_id].enabled != 0
}

/// What an unknown agent is answered.
pub open spec fn invalid_credentials() -> Seq<char> {
    "invalid agent credentials"@
}

/// Whether an agent is who it says.
pub fn validate_agent(
    store: &ManagerStore,
    agent_id: &str,
    agent_secret: &str,
    kind: AgentKind,
) -> (r:
    Result<(), &'static str>)
    requires
        store.wf(),
    ensures
        match r {
            Ok(_) => is_valid_agent(store@.agents, agent_id@, agent_secret@, kind),
            Err(message) => !is_valid_agent(store@.agents, agent_id@, agent_secret@, kind)
                && message@ == invalid_credentials(),
        },
{
    if let Some(at) = store.agent_position(agent_id) {
        let row = &store.agents[at];
        if text_eq(row.kind.as_str(), kind.as_str()) && text_eq(
            row.agent_secret.as_str(),
            agent_secret,
        ) && row.enabled != 0 {
            return Ok(());
        }
    }
    Err("invalid agent credentials")
}

/// A counter as it is stored: at most the largest signed number.
pub open spec fn stored_counter(value: Option<u64>) -> i64 {
    if counter(value) > i64::MAX {
        i64::MAX
    } else {
        counter(value) as i64
    }
}

/// A counter as it is stored: at most the largest signed number.
pub fn option_u64_to_i64(value: Option<u64>) -> (r: i64)
    ensures
        r == stored_counter(value),
{
    let n: u64 = counter_value(value);
    if n > 0x7fff_ffff_ffff_ffff {
        0x7fff_ffff_ffff_ffff
    } else {
        n as i64
    }
}

/// An agent with its latest report.
pub open spec fn with_report(
    row: AgentRowView,
    now: Timestamp,
    status: AgentStatusReportView,
) -> AgentRowView {
    AgentRowView {
        last_seen: Some(stored_time(now)),
        current_version: match status.applied_version {
            Some(version) => Some(version as i64),
            None => None,
        },
        last_error: or_empty(status.last_error),
        last_message: or_empty(status.last_message),
        connected_clients: match status.connected_clients {
            Some(n) => n as i64,
            None => 0,
        },
        current_country: or_empty(status.country),
        current_public_ip: or_empty(status.public_ip),
        upload_bytes: stored_counter(status.upload_bytes),
        download_bytes: stored_counter(status.download_bytes),
        ..row
    }
}

/// The store with the latest report of an agent.
pub open spec fn with_agent_report(
    store: ManagerStoreView,
    now: Timestamp,
    agent_id: Seq<char>,
    status: AgentStatusReportView,
) -> ManagerStoreView {
    if store.agents.contains_key(agent_id) {
        ManagerStoreView {
            agents: store.agents.insert(
                agent_id,
                with_report(store.agents[agent_id], now, status),
            ),
            ..store
        }
    } else {
        store
    }
}

/// Records the latest report of an agent.
fn record_report(
    store: &mut ManagerStore,
    now: Timestamp,
    agent_id: &str,
    status: &AgentStatusReport,
)
    requires
        old(store).wf(),
        now.is_clock_reading(),
    ensures
        final(store).wf(),
        final(store)@ == with_agent_report(old(store)@, now, agent_id@, status@),
{
    if let Some(at) = store.agent_position(agent_id) {
        let mut row = store.agents[at].clone();
        row.last_seen = Some(timestamp_text(now));
        row.current_version = match status.applied_version {
            Some(version) => Some(#[verifier::truncate] (version as i64)),
            None => None,
        };
        row.last_error = option_text_or_empty(&status.last_error);
        row.last_message = option_text_or_empty(&status.last_message);
        row.connected_clients = match status.connected_clients {
            Some(n) => #[verifier::truncate] (n as i64),
            None => 0,
        };
        row.current_country = option_text_or_empty(&status.country);
        row.current_public_ip = option_text_or_empty(&status.public_ip);
        row.upload_bytes = option_u64_to_i64(status.upload_bytes);
        row.download_bytes = option_u64_to_i64(status.download_bytes);
        store.replace_agent(at, row);
    }
}

/// The line that the log gets for a call of an agent.
pub open spec fn call_line(kind: AgentKind, agent_id: Seq<char>, what: Seq<char>) -> Seq<char> {
    "["@ + kind.name() + "] "@ + agent_id + what
}

/// The line that the log gets for a call of an agent.
pub fn call_message(kind: AgentKind, agent_id: &str, what: &str) -> (r: String)
    ensures
        r@ == call_line(kind, agent_id@, what@),
{
    let mut line = String::from_str("[");
    line.append(kind.as_str());
    line.append("] ");
    line.append(agent_id);
    line.append(what);
    line
}

/// The store after a report of a valid agent: alerts, the report itself, and a line in the log.
pub open spec fn reported(
    store: ManagerStoreView,
    now: Timestamp,
    agent_id: Seq<char>,
    kind: AgentKind,
    status: AgentStatusReportView,
    ipv6: Map<Seq<char>, Seq<char>>,
    what: Seq<char>,
) -> ManagerStoreView {
    with_log(
        with_agent_report(
            after_report(store, now, agent_id, kind, status, ipv6),
            now,
            agent_id,
            status,
        ),
        now,
        "INFO"@,
        call_line(kind, agent_id, what),
    )
}

/// Takes in a report of a valid agent.
fn take_report(
    store: &mut ManagerStore,
    now: Timestamp,
    agent_id: &str,
    kind: AgentKind,
    status: &AgentStatusReport,
    ipv6: &TextMap,
    what: &str,
)
    requires
        old(store).wf(),
        ipv6.wf(),
        now.is_clock_reading(),
    ensures
        final(store).wf(),
        final(store)@ == reported(old(store)@, now, agent_id@, kind, status@, ipv6@, what@),
{
    process_security_report(store, now, agent_id, kind, status, ipv6);
    record_report(store, now, agent_id, status);
    let line = call_message(kind, agent_id, what);
    write_log(store, now, "INFO", line.as_str());
}

/// The answer to a heartbeat, given the store that it left. An agent that does not have the current
/// version of the configuration is sent it.
pub open spec fn heartbeat_answer(store: ManagerStoreView, request: HeartbeatRequestView) -> Result<
    HeartbeatResponseView,
    Seq<char>,
> {
    match config_version(store.settings) {
        Err(message) => Err(message),
        Ok(version) => {
            let changed = counter(request.current_version) != version;
            let answer = HeartbeatResponseView {
                ok: true,
                poll_interval_seconds: POLL_INTERVAL_SECONDS,
                config_changed: changed,
                server_config: None,
                client_config: None,
                message: Some("heartbeat accepted"@),
            };
            if !changed {
                Ok(answer)
            } else {
                match request.kind {
                    AgentKind::Server => match server_config(store, request.agent_id) {
                        Ok(config) => Ok(
                            HeartbeatResponseView { server_config: Some(config), ..answer },
                        ),
                        Err(message) => Err(message),
                    },
                    AgentKind::Client => match client_config(store, request.agent_id) {
                        Ok(config) => Ok(
                            HeartbeatResponseView { client_config: Some(config), ..answer },
                        ),
                        Err(message) => Err(message),
                    },
                }
            }
        },
    }
}

/// The store after a heartbeat, and the answer. The report of a valid agent stays even where the
/// answer fails.
pub open spec fn heartbeat(
    store: ManagerStoreView,
    now: Timestamp,
    request: HeartbeatRequestView,
    ipv6: Map<Seq<char>, Seq<char>>,
) -> (ManagerStoreView, Result<HeartbeatResponseView, Seq<char>>) {
    if !is_valid_agent(store.agents, request.agent_id, request.agent_secret, request.kind) {
        (store, Err(invalid_credentials()))
    } else {
        let after = reported(
            store,
            now,
            request.agent_id,
            request.kind,
            request.status,
            ipv6,
            " heartbeat received"@,
        );
        (after, heartbeat_answer(after, request))
    }
}

/// The spec value of an answer to a heartbeat.
pub open spec fn answer_view(r: Result<HeartbeatResponse, String>) -> Result<
    HeartbeatResponseView,
    Seq<char>,
> {
    match r {
        Ok(response) => Ok(response@),
        Err(message) => Err(message@),
    }
}

/// The answer to a heartbeat.
fn answer_heartbeat(store: &ManagerStore, request: &HeartbeatRequest) -> (r: Result<
    HeartbeatResponse,
    String,
>)
    requires
        store.wf(),
    ensures
        answer_view(r) == heartbeat_answer(store@, request@),
{
    let version: u64 = match current_config_version(&store.settings) {
        Ok(version) => version,
        Err(message) => {
            return Err(message);
        },
    };
    let config_changed = counter_value(request.current_version) != version;
    let mut response = HeartbeatResponse {
        ok: true,
        poll_interval_seconds: POLL_INTERVAL_SECONDS,
        config_changed,
        server_config: None,
        client_config: None,
        message: Some(String::from_str("heartbeat accepted")),
    };
    if config_changed {
        match request.kind {
            AgentKind::Server => match build_server_config(store, request.agent_id.as_str()) {
                Ok(config) => {
                    response.server_config = Some(config);
                },
                Err(message) => {
                    return Err(message);
                },
            },
            AgentKind::Client => match build_client_config(store, request.agent_id.as_str()) {
                Ok(config) => {
                    response.client_config = Some(config);
                },
                Err(message) => {
                    return Err(message);
                },
            },
        }
    }
    Ok(response)
}

/// Takes in a heartbeat, and answers it.
pub fn api_heartbeat(
    store: &mut ManagerStore,
    now: Timestamp,
    request: &HeartbeatRequest,
    ipv6: &TextMap,
) -> (r: Result<HeartbeatResponse, String>)
    requires
        old(store).wf(),
        ipv6.wf(),
        now.is_clock_reading(),
    ensures
        final(store).wf(),
        (final(store)@, answer_view(r)) == heartbeat(old(store)@, now, request@, ipv6@),
{
    if let Err(message) = validate_agent(
        store,
        request.agent_id.as_str(),
        request.agent_secret.as_str(),
        request.kind,
    ) {
        return Err(message.to_owned());
    }
    take_report(
        store,
        now,
        request.agent_id.as_str(),
        request.kind,
        &request.status,
        ipv6,
        " heartbeat received",
    );
    answer_heartbeat(store, request)
}

/// Takes in a report outside a heartbeat.
pub fn api_status(
    store: &mut ManagerStore,
    now: Timestamp,
    request: &StatusRequest,
    ipv6: &TextMap,
) -> (r:
    Result<StatusResponse, &'static str>)
    requires
        old(store).wf(),
        ipv6.wf(),
        now.is_clock_reading(),
    ensures
        final(store).wf(),
        if is_valid_agent(
            old(store)@.agents,
            request@.agent_id,
            request@.agent_secret,
            request@.kind,
        ) {
            (r matches Ok(response) && response.ok) && final(store)@ == reported(
                old(store)@,
                now,
                request@.agent_id,
                request@.kind,
                request@.status,
                ipv6@,
                " status updated"@,
            )
        } else {
            (r matches Err(message) && message@ == invalid_credentials()) && final(store)@ == old(
                store,
            )@
        },
{
    if let Err(message) = validate_agent(
        store,
        request.agent_id.as_str(),
        request.agent_secret.as_str(),
        request.kind,
    ) {
        return Err(message);
    }
    take_report(
        store,
        now,
        request.agent_id.as_str(),
        request.kind,
        &request.status,
        ipv6,
        " status updated",
    );
    Ok(StatusResponse { ok: true })
}

/// A line of the log as it is shown.
pub open spec fn log_line(row: LogRowView) -> Seq<char> {
    "["@ + row.timestamp + "] ["@ + row.level + "] "@ + row.message
}

/// An alert as it is shown.
pub open spec fn alert_line(row: AlertRowView) -> Seq<char> {
    "["@ + row.timestamp + "] ["@ + row.level + "] "@ + row.agent_id + " - "@ + row.message
}

/// How many rows of a journal are shown.
pub open spec fn shown(total: nat, limit: nat) -> nat {
    if total < limit {
        total
    } else {
        limit
    }
}

/// The last hundred lines of the log, the newest first.
pub open spec fn recent_logs(logs: Seq<LogRowView>) -> Seq<Seq<char>> {
    Seq::new(shown(logs.len(), 100), |i: int| log_line(logs[logs.len() - 1 - i]))
}

/// The last fifty alerts, the newest first.
pub open spec fn recent_alerts(alerts: Seq<AlertRowView>) -> Seq<Seq<char>> {
    Seq::new(shown(alerts.len(), 50), |i: int| alert_line(alerts[alerts.len() - 1 - i]))
}

/// The last hundred lines of the log, the newest first.
pub fn api_logs(store: &ManagerStore) -> (lines: Vec<String>)
    ensures
        views(lines@) == recent_logs(store@.logs),
{
    let total: usize = store.logs.len();
    let n: usize = if total < 100 {
        total
    } else {
        100
    };
    let ghost expected = recent_logs(store@.logs);
    let mut lines: Vec<String> = Vec::new();
    assert(views(lines@) =~= expected.take(0));
    for i in 0..n
        invariant
            total == store.logs@.len(),
            n <= total,
            n == shown(total as nat, 100),
            expected == recent_logs(store@.logs),
            views(lines@) == expected.take(i as int),
    {
        let row = &store.logs[total - 1 - i];
        assert(store@.logs[total - 1 - i] == row@);
        let mut line = String::from_str("[");
        line.append(row.timestamp.as_str());
        line.append("] [");
        line.append(row.level.as_str());
        line.append("] ");
        line.append(row.message.as_str());
        assert(line@ == expected[i as int]);
        let ghost before = views(lines@);
        lines.push(line);
        assert(views(lines@) =~= before.push(expected[i as int]));
        assert(expected.take(i + 1) =~= before.push(expected[i as int]));
    }
    assert(expected.take(n as int) =~= expected);
    lines
}

/// The last fifty alerts, the newest first.
pub fn api_alerts(store: &ManagerStore) -> (lines: Vec<String>)
    ensures
        views(lines@) == recent_alerts(store@.alerts),
{
    let total: usize = store.alerts.len();
    let n: usize = if total < 50 {
        total
    } else {
        50
    };
    let ghost expected = recent_alerts(store@.alerts);
    let mut lines: Vec<String> = Vec::new();
    assert(views(lines@) =~= expected.take(0));
    for i in 0..n
        invariant
            total == store.alerts@.len(),
            n <= total,
            n == shown(total as nat, 50),
            expected == recent_alerts(store@.alerts),
            views(lines@) == expected.take(i as int),
    {
        let row = &store.alerts[total - 1 - i];
        assert(store@.alerts[total - 1 - i] == row@);
        let mut line = String::from_str("[");
        line.append(row.timestamp.as_str());
        line.append("] [");
        line.append(row.level.as_str());
        line.append("] ");
        line.append(row.agent_id.as_str());
        line.append(" - ");
        line.append(row.message.as_str());
        assert(line@ == expected[i as int]);
        let ghost before = views(lines@);
        lines.push(line);
        assert(views(lines@) =~= before.push(expected[i as int]));
        assert(expected.take(i + 1) =~= before.push(expected[i as int]));
    }
    assert(expected.take(n as int) =~= expected);
    lines
}

/// An agent that is not who it says changes nothing and learns nothing.
pub proof fn law_invalid_agents_change_nothing(
    store: ManagerStoreView,
    now: Timestamp,
    request: HeartbeatRequestView,
    ipv6: Map<Seq<char>, Seq<char>>,
)
    requires
        !is_valid_agent(store.agents, request.agent_id, request.agent_secret, request.kind),
    ensures
        heartbeat(store, now, request, ipv6) == (
            store,
            Err::<HeartbeatResponseView, Seq<char>>(invalid_credentials()),
        ),
{
}

/// A heartbeat leaves the credentials of every agent and the configuration alone; it records when
/// the agent was seen.
pub proof fn law_heartbeat_is_recorded(
    store: ManagerStoreView,
    now: Timestamp,
    request: HeartbeatRequestView,
    ipv6: Map<Seq<char>, Seq<char>>,
)
    requires
        is_valid_agent(store.agents, request.agent_id, request.agent_secret, request.kind),
    ensures
        ({
            let after = heartbeat(store, now, request, ipv6).0;
            &&& after.settings == store.settings
            &&& after.servers == store.servers
            &&& after.clients == store.clients
            &&& after.tokens == store.tokens
            &&& after.admins == store.admins
            &&& after.agents.dom() == store.agents.dom()
            &&& after.agents[request.agent_id].last_seen == Some(stored_time(now))
            &&& is_valid_agent(
                after.agents,
                request.agent_id,
                request.agent_secret,
                request.kind,
            )
            &&& forall|id: Seq<char>|
                id != request.agent_id && store.agents.contains_key(id)
                    ==> #[trigger] after.agents[id] == store.agents[id]
        }),
{
    crate::security::law_reports_only_add_to_journals(
        store,
        now,
        request.agent_id,
        request.kind,
        request.status,
        ipv6,
    );
    let after = heartbeat(store, now, request, ipv6).0;
    assert(after.agents.dom() =~= store.agents.dom());
}

/// An agent with the current version of the configuration is not sent it again; an agent with
/// another version, or none, is.
pub proof fn law_config_is_sent_when_it_changed(
    store: ManagerStoreView,
    request: HeartbeatRequestView,
)
    requires
        heartbeat_answer(store, request) is Ok,
    ensures
        ({
            let answer = heartbeat_answer(store, request)->Ok_0;
            &&& answer.config_changed == (counter(request.current_version) != config_version(
                store.settings,
            )->Ok_0)
            &&& answer.server_config is Some == (answer.config_changed && request.kind
                == AgentKind::Server)
            &&& answer.client_config is Some == (answer.config_changed && request.kind
                == AgentKind::Client)
            &&& answer.server_config matches Some(config) ==> config.version == config_version(
                store.settings,
            )->Ok_0
            &&& answer.client_config matches Some(config) ==> config.version == config_version(
                store.settings,
            )->Ok_0
        }),
{
    crate::settings::lemma_version_bounds(store.settings);
}

/// Every change of the network reaches its agents: an agent that has the version before the change
/// is told at its next heartbeat that the configuration changed.
pub proof fn law_changes_reach_agents(
    before: ManagerStoreView,
    after: ManagerStoreView,
    request: HeartbeatRequestView,
)
    requires
        config_version(before.settings) is Ok,
        version_can_rise(before.settings),
        after.settings == with_next_version(before.settings),
        counter(request.current_version) == config_version(before.settings)->Ok_0,
        heartbeat_answer(after, request) is Ok,
    ensures
        heartbeat_answer(after, request)->Ok_0.config_changed,
{
    law_version_rises(before.settings);
}

/// Whether a stored text is the reported one, or empty where none was reported.
pub open spec fn is_reported(stored: Seq<char>, reported: Option<Seq<char>>) -> bool {
    match reported {
        Some(text) => stored == text,
        None => stored.len() == 0,
    }
}

/// Whether a stored counter is the reported one, zero where none was reported, and the largest that
/// can be stored where it is larger.
pub open spec fn is_counted(stored: i64, reported: Option<u64>) -> bool {
    match reported {
        Some(n) => stored == if n <= i64::MAX {
            n as int
        } else {
            i64::MAX as int
        },
        None => stored == 0,
    }
}

/// A heartbeat of a valid agent is recorded field by field: the time, the version, the error, the
/// message, the number of clients, the country, the public address and both counters are those of
/// the report; identity, kind, name, secret and switch stay.
pub proof fn law_report_is_recorded_by_field(
    store: ManagerStoreView,
    now: Timestamp,
    request: HeartbeatRequestView,
    ipv6: Map<Seq<char>, Seq<char>>,
)
    requires
        is_valid_agent(store.agents, request.agent_id, request.agent_secret, request.kind),
    ensures
        ({
            let before = store.agents[request.agent_id];
            let row = heartbeat(store, now, request, ipv6).0.agents[request.agent_id];
            let status = request.status;
            &&& row.last_seen == Some(rfc3339_text(now.secs, now.nanos))
            &&& row.current_version is Some <==> status.applied_version is Some
            &&& status.applied_version matches Some(version) ==> (version <= i64::MAX
                ==> row.current_version->Some_0 == version)
            &&& is_reported(row.last_error, status.last_error)
            &&& is_reported(row.last_message, status.last_message)
            &&& is_reported(row.current_country, status.country)
            &&& is_reported(row.current_public_ip, status.public_ip)
            &&& is_counted(row.upload_bytes, status.upload_bytes)
            &&& is_counted(row.download_bytes, status.download_bytes)
            &&& status.connected_clients matches Some(n) ==> (n <= i64::MAX
                ==> row.connected_clients == n)
            &&& status.connected_clients is None ==> row.connected_clients == 0
            &&& row.agent_id == before.agent_id
            &&& row.kind == before.kind
            &&& row.node_name == before.node_name
            &&& row.agent_secret == before.agent_secret
            &&& row.enabled == before.enabled
        }),
{
    crate::security::law_reports_only_add_to_journals(
        store,
        now,
        request.agent_id,
        request.kind,
        request.status,
        ipv6,
    );
}

/// An agent is who it says exactly where a row has its identity, its kind and its secret, and is
/// switched on.
pub proof fn law_valid_agents(
    agents: Map<Seq<char>, AgentRowView>,
    agent_id: Seq<char>,
    agent_secret: Seq<char>,
)
    ensures
        is_valid_agent(agents, agent_id, agent_secret, AgentKind::Server)
            <==> agents.contains_key(agent_id) && agents[agent_id].kind == "server"@
            && agents[agent_id].agent_secret == agent_secret && agents[agent_id].enabled != 0,
        is_valid_agent(agents, agent_id, agent_secret, AgentKind::Client)
            <==> agents.contains_key(agent_id) && agents[agent_id].kind == "client"@
            && agents[agent_id].agent_secret == agent_secret && agents[agent_id].enabled != 0,
        invalid_credentials() == "invalid agent credentials"@,
{
}

/// No credentials are good for both kinds of agent.
pub proof fn law_kinds_are_told_apart(
    agents: Map<Seq<char>, AgentRowView>,
    agent_id: Seq<char>,
    agent_secret: Seq<char>,
)
    ensures
        !(is_valid_agent(agents, agent_id, agent_secret, AgentKind::Server) && is_valid_agent(
            agents,
            agent_id,
            agent_secret,
            AgentKind::Client,
        )),
{
    reveal_strlit("server");
    reveal_strlit("client");
    assert("server"@[0] != "client"@[0]);
}

/// The answer to a heartbeat of a valid agent: it says when to report again and whether the
/// configuration changed, which it did exactly where the agent names another version than the
/// current one (none counts as zero). A changed configuration is sent along, to each kind of agent
/// its own, and to the agent that asked.
pub proof fn law_heartbeat_answers(
    store: ManagerStoreView,
    now: Timestamp,
    request: HeartbeatRequestView,
    ipv6: Map<Seq<char>, Seq<char>>,
    version: int,
)
    requires
        is_valid_agent(store.agents, request.agent_id, request.agent_secret, request.kind),
        config_version(store.settings) == Ok::<int, Seq<char>>(version),
    ensures
        ({
            let (after, answer) = heartbeat(store, now, request, ipv6);
            let current = match request.current_version {
                Some(n) => n == version,
                None => version == 0,
            };
            &&& current ==> (answer matches Ok(response) && !response.config_changed
                && response.server_config is None && response.client_config is None)
            &&& !current && request.kind == AgentKind::Server ==> match server_config(
                after,
                request.agent_id,
            ) {
                Ok(config) => answer matches Ok(response) && response.config_changed
                    && response.server_config == Some(config) && response.client_config is None,
                Err(message) => answer == Err::<HeartbeatResponseView, Seq<char>>(message),
            }
            &&& !current && request.kind == AgentKind::Client ==> match client_config(
                after,
                request.agent_id,
            ) {
                Ok(config) => answer matches Ok(response) && response.config_changed
                    && response.client_config == Some(config) && response.server_config is None,
                Err(message) => answer == Err::<HeartbeatResponseView, Seq<char>>(message),
            }
            &&& answer matches Ok(response) ==> response.ok && response.poll_interval_seconds == 15
                && response.message == Some("heartbeat accepted"@)
        }),
{
    crate::security::law_reports_only_add_to_journals(
        store,
        now,
        request.agent_id,
        request.kind,
        request.status,
        ipv6,
    );
}

/// A call of a valid agent leaves a line in the log, the last one: with the time of now, the kind
/// and the identity of the agent, and what it called for.
pub proof fn law_calls_are_logged(
    store: ManagerStoreView,
    now: Timestamp,
    agent_id: Seq<char>,
    kind: AgentKind,
    status: AgentStatusReportView,
    ipv6: Map<Seq<char>, Seq<char>>,
    what: Seq<char>,
)
    ensures
        ({
            let line = reported(store, now, agent_id, kind, status, ipv6, what).logs.last();
            &&& line.timestamp == rfc3339_text(now.secs, now.nanos)
            &&& line.level == "INFO"@
            &&& kind == AgentKind::Server ==> line.message == "["@ + "server"@ + "] "@ + agent_id
                + what
            &&& kind == AgentKind::Client ==> line.message == "["@ + "client"@ + "] "@ + agent_id
                + what
        }),
{
}

/// A report outside a heartbeat is taken in like one in a heartbeat: both leave the same agents,
/// alerts and connections.
pub proof fn law_reports_are_taken_in_alike(
    store: ManagerStoreView,
    now: Timestamp,
    request: HeartbeatRequestView,
    ipv6: Map<Seq<char>, Seq<char>>,
)
    requires
        is_valid_agent(store.agents, request.agent_id, request.agent_secret, request.kind),
    ensures
        ({
            let by_status = reported(
                store,
                now,
                request.agent_id,
                request.kind,
                request.status,
                ipv6,
                " status updated"@,
            );
            let by_heartbeat = heartbeat(store, now, request, ipv6).0;
            &&& by_status.agents == by_heartbeat.agents
            &&& by_status.alerts == by_heartbeat.alerts
            &&& by_status.sessions == by_heartbeat.sessions
            &&& by_heartbeat.alerts == after_report(
                store,
                now,
                request.agent_id,
                request.kind,
                request.status,
                ipv6,
            ).alerts
            &&& by_heartbeat.logs.last().message == call_line(
                request.kind,
                request.agent_id,
                " heartbeat received"@,
            )
        }),
{
}

/// The journals are shown the newest first: a new line comes first, before those that were shown,
/// and at most a hundred lines of the log and fifty alerts are shown.
pub proof fn law_newest_lines_come_first(
    logs: Seq<LogRowView>,
    log: LogRowView,
    alerts: Seq<AlertRowView>,
    alert: AlertRowView,
    i: int,
)
    ensures
        recent_logs(logs.push(log))[0] == "["@ + log.timestamp + "] ["@ + log.level + "] "@
            + log.message,
        recent_logs(logs).len() == if logs.len() <= 100 {
            logs.len()
        } else {
            100
        },
        0 <= i < recent_logs(logs).len() && i < 99 ==> recent_logs(logs.push(log))[i + 1]
            == recent_logs(logs)[i],
        recent_alerts(alerts.push(alert))[0] == "["@ + alert.timestamp + "] ["@ + alert.level
            + "] "@ + alert.agent_id + " - "@ + alert.message,
        recent_alerts(alerts).len() == if alerts.len() <= 50 {
            alerts.len()
        } else {
            50
        },
        0 <= i < recent_alerts(alerts).len() && i < 49 ==> recent_alerts(alerts.push(alert))[i + 1]
            == recent_alerts(alerts)[i],
{
}

} // verus!
