//! What the manager makes of the reports of its agents: alerts and a journal of connections.

use vstd::prelude::*;

use crate::clock::{
    elapsed_seconds, parse_timestamp, rfc3339_text, seconds_since, timestamp_of, timestamp_text,
    Timestamp,
};
use crate::json::{json_list_of, json_list_or_empty, parse_json_list_or_empty};
use crate::listing::or_empty;
use crate::models::{AgentKind, AgentStatusReport, AgentStatusReportView};
use crate::settings::{clean_optional_text, clean_text, setting, settings_value};
use crate::sorting::{text_before, text_is_before};
use crate::status::{counter, counter_value};
use crate::store::{
    AlertRow, AlertRowView, LogRow, LogRowView, ManagerStore, ManagerStoreView, SessionRow,
    SessionRowView,
};
use crate::text::{
    before_last, before_last_spec, is_white_space, lemma_trim_id, option_text_or_empty, option_view,
    strip_prefix, strip_prefix_spec, text_eq, trim, trim_class, trim_class_spec, trim_spec, views,
    CharClass,
};
use crate::text_map::TextMap;

verus! {

/// The text that a point in time is stored as.
pub open spec fn stored_time(t: Timestamp) -> Seq<char> {
    rfc3339_text(t.secs, t.nanos)
}

/// The store with one more line in the log.
pub open spec fn with_log(
    store: ManagerStoreView,
    now: Timestamp,
    level: Seq<char>,
    message: Seq<char>,
) -> ManagerStoreView {
    ManagerStoreView {
        logs: store.logs.push(LogRowView { timestamp: stored_time(now), level, message }),
        ..store
    }
}

/// Adds a line to the log.
pub fn write_log(store: &mut ManagerStore, now: Timestamp, level: &str, message: &str)
    requires
        old(store).wf(),
        now.is_clock_reading(),
    ensures
        final(store).wf(),
        final(store)@ == with_log(old(store)@, now, level@, message@),
{
    let row = LogRow {
        timestamp: timestamp_text(now),
        level: level.to_owned(),
        message: message.to_owned(),
    };
    let ghost before = views(store.logs@);
    let ghost view = row@;
    store.logs.push(row);
    assert(views(store.logs@) =~= before.push(view));
}

/// Whether an alert was raised in the last seconds: one with the same agent and message, and a time
/// that is greater as a text.
pub open spec fn alert_is_recent(
    alerts: Seq<AlertRowView>,
    agent_id: Seq<char>,
    message: Seq<char>,
    threshold: Seq<char>,
) -> bool {
    exists|i: int|
        0 <= i < alerts.len() && (#[trigger] alerts[i]).agent_id == agent_id && alerts[i].message
            == message && text_before(threshold, alerts[i].timestamp)
}

/// How many seconds the same alert is not raised again.
pub const ALERT_PAUSE_SECONDS: i64 = 300;

/// The store after an alert was raised: nothing changes where the same one was raised in the last
/// five minutes, else the alert and a line in the log are added.
pub open spec fn with_alert(
    store: ManagerStoreView,
    now: Timestamp,
    level: Seq<char>,
    agent_id: Seq<char>,
    message: Seq<char>,
) -> ManagerStoreView {
    if alert_is_recent(
        store.alerts,
        agent_id,
        message,
        stored_time(now.before(ALERT_PAUSE_SECONDS as int)),
    ) {
        store
    } else {
        with_log(
            ManagerStoreView {
                alerts: store.alerts.push(
                    AlertRowView { timestamp: stored_time(now), level, agent_id, message },
                ),
                ..store
            },
            now,
            level,
            "[ALERT] "@ + agent_id + " - "@ + message,
        )
    }
}

/// Whether the same alert was raised in the last seconds.
pub fn recent_alert_exists(
    store: &ManagerStore,
    now: Timestamp,
    agent_id: &str,
    message: &str,
    seconds: i64,
) -> (r: bool)
    requires
        now.is_clock_reading(),
        now.can_go_back(seconds as int),
    ensures
        r == alert_is_recent(
            store@.alerts,
            agent_id@,
            message@,
            stored_time(now.before(seconds as int)),
        ),
{
    let threshold = timestamp_text(now.minus_seconds(seconds));
    let n: usize = store.alerts.len();
    let ghost alerts = store@.alerts;
    for i in 0..n
        invariant
            n == store.alerts@.len(),
            alerts == views(store.alerts@),
            alerts == store@.alerts,
            threshold@ == stored_time(now.before(seconds as int)),
            forall|j: int|
                0 <= j < i ==> !((#[trigger] alerts[j]).agent_id == agent_id@ && alerts[j].message
                    == message@ && text_before(threshold@, alerts[j].timestamp)),
    {
        let alert = &store.alerts[i];
        assert(alerts[i as int] == alert@);
        if text_eq(alert.agent_id.as_str(), agent_id) && text_eq(alert.message.as_str(), message)
            && text_is_before(threshold.as_str(), alert.timestamp.as_str()) {
            return true;
        }
    }
    false
}

/// Raises an alert, unless the same one was raised in the last five minutes.
pub fn create_alert(
    store: &mut ManagerStore,
    now: Timestamp,
    level: &str,
    agent_id: &str,
    message: &str,
)
    requires
        old(store).wf(),
        now.is_clock_reading(),
    ensures
        final(store).wf(),
        final(store)@ == with_alert(old(store)@, now, level@, agent_id@, message@),
        now.before(ALERT_PAUSE_SECONDS as int).in_rfc3339_years() && now.in_rfc3339_years()
            ==> alert_is_recent(
            final(store)@.alerts,
            agent_id@,
            message@,
            stored_time(now.before(ALERT_PAUSE_SECONDS as int)),
        ),
{
    if recent_alert_exists(store, now, agent_id, message, ALERT_PAUSE_SECONDS) {
        return;
    }
    let row = AlertRow {
        timestamp: timestamp_text(now),
        level: level.to_owned(),
        agent_id: agent_id.to_owned(),
        message: message.to_owned(),
    };
    let ghost before = views(store.alerts@);
    let ghost view = row@;
    store.alerts.push(row);
    assert(views(store.alerts@) =~= before.push(view));
    let ghost added = views(store.alerts@)[before.len() as int];
    assert(added == view);
    assert(now.before(ALERT_PAUSE_SECONDS as int).secs == now.secs - ALERT_PAUSE_SECONDS);
    let mut line = String::from_str("[ALERT] ");
    line.append(agent_id);
    line.append(" - ");
    line.append(message);
    write_log(store, now, level, line.as_str());
}

/// What is compared with a new report: the last time the agent was seen, and from where.
pub struct AgentSecurityState {
    pub last_seen: Option<Timestamp>,
    pub country: String,
    pub public_ip: String,
}

/// The view of [`AgentSecurityState`].
pub struct AgentSecurityStateView {
    pub last_seen: Option<Timestamp>,
    pub country: Seq<char>,
    pub public_ip: Seq<char>,
}

impl View for AgentSecurityState {
    type V = AgentSecurityStateView;

    open spec fn view(&self) -> AgentSecurityStateView {
        AgentSecurityStateView {
            last_seen: self.last_seen,
            country: self.country@,
            public_ip: self.public_ip@,
        }
    }
}

/// What is known of an agent from its last report.
pub open spec fn security_state(store: ManagerStoreView, agent_id: Seq<char>) -> Option<
    AgentSecurityStateView,
> {
    if store.agents.contains_key(agent_id) {
        let row = store.agents[agent_id];
        Some(
            AgentSecurityStateView {
                last_seen: timestamp_of(or_empty(row.last_seen)),
                country: row.current_country,
                public_ip: row.current_public_ip,
            },
        )
    } else {
        None
    }
}

/// What is known of an agent from its last report.
pub fn load_agent_security_state(store: &ManagerStore, agent_id: &str) -> (r: Option<
    AgentSecurityState,
>)
    requires
        store.wf(),
    ensures
        option_view(r) == security_state(store@, agent_id@),
        r matches Some(state) ==> (state.last_seen matches Some(t) ==> t.valid()),
{
    match store.agent_position(agent_id) {
        Some(at) => {
            let row = &store.agents[at];
            Some(
                AgentSecurityState {
                    last_seen: parse_timestamp(option_text_or_empty(&row.last_seen).as_str()),
                    country: row.current_country.clone(),
                    public_ip: row.current_public_ip.clone(),
                },
            )
        },
        None => None,
    }
}

/// Whether an agent was seen in the last seconds.
pub open spec fn seen_within(
    previous: AgentSecurityStateView,
    now: Timestamp,
    seconds: int,
) -> bool {
    match previous.last_seen {
        Some(t) => elapsed_seconds(now, t) <= seconds,
        None => false,
    }
}

/// Whether an agent was seen in the last seconds.
pub fn previous_seen_within(
    previous: &AgentSecurityState,
    now: Timestamp,
    seconds: i64,
) -> (r: bool)
    requires
        now.valid(),
        previous.last_seen matches Some(t) ==> t.valid(),
    ensures
        r == seen_within(previous@, now, seconds as int),
{
    match previous.last_seen {
        Some(t) => seconds_since(now, t) <= seconds,
        None => false,
    }
}

/// An endpoint without its scheme and without slashes around it.
pub open spec fn endpoint_value_of(endpoint: Seq<char>) -> Seq<char> {
    let value = trim_spec(endpoint);
    let value = match strip_prefix_spec(value, "http://"@) {
        Some(rest) => rest,
        None => match strip_prefix_spec(value, "https://"@) {
            Some(rest) => rest,
            None => value,
        },
    };
    trim_class_spec(value, CharClass::Slash)
}

/// An endpoint without its scheme and without slashes around it.
pub fn endpoint_value(endpoint: &str) -> (r: String)
    ensures
        r@ == endpoint_value_of(endpoint@),
{
    let value = trim(endpoint);
    let value = match strip_prefix(value.as_str(), "http://") {
        Some(rest) => rest,
        None => match strip_prefix(value.as_str(), "https://") {
            Some(rest) => rest,
            None => value,
        },
    };
    trim_class(value.as_str(), CharClass::Slash)
}

/// The host of an endpoint. `ipv6` gives the address, in its usual notation, of each endpoint value
/// that is an IPv6 socket address; the host of any other is what stands before the last colon,
/// without brackets.
pub open spec fn host_of(
    endpoint: Seq<char>,
    ipv6: Map<Seq<char>, Seq<char>>,
) -> Option<Seq<char>> {
    let value = endpoint_value_of(endpoint);
    if value.len() == 0 {
        None
    } else if ipv6.contains_key(value) {
        Some(ipv6[value])
    } else {
        match before_last_spec(value, ':') {
            Some(host) => Some(trim_class_spec(host, CharClass::Bracket)),
            None => Some(trim_class_spec(value, CharClass::Bracket)),
        }
    }
}

/// The host of an endpoint.
pub fn endpoint_host(endpoint: &str, ipv6: &TextMap) -> (r: Option<String>)
    requires
        ipv6.wf(),
    ensures
        option_view(r) == host_of(endpoint@, ipv6@),
{
    let value = endpoint_value(endpoint);
    if value.as_str().is_empty() {
        return None;
    }
    if let Some(address) = ipv6.get(value.as_str()) {
        return Some(address);
    }
    match before_last(value.as_str(), ':') {
        Some(host) => Some(trim_class(host.as_str(), CharClass::Bracket)),
        None => Some(trim_class(value.as_str(), CharClass::Bracket)),
    }
}

/// The addresses that reports are expected from: the public endpoints and the egress addresses.
pub open spec fn known_hosts(store: ManagerStoreView, ipv6: Map<Seq<char>, Seq<char>>) -> Set<
    Seq<char>,
> {
    Set::new(
        |host: Seq<char>|
            {
                ||| host_of(setting(store.settings, "public_endpoint"@), ipv6) == Some(host)
                ||| json_list_or_empty(setting(store.settings, "egress_ips_json"@)).contains(host)
                ||| exists|i: int|
                    0 <= i < store.servers.len() && host_of(
                        (#[trigger] store.servers[i]).public_endpoint,
                        ipv6,
                    ) == Some(host)
            },
    )
}

/// Whether a public address is expected: it is among the known hosts, or there are none.
pub open spec fn is_known_ip(
    store: ManagerStoreView,
    ipv6: Map<Seq<char>, Seq<char>>,
    public_ip: Seq<char>,
) -> bool {
    let known = known_hosts(store, ipv6);
    known == Set::<Seq<char>>::empty() || known.contains(public_ip)
}

/// Whether a public address is expected.
pub fn known_public_ip(store: &ManagerStore, ipv6: &TextMap, public_ip: &str) -> (r: bool)
    requires
        store.wf(),
        ipv6.wf(),
    ensures
        r == is_known_ip(store@, ipv6@, public_ip@),
{
    let ghost known = known_hosts(store@, ipv6@);
    let mut any: bool = false;
    let endpoint = settings_value(&store.settings, "public_endpoint");
    if let Some(host) = endpoint_host(endpoint.as_str(), ipv6) {
        assert(known.contains(host@));
        any = true;
        if text_eq(host.as_str(), public_ip) {
            return true;
        }
    }
    let egress = parse_json_list_or_empty(
        settings_value(&store.settings, "egress_ips_json").as_str(),
    );
    let ghost list = json_list_or_empty(setting(store@.settings, "egress_ips_json"@));
    let n: usize = egress.len();
    for i in 0..n
        invariant
            n == egress@.len(),
            views(egress@) == list,
            list == json_list_or_empty(setting(store@.settings, "egress_ips_json"@)),
            known == known_hosts(store@, ipv6@),
            any ==> known != Set::<Seq<char>>::empty(),
            !any ==> i == 0 && host_of(setting(store@.settings, "public_endpoint"@), ipv6@) is None,
            host_of(setting(store@.settings, "public_endpoint"@), ipv6@) != Some(public_ip@),
            forall|j: int| 0 <= j < i ==> (#[trigger] list[j]) != public_ip@,
    {
        assert(list[i as int] == egress@[i as int]@);
        assert(list.contains(list[i as int]));
        assert(known.contains(list[i as int]));
        any = true;
        if text_eq(egress[i].as_str(), public_ip) {
            return true;
        }
    }
    assert(views(egress@).len() == n);
    let m: usize = store.servers.len();
    let ghost servers = store@.servers;
    for i in 0..m
        invariant
            m == store.servers@.len(),
            ipv6.wf(),
            servers == views(store.servers@),
            servers == store@.servers,
            known == known_hosts(store@, ipv6@),
            list == json_list_or_empty(setting(store@.settings, "egress_ips_json"@)),
            any ==> known != Set::<Seq<char>>::empty(),
            !any ==> list.len() == 0 && host_of(
                setting(store@.settings, "public_endpoint"@),
                ipv6@,
            ) is None && forall|j: int|
                0 <= j < i ==> host_of((#[trigger] servers[j]).public_endpoint, ipv6@) is None,
            host_of(setting(store@.settings, "public_endpoint"@), ipv6@) != Some(public_ip@),
            forall|j: int| 0 <= j < list.len() ==> (#[trigger] list[j]) != public_ip@,
            forall|j: int|
                0 <= j < i ==> host_of((#[trigger] servers[j]).public_endpoint, ipv6@) != Some(
                    public_ip@,
                ),
    {
        assert(servers[i as int] == store.servers@[i as int]@);
        if let Some(host) = endpoint_host(store.servers[i].public_endpoint.as_str(), ipv6) {
            assert(host_of(servers[i as int].public_endpoint, ipv6@) == Some(host@));
            assert(known.contains(host@));
            any = true;
            if text_eq(host.as_str(), public_ip) {
                return true;
            }
        }
    }
    proof {
        if !any {
            assert(known =~= Set::<Seq<char>>::empty());
        } else {
            assert(!known.contains(public_ip@));
        }
    }
    !any
}

/// How much traffic counts as a spike.
pub const TRAFFIC_SPIKE_BYTES: u64 = 500_000_000;

/// The store after a report from another country than shortly before.
pub open spec fn after_country_check(
    store: ManagerStoreView,
    now: Timestamp,
    agent_id: Seq<char>,
    previous: Option<AgentSecurityStateView>,
    status: AgentStatusReportView,
) -> ManagerStoreView {
    match (clean_text(status.country), previous) {
        (Some(country), Some(state)) => if state.country.len() > 0 && state.country != country
            && seen_within(state, now, 120) {
            with_alert(
                store,
                now,
                "WARN"@,
                agent_id,
                "Country changed rapidly from "@ + state.country + " to "@ + country,
            )
        } else {
            store
        },
        _ => store,
    }
}

/// The store after a report from another address than shortly before, or from one that nobody
/// expects.
pub open spec fn after_address_check(
    store: ManagerStoreView,
    now: Timestamp,
    agent_id: Seq<char>,
    previous: Option<AgentSecurityStateView>,
    status: AgentStatusReportView,
    ipv6: Map<Seq<char>, Seq<char>>,
) -> ManagerStoreView {
    match clean_text(status.public_ip) {
        None => store,
        Some(public_ip) => {
            let moved = match previous {
                Some(state) => if state.public_ip.len() > 0 && state.public_ip != public_ip
                    && seen_within(state, now, 120) {
                    with_alert(
                        store,
                        now,
                        "WARN"@,
                        agent_id,
                        "Public IP changed rapidly from "@ + state.public_ip + " to "@ + public_ip,
                    )
                } else {
                    store
                },
                None => store,
            };
            if is_known_ip(moved, ipv6, public_ip) {
                moved
            } else {
                with_alert(
                    moved,
                    now,
                    "WARN"@,
                    agent_id,
                    "Unknown public IP detected: "@ + public_ip,
                )
            }
        },
    }
}

/// The store after a report of much traffic.
pub open spec fn after_traffic_check(
    store: ManagerStoreView,
    now: Timestamp,
    agent_id: Seq<char>,
    status: AgentStatusReportView,
) -> ManagerStoreView {
    if counter(status.upload_bytes) > TRAFFIC_SPIKE_BYTES || counter(status.download_bytes)
        > TRAFFIC_SPIKE_BYTES {
        with_alert(store, now, "WARN"@, agent_id, "Unusual traffic spike detected"@)
    } else {
        store
    }
}

/// How many connections of an agent came after a time, as a text.
pub open spec fn connections_since(
    sessions: Seq<SessionRowView>,
    agent_id: Seq<char>,
    threshold: Seq<char>,
) -> nat
    decreases sessions.len(),
{
    if sessions.len() == 0 {
        0
    } else {
        let before = connections_since(sessions.drop_last(), agent_id, threshold);
        if sessions.last().agent_id == agent_id && text_before(
            threshold,
            sessions.last().connected_at,
        ) {
            before + 1
        } else {
            before
        }
    }
}

/// The store after a client reported: a client that was not seen in the last 90 seconds has
/// connected anew, and more than ten connections in five minutes raise an alert.
pub open spec fn after_connection(
    store: ManagerStoreView,
    now: Timestamp,
    agent_id: Seq<char>,
    previous: Option<AgentSecurityStateView>,
    status: AgentStatusReportView,
) -> ManagerStoreView {
    if previous matches Some(state) && seen_within(state, now, 90) {
        store
    } else {
        let connected = ManagerStoreView {
            sessions: store.sessions.push(
                SessionRowView {
                    agent_id,
                    connected_at: stored_time(now),
                    public_ip: Some(or_empty(status.public_ip)),
                    country: Some(or_empty(status.country)),
                    status_message: Some(or_empty(status.last_message)),
                },
            ),
            ..store
        };
        if connections_since(connected.sessions, agent_id, stored_time(now.before(300))) > 10 {
            with_alert(connected, now, "WARN"@, agent_id, "Excessive reconnect attempts"@)
        } else {
            connected
        }
    }
}

/// The store after a report was looked at.
pub open spec fn after_report(
    store: ManagerStoreView,
    now: Timestamp,
    agent_id: Seq<char>,
    kind: AgentKind,
    status: AgentStatusReportView,
    ipv6: Map<Seq<char>, Seq<char>>,
) -> ManagerStoreView {
    let previous = security_state(store, agent_id);
    let store = after_country_check(store, now, agent_id, previous, status);
    let store = after_address_check(store, now, agent_id, previous, status, ipv6);
    let store = after_traffic_check(store, now, agent_id, status);
    match kind {
        AgentKind::Client => after_connection(store, now, agent_id, previous, status),
        AgentKind::Server => store,
    }
}

/// Raises an alert where a report comes from another country than shortly before.
fn check_country(
    store: &mut ManagerStore,
    now: Timestamp,
    agent_id: &str,
    previous: &Option<AgentSecurityState>,
    status: &AgentStatusReport,
)
    requires
        old(store).wf(),
        now.is_clock_reading(),
        previous matches Some(state) ==> (state.last_seen matches Some(t) ==> t.valid()),
    ensures
        final(store).wf(),
        final(store)@ == after_country_check(
            old(store)@,
            now,
            agent_id@,
            option_view(*previous),
            status@,
        ),
{
    if let Some(country) = clean_optional_text(&status.country) {
        if let Some(state) = previous {
            if !state.country.as_str().is_empty() && !text_eq(
                state.country.as_str(),
                country.as_str(),
            ) && previous_seen_within(state, now, 120) {
                let mut message = String::from_str("Country changed rapidly from ");
                message.append(state.country.as_str());
                message.append(" to ");
                message.append(country.as_str());
                create_alert(store, now, "WARN", agent_id, message.as_str());
            }
        }
    }
}

/// Raises an alert where a report comes from another address than shortly before, or from one that
/// nobody expects.
fn check_address(
    store: &mut ManagerStore,
    now: Timestamp,
    agent_id: &str,
    previous: &Option<AgentSecurityState>,
    status: &AgentStatusReport,
    ipv6: &TextMap,
)
    requires
        old(store).wf(),
        ipv6.wf(),
        now.is_clock_reading(),
        previous matches Some(state) ==> (state.last_seen matches Some(t) ==> t.valid()),
    ensures
        final(store).wf(),
        final(store)@ == after_address_check(
            old(store)@,
            now,
            agent_id@,
            option_view(*previous),
            status@,
            ipv6@,
        ),
{
    if let Some(public_ip) = clean_optional_text(&status.public_ip) {
        if let Some(state) = previous {
            if !state.public_ip.as_str().is_empty() && !text_eq(
                state.public_ip.as_str(),
                public_ip.as_str(),
            ) && previous_seen_within(state, now, 120) {
                let mut message = String::from_str("Public IP changed rapidly from ");
                message.append(state.public_ip.as_str());
                message.append(" to ");
                message.append(public_ip.as_str());
                create_alert(store, now, "WARN", agent_id, message.as_str());
            }
        }
        if !known_public_ip(store, ipv6, public_ip.as_str()) {
            let mut message = String::from_str("Unknown public IP detected: ");
            message.append(public_ip.as_str());
            create_alert(store, now, "WARN", agent_id, message.as_str());
        }
    }
}

/// How many connections of an agent came after a time, as a text.
fn count_connections(store: &ManagerStore, agent_id: &str, threshold: &str) -> (count: u64)
    ensures
        count == connections_since(store@.sessions, agent_id@, threshold@),
{
    let n: usize = store.sessions.len();
    let mut count: u64 = 0;
    let ghost all = store@.sessions;
    for i in 0..n
        invariant
            n == store.sessions@.len(),
            all == views(store.sessions@),
            count <= i,
            count == connections_since(all.take(i as int), agent_id@, threshold@),
    {
        let session = &store.sessions[i];
        assert(all.take(i + 1).drop_last() =~= all.take(i as int));
        assert(all.take(i + 1).last() == session@);
        if text_eq(session.agent_id.as_str(), agent_id) && text_is_before(
            threshold,
            session.connected_at.as_str(),
        ) {
            count = count + 1;
        }
    }
    assert(all.take(n as int) =~= all);
    count
}

/// Records a new connection of a client, and raises an alert where there are too many.
pub fn record_client_session(
    store: &mut ManagerStore,
    now: Timestamp,
    agent_id: &str,
    previous: &Option<AgentSecurityState>,
    status: &AgentStatusReport,
)
    requires
        old(store).wf(),
        now.is_clock_reading(),
        previous matches Some(state) ==> (state.last_seen matches Some(t) ==> t.valid()),
    ensures
        final(store).wf(),
        final(store)@ == after_connection(
            old(store)@,
            now,
            agent_id@,
            option_view(*previous),
            status@,
        ),
{
    if let Some(state) = previous {
        if previous_seen_within(state, now, 90) {
            return;
        }
    }
    let row = SessionRow {
        agent_id: agent_id.to_owned(),
        connected_at: timestamp_text(now),
        public_ip: Some(option_text_or_empty(&status.public_ip)),
        country: Some(option_text_or_empty(&status.country)),
        status_message: Some(option_text_or_empty(&status.last_message)),
    };
    let ghost before = views(store.sessions@);
    let ghost view = row@;
    store.sessions.push(row);
    assert(views(store.sessions@) =~= before.push(view));
    let threshold = timestamp_text(now.minus_seconds(300));
    if count_connections(store, agent_id, threshold.as_str()) > 10 {
        create_alert(store, now, "WARN", agent_id, "Excessive reconnect attempts");
    }
}

/// Looks at a report: raises alerts, and records new connections of clients.
pub fn process_security_report(
    store: &mut ManagerStore,
    now: Timestamp,
    agent_id: &str,
    kind: AgentKind,
    status: &AgentStatusReport,
    ipv6: &TextMap,
)
    requires
        old(store).wf(),
        ipv6.wf(),
        now.is_clock_reading(),
    ensures
        final(store).wf(),
        final(store)@ == after_report(old(store)@, now, agent_id@, kind, status@, ipv6@),
{
    let previous = load_agent_security_state(store, agent_id);
    check_country(store, now, agent_id, &previous, status);
    check_address(store, now, agent_id, &previous, status, ipv6);
    if counter_value(status.upload_bytes) > TRAFFIC_SPIKE_BYTES || counter_value(
        status.download_bytes,
    ) > TRAFFIC_SPIKE_BYTES {
        create_alert(store, now, "WARN", agent_id, "Unusual traffic spike detected");
    }
    if kind == AgentKind::Client {
        record_client_session(store, now, agent_id, &previous, status);
    }
}

/// While an alert is recent, raising it again changes nothing.
pub proof fn law_recent_alert_is_not_repeated(
    store: ManagerStoreView,
    now: Timestamp,
    level: Seq<char>,
    agent_id: Seq<char>,
    message: Seq<char>,
)
    requires
        alert_is_recent(
            store.alerts,
            agent_id,
            message,
            stored_time(now.before(ALERT_PAUSE_SECONDS as int)),
        ),
    ensures
        with_alert(store, now, level, agent_id, message) == store,
{
}

/// A report never takes anything away: journals only grow, and nothing but journals changes.
pub proof fn law_reports_only_add_to_journals(
    store: ManagerStoreView,
    now: Timestamp,
    agent_id: Seq<char>,
    kind: AgentKind,
    status: AgentStatusReportView,
    ipv6: Map<Seq<char>, Seq<char>>,
)
    ensures
        ({
            let after = after_report(store, now, agent_id, kind, status, ipv6);
            &&& after.settings == store.settings
            &&& after.admins == store.admins
            &&& after.tokens == store.tokens
            &&& after.agents == store.agents
            &&& after.servers == store.servers
            &&& after.clients == store.clients
            &&& store.logs.is_prefix_of(after.logs)
            &&& store.alerts.is_prefix_of(after.alerts)
            &&& store.sessions.is_prefix_of(after.sessions)
        }),
{
    let previous = security_state(store, agent_id);
    let one = after_country_check(store, now, agent_id, previous, status);
    let two = after_address_check(one, now, agent_id, previous, status, ipv6);
    let three = after_traffic_check(two, now, agent_id, status);
    let after = after_report(store, now, agent_id, kind, status, ipv6);
    assert(store.logs.is_prefix_of(one.logs) && store.alerts.is_prefix_of(one.alerts));
    assert(one.logs.is_prefix_of(two.logs) && one.alerts.is_prefix_of(two.alerts));
    assert(two.logs.is_prefix_of(three.logs) && two.alerts.is_prefix_of(three.alerts));
    assert(three.logs.is_prefix_of(after.logs) && three.alerts.is_prefix_of(after.alerts));
}

/// Whether the alerts hold one of an agent with a message that is not older than five minutes: it
/// was raised now, or its time comes after that of five minutes ago.
pub open spec fn has_recent_alert(
    alerts: Seq<AlertRowView>,
    agent_id: Seq<char>,
    message: Seq<char>,
    now: Timestamp,
) -> bool {
    exists|i: int|
        0 <= i < alerts.len() && (#[trigger] alerts[i]).agent_id == agent_id && alerts[i].message
            == message && (alerts[i].timestamp == rfc3339_text(now.secs, now.nanos) || text_before(
            rfc3339_text((now.secs - 300) as i64, now.nanos),
            alerts[i].timestamp,
        ))
}

/// An alert that was raised is among the alerts.
proof fn lemma_raised(
    store: ManagerStoreView,
    now: Timestamp,
    level: Seq<char>,
    agent_id: Seq<char>,
    message: Seq<char>,
)
    ensures
        has_recent_alert(
            with_alert(store, now, level, agent_id, message).alerts,
            agent_id,
            message,
            now,
        ),
        store.alerts.is_prefix_of(with_alert(store, now, level, agent_id, message).alerts),
{
    let after = with_alert(store, now, level, agent_id, message);
    if !alert_is_recent(
        store.alerts,
        agent_id,
        message,
        stored_time(now.before(ALERT_PAUSE_SECONDS as int)),
    ) {
        assert(after.alerts[store.alerts.len() as int].agent_id == agent_id);
    } else {
        let i = choose|i: int|
            0 <= i < store.alerts.len() && (#[trigger] store.alerts[i]).agent_id == agent_id
                && store.alerts[i].message == message && text_before(
                stored_time(now.before(ALERT_PAUSE_SECONDS as int)),
                store.alerts[i].timestamp,
            );
        assert(after.alerts[i].agent_id == agent_id);
    }
}

/// A recent alert stays when more are raised.
proof fn lemma_recent_stays(
    alerts: Seq<AlertRowView>,
    more: Seq<AlertRowView>,
    agent_id: Seq<char>,
    message: Seq<char>,
    now: Timestamp,
)
    requires
        has_recent_alert(alerts, agent_id, message, now),
        alerts.is_prefix_of(more),
    ensures
        has_recent_alert(more, agent_id, message, now),
{
    let i = choose|i: int|
        0 <= i < alerts.len() && (#[trigger] alerts[i]).agent_id == agent_id && alerts[i].message
            == message && (alerts[i].timestamp == rfc3339_text(now.secs, now.nanos) || text_before(
            rfc3339_text((now.secs - 300) as i64, now.nanos),
            alerts[i].timestamp,
        ));
    assert(more.take(alerts.len() as int)[i] == more[i]);
    assert(more[i].agent_id == agent_id);
}

/// The steps of looking at a report only add alerts.
proof fn lemma_alerts_of_steps(
    store: ManagerStoreView,
    now: Timestamp,
    agent_id: Seq<char>,
    kind: AgentKind,
    status: AgentStatusReportView,
    ipv6: Map<Seq<char>, Seq<char>>,
)
    ensures
        ({
            let previous = security_state(store, agent_id);
            let one = after_country_check(store, now, agent_id, previous, status);
            let two = after_address_check(one, now, agent_id, previous, status, ipv6);
            let three = after_traffic_check(two, now, agent_id, status);
            let after = after_report(store, now, agent_id, kind, status, ipv6);
            &&& one.alerts.is_prefix_of(after.alerts)
            &&& two.alerts.is_prefix_of(after.alerts)
            &&& three.alerts.is_prefix_of(after.alerts)
            &&& one.settings == store.settings && one.servers == store.servers
            &&& two.settings == store.settings && two.servers == store.servers
            &&& three.sessions == store.sessions
        }),
{
    let previous = security_state(store, agent_id);
    let one = after_country_check(store, now, agent_id, previous, status);
    let two = after_address_check(one, now, agent_id, previous, status, ipv6);
    let three = after_traffic_check(two, now, agent_id, status);
    let after = after_report(store, now, agent_id, kind, status, ipv6);
    assert(one.alerts.is_prefix_of(two.alerts));
    assert(two.alerts.is_prefix_of(three.alerts));
    assert(three.alerts.is_prefix_of(after.alerts));
    assert(two.alerts.is_prefix_of(after.alerts)) by {
        assert(after.alerts.take(three.alerts.len() as int).take(two.alerts.len() as int)
            =~= after.alerts.take(two.alerts.len() as int));
    }
    assert(one.alerts.is_prefix_of(after.alerts)) by {
        assert(after.alerts.take(two.alerts.len() as int).take(one.alerts.len() as int)
            =~= after.alerts.take(one.alerts.len() as int));
    }
}

/// After a report of more than 500,000,000 bytes uploaded, or more than 500,000,000 bytes
/// downloaded, there is an alert of that agent on unusual traffic that is not older than five
/// minutes.
pub proof fn law_traffic_spikes_raise_alerts(
    store: ManagerStoreView,
    now: Timestamp,
    agent_id: Seq<char>,
    kind: AgentKind,
    status: AgentStatusReportView,
    ipv6: Map<Seq<char>, Seq<char>>,
)
    requires
        (status.upload_bytes matches Some(n) && n > 500_000_000) || (status.download_bytes matches Some(
            n,
        ) && n > 500_000_000),
    ensures
        has_recent_alert(
            after_report(store, now, agent_id, kind, status, ipv6).alerts,
            agent_id,
            "Unusual traffic spike detected"@,
            now,
        ),
{
    let previous = security_state(store, agent_id);
    let one = after_country_check(store, now, agent_id, previous, status);
    let two = after_address_check(one, now, agent_id, previous, status, ipv6);
    let three = after_traffic_check(two, now, agent_id, status);
    let after = after_report(store, now, agent_id, kind, status, ipv6);
    lemma_alerts_of_steps(store, now, agent_id, kind, status, ipv6);
    lemma_raised(two, now, "WARN"@, agent_id, "Unusual traffic spike detected"@);
    lemma_recent_stays(
        three.alerts,
        after.alerts,
        agent_id,
        "Unusual traffic spike detected"@,
        now,
    );
}

/// Whether an agent was last seen some seconds ago or less.
pub open spec fn last_seen_within(
    store: ManagerStoreView,
    agent_id: Seq<char>,
    now: Timestamp,
    seconds: int,
) -> bool {
    &&& store.agents.contains_key(agent_id)
    &&& store.agents[agent_id].last_seen matches Some(text)
    &&& timestamp_of(text) matches Some(seen)
    &&& elapsed_seconds(now, seen) <= seconds
}

/// After a report from another country than the one that the agent reported in the last two
/// minutes, there is an alert that names both countries.
pub proof fn law_country_changes_raise_alerts(
    store: ManagerStoreView,
    now: Timestamp,
    agent_id: Seq<char>,
    kind: AgentKind,
    status: AgentStatusReportView,
    ipv6: Map<Seq<char>, Seq<char>>,
)
    requires
        last_seen_within(store, agent_id, now, 120),
        store.agents[agent_id].current_country.len() > 0,
        status.country matches Some(country) && trim_spec(country).len() > 0 && trim_spec(country)
            != store.agents[agent_id].current_country,
    ensures
        has_recent_alert(
            after_report(store, now, agent_id, kind, status, ipv6).alerts,
            agent_id,
            "Country changed rapidly from "@ + store.agents[agent_id].current_country + " to "@
                + trim_spec(status.country->Some_0),
            now,
        ),
{
    let message = "Country changed rapidly from "@ + store.agents[agent_id].current_country
        + " to "@ + trim_spec(status.country->Some_0);
    let previous = security_state(store, agent_id);
    let one = after_country_check(store, now, agent_id, previous, status);
    let after = after_report(store, now, agent_id, kind, status, ipv6);
    lemma_alerts_of_steps(store, now, agent_id, kind, status, ipv6);
    lemma_raised(store, now, "WARN"@, agent_id, message);
    lemma_recent_stays(one.alerts, after.alerts, agent_id, message, now);
}

/// After a report from another public address than the one that the agent reported in the last two
/// minutes, there is an alert that names both addresses.
pub proof fn law_address_changes_raise_alerts(
    store: ManagerStoreView,
    now: Timestamp,
    agent_id: Seq<char>,
    kind: AgentKind,
    status: AgentStatusReportView,
    ipv6: Map<Seq<char>, Seq<char>>,
)
    requires
        last_seen_within(store, agent_id, now, 120),
        store.agents[agent_id].current_public_ip.len() > 0,
        status.public_ip matches Some(ip) && trim_spec(ip).len() > 0 && trim_spec(ip)
            != store.agents[agent_id].current_public_ip,
    ensures
        has_recent_alert(
            after_report(store, now, agent_id, kind, status, ipv6).alerts,
            agent_id,
            "Public IP changed rapidly from "@ + store.agents[agent_id].current_public_ip + " to "@
                + trim_spec(status.public_ip->Some_0),
            now,
        ),
{
    let public_ip = trim_spec(status.public_ip->Some_0);
    let message = "Public IP changed rapidly from "@ + store.agents[agent_id].current_public_ip
        + " to "@ + public_ip;
    let previous = security_state(store, agent_id);
    let one = after_country_check(store, now, agent_id, previous, status);
    let moved = with_alert(one, now, "WARN"@, agent_id, message);
    let two = after_address_check(one, now, agent_id, previous, status, ipv6);
    let after = after_report(store, now, agent_id, kind, status, ipv6);
    lemma_alerts_of_steps(store, now, agent_id, kind, status, ipv6);
    lemma_raised(one, now, "WARN"@, agent_id, message);
    lemma_raised(moved, now, "WARN"@, agent_id, "Unknown public IP detected: "@ + public_ip);
    assert(moved.alerts.is_prefix_of(two.alerts));
    lemma_recent_stays(moved.alerts, two.alerts, agent_id, message, now);
    lemma_recent_stays(two.alerts, after.alerts, agent_id, message, now);
}

/// After a report from a public address that is not that of any endpoint nor an egress address,
/// where there are such, there is an alert that names the address.
pub proof fn law_unknown_addresses_raise_alerts(
    store: ManagerStoreView,
    now: Timestamp,
    agent_id: Seq<char>,
    kind: AgentKind,
    status: AgentStatusReportView,
    ipv6: Map<Seq<char>, Seq<char>>,
    known: Seq<char>,
)
    requires
        status.public_ip matches Some(ip) && trim_spec(ip).len() > 0,
        known_hosts(store, ipv6).contains(known),
        !known_hosts(store, ipv6).contains(trim_spec(status.public_ip->Some_0)),
    ensures
        has_recent_alert(
            after_report(store, now, agent_id, kind, status, ipv6).alerts,
            agent_id,
            "Unknown public IP detected: "@ + trim_spec(status.public_ip->Some_0),
            now,
        ),
{
    let public_ip = trim_spec(status.public_ip->Some_0);
    let message = "Unknown public IP detected: "@ + public_ip;
    let previous = security_state(store, agent_id);
    let one = after_country_check(store, now, agent_id, previous, status);
    let two = after_address_check(one, now, agent_id, previous, status, ipv6);
    let after = after_report(store, now, agent_id, kind, status, ipv6);
    lemma_alerts_of_steps(store, now, agent_id, kind, status, ipv6);
    let moved = if previous matches Some(state) && state.public_ip.len() > 0 && state.public_ip
        != public_ip && seen_within(state, now, 120) {
        with_alert(
            one,
            now,
            "WARN"@,
            agent_id,
            "Public IP changed rapidly from "@ + previous->Some_0.public_ip + " to "@ + public_ip,
        )
    } else {
        one
    };
    assert(moved.settings == store.settings && moved.servers == store.servers);
    assert(known_hosts(moved, ipv6) =~= known_hosts(store, ipv6));
    assert(known_hosts(store, ipv6) != Set::<Seq<char>>::empty());
    lemma_raised(moved, now, "WARN"@, agent_id, message);
    assert(two == with_alert(moved, now, "WARN"@, agent_id, message));
    lemma_recent_stays(two.alerts, after.alerts, agent_id, message, now);
}

/// The hosts that reports are expected from: that of the public endpoint in the settings, those of
/// the public endpoints of the servers, and the egress addresses in the settings.
pub proof fn law_known_hosts(
    store: ManagerStoreView,
    ipv6: Map<Seq<char>, Seq<char>>,
    host: Seq<char>,
    i: int,
)
    ensures
        store.settings.contains_key("public_endpoint"@) && host_of(
            store.settings["public_endpoint"@],
            ipv6,
        ) == Some(host) ==> known_hosts(store, ipv6).contains(host),
        0 <= i < store.servers.len() && host_of(store.servers[i].public_endpoint, ipv6) == Some(
            host,
        ) ==> known_hosts(store, ipv6).contains(host),
        store.settings.contains_key("egress_ips_json"@) && (json_list_of(
            store.settings["egress_ips_json"@],
        ) matches Ok(list) && list.contains(host)) ==> known_hosts(store, ipv6).contains(host),
        known_hosts(store, ipv6).contains(host) ==> {
            ||| host_of(setting(store.settings, "public_endpoint"@), ipv6) == Some(host)
            ||| json_list_of(setting(store.settings, "egress_ips_json"@)) matches Ok(list)
                && list.contains(host)
            ||| exists|j: int|
                0 <= j < store.servers.len() && host_of(
                    (#[trigger] store.servers[j]).public_endpoint,
                    ipv6,
                ) == Some(host)
        },
{
}

/// A character of a plain host: no white space, no slash, no bracket and no colon.
pub open spec fn is_host_char(c: char) -> bool {
    !is_white_space(c) && c != '/' && c != '[' && c != ']' && c != ':'
}

/// The host of an endpoint is what stands before the port, with or without a scheme before it; an
/// endpoint without a port is its own host, and a blank one has none.
pub proof fn law_endpoint_hosts(
    host: Seq<char>,
    port: Seq<char>,
    ipv6: Map<Seq<char>, Seq<char>>,
)
    requires
        host.len() > 0,
        port.len() > 0,
        forall|i: int| 0 <= i < host.len() ==> is_host_char(#[trigger] host[i]),
        forall|i: int| 0 <= i < port.len() ==> is_host_char(#[trigger] port[i]),
        !ipv6.contains_key(host.push(':') + port),
        !ipv6.contains_key(host),
    ensures
        host_of(host.push(':') + port, ipv6) == Some(host),
        host_of(host, ipv6) == Some(host),
        host_of("http://"@ + host.push(':') + port, ipv6) == Some(host),
        host_of("https://"@ + host.push(':') + port, ipv6) == Some(host),
        host_of(Seq::empty(), ipv6) is None,
{
    reveal_strlit("http://");
    reveal_strlit("https://");
    let whole = host.push(':') + port;
    let plain = "http://"@ + host.push(':') + port;
    let secure = "https://"@ + host.push(':') + port;
    assert(whole.last() == port.last());
    assert(plain.last() == port.last());
    assert(secure.last() == port.last());
    assert(whole[0] == host[0]);
    assert(is_host_char(host[0]) && is_host_char(host.last()) && is_host_char(port.last())
        && is_host_char(port[0]));
    lemma_trim_id(whole);
    lemma_trim_id(host);
    lemma_trim_id(plain);
    lemma_trim_id(secure);
    assert(plain.take(7) =~= "http://"@);
    assert(plain.skip(7) =~= whole);
    assert(secure.take(8) =~= "https://"@);
    assert(secure.skip(8) =~= whole);
    assert(secure.take(7)[4] == 's');
    assert("http://"@[4] == ':');
    // Neither a host nor a host with a port starts with a scheme.
    if whole.len() >= 7 && whole.take(7) == "http://"@ {
        assert(whole.take(7)[4] == ':');
        assert(whole.take(7)[5] == '/');
        if host.len() <= 5 {
            assert(whole[5] == port[5 - host.len() - 1]);
        } else {
            assert(whole[5] == host[5]);
        }
    }
    if whole.len() >= 8 && whole.take(8) == "https://"@ {
        assert(whole.take(8)[6] == '/');
        if host.len() <= 5 {
            assert(whole[6] == port[6 - host.len() - 1]);
        } else if host.len() > 6 {
            assert(whole[6] == host[6]);
        } else {
            assert(whole[6] == ':');
        }
    }
    if host.len() >= 7 && host.take(7) == "http://"@ {
        assert(host.take(7)[5] == '/');
        assert(host[5] == '/');
    }
    if host.len() >= 8 && host.take(8) == "https://"@ {
        assert(host.take(8)[6] == '/');
        assert(host[6] == '/');
    }
    assert(trim_class_spec(whole, CharClass::Slash) == whole);
    assert(trim_class_spec(host, CharClass::Slash) == host);
    assert(trim_class_spec(host, CharClass::Bracket) == host);
    lemma_last_colon(host, port);
    lemma_no_colon(host);
    assert(whole.take(host.len() as int) =~= host);
    assert(trim_spec(Seq::<char>::empty()).len() == 0);
}

/// The last colon of a host with a port stands behind the host.
proof fn lemma_last_colon(host: Seq<char>, port: Seq<char>)
    requires
        forall|i: int| 0 <= i < port.len() ==> (#[trigger] port[i]) != ':',
    ensures
        crate::text::last_of(host.push(':') + port, ':') == host.len(),
    decreases port.len(),
{
    let s = host.push(':') + port;
    if port.len() == 0 {
        assert(s =~= host.push(':'));
    } else {
        lemma_last_colon(host, port.drop_last());
        assert(s.drop_last() =~= host.push(':') + port.drop_last());
    }
}

/// A text without a colon has no last one.
proof fn lemma_no_colon(s: Seq<char>)
    requires
        forall|i: int| 0 <= i < s.len() ==> (#[trigger] s[i]) != ':',
    ensures
        before_last_spec(s, ':') is None,
    decreases s.len(),
{
    if s.len() > 0 {
        lemma_no_colon(s.drop_last());
    }
}

/// A client that was not seen in the last 90 seconds has connected anew: its connection is added to
/// the journal, with the time and what it reported. One that was seen has not, and neither has a
/// server.
pub proof fn law_new_connections_are_recorded(
    store: ManagerStoreView,
    now: Timestamp,
    agent_id: Seq<char>,
    status: AgentStatusReportView,
    ipv6: Map<Seq<char>, Seq<char>>,
)
    ensures
        ({
            let after = after_report(store, now, agent_id, AgentKind::Client, status, ipv6);
            &&& last_seen_within(store, agent_id, now, 90) ==> after.sessions == store.sessions
            &&& !last_seen_within(store, agent_id, now, 90) ==> {
                let added = after.sessions.last();
                &&& after.sessions.len() == store.sessions.len() + 1
                &&& after.sessions.drop_last() == store.sessions
                &&& added.agent_id == agent_id
                &&& added.connected_at == rfc3339_text(now.secs, now.nanos)
                &&& status.public_ip matches Some(ip) ==> added.public_ip == Some(ip)
                &&& status.country matches Some(country) ==> added.country == Some(country)
                &&& status.last_message matches Some(text) ==> added.status_message == Some(text)
            }
        }),
        after_report(store, now, agent_id, AgentKind::Server, status, ipv6).sessions
            == store.sessions,
{
    lemma_alerts_of_steps(store, now, agent_id, AgentKind::Client, status, ipv6);
    lemma_alerts_of_steps(store, now, agent_id, AgentKind::Server, status, ipv6);
    let after = after_report(store, now, agent_id, AgentKind::Client, status, ipv6);
    assert(timestamp_of(Seq::<char>::empty()) is None);
    if !last_seen_within(store, agent_id, now, 90) {
        assert(after.sessions.drop_last() =~= store.sessions);
    }
}

/// The connections of an agent after a time are counted one by one.
pub proof fn law_connections_are_counted(
    sessions: Seq<SessionRowView>,
    row: SessionRowView,
    agent_id: Seq<char>,
    threshold: Seq<char>,
)
    ensures
        connections_since(Seq::empty(), agent_id, threshold) == 0,
        row.agent_id == agent_id && text_before(threshold, row.connected_at) ==> connections_since(
            sessions.push(row),
            agent_id,
            threshold,
        ) == connections_since(sessions, agent_id, threshold) + 1,
        row.agent_id != agent_id || !text_before(threshold, row.connected_at)
            ==> connections_since(sessions.push(row), agent_id, threshold) == connections_since(
            sessions,
            agent_id,
            threshold,
        ),
{
    assert(sessions.push(row).drop_last() =~= sessions);
}

/// Where a client has connected more than ten times in five minutes, this time counted, there is an
/// alert on it.
pub proof fn law_reconnects_raise_alerts(
    store: ManagerStoreView,
    now: Timestamp,
    agent_id: Seq<char>,
    status: AgentStatusReportView,
    ipv6: Map<Seq<char>, Seq<char>>,
)
    requires
        !last_seen_within(store, agent_id, now, 90),
        connections_since(
            after_report(store, now, agent_id, AgentKind::Client, status, ipv6).sessions,
            agent_id,
            rfc3339_text((now.secs - 300) as i64, now.nanos),
        ) > 10,
    ensures
        has_recent_alert(
            after_report(store, now, agent_id, AgentKind::Client, status, ipv6).alerts,
            agent_id,
            "Excessive reconnect attempts"@,
            now,
        ),
{
    let previous = security_state(store, agent_id);
    let one = after_country_check(store, now, agent_id, previous, status);
    let two = after_address_check(one, now, agent_id, previous, status, ipv6);
    let three = after_traffic_check(two, now, agent_id, status);
    assert(timestamp_of(Seq::<char>::empty()) is None);
    let connected = ManagerStoreView {
        sessions: three.sessions.push(
            SessionRowView {
                agent_id,
                connected_at: stored_time(now),
                public_ip: Some(or_empty(status.public_ip)),
                country: Some(or_empty(status.country)),
                status_message: Some(or_empty(status.last_message)),
            },
        ),
        ..three
    };
    lemma_raised(connected, now, "WARN"@, agent_id, "Excessive reconnect attempts"@);
}

/// A report without anything unusual raises nothing: little traffic, the country and the public
/// address of before or none, an address that is expected, and, for a client, a connection that was
/// there already.
pub proof fn law_usual_reports_raise_nothing(
    store: ManagerStoreView,
    now: Timestamp,
    agent_id: Seq<char>,
    kind: AgentKind,
    status: AgentStatusReportView,
    ipv6: Map<Seq<char>, Seq<char>>,
)
    requires
        store.agents.contains_key(agent_id),
        status.upload_bytes matches Some(n) ==> n <= 500_000_000,
        status.download_bytes matches Some(n) ==> n <= 500_000_000,
        status.country matches Some(country) ==> trim_spec(country).len() == 0 || trim_spec(country)
            == store.agents[agent_id].current_country,
        status.public_ip matches Some(ip) ==> trim_spec(ip).len() == 0 || (trim_spec(ip)
            == store.agents[agent_id].current_public_ip && known_hosts(store, ipv6).contains(
            trim_spec(ip),
        )),
        kind == AgentKind::Client ==> last_seen_within(store, agent_id, now, 90),
    ensures
        after_report(store, now, agent_id, kind, status, ipv6) == store,
{
}

/// Raising an alert adds one alert and one line of the log, both with the level and the time of now,
/// unless the same agent had an alert with the same message in the last five minutes; then nothing
/// changes.
pub proof fn law_alerts_are_raised_once(
    store: ManagerStoreView,
    now: Timestamp,
    level: Seq<char>,
    agent_id: Seq<char>,
    message: Seq<char>,
)
    ensures
        ({
            let after = with_alert(store, now, level, agent_id, message);
            let recent = exists|i: int|
                0 <= i < store.alerts.len() && (#[trigger] store.alerts[i]).agent_id == agent_id
                    && store.alerts[i].message == message && text_before(
                    rfc3339_text((now.secs - 300) as i64, now.nanos),
                    store.alerts[i].timestamp,
                );
            &&& recent ==> after == store
            &&& !recent ==> {
                &&& after.alerts.len() == store.alerts.len() + 1
                &&& after.alerts.drop_last() == store.alerts
                &&& after.alerts.last().timestamp == rfc3339_text(now.secs, now.nanos)
                &&& after.alerts.last().level == level
                &&& after.alerts.last().agent_id == agent_id
                &&& after.alerts.last().message == message
                &&& after.logs.len() == store.logs.len() + 1
                &&& after.logs.drop_last() == store.logs
                &&& after.logs.last().timestamp == rfc3339_text(now.secs, now.nanos)
                &&& after.logs.last().level == level
                &&& after.logs.last().message == "[ALERT] "@ + agent_id + " - "@ + message
            }
        }),
{
    let after = with_alert(store, now, level, agent_id, message);
    if after.alerts.len() > store.alerts.len() {
        assert(after.alerts.drop_last() =~= store.alerts);
        assert(after.logs.drop_last() =~= store.logs);
    }
}

/// Every alert that a report raises is a warning of now about the agent that reported.
pub proof fn law_alerts_are_about_the_reporter(
    store: ManagerStoreView,
    now: Timestamp,
    agent_id: Seq<char>,
    kind: AgentKind,
    status: AgentStatusReportView,
    ipv6: Map<Seq<char>, Seq<char>>,
    i: int,
)
    requires
        store.alerts.len() <= i < after_report(
            store,
            now,
            agent_id,
            kind,
            status,
            ipv6,
        ).alerts.len(),
    ensures
        ({
            let alert = after_report(store, now, agent_id, kind, status, ipv6).alerts[i];
            &&& alert.agent_id == agent_id
            &&& alert.level == "WARN"@
            &&& alert.timestamp == rfc3339_text(now.secs, now.nanos)
        }),
{
}

/// The view of [`AgentSecurityState`] holds each field under its own name.
pub proof fn law_view_of_agent_security_state(value: AgentSecurityState)
    ensures
        value@.last_seen == value.last_seen,
        value@.country == value.country@,
        value@.public_ip == value.public_ip@,
{
}

} // verus!
