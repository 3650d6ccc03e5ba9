//! What an agent does with the manager's answer to a heartbeat.

use vstd::prelude::*;

use crate::client;
use crate::models::{
    AgentKind, AgentStatusReport, AgentStatusReportView, ClientConfig, ClientConfigView,
    ServerConfig, ServerConfigView,
};
use crate::server;
use crate::status::{set_status_message, with_message, StatusLine, message_line};
use crate::text::option_view;

verus! {

/// How long an agent waits between heartbeats before the manager has told it, in seconds.
pub const FIRST_POLL_INTERVAL: u64 = 15;

/// What an agent does about a configuration.
#[derive(Clone, Copy, Debug, PartialEq, Eq, Structural)]
pub enum ConfigStep {
    /// There is none to act on.
    Nothing,
    /// It does not run, and is not to run.
    StayIdle,
    /// It starts to run with the configuration.
    Start,
    /// It runs, and the new configuration needs a restart.
    NeedsRestart,
    /// It runs, and takes the new configuration over.
    LiveUpdate,
}

/// The next wait between heartbeats: what the manager says, but at least five seconds.
pub open spec fn poll_interval_of(seconds: u64) -> u64 {
    if seconds < 5 {
        5
    } else {
        seconds
    }
}

/// The next wait between heartbeats.
pub fn poll_interval(seconds: u64) -> (r: u64)
    ensures
        r == poll_interval_of(seconds),
{
    if seconds < 5 {
        5
    } else {
        seconds
    }
}

/// How long a client trusts what it found out about its public address, in seconds.
pub const PUBLIC_ADDRESS_LIFETIME: u64 = 300;

/// Whether a client looks its public address up, given how many whole seconds ago it last did: at
/// once where it never did, else after the lifetime.
pub open spec fn lookup_is_due(seconds_since_last: Option<u64>) -> bool {
    match seconds_since_last {
        None => true,
        Some(seconds) => seconds >= PUBLIC_ADDRESS_LIFETIME,
    }
}

/// Whether a client looks its public address up.
pub fn public_address_is_due(seconds_since_last: Option<u64>) -> (r: bool)
    ensures
        r == lookup_is_due(seconds_since_last),
{
    match seconds_since_last {
        None => true,
        Some(seconds) => seconds >= PUBLIC_ADDRESS_LIFETIME,
    }
}

/// What a server does about a configuration, given the one that it runs with.
pub open spec fn server_step_of(
    running: Option<ServerConfigView>,
    next: Option<ServerConfigView>,
) -> ConfigStep {
    match (running, next) {
        (_, None) => ConfigStep::Nothing,
        (None, Some(config)) => if config.enabled {
            ConfigStep::Start
        } else {
            ConfigStep::StayIdle
        },
        (Some(current), Some(config)) => if server::is_structural_change(current, config) {
            ConfigStep::NeedsRestart
        } else {
            ConfigStep::LiveUpdate
        },
    }
}

/// What a server does about a configuration, given the one that it runs with.
pub fn server_step(
    running: &Option<ServerConfig>,
    next: &Option<ServerConfig>,
) -> (step: ConfigStep)
    ensures
        step == server_step_of(option_view(*running), option_view(*next)),
{
    match next {
        None => ConfigStep::Nothing,
        Some(config) => match running {
            None => if config.enabled {
                ConfigStep::Start
            } else {
                ConfigStep::StayIdle
            },
            Some(current) => if server::structural_change(current, config) {
                ConfigStep::NeedsRestart
            } else {
                ConfigStep::LiveUpdate
            },
        },
    }
}

/// What a client does about a configuration, given the one that it runs with.
pub open spec fn client_step_of(
    running: Option<ClientConfigView>,
    next: Option<ClientConfigView>,
) -> ConfigStep {
    match (running, next) {
        (_, None) => ConfigStep::Nothing,
        (None, Some(config)) => if config.enabled {
            ConfigStep::Start
        } else {
            ConfigStep::StayIdle
        },
        (Some(current), Some(config)) => if client::is_structural_change(current, config) {
            ConfigStep::NeedsRestart
        } else {
            ConfigStep::LiveUpdate
        },
    }
}

/// What a client does about a configuration, given the one that it runs with.
pub fn client_step(
    running: &Option<ClientConfig>,
    next: &Option<ClientConfig>,
) -> (step: ConfigStep)
    ensures
        step == client_step_of(option_view(*running), option_view(*next)),
{
    match next {
        None => ConfigStep::Nothing,
        Some(config) => match running {
            None => if config.enabled {
                ConfigStep::Start
            } else {
                ConfigStep::StayIdle
            },
            Some(current) => if client::structural_change(current, config) {
                ConfigStep::NeedsRestart
            } else {
                ConfigStep::LiveUpdate
            },
        },
    }
}

/// What an agent says once it has done a step.
pub open spec fn step_text(kind: AgentKind, step: ConfigStep) -> Seq<char> {
    match kind {
        AgentKind::Server => match step {
            ConfigStep::Nothing => ""@,
            ConfigStep::StayIdle => "server enrolled but currently disabled by manager"@,
            ConfigStep::Start => "managed VPN server runtime started"@,
            ConfigStep::NeedsRestart =>
                "structural server config changed; restart process to apply listen/tun updates"@,
            ConfigStep::LiveUpdate => "live policy update applied"@,
        },
        AgentKind::Client => match step {
            ConfigStep::Nothing => ""@,
            ConfigStep::StayIdle => "client enrolled but waiting for manager assignment"@,
            ConfigStep::Start => "managed VPN client runtime started"@,
            ConfigStep::NeedsRestart =>
                "structural client config changed; restart process to apply tunnel/server updates"@,
            ConfigStep::LiveUpdate => "live client control update applied"@,
        },
    }
}

/// What an agent says once it has done a step.
pub fn step_message(kind: AgentKind, step: ConfigStep) -> (r: &'static str)
    ensures
        r@ == step_text(kind, step),
{
    match kind {
        AgentKind::Server => match step {
            ConfigStep::Nothing => "",
            ConfigStep::StayIdle => "server enrolled but currently disabled by manager",
            ConfigStep::Start => "managed VPN server runtime started",
            ConfigStep::NeedsRestart =>
                "structural server config changed; restart process to apply listen/tun updates",
            ConfigStep::LiveUpdate => "live policy update applied",
        },
        AgentKind::Client => match step {
            ConfigStep::Nothing => "",
            ConfigStep::StayIdle => "client enrolled but waiting for manager assignment",
            ConfigStep::Start => "managed VPN client runtime started",
            ConfigStep::NeedsRestart =>
                "structural client config changed; restart process to apply tunnel/server updates",
            ConfigStep::LiveUpdate => "live client control update applied",
        },
    }
}

/// The status after a step on a configuration.
pub open spec fn after_step(
    status: AgentStatusReportView,
    kind: AgentKind,
    step: ConfigStep,
    version: u64,
) -> AgentStatusReportView {
    if step == ConfigStep::Nothing {
        status
    } else {
        with_message(status, Some(version), None, step_text(kind, step))
    }
}

/// Records a step on a configuration.
pub fn record_step(
    status: &mut AgentStatusReport,
    kind: AgentKind,
    step: ConfigStep,
    version: u64,
    verbose: bool,
) -> (line: Option<StatusLine>)
    ensures
        final(status)@ == after_step(old(status)@, kind, step, version),
        option_view(line) == if verbose && final(status)@ != old(status)@ {
            Some(message_line(kind, None, step_text(kind, step)))
        } else {
            None
        },
{
    if step == ConfigStep::Nothing {
        return None;
    }
    set_status_message(status, kind, Some(version), None, step_message(kind, step), verbose)
}

/// Records that a heartbeat failed.
pub fn record_heartbeat_failure(
    status: &mut AgentStatusReport,
    kind: AgentKind,
    error: String,
    verbose: bool,
) -> (line: Option<StatusLine>)
    ensures
        final(status)@ == with_message(
            old(status)@,
            None,
            Some(error@),
            "management heartbeat failed"@,
        ),
        option_view(line) == if verbose && final(status)@ != old(status)@ {
            Some(message_line(kind, Some(error@), "management heartbeat failed"@))
        } else {
            None
        },
{
    set_status_message(status, kind, None, Some(error), "management heartbeat failed", verbose)
}

/// A running agent is never started again, and only a running one is updated.
pub proof fn law_agents_start_once(running: ServerConfigView, next: Option<ServerConfigView>)
    ensures
        server_step_of(Some(running), next) != ConfigStep::Start,
        server_step_of(None, next) != ConfigStep::LiveUpdate,
        server_step_of(None, next) != ConfigStep::NeedsRestart,
{
}

/// A running client is never started again, and only a running one is updated.
pub proof fn law_clients_start_once(running: ClientConfigView, next: Option<ClientConfigView>)
    ensures
        client_step_of(Some(running), next) != ConfigStep::Start,
        client_step_of(None, next) != ConfigStep::LiveUpdate,
        client_step_of(None, next) != ConfigStep::NeedsRestart,
{
}

/// A running server asks for a restart wherever the listen address, the name, the address, the
/// prefix or the size of the tunnel device, or the address of the DNS proxy differs; where all six
/// agree, the new configuration is taken over at once.
pub proof fn law_server_restart_is_needed(running: ServerConfigView, next: ServerConfigView)
    ensures
        running.listen_addr != next.listen_addr ==> server_step_of(Some(running), Some(next))
            == ConfigStep::NeedsRestart,
        running.tun_name != next.tun_name ==> server_step_of(Some(running), Some(next))
            == ConfigStep::NeedsRestart,
        running.tun_address != next.tun_address ==> server_step_of(Some(running), Some(next))
            == ConfigStep::NeedsRestart,
        running.tun_prefix != next.tun_prefix ==> server_step_of(Some(running), Some(next))
            == ConfigStep::NeedsRestart,
        running.mtu != next.mtu ==> server_step_of(Some(running), Some(next))
            == ConfigStep::NeedsRestart,
        running.dns.bind_addr != next.dns.bind_addr ==> server_step_of(Some(running), Some(next))
            == ConfigStep::NeedsRestart,
        running.listen_addr == next.listen_addr && running.tun_name == next.tun_name
            && running.tun_address == next.tun_address && running.tun_prefix == next.tun_prefix
            && running.mtu == next.mtu && running.dns.bind_addr == next.dns.bind_addr
            ==> server_step_of(Some(running), Some(next)) == ConfigStep::LiveUpdate,
{
}

/// A running client asks for a restart wherever the endpoint of its server, the name, the address,
/// the prefix or the size of the tunnel device, or the DNS server differs; where all six agree, the
/// new configuration is taken over at once.
pub proof fn law_client_restart_is_needed(running: ClientConfigView, next: ClientConfigView)
    ensures
        running.server_endpoint != next.server_endpoint ==> client_step_of(
            Some(running),
            Some(next),
        ) == ConfigStep::NeedsRestart,
        running.tun_name != next.tun_name ==> client_step_of(Some(running), Some(next))
            == ConfigStep::NeedsRestart,
        running.tun_address != next.tun_address ==> client_step_of(Some(running), Some(next))
            == ConfigStep::NeedsRestart,
        running.tun_prefix != next.tun_prefix ==> client_step_of(Some(running), Some(next))
            == ConfigStep::NeedsRestart,
        running.mtu != next.mtu ==> client_step_of(Some(running), Some(next))
            == ConfigStep::NeedsRestart,
        running.dns_server != next.dns_server ==> client_step_of(Some(running), Some(next))
            == ConfigStep::NeedsRestart,
        running.server_endpoint == next.server_endpoint && running.tun_name == next.tun_name
            && running.tun_address == next.tun_address && running.tun_prefix == next.tun_prefix
            && running.mtu == next.mtu && running.dns_server == next.dns_server ==> client_step_of(
            Some(running),
            Some(next),
        ) == ConfigStep::LiveUpdate,
{
}

/// An agent that does not run starts exactly where it is given a configuration that is enabled, and
/// stays idle on one that is not; without a configuration nothing is done.
pub proof fn law_agents_start_when_enabled(
    server: ServerConfigView,
    client: ClientConfigView,
    running_server: Option<ServerConfigView>,
    running_client: Option<ClientConfigView>,
)
    ensures
        server_step_of(None, Some(server)) == ConfigStep::Start <==> server.enabled,
        server_step_of(None, Some(server)) == ConfigStep::StayIdle <==> !server.enabled,
        client_step_of(None, Some(client)) == ConfigStep::Start <==> client.enabled,
        client_step_of(None, Some(client)) == ConfigStep::StayIdle <==> !client.enabled,
        server_step_of(running_server, None) == ConfigStep::Nothing,
        client_step_of(running_client, None) == ConfigStep::Nothing,
{
}

/// A step on a configuration is reported with the version of that configuration and without an
/// error, and the counters, the sessions and the public address stay; without a configuration the
/// report stays as it is.
pub proof fn law_steps_are_reported(
    status: AgentStatusReportView,
    kind: AgentKind,
    step: ConfigStep,
    version: u64,
)
    ensures
        step == ConfigStep::Nothing ==> after_step(status, kind, step, version) == status,
        step != ConfigStep::Nothing ==> ({
            let after = after_step(status, kind, step, version);
            &&& after.applied_version == Some(version)
            &&& after.last_error is None
            &&& after.last_message is Some
            &&& after.connected_clients == status.connected_clients
            &&& after.upload_bytes == status.upload_bytes
            &&& after.download_bytes == status.download_bytes
            &&& after.public_ip == status.public_ip
            &&& after.country == status.country
        }),
{
}

/// What an agent says of a step on a configuration.
pub proof fn law_step_messages(status: AgentStatusReportView, version: u64)
    ensures
        after_step(status, AgentKind::Server, ConfigStep::StayIdle, version).last_message == Some(
            "server enrolled but currently disabled by manager"@,
        ),
        after_step(status, AgentKind::Server, ConfigStep::Start, version).last_message == Some(
            "managed VPN server runtime started"@,
        ),
        after_step(status, AgentKind::Server, ConfigStep::NeedsRestart, version).last_message
            == Some(
            "structural server config changed; restart process to apply listen/tun updates"@,
        ),
        after_step(status, AgentKind::Server, ConfigStep::LiveUpdate, version).last_message == Some(
            "live policy update applied"@,
        ),
        after_step(status, AgentKind::Client, ConfigStep::StayIdle, version).last_message == Some(
            "client enrolled but waiting for manager assignment"@,
        ),
        after_step(status, AgentKind::Client, ConfigStep::Start, version).last_message == Some(
            "managed VPN client runtime started"@,
        ),
        after_step(status, AgentKind::Client, ConfigStep::NeedsRestart, version).last_message
            == Some(
            "structural client config changed; restart process to apply tunnel/server updates"@,
        ),
        after_step(status, AgentKind::Client, ConfigStep::LiveUpdate, version).last_message == Some(
            "live client control update applied"@,
        ),
{
}

/// Agents report at the pace that the manager asks for, but never more often than every five
/// seconds.
pub proof fn law_poll_interval(seconds: u64)
    ensures
        poll_interval_of(seconds) >= 5,
        poll_interval_of(seconds) >= seconds,
        seconds >= 5 ==> poll_interval_of(seconds) == seconds,
        seconds <= 5 ==> poll_interval_of(seconds) == 5,
{
}

/// A client looks its public address up at once, and again after five minutes, not before.
pub proof fn law_public_address_lookups(seconds: u64)
    ensures
        lookup_is_due(None),
        lookup_is_due(Some(seconds)) <==> seconds >= 5 * 60,
{
}

} // verus!
