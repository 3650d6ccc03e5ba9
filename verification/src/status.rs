//! The status that an agent keeps of itself and reports.

use vstd::prelude::*;

use crate::models::{AgentKind, AgentStatusReport, AgentStatusReportView};
use crate::sessions::SessionMaps;
use crate::text::{option_text_copy, option_text_eq, option_view};

verus! {

/// A line for the operator: an error or plain information.
#[derive(Debug)]
pub enum StatusLine {
    Error(String),
    Info(String),
}

/// The view of [`StatusLine`].
pub enum StatusLineView {
    Error(Seq<char>),
    Info(Seq<char>),
}

impl View for StatusLine {
    type V = StatusLineView;

    open spec fn view(&self) -> StatusLineView {
        match self {
            StatusLine::Error(text) => StatusLineView::Error(text@),
            StatusLine::Info(text) => StatusLineView::Info(text@),
        }
    }
}

/// The status after a message: the version where one is given, the error and the message always.
pub open spec fn with_message(
    status: AgentStatusReportView,
    version: Option<u64>,
    error: Option<Seq<char>>,
    message: Seq<char>,
) -> AgentStatusReportView {
    AgentStatusReportView {
        applied_version: if version is Some {
            version
        } else {
            status.applied_version
        },
        last_error: error,
        last_message: Some(message),
        ..status
    }
}

/// The line that tells the operator of a message, with its error where there is one.
pub open spec fn message_line(
    kind: AgentKind,
    error: Option<Seq<char>>,
    message: Seq<char>,
) -> StatusLineView {
    match error {
        Some(text) => StatusLineView::Error(
            "["@ + kind.name() + "] "@ + message + ": "@ + text,
        ),
        None => StatusLineView::Info("["@ + kind.name() + "] "@ + message),
    }
}

/// Records a message, with a configuration version and an error where there are any. A verbose
/// agent tells the operator, but only where the status changed.
pub fn set_status_message(
    status: &mut AgentStatusReport,
    kind: AgentKind,
    version: Option<u64>,
    error: Option<String>,
    message: &str,
    verbose: bool,
) -> (line: Option<StatusLine>)
    ensures
        final(status)@ == with_message(old(status)@, version, option_view(error), message@),
        option_view(line) == if verbose && final(status)@ != old(status)@ {
            Some(message_line(kind, option_view(error), message@))
        } else {
            None
        },
{
    let message_text = Some(message.to_owned());
    let version_changed = match version {
        Some(value) => match status.applied_version {
            Some(current) => current != value,
            None => true,
        },
        None => false,
    };
    let error_changed = !option_text_eq(&status.last_error, &error);
    let message_changed = !option_text_eq(&status.last_message, &message_text);
    if version.is_some() {
        status.applied_version = version;
    }
    status.last_error = option_text_copy(&error);
    status.last_message = message_text;
    if verbose && (version_changed || error_changed || message_changed) {
        let mut text = String::from_str("[");
        text.append(kind.as_str());
        text.append("] ");
        text.append(message);
        match error {
            Some(detail) => {
                text.append(": ");
                text.append(detail.as_str());
                Some(StatusLine::Error(text))
            },
            None => Some(StatusLine::Info(text)),
        }
    } else {
        assert(status@ =~= old(status)@ || !verbose);
        None
    }
}

/// What can go wrong while an agent runs.
#[derive(Clone, Copy, Debug, PartialEq, Eq, Structural)]
pub enum RuntimeFailure {
    /// A client could not set its routes or its DNS server.
    NetworkSetup,
    /// A client could not receive from the server.
    ClientReceive,
    /// A server could not receive from its clients.
    ServerReceive,
    /// The DNS proxy could not make its HTTP client.
    DnsClient,
    /// The DNS proxy could not read the configuration.
    DnsConfig,
    /// The DNS proxy got no answer from upstream.
    DnsUpstream,
    /// The DNS proxy could not receive queries.
    DnsReceive,
}

impl RuntimeFailure {
    /// What an agent says of the failure.
    pub open spec fn text(self) -> Seq<char> {
        match self {
            RuntimeFailure::NetworkSetup => "network route/DNS setup failed"@,
            RuntimeFailure::ClientReceive => "client UDP receive loop failed"@,
            RuntimeFailure::ServerReceive => "server UDP receive loop failed"@,
            RuntimeFailure::DnsClient => "failed to create DoH client"@,
            RuntimeFailure::DnsConfig => "failed to read DNS config"@,
            RuntimeFailure::DnsUpstream => "DoH resolution failed"@,
            RuntimeFailure::DnsReceive => "DNS proxy loop failed"@,
        }
    }

    /// The agent that the failure is one of.
    pub open spec fn agent(self) -> AgentKind {
        match self {
            RuntimeFailure::NetworkSetup => AgentKind::Client,
            RuntimeFailure::ClientReceive => AgentKind::Client,
            _ => AgentKind::Server,
        }
    }
}

/// Records a failure. The agent goes on, with the version of the configuration that it has.
pub fn record_failure(
    status: &mut AgentStatusReport,
    failure: RuntimeFailure,
    error: String,
    verbose: bool,
) -> (line: Option<StatusLine>)
    ensures
        final(status)@ == with_message(old(status)@, None, Some(error@), failure.text()),
        option_view(line) == if verbose && final(status)@ != old(status)@ {
            Some(message_line(failure.agent(), Some(error@), failure.text()))
        } else {
            None
        },
{
    let (kind, message): (AgentKind, &'static str) = match failure {
        RuntimeFailure::NetworkSetup => (AgentKind::Client, "network route/DNS setup failed"),
        RuntimeFailure::ClientReceive => (AgentKind::Client, "client UDP receive loop failed"),
        RuntimeFailure::ServerReceive => (AgentKind::Server, "server UDP receive loop failed"),
        RuntimeFailure::DnsClient => (AgentKind::Server, "failed to create DoH client"),
        RuntimeFailure::DnsConfig => (AgentKind::Server, "failed to read DNS config"),
        RuntimeFailure::DnsUpstream => (AgentKind::Server, "DoH resolution failed"),
        RuntimeFailure::DnsReceive => (AgentKind::Server, "DNS proxy loop failed"),
    };
    set_status_message(status, kind, None, Some(error), message, verbose)
}

/// The sum of two counters, or the largest counter.
pub open spec fn saturating_sum(a: u64, b: u64) -> u64 {
    if a + b > u64::MAX {
        u64::MAX
    } else {
        (a + b) as u64
    }
}

/// A counter that may not have been started.
pub open spec fn counter(value: Option<u64>) -> u64 {
    match value {
        Some(n) => n,
        None => 0,
    }
}

/// A counter that may not have been started.
pub fn counter_value(value: Option<u64>) -> (n: u64)
    ensures
        n == counter(value),
{
    match value {
        Some(n) => n,
        None => 0,
    }
}

/// The status after some traffic; the counters stop at their largest value.
pub open spec fn with_traffic(
    status: AgentStatusReportView,
    upload: u64,
    download: u64,
) -> AgentStatusReportView {
    AgentStatusReportView {
        upload_bytes: Some(saturating_sum(counter(status.upload_bytes), upload)),
        download_bytes: Some(saturating_sum(counter(status.download_bytes), download)),
        ..status
    }
}

/// Counts traffic; the counters stop at their largest value.
pub fn add_traffic(status: &mut AgentStatusReport, upload_bytes: u64, download_bytes: u64)
    ensures
        final(status)@ == with_traffic(old(status)@, upload_bytes, download_bytes),
{
    status.upload_bytes = Some(counter_value(status.upload_bytes).saturating_add(upload_bytes));
    status.download_bytes = Some(
        counter_value(status.download_bytes).saturating_add(download_bytes),
    );
}

/// Traffic since the last look, per counter, and whether there was any.
pub struct TrafficSample {
    pub upload: u64,
    pub download: u64,
    pub upload_bps: u64,
    pub download_bps: u64,
}

/// What the counter rose by; nothing where it fell.
pub open spec fn rise(now: u64, last: u64) -> u64 {
    if now >= last {
        (now - last) as u64
    } else {
        0
    }
}

/// The traffic since the counters were last read.
pub fn traffic_sample(status: &AgentStatusReport, last_upload: u64, last_download: u64) -> (sample:
    TrafficSample)
    ensures
        sample.upload == counter(status.upload_bytes),
        sample.download == counter(status.download_bytes),
        sample.upload_bps == rise(sample.upload, last_upload),
        sample.download_bps == rise(sample.download, last_download),
{
    let upload: u64 = counter_value(status.upload_bytes);
    let download: u64 = counter_value(status.download_bytes);
    TrafficSample {
        upload,
        download,
        upload_bps: upload.saturating_sub(last_upload),
        download_bps: download.saturating_sub(last_download),
    }
}

impl TrafficSample {
    /// The line that tells the operator of the traffic, where there was any.
    pub open spec fn line_spec(&self) -> Option<Seq<char>> {
        if self.upload_bps > 0 || self.download_bps > 0 {
            Some(
                "[client] traffic upload_bytes="@ + crate::decimal::decimal(self.upload as int)
                    + " download_bytes="@ + crate::decimal::decimal(self.download as int)
                    + " upload_bps="@ + crate::decimal::decimal(self.upload_bps as int)
                    + " download_bps="@ + crate::decimal::decimal(self.download_bps as int),
            )
        } else {
            None
        }
    }

    /// The line that tells the operator of the traffic, where there was any.
    pub fn line(&self) -> (r: Option<String>)
        ensures
            option_view(r) == self.line_spec(),
    {
        if self.upload_bps > 0 || self.download_bps > 0 {
            let mut text = String::from_str("[client] traffic upload_bytes=");
            text.append(crate::decimal::decimal_u64(self.upload).as_str());
            text.append(" download_bytes=");
            text.append(crate::decimal::decimal_u64(self.download).as_str());
            text.append(" upload_bps=");
            text.append(crate::decimal::decimal_u64(self.upload_bps).as_str());
            text.append(" download_bps=");
            text.append(crate::decimal::decimal_u64(self.download_bps).as_str());
            Some(text)
        } else {
            None
        }
    }
}

/// The status to report: the one kept, with the number of sessions of now.
pub fn build_status_snapshot(status: &AgentStatusReport, sessions: &SessionMaps) -> (snapshot:
    AgentStatusReport)
    requires
        sessions.wf(),
    ensures
        snapshot@ == with_session_count(status@, sessions@.by_addr.dom().len()),
{
    let mut snapshot = status.clone();
    set_connected_clients(&mut snapshot, sessions);
    snapshot
}

/// The status with a number of sessions.
pub open spec fn with_session_count(
    status: AgentStatusReportView,
    n: nat,
) -> AgentStatusReportView {
    AgentStatusReportView { connected_clients: Some(n as usize), ..status }
}

/// Records the number of sessions.
pub fn set_connected_clients(status: &mut AgentStatusReport, sessions: &SessionMaps)
    requires
        sessions.wf(),
    ensures
        final(status)@ == with_session_count(old(status)@, sessions@.by_addr.dom().len()),
        sessions@.by_addr.dom().len() <= usize::MAX,
{
    status.connected_clients = Some(sessions.session_count());
}

/// Traffic counters never fall.
pub proof fn law_traffic_is_monotone(status: AgentStatusReportView, upload: u64, download: u64)
    ensures
        ({
            let after = with_traffic(status, upload, download);
            &&& counter(after.upload_bytes) >= counter(status.upload_bytes)
            &&& counter(after.download_bytes) >= counter(status.download_bytes)
        }),
{
}

/// Traffic is counted where it belongs: each counter rises by what was sent its way, up to the
/// largest number, a counter that was not started counts from zero, and nothing else of the status
/// changes.
pub proof fn law_traffic_is_counted(status: AgentStatusReportView, upload: u64, download: u64)
    ensures
        ({
            let after = with_traffic(status, upload, download);
            let up = match status.upload_bytes {
                Some(n) => n as int,
                None => 0,
            };
            let down = match status.download_bytes {
                Some(n) => n as int,
                None => 0,
            };
            &&& after.upload_bytes matches Some(n)
            &&& after.download_bytes matches Some(m)
            &&& up + upload <= u64::MAX ==> n == up + upload
            &&& up + upload > u64::MAX ==> n == u64::MAX
            &&& down + download <= u64::MAX ==> m == down + download
            &&& down + download > u64::MAX ==> m == u64::MAX
            &&& after.applied_version == status.applied_version
            &&& after.connected_clients == status.connected_clients
            &&& after.connected_client_list == status.connected_client_list
            &&& after.public_ip == status.public_ip
            &&& after.country == status.country
            &&& after.last_error == status.last_error
            &&& after.last_message == status.last_message
        }),
{
}

/// A message replaces the last message and the last error, also where there is none now; a version
/// replaces the version only where one is given; nothing else of the status changes.
pub proof fn law_messages_are_recorded(
    status: AgentStatusReportView,
    version: Option<u64>,
    error: Option<Seq<char>>,
    message: Seq<char>,
)
    ensures
        ({
            let after = with_message(status, version, error, message);
            &&& after.last_message == Some(message)
            &&& after.last_error == error
            &&& version matches Some(n) ==> after.applied_version == Some(n)
            &&& version is None ==> after.applied_version == status.applied_version
            &&& after.connected_clients == status.connected_clients
            &&& after.connected_client_list == status.connected_client_list
            &&& after.public_ip == status.public_ip
            &&& after.country == status.country
            &&& after.upload_bytes == status.upload_bytes
            &&& after.download_bytes == status.download_bytes
        }),
{
}

/// The line for the operator names the kind of agent and the message, and the error where there is
/// one.
pub proof fn law_operator_lines(message: Seq<char>, error: Seq<char>)
    ensures
        message_line(AgentKind::Server, None, message) == StatusLineView::Info(
            "["@ + "server"@ + "] "@ + message,
        ),
        message_line(AgentKind::Client, None, message) == StatusLineView::Info(
            "["@ + "client"@ + "] "@ + message,
        ),
        message_line(AgentKind::Server, Some(error), message) == StatusLineView::Error(
            "["@ + "server"@ + "] "@ + message + ": "@ + error,
        ),
        message_line(AgentKind::Client, Some(error), message) == StatusLineView::Error(
            "["@ + "client"@ + "] "@ + message + ": "@ + error,
        ),
{
}

/// What an agent says of each failure, and whose failure it is.
pub proof fn law_failures_by_name()
    ensures
        RuntimeFailure::NetworkSetup.text() == "network route/DNS setup failed"@,
        RuntimeFailure::ClientReceive.text() == "client UDP receive loop failed"@,
        RuntimeFailure::ServerReceive.text() == "server UDP receive loop failed"@,
        RuntimeFailure::DnsClient.text() == "failed to create DoH client"@,
        RuntimeFailure::DnsConfig.text() == "failed to read DNS config"@,
        RuntimeFailure::DnsUpstream.text() == "DoH resolution failed"@,
        RuntimeFailure::DnsReceive.text() == "DNS proxy loop failed"@,
        forall|failure: RuntimeFailure|
            #[trigger] failure.agent() == AgentKind::Client <==> failure
                == RuntimeFailure::NetworkSetup || failure == RuntimeFailure::ClientReceive,
{
}

/// The traffic since a counter was last read is what it rose by; a counter that fell stands for
/// none.
pub proof fn law_traffic_since(now: u64, last: u64)
    ensures
        now >= last ==> rise(now, last) + last == now,
        now <= last ==> rise(now, last) == 0,
{
}

/// The number of sessions is reported as it is, and nothing else of the status changes.
pub proof fn law_sessions_are_reported(status: AgentStatusReportView, n: nat)
    requires
        n <= usize::MAX,
    ensures
        ({
            let after = with_session_count(status, n);
            &&& after.connected_clients matches Some(count) && count == n
            &&& after.applied_version == status.applied_version
            &&& after.connected_client_list == status.connected_client_list
            &&& after.public_ip == status.public_ip
            &&& after.country == status.country
            &&& after.upload_bytes == status.upload_bytes
            &&& after.download_bytes == status.download_bytes
            &&& after.last_error == status.last_error
            &&& after.last_message == status.last_message
        }),
{
}

} // verus!
