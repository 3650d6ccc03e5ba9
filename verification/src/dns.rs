//! The DNS proxy of a server.

use vstd::prelude::*;

use crate::models::{ServerConfig, ServerConfigView};
use crate::text::option_view;

verus! {

/// Where a query goes: nowhere, while the server is disabled.
pub open spec fn upstream_of(config: ServerConfigView) -> Option<Seq<char>> {
    if config.enabled {
        Some(config.dns.doh_url)
    } else {
        None
    }
}

/// Where a query goes.
pub fn query_upstream(config: &ServerConfig) -> (r: Option<String>)
    ensures
        option_view(r) == upstream_of(config@),
{
    if config.enabled {
        Some(config.dns.doh_url.clone())
    } else {
        None
    }
}

/// How an upstream that refuses a query is told.
pub open spec fn upstream_error(status: Seq<char>) -> Seq<char> {
    "DoH upstream returned "@ + status
}

/// The answer of the upstream: its body, or an error where its HTTP status is none of success.
pub fn forward_doh_query(success: bool, status: &str, body: Vec<u8>) -> (r: Result<Vec<u8>, String>)
    ensures
        match r {
            Ok(answer) => success && answer@ == body@,
            Err(message) => !success && message@ == upstream_error(status@),
        },
{
    if success {
        Ok(body)
    } else {
        let mut message = String::from_str("DoH upstream returned ");
        message.append(status);
        Err(message)
    }
}

/// An enabled server forwards queries to the address in its configuration, a disabled one to none.
pub proof fn law_queries_go_upstream(config: ServerConfigView)
    ensures
        config.enabled ==> upstream_of(config) == Some(config.dns.doh_url),
        !config.enabled ==> upstream_of(config) is None,
{
}

/// An upstream that refuses a query is named with its status.
pub proof fn law_upstream_errors(status: Seq<char>)
    ensures
        upstream_error(status) == "DoH upstream returned "@ + status,
{
}

} // verus!
