//! How recently an agent was seen, and how times and versions are shown.

use vstd::prelude::*;

use crate::clock::{
    elapsed_seconds, format_time, formatted_time, parse_timestamp, seconds_since, timestamp_of,
    Timestamp,
};
use crate::decimal::{decimal, decimal_i64, decimal_u64};
use crate::html::{badge_html, display_text, render_badge, text_or};
use crate::text::{eq_ignore_ascii_case, same_ignoring_case, trim, trim_spec};

verus! {

/// How recently an agent was seen.
#[derive(Clone, Copy, Debug, PartialEq, Eq, Structural)]
pub enum HeartbeatState {
    /// In the last 45 seconds.
    Online,
    /// In the last five minutes.
    Stale,
    /// Longer ago.
    Offline,
    /// Never.
    Pending,
}

/// The seconds since an agent was seen; none are negative.
pub open spec fn heartbeat_age(last_seen: Seq<char>, now: Timestamp) -> Option<int> {
    match timestamp_of(last_seen) {
        Some(t) => Some(
            if elapsed_seconds(now, t) < 0 {
                0
            } else {
                elapsed_seconds(now, t)
            },
        ),
        None => None,
    }
}

/// The seconds since an agent was seen; none are negative.
pub fn heartbeat_age_seconds(last_seen: &str, now: Timestamp) -> (r: Option<i64>)
    requires
        now.valid(),
    ensures
        match r {
            Some(age) => heartbeat_age(last_seen@, now) == Some(age as int) && age >= 0,
            None => heartbeat_age(last_seen@, now) is None,
        },
{
    match parse_timestamp(last_seen) {
        Some(t) => {
            let age: i64 = seconds_since(now, t);
            if age < 0 {
                Some(0)
            } else {
                Some(age)
            }
        },
        None => None,
    }
}

/// How recently an agent was seen.
pub open spec fn presence(last_seen: Seq<char>, now: Timestamp) -> HeartbeatState {
    match heartbeat_age(last_seen, now) {
        Some(age) => if age <= 45 {
            HeartbeatState::Online
        } else if age <= 300 {
            HeartbeatState::Stale
        } else {
            HeartbeatState::Offline
        },
        None => HeartbeatState::Pending,
    }
}

/// How recently an agent was seen.
pub fn heartbeat_state(last_seen: &str, now: Timestamp) -> (r: HeartbeatState)
    requires
        now.valid(),
    ensures
        r == presence(last_seen@, now),
{
    match heartbeat_age_seconds(last_seen, now) {
        Some(age) => if age <= 45 {
            HeartbeatState::Online
        } else if age <= 300 {
            HeartbeatState::Stale
        } else {
            HeartbeatState::Offline
        },
        None => HeartbeatState::Pending,
    }
}

/// Whether an agent was seen less than a minute ago.
pub open spec fn seen_this_minute(last_seen: Seq<char>, now: Timestamp) -> bool {
    match timestamp_of(last_seen) {
        Some(t) => elapsed_seconds(now, t) < 60,
        None => false,
    }
}

/// Whether an agent was seen less than a minute ago.
pub fn was_seen_this_minute(last_seen: &str, now: Timestamp) -> (r: bool)
    requires
        now.valid(),
    ensures
        r == seen_this_minute(last_seen@, now),
{
    match parse_timestamp(last_seen) {
        Some(t) => seconds_since(now, t) < 60,
        None => false,
    }
}

/// Division that rounds toward zero.
pub open spec fn quotient(n: int, d: int) -> int {
    if n >= 0 {
        n / d
    } else {
        -((-n) / d)
    }
}

/// How long ago something was, in words.
pub open spec fn elapsed_text(seconds: int) -> Seq<char> {
    if 0 <= seconds <= 4 {
        "just now"@
    } else if 5 <= seconds <= 59 {
        decimal(seconds) + "s ago"@
    } else if 60 <= seconds <= 3599 {
        decimal(seconds / 60) + "m ago"@
    } else if 3600 <= seconds <= 86399 {
        decimal(seconds / 3600) + "h ago"@
    } else {
        decimal(quotient(seconds, 86400)) + "d ago"@
    }
}

/// How long ago something was, in words.
pub fn humanize_elapsed(seconds: i64) -> (r: String)
    ensures
        r@ == elapsed_text(seconds as int),
{
    if seconds >= 0 && seconds <= 4 {
        return String::from_str("just now");
    }
    if seconds >= 5 && seconds <= 59 {
        let mut r = decimal_i64(seconds);
        r.append("s ago");
        r
    } else if seconds >= 60 && seconds <= 3599 {
        let mut r = decimal_i64(seconds / 60);
        r.append("m ago");
        r
    } else if seconds >= 3600 && seconds <= 86399 {
        let mut r = decimal_i64(seconds / 3600);
        r.append("h ago");
        r
    } else {
        let days: i64 = if seconds >= 0 {
            seconds / 86400
        } else {
            let magnitude: u64 = (-(seconds as i128)) as u64;
            -((magnitude / 86400) as i64)
        };
        let mut r = decimal_i64(days);
        r.append("d ago");
        r
    }
}

/// A point in time as the dashboard shows it.
pub open spec fn minute_text(t: Timestamp) -> Seq<char> {
    formatted_time(t.secs, t.nanos, "%Y-%m-%d %H:%M UTC"@)
}

/// When an agent was last seen, in words.
pub open spec fn last_seen_text(last_seen: Seq<char>, now: Timestamp) -> Seq<char> {
    match timestamp_of(last_seen) {
        Some(t) => elapsed_text(heartbeat_age(last_seen, now)->Some_0) + " ("@ + minute_text(t)
            + ")"@,
        None => "No heartbeat received yet"@,
    }
}

/// When an agent was last seen, in words.
pub fn format_last_seen(last_seen: &str, now: Timestamp) -> (r: String)
    requires
        now.valid(),
    ensures
        r@ == last_seen_text(last_seen@, now),
{
    match parse_timestamp(last_seen) {
        Some(t) => {
            let elapsed: i64 = seconds_since(now, t);
            let age: i64 = if elapsed < 0 {
                0
            } else {
                elapsed
            };
            let mut r = humanize_elapsed(age);
            r.append(" (");
            r.append(format_time(t, "%Y-%m-%d %H:%M UTC").as_str());
            r.append(")");
            r
        },
        None => String::from_str("No heartbeat received yet"),
    }
}

/// A stored time as the dashboard shows it; what is no time is shown as it is.
pub open spec fn time_text(value: Seq<char>) -> Seq<char> {
    match timestamp_of(value) {
        Some(t) => minute_text(t),
        None => text_or(value, "Not yet"@),
    }
}

/// A stored time as the dashboard shows it; what is no time is shown as it is.
pub fn format_timestamp(value: &str) -> (r: String)
    ensures
        r@ == time_text(value@),
{
    match parse_timestamp(value) {
        Some(t) => format_time(t, "%Y-%m-%d %H:%M UTC"),
        None => display_text(value, "Not yet"),
    }
}

/// When a token was used, in words.
pub open spec fn used_text(value: Seq<char>) -> Seq<char> {
    if trim_spec(value).len() == 0 {
        "Not used yet"@
    } else {
        time_text(value)
    }
}

/// When a token was used, in words.
pub fn format_used_timestamp(value: &str) -> (r: String)
    ensures
        r@ == used_text(value@),
{
    if trim(value).as_str().is_empty() {
        String::from_str("Not used yet")
    } else {
        format_timestamp(value)
    }
}

/// The badge for how recently an agent was seen.
pub open spec fn heartbeat_badge_html(last_seen: Seq<char>, now: Timestamp) -> Seq<char> {
    match presence(last_seen, now) {
        HeartbeatState::Online => badge_html("Online"@, "ok"@),
        HeartbeatState::Stale => badge_html("Stale"@, "warn"@),
        HeartbeatState::Offline => badge_html("Offline"@, "muted-pill"@),
        HeartbeatState::Pending => badge_html("Pending"@, "muted-pill"@),
    }
}

/// The badge for how recently an agent was seen.
pub fn render_heartbeat_badge(last_seen: &str, now: Timestamp) -> (html: String)
    requires
        now.valid(),
    ensures
        html@ == heartbeat_badge_html(last_seen@, now),
{
    match heartbeat_state(last_seen, now) {
        HeartbeatState::Online => render_badge("Online", "ok"),
        HeartbeatState::Stale => render_badge("Stale", "warn"),
        HeartbeatState::Offline => render_badge("Offline", "muted-pill"),
        HeartbeatState::Pending => render_badge("Pending", "muted-pill"),
    }
}

/// The badge for a switch.
pub open spec fn enabled_badge_html(enabled: bool) -> Seq<char> {
    if enabled {
        badge_html("Enabled"@, "ok"@)
    } else {
        badge_html("Disabled"@, "muted-pill"@)
    }
}

/// The badge for a switch.
pub fn render_enabled_badge(enabled: bool) -> (html: String)
    ensures
        html@ == enabled_badge_html(enabled),
{
    if enabled {
        render_badge("Enabled", "ok")
    } else {
        render_badge("Disabled", "muted-pill")
    }
}

/// The badge for the version of the configuration that an agent has.
pub open spec fn config_badge_html(applied: Option<u64>, desired: u64) -> Seq<char> {
    match applied {
        Some(version) => if version == desired {
            badge_html("Config current"@, "info"@)
        } else {
            badge_html("Needs refresh"@, "warn"@)
        },
        None => badge_html("Config pending"@, "muted-pill"@),
    }
}

/// The badge for the version of the configuration that an agent has.
pub fn render_config_badge(applied_version: Option<u64>, desired_version: u64) -> (html: String)
    ensures
        html@ == config_badge_html(applied_version, desired_version),
{
    match applied_version {
        Some(version) => if version == desired_version {
            render_badge("Config current", "info")
        } else {
            render_badge("Needs refresh", "warn")
        },
        None => render_badge("Config pending", "muted-pill"),
    }
}

/// The version of the configuration that an agent has, in words.
pub open spec fn applied_text(applied: Option<u64>, desired: u64) -> Seq<char> {
    match applied {
        Some(version) => if version == desired {
            "v"@ + decimal(version as int) + " (current)"@
        } else {
            "v"@ + decimal(version as int) + " (manager on v"@ + decimal(desired as int) + ")"@
        },
        None => "Not reported yet (manager on v"@ + decimal(desired as int) + ")"@,
    }
}

/// The version of the configuration that an agent has, in words.
pub fn format_applied_version(applied_version: Option<u64>, desired_version: u64) -> (r: String)
    ensures
        r@ == applied_text(applied_version, desired_version),
{
    match applied_version {
        Some(version) => {
            let mut r = String::from_str("v");
            r.append(decimal_u64(version).as_str());
            if version == desired_version {
                r.append(" (current)");
            } else {
                r.append(" (manager on v");
                r.append(decimal_u64(desired_version).as_str());
                r.append(")");
            }
            r
        },
        None => {
            let mut r = String::from_str("Not reported yet (manager on v");
            r.append(decimal_u64(desired_version).as_str());
            r.append(")");
            r
        },
    }
}

/// The badge for the kind of agent that a token is for.
pub open spec fn token_kind_badge_html(kind: Seq<char>) -> Seq<char> {
    if same_ignoring_case(trim_spec(kind), "server"@) {
        badge_html("Server"@, "info"@)
    } else {
        badge_html("Client"@, "info"@)
    }
}

/// The badge for the kind of agent that a token is for.
pub fn render_token_kind_badge(kind: &str) -> (html: String)
    ensures
        html@ == token_kind_badge_html(kind@),
{
    if eq_ignore_ascii_case(trim(kind).as_str(), "server") {
        render_badge("Server", "info")
    } else {
        render_badge("Client", "info")
    }
}

/// The badge for whether a token was used.
pub open spec fn token_state_badge_html(used_at: Seq<char>) -> Seq<char> {
    if trim_spec(used_at).len() == 0 {
        badge_html("Ready"@, "ok"@)
    } else {
        badge_html("Used"@, "muted-pill"@)
    }
}

/// The badge for whether a token was used.
pub fn render_token_state_badge(used_at: &str) -> (html: String)
    ensures
        html@ == token_state_badge_html(used_at@),
{
    if trim(used_at).as_str().is_empty() {
        render_badge("Ready", "ok")
    } else {
        render_badge("Used", "muted-pill")
    }
}

/// The nanoseconds from one point in time to another.
pub open spec fn nanos_between(seen: Timestamp, now: Timestamp) -> int {
    (now.secs - seen.secs) * 1_000_000_000 + now.nanos - seen.nanos
}

/// An agent that reported is online until 46 seconds have passed, then stale until 301 seconds have
/// passed, then offline. (Leap seconds are left out.)
pub proof fn law_presence_fades(last_seen: Seq<char>, seen: Timestamp, now: Timestamp)
    requires
        timestamp_of(last_seen) == Some(seen),
        seen.nanos < 1_000_000_000,
        now.nanos < 1_000_000_000,
    ensures
        presence(last_seen, now) == if nanos_between(seen, now) < 46_000_000_000 {
            HeartbeatState::Online
        } else if nanos_between(seen, now) < 301_000_000_000 {
            HeartbeatState::Stale
        } else {
            HeartbeatState::Offline
        },
{
}

/// How long ago something was is told in the largest unit that fits: nothing below five seconds,
/// then seconds, minutes, hours and days.
pub proof fn law_elapsed_in_words(units: int, rest: int)
    ensures
        0 <= rest < 5 ==> elapsed_text(rest) == "just now"@,
        5 <= rest < 60 ==> elapsed_text(rest) == decimal(rest) + "s ago"@,
        1 <= units < 60 && 0 <= rest < 60 ==> elapsed_text(60 * units + rest) == decimal(units)
            + "m ago"@,
        1 <= units < 24 && 0 <= rest < 3600 ==> elapsed_text(3600 * units + rest) == decimal(units)
            + "h ago"@,
        1 <= units && 0 <= rest < 86400 ==> elapsed_text(86400 * units + rest) == decimal(units)
            + "d ago"@,
{
}

/// An agent was seen this minute exactly where less than sixty seconds have passed, leap seconds
/// left out; one that was never seen was not.
pub proof fn law_seen_this_minute(last_seen: Seq<char>, seen: Timestamp, now: Timestamp)
    requires
        seen.nanos < 1_000_000_000,
        now.nanos < 1_000_000_000,
    ensures
        timestamp_of(last_seen) == Some(seen) ==> (seen_this_minute(last_seen, now)
            <==> nanos_between(seen, now) < 60_000_000_000),
        timestamp_of(last_seen) is None ==> !seen_this_minute(last_seen, now) && presence(
            last_seen,
            now,
        ) == HeartbeatState::Pending,
{
}

/// The age of a heartbeat is the number of whole seconds since, and never negative.
pub proof fn law_heartbeat_age(last_seen: Seq<char>, seen: Timestamp, now: Timestamp)
    requires
        timestamp_of(last_seen) == Some(seen),
        seen.nanos < 1_000_000_000,
        now.nanos < 1_000_000_000,
    ensures
        heartbeat_age(last_seen, now) matches Some(age) && age >= 0 && (nanos_between(seen, now)
            >= 0 ==> age * 1_000_000_000 <= nanos_between(seen, now) < (age + 1) * 1_000_000_000)
            && (nanos_between(seen, now) < 0 ==> age == 0),
{
}

/// The badges say what they stand for.
pub proof fn law_badges_say_what_holds(
    last_seen: Seq<char>,
    now: Timestamp,
    applied: u64,
    desired: u64,
    text: Seq<char>,
)
    ensures
        presence(last_seen, now) == HeartbeatState::Online ==> heartbeat_badge_html(last_seen, now)
            == badge_html("Online"@, "ok"@),
        presence(last_seen, now) == HeartbeatState::Stale ==> heartbeat_badge_html(last_seen, now)
            == badge_html("Stale"@, "warn"@),
        presence(last_seen, now) == HeartbeatState::Offline ==> heartbeat_badge_html(
            last_seen,
            now,
        ) == badge_html("Offline"@, "muted-pill"@),
        presence(last_seen, now) == HeartbeatState::Pending ==> heartbeat_badge_html(
            last_seen,
            now,
        ) == badge_html("Pending"@, "muted-pill"@),
        enabled_badge_html(true) == badge_html("Enabled"@, "ok"@),
        enabled_badge_html(false) == badge_html("Disabled"@, "muted-pill"@),
        config_badge_html(Some(desired), desired) == badge_html("Config current"@, "info"@),
        applied != desired ==> config_badge_html(Some(applied), desired) == badge_html(
            "Needs refresh"@,
            "warn"@,
        ),
        config_badge_html(None, desired) == badge_html("Config pending"@, "muted-pill"@),
        trim_spec(text).len() == 0 ==> token_state_badge_html(text) == badge_html("Ready"@, "ok"@),
        trim_spec(text).len() > 0 ==> token_state_badge_html(text) == badge_html(
            "Used"@,
            "muted-pill"@,
        ),
{
}

/// The version that an agent has is told with that of the manager where they differ.
pub proof fn law_versions_in_words(applied: u64, desired: u64)
    ensures
        applied_text(Some(desired), desired) == "v"@ + decimal(desired as int) + " (current)"@,
        applied != desired ==> applied_text(Some(applied), desired) == "v"@ + decimal(
            applied as int,
        ) + " (manager on v"@ + decimal(desired as int) + ")"@,
        applied_text(None, desired) == "Not reported yet (manager on v"@ + decimal(desired as int)
            + ")"@,
{
}

/// What is shown of a time that was stored: the time where it can be read, the text where it cannot,
/// and a remark where there is none.
pub proof fn law_times_in_words(value: Seq<char>, t: Timestamp, now: Timestamp)
    ensures
        timestamp_of(value) == Some(t) ==> time_text(value) == formatted_time(
            t.secs,
            t.nanos,
            "%Y-%m-%d %H:%M UTC"@,
        ),
        trim_spec(value).len() == 0 ==> used_text(value) == "Not used yet"@ && last_seen_text(
            value,
            now,
        ) == "No heartbeat received yet"@,
        timestamp_of(value) == Some(t) ==> used_text(value) == time_text(value),
        timestamp_of(value) == Some(t) ==> last_seen_text(value, now) == elapsed_text(
            heartbeat_age(value, now)->Some_0,
        ) + " ("@ + time_text(value) + ")"@,
{
}

} // verus!
