//! Points in time, and their texts by `chrono`.

use chrono::{DateTime, Utc};
use vstd::prelude::*;

use crate::sorting::text_before;
use crate::text::{is_white_space, trim, trim_spec};

verus! {

/// A point in time: seconds since the Unix epoch, and nanoseconds. In a leap second the
/// nanoseconds go on above one billion.
#[derive(Clone, Copy, Debug, PartialEq, Eq, Structural)]
pub struct Timestamp {
    pub secs: i64,
    pub nanos: u32,
}

impl Timestamp {
    /// Within the range of the calendar.
    pub open spec fn valid(self) -> bool {
        &&& -8334601228800 <= self.secs <= 8210266876799
        &&& self.nanos < 1_000_000_000 || (self.nanos < 2_000_000_000 && self.secs % 60 == 59)
    }

    /// A reading of the clock: within the calendar, at least some minutes into it, and never in a
    /// leap second.
    pub open spec fn is_clock_reading(self) -> bool {
        &&& -8334601228200 <= self.secs <= 8210266876799
        &&& self.nanos < 1_000_000_000
    }

    /// Within the years that RFC 3339 has: 0 to 9999.
    pub open spec fn in_rfc3339_years(self) -> bool {
        -62167219200 <= self.secs <= 253402300799
    }

    /// Whether the value is a reading of the clock.
    pub fn check_clock_reading(&self) -> (r: bool)
        ensures
            r == self.is_clock_reading(),
    {
        -8334601228200 <= self.secs && self.secs <= 8210266876799 && self.nanos < 1_000_000_000
    }

    /// Earlier than another point in time.
    pub open spec fn is_before(self, other: Timestamp) -> bool {
        self.secs < other.secs || (self.secs == other.secs && self.nanos < other.nanos)
    }

    /// An earlier point in time.
    pub open spec fn before(self, seconds: int) -> Timestamp {
        Timestamp { secs: (self.secs - seconds) as i64, nanos: self.nanos }
    }

    /// Whether the point in time some seconds before lies within the calendar.
    pub open spec fn can_go_back(self, seconds: int) -> bool {
        -8334601228800 <= self.secs - seconds <= 8210266876799
    }

    /// The point in time some seconds before a clock reading.
    pub fn minus_seconds(&self, seconds: i64) -> (r: Timestamp)
        requires
            self.is_clock_reading(),
            self.can_go_back(seconds as int),
        ensures
            r == self.before(seconds as int),
            r.secs == self.secs - seconds,
            r.valid(),
    {
        Timestamp { secs: self.secs - seconds, nanos: self.nanos }
    }
}

/// Seconds since midnight.
pub open spec fn second_of_day(t: Timestamp) -> int {
    (t.secs as int) % 86400
}

/// Whole seconds from `then` to `now`, rounded toward zero. A leap second counts where it lies
/// between the two times of day.
pub open spec fn elapsed_seconds(now: Timestamp, then: Timestamp) -> int {
    let leap: int = if second_of_day(now) > second_of_day(then) && then.nanos >= 1_000_000_000 {
        1
    } else if second_of_day(now) < second_of_day(then) && now.nanos >= 1_000_000_000 {
        -1
    } else {
        0
    };
    let nanos = (now.secs - then.secs + leap) * 1_000_000_000 + now.nanos - then.nanos;
    if nanos >= 0 {
        nanos / 1_000_000_000
    } else {
        -((-nanos) / 1_000_000_000)
    }
}

/// The point in time that an RFC 3339 text names: seconds and nanoseconds.
pub uninterp spec fn rfc3339_of(text: Seq<char>) -> Option<(i64, u32)>;

/// The RFC 3339 text of a point in time, with the offset of UTC.
pub uninterp spec fn rfc3339_text(secs: i64, nanos: u32) -> Seq<char>;

/// The text of a point in time in UTC by a format.
pub uninterp spec fn formatted_time(secs: i64, nanos: u32, format: Seq<char>) -> Seq<char>;

/// `chrono::DateTime::parse_from_rfc3339`, taken to UTC: whether a text is RFC 3339, and the point
/// in time that it names, are a function of the text, and lie within the calendar.
#[verifier::external_body]
pub(crate) fn parse_rfc3339(text: &str) -> (r: Option<Timestamp>)
    ensures
        match r {
            Some(t) => rfc3339_of(text@) == Some((t.secs, t.nanos)) && t.valid(),
            None => rfc3339_of(text@) is None,
        },
{
    let utc = DateTime::parse_from_rfc3339(text).ok()?.with_timezone(&Utc);
    Some(Timestamp { secs: utc.timestamp(), nanos: utc.timestamp_subsec_nanos() })
}

/// `chrono::DateTime::<Utc>::to_rfc3339`: the text is a function of the point in time, starts and
/// ends with no white space, and in the years 0 to 9999 is read back as the same point in time. In
/// these years, leap seconds left out, an earlier point in time has a text that comes before: the
/// fields are of fixed width, and the offset's sign sorts before the fraction's point and digits.
#[verifier::external_body]
pub(crate) fn to_rfc3339(t: Timestamp) -> (r: String)
    requires
        t.valid(),
    ensures
        r@ == rfc3339_text(t.secs, t.nanos),
        r@.len() > 0,
        !is_white_space(r@[0]),
        !is_white_space(r@.last()),
        t.in_rfc3339_years() ==> rfc3339_of(r@) == Some((t.secs, t.nanos)),
        forall|earlier: Timestamp|
            earlier.in_rfc3339_years() && t.in_rfc3339_years() && earlier.nanos < 1_000_000_000
                && t.nanos < 1_000_000_000 && earlier.is_before(t) ==> #[trigger] text_before(
                rfc3339_text(earlier.secs, earlier.nanos),
                r@,
            ),
{
    DateTime::<Utc>::from_timestamp(t.secs, t.nanos).expect("within the calendar").to_rfc3339()
}

/// `chrono::DateTime::<Utc>::format`, with the one format that is used: the text is a function of
/// the point in time and the format.
#[verifier::external_body]
pub(crate) fn format_time(t: Timestamp, format: &str) -> (r: String)
    requires
        t.valid(),
        format@ == "%Y-%m-%d %H:%M UTC"@,
    ensures
        r@ == formatted_time(t.secs, t.nanos, format@),
{
    let utc = DateTime::<Utc>::from_timestamp(t.secs, t.nanos).expect("within the calendar");
    utc.format(format).to_string()
}

/// `chrono::DateTime::signed_duration_since`, then `TimeDelta::num_seconds`.
#[verifier::external_body]
pub(crate) fn seconds_since(now: Timestamp, then: Timestamp) -> (r: i64)
    requires
        now.valid(),
        then.valid(),
    ensures
        r == elapsed_seconds(now, then),
{
    let now = DateTime::<Utc>::from_timestamp(now.secs, now.nanos).expect("within the calendar");
    let then = DateTime::<Utc>::from_timestamp(then.secs, then.nanos).expect("within the calendar");
    now.signed_duration_since(then).num_seconds()
}

/// The point in time that a stored text names: blank texts and texts that are no RFC 3339 name
/// none.
pub open spec fn timestamp_of(value: Seq<char>) -> Option<Timestamp> {
    if trim_spec(value).len() == 0 {
        None
    } else {
        match rfc3339_of(trim_spec(value)) {
            Some((secs, nanos)) => Some(Timestamp { secs, nanos }),
            None => None,
        }
    }
}

/// The point in time that a stored text names.
pub fn parse_timestamp(value: &str) -> (r: Option<Timestamp>)
    ensures
        r == timestamp_of(value@),
        r matches Some(t) ==> t.valid(),
{
    let trimmed = trim(value);
    if trimmed.as_str().is_empty() {
        return None;
    }
    parse_rfc3339(trimmed.as_str())
}

/// The text that a point in time is stored as.
pub fn timestamp_text(t: Timestamp) -> (r: String)
    requires
        t.valid(),
    ensures
        r@ == rfc3339_text(t.secs, t.nanos),
        t.in_rfc3339_years() ==> timestamp_of(r@) == Some(t),
        forall|earlier: Timestamp|
            earlier.in_rfc3339_years() && t.in_rfc3339_years() && earlier.nanos < 1_000_000_000
                && t.nanos < 1_000_000_000 && earlier.is_before(t) ==> #[trigger] text_before(
                rfc3339_text(earlier.secs, earlier.nanos),
                r@,
            ),
{
    let r = to_rfc3339(t);
    proof {
        crate::text::lemma_trim_id(r@);
    }
    r
}

} // verus!
