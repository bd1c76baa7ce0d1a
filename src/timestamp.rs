use vstd::prelude::*;

verus! {

/// An instant: whole seconds since the Unix epoch, and nanoseconds past that
/// second (past one second only inside a leap second).
#[derive(Clone, Copy, Debug, PartialEq, Eq, Structural)]
pub struct Timestamp {
    pub secs: i64,
    pub nanos: u32,
}

/// The instant that an RFC 3339 text denotes, as seconds and nanoseconds, or
/// `None` where the text is not RFC 3339.
pub uninterp spec fn rfc3339_instant(s: Seq<char>) -> Option<(i64, u32)>;

/// The RFC 3339 text, in UTC, of the instant given as seconds and nanoseconds,
/// or `None` where that instant cannot be represented.
pub uninterp spec fn rfc3339_text(secs: i64, nanos: u32) -> Option<Seq<char>>;

/// An RFC 3339 text rewritten for people ("Jan 15, 2024 at 10:30 AM"), in
/// the offset it was written in, or `None` where it is not RFC 3339.
pub uninterp spec fn readable_datetime(s: Seq<char>) -> Option<Seq<char>>;

/// The instant that `s` denotes, if it is RFC 3339 text.
pub open spec fn parsed_instant(s: Seq<char>) -> Option<Timestamp> {
    match rfc3339_instant(s) {
        Some(p) => Some(Timestamp { secs: p.0, nanos: p.1 }),
        None => None,
    }
}

impl Timestamp {
    /// Strictly earlier, comparing seconds first and then nanoseconds.
    pub open spec fn before(self, other: Timestamp) -> bool {
        self.secs < other.secs || (self.secs == other.secs && self.nanos < other.nanos)
    }

    pub fn is_before(&self, other: &Timestamp) -> (r: bool)
        ensures
            r == self.before(*other),
    {
        self.secs < other.secs || (self.secs == other.secs && self.nanos < other.nanos)
    }

    /// Whether this instant can be written as RFC 3339 text.
    pub open spec fn representable(self) -> bool {
        rfc3339_text(self.secs, self.nanos) is Some
    }
}

/// The RFC 3339 text of the instant `minutes` minutes after `t`, if the
/// result can be represented.
pub open spec fn text_after_minutes(t: Timestamp, minutes: u64) -> Option<Seq<char>> {
    let secs = t.secs + minutes * 60;
    if secs <= i64::MAX {
        rfc3339_text(secs as i64, t.nanos)
    } else {
        None
    }
}

/// Relies on chrono::Utc::now for the current instant. chrono documents that
/// `DateTime::from_timestamp(dt.timestamp(), dt.timestamp_subsec_nanos())`
/// gives `dt` back, so the instant can always be written out again.
#[verifier::external_body]
pub(crate) fn clock_now() -> (r: Timestamp)
    ensures
        r.representable(),
{
    let now = chrono::Utc::now();
    Timestamp { secs: now.timestamp(), nanos: now.timestamp_subsec_nanos() }
}

/// Relies on chrono::DateTime::parse_from_rfc3339, read back through
/// `timestamp` and `timestamp_subsec_nanos` (the instant, whatever the offset).
#[verifier::external_body]
pub(crate) fn parse_rfc3339(s: &str) -> (r: Option<Timestamp>)
    ensures
        r == parsed_instant(s@),
{
    match chrono::DateTime::parse_from_rfc3339(s) {
        Ok(dt) => Some(Timestamp { secs: dt.timestamp(), nanos: dt.timestamp_subsec_nanos() }),
        Err(_) => None,
    }
}

/// Relies on chrono::DateTime::from_timestamp, which gives `None` for an
/// instant it cannot represent, and DateTime::to_rfc3339 on the UTC result.
#[verifier::external_body]
pub(crate) fn format_rfc3339(t: Timestamp) -> (r: Option<String>)
    ensures
        r is Some <==> rfc3339_text(t.secs, t.nanos) is Some,
        r is Some ==> r->0@ == rfc3339_text(t.secs, t.nanos)->0,
{
    match chrono::DateTime::from_timestamp(t.secs, t.nanos) {
        Some(dt) => Some(dt.to_rfc3339()),
        None => None,
    }
}

/// Relies on chrono::DateTime::parse_from_rfc3339 and DateTime::format with the
/// pattern "%b %d, %Y at %l:%M %p"; `None` exactly where the parse fails.
#[verifier::external_body]
pub(crate) fn readable_rfc3339(s: &str) -> (r: Option<String>)
    ensures
        r is Some <==> rfc3339_instant(s@) is Some,
        r is Some <==> readable_datetime(s@) is Some,
        r is Some ==> r->0@ == readable_datetime(s@)->0,
{
    match chrono::DateTime::parse_from_rfc3339(s) {
        Ok(dt) => Some(dt.format("%b %d, %Y at %l:%M %p").to_string()),
        Err(_) => None,
    }
}

/// The current instant.
pub fn now() -> (r: Timestamp)
    ensures
        r.representable(),
{
    clock_now()
}

/// `t` written as RFC 3339 text in UTC; `None` where it cannot be represented.
pub fn to_rfc3339(t: Timestamp) -> (r: Option<String>)
    ensures
        r is Some <==> t.representable(),
        r is Some ==> r->0@ == rfc3339_text(t.secs, t.nanos)->0,
{
    format_rfc3339(t)
}

/// The instant that `s` denotes, if it is RFC 3339 text.
pub fn from_rfc3339(s: &str) -> (r: Option<Timestamp>)
    ensures
        r == parsed_instant(s@),
{
    parse_rfc3339(s)
}

/// The RFC 3339 text of the instant `minutes` minutes after `t`.
pub fn rfc3339_after_minutes(t: Timestamp, minutes: u64) -> (r: Option<String>)
    ensures
        r is Some <==> text_after_minutes(t, minutes) is Some,
        r is Some ==> r->0@ == text_after_minutes(t, minutes)->0,
{
    let secs: i128 = t.secs as i128 + minutes as i128 * 60;
    if secs > i64::MAX as i128 {
        return None;
    }
    format_rfc3339(Timestamp { secs: secs as i64, nanos: t.nanos })
}

/// An RFC 3339 text rewritten for people; text that is not RFC 3339 is
/// returned as it is.
pub fn format_datetime(iso: &str) -> (r: String)
    ensures
        rfc3339_instant(iso@) is Some ==> r@ == readable_datetime(iso@)->0,
        rfc3339_instant(iso@) is None ==> r@ == iso@,
{
    match readable_rfc3339(iso) {
        Some(text) => text,
        None => iso.to_string(),
    }
}

} // verus!
