//! Points in time, held as nanoseconds since the Unix epoch (UTC), and their
//! text forms, which `chrono` writes.
use vstd::prelude::*;

verus! {

/// An instant in UTC, as nanoseconds since 1970-01-01 00:00:00 UTC.
///
/// Every `i64` is an instant that `chrono` can represent
/// (`DateTime::<Utc>::from_timestamp_nanos` is total).
#[derive(Clone, Copy, Debug, PartialEq, Eq, Structural)]
pub struct Timestamp {
    pub unix_nanos: i64,
}

/// The text that `chrono` writes for the instant `unix_nanos` with its
/// `Display` implementation of `DateTime<Utc>` (such as
/// `2026-04-14 09:00:00 UTC`).
pub uninterp spec fn utc_display_text(unix_nanos: i64) -> Seq<char>;

/// The text that `chrono` writes for the instant `unix_nanos` when formatted
/// with the strftime-style `pattern` by `DateTime::<Utc>::format`.
pub uninterp spec fn utc_format_text(unix_nanos: i64, pattern: Seq<char>) -> Seq<char>;

/// The text that `chrono` writes for the instant `unix_nanos` with
/// `DateTime::<Utc>::to_rfc3339_opts(SecondsFormat::AutoSi, true)`: RFC 3339,
/// fractions of a second only where there are any, `Z` for UTC (such as
/// `2026-04-14T09:00:00Z`).
pub uninterp spec fn utc_rfc3339_text(unix_nanos: i64) -> Seq<char>;

/// The pattern of report identifiers: `%Y%m%d%H%M%S`.
pub open spec fn report_id_pattern() -> Seq<char> {
    "%Y%m%d%H%M%S"@
}

/// The pattern of dates shown in the web interface: `%Y-%m-%d %H:%M UTC`.
pub open spec fn ui_date_pattern() -> Seq<char> {
    "%Y-%m-%d %H:%M UTC"@
}

/// `chrono::DateTime::<Utc>::from_timestamp_nanos` followed by its `Display`
/// implementation (through `to_string`). The contract claims only that the
/// result is the text named `utc_display_text` for this instant: the same
/// instant always gives the same text.
#[verifier::external_body]
fn utc_display(unix_nanos: i64) -> (r: String)
    ensures
        r@ == utc_display_text(unix_nanos),
{
    chrono::DateTime::<chrono::Utc>::from_timestamp_nanos(unix_nanos).to_string()
}

/// `chrono::DateTime::<Utc>::from_timestamp_nanos` followed by
/// `to_rfc3339_opts(SecondsFormat::AutoSi, true)`, which writes to a string and
/// does not fail. The contract claims only that the result is the text named
/// `utc_rfc3339_text` for this instant.
#[verifier::external_body]
fn utc_rfc3339(unix_nanos: i64) -> (r: String)
    ensures
        r@ == utc_rfc3339_text(unix_nanos),
{
    chrono::DateTime::<chrono::Utc>::from_timestamp_nanos(unix_nanos).to_rfc3339_opts(
        chrono::SecondsFormat::AutoSi,
        true,
    )
}

/// `chrono::DateTime::<Utc>::from_timestamp_nanos` followed by
/// `DateTime::format(pattern)` written out with `to_string`. Only the two
/// patterns that this library uses are admitted; both hold only valid
/// specifiers, so the formatting cannot fail. The contract claims only that
/// the result is the text named `utc_format_text` for this instant and
/// pattern.
#[verifier::external_body]
fn utc_format(unix_nanos: i64, pattern: &str) -> (r: String)
    requires
        pattern@ == report_id_pattern() || pattern@ == ui_date_pattern(),
    ensures
        r@ == utc_format_text(unix_nanos, pattern@),
{
    chrono::DateTime::<chrono::Utc>::from_timestamp_nanos(unix_nanos).format(pattern).to_string()
}

impl Timestamp {
    /// Milliseconds since the epoch, rounded down (as chrono's
    /// `timestamp_millis`).
    pub open spec fn millis(self) -> int {
        self.unix_nanos as int / 1_000_000
    }

    /// The instant as `DateTime<Utc>`'s `Display` writes it.
    pub fn display(&self) -> (r: String)
        ensures
            r@ == utc_display_text(self.unix_nanos),
    {
        utc_display(self.unix_nanos)
    }

    /// The instant in RFC 3339 (`2026-04-14T09:00:00Z`), as the Markdown
    /// report shows it.
    pub fn rfc3339(&self) -> (r: String)
        ensures
            r@ == utc_rfc3339_text(self.unix_nanos),
    {
        utc_rfc3339(self.unix_nanos)
    }

    /// The compact stamp `%Y%m%d%H%M%S` used in report identifiers.
    pub fn compact_stamp(&self) -> (r: String)
        ensures
            r@ == utc_format_text(self.unix_nanos, report_id_pattern()),
    {
        utc_format(self.unix_nanos, "%Y%m%d%H%M%S")
    }

    /// The date and minute `%Y-%m-%d %H:%M UTC` shown in the web interface.
    pub fn minute_stamp(&self) -> (r: String)
        ensures
            r@ == utc_format_text(self.unix_nanos, ui_date_pattern()),
    {
        utc_format(self.unix_nanos, "%Y-%m-%d %H:%M UTC")
    }

    /// Milliseconds since the epoch, rounded down.
    pub fn timestamp_millis(&self) -> (r: i64)
        ensures
            r == self.millis(),
    {
        let n = self.unix_nanos;
        if n >= 0 {
            n / 1_000_000
        } else {
            let m: i128 = -(n as i128);
            let q: i128 = (m + 999_999) / 1_000_000;
            proof {
                let k = n as int;
                assert((-k + 999_999) / 1_000_000 == -(k / 1_000_000)) by (nonlinear_arith)
                    requires
                        k < 0,
                ;
            }
            (-q) as i64
        }
    }
}

/// `fmt_date`: the minute stamp of an instant, or `-` where there is none.
pub open spec fn fmt_date_text(v: Option<Timestamp>) -> Seq<char> {
    match v {
        Some(t) => utc_format_text(t.unix_nanos, ui_date_pattern()),
        None => "-"@,
    }
}

/// The date shown for an optional instant in the web interface.
pub fn fmt_date(v: &Option<Timestamp>) -> (r: String)
    ensures
        r@ == fmt_date_text(*v),
{
    match v {
        Some(t) => t.minute_stamp(),
        None => String::from_str("-"),
    }
}

} // verus!
