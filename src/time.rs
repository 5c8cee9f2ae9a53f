use vstd::prelude::*;

verus! {

/// Earliest second (since the Unix epoch) of the UTC calendar that chrono represents:
/// January 1 of the year -262143, 00:00:00.
pub const MIN_TIMESTAMP_SECS: i64 = -8_334_601_228_800;

/// Latest second (since the Unix epoch) of the UTC calendar that chrono represents:
/// December 31 of the year 262142, 23:59:59.
pub const MAX_TIMESTAMP_SECS: i64 = 8_210_266_876_799;

/// An instant in UTC: whole seconds since the Unix epoch and the nanoseconds past that
/// second. A leap second is written as the 59th second with 1_000_000_000 or more
/// nanoseconds.
#[derive(Clone, Copy, Debug, PartialEq, Eq)]
pub struct Timestamp {
    pub secs: i64,
    pub nanos: u32,
}

/// Whether `secs` and `nanos` name an instant of the calendar.
pub open spec fn timestamp_parts_valid(secs: i64, nanos: u32) -> bool {
    &&& MIN_TIMESTAMP_SECS <= secs <= MAX_TIMESTAMP_SECS
    &&& (nanos < 1_000_000_000 || (nanos < 2_000_000_000 && secs as int % 60 == 59))
}

/// The RFC 3339 text of the UTC instant `secs`, `nanos`, as chrono writes it.
pub uninterp spec fn rfc3339_of(secs: i64, nanos: u32) -> Seq<char>;

impl Timestamp {
    pub open spec fn wf(&self) -> bool {
        timestamp_parts_valid(self.secs, self.nanos)
    }

    /// The instant with the given parts, or `None` where they name none.
    pub fn from_parts(secs: i64, nanos: u32) -> (r: Option<Timestamp>)
        ensures
            r is Some <==> timestamp_parts_valid(secs, nanos),
            r is Some ==> r->Some_0 == (Timestamp { secs, nanos }),
    {
        if secs < MIN_TIMESTAMP_SECS || secs > MAX_TIMESTAMP_SECS {
            return None;
        }
        let rem: i64 = secs % 60;
        let second_of_minute: i64 = if rem < 0 { rem + 60 } else { rem };
        if nanos >= 2_000_000_000 || (nanos >= 1_000_000_000 && second_of_minute != 59) {
            return None;
        }
        Some(Timestamp { secs, nanos })
    }

    /// The RFC 3339 text of this instant, with its offset written `+00:00`.
    pub fn to_rfc3339(&self) -> (r: String)
        requires
            self.wf(),
        ensures
            r@ == rfc3339_of(self.secs, self.nanos),
    {
        format_rfc3339(self.secs, self.nanos)
    }
}

/// Relies on chrono's `DateTime::<Utc>::from_timestamp`, which gives `Some` on every
/// valid pair of parts, and on `DateTime::to_rfc3339` for the text.
#[verifier::external_body]
fn format_rfc3339(secs: i64, nanos: u32) -> (r: String)
    requires
        timestamp_parts_valid(secs, nanos),
    ensures
        r@ == rfc3339_of(secs, nanos),
{
    chrono::DateTime::<chrono::Utc>::from_timestamp(secs, nanos).unwrap_or_default().to_rfc3339()
}

/// Relies on chrono's `Utc::now`: the system clock read as seconds at or after the epoch
/// and nanoseconds below one second, which chrono turns into a date of its calendar or
/// panics.
#[verifier::external_body]
pub(crate) fn now() -> (r: Timestamp)
    ensures
        r.wf(),
        r.secs >= 0,
        r.nanos < 1_000_000_000,
{
    let d = chrono::Utc::now();
    Timestamp { secs: d.timestamp(), nanos: d.timestamp_subsec_nanos() }
}

} // verus!
