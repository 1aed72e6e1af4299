//! Timestamps and the calendar granularities that slot them.
use vstd::prelude::*;

verus! {

/// Whether a whole number of seconds since the Unix epoch falls inside the span of
/// instants that chrono can place on its UTC calendar.
pub uninterp spec fn utc_representable(secs: int) -> bool;

/// The text that chrono writes for the UTC instant `secs` seconds after the Unix
/// epoch under the format pattern `pattern`.
pub uninterp spec fn utc_format(secs: int, pattern: Seq<char>) -> Seq<char>;

/// Relies on chrono's `DateTime::<Utc>::from_timestamp`, which returns `None` exactly
/// for the second counts outside its calendar range.
#[verifier::external_body]
fn utc_in_range(secs: i64) -> (r: bool)
    ensures
        r == utc_representable(secs as int),
{
    chrono::DateTime::from_timestamp(secs, 0).is_some()
}

/// Relies on chrono's `DateTime::format` (reached through `DateTime::<Utc>::from_timestamp`):
/// the formatted text depends on the instant and the pattern alone. Every pattern that
/// `is_slot_pattern` admits holds only valid specifiers, so writing it cannot fail.
#[verifier::external_body]
fn format_utc(secs: i64, pattern: &str) -> (r: String)
    requires
        utc_representable(secs as int),
        is_slot_pattern(pattern@),
    ensures
        r@ == utc_format(secs as int, pattern@),
{
    let dt = chrono::DateTime::from_timestamp(secs, 0).unwrap();
    dt.format(pattern).to_string()
}

/// A granularity of the retention policy. Two instants share a slot at a granularity
/// exactly when their UTC calendar texts at that granularity agree.
///
/// Weeks follow chrono's `%W`: weeks start on Monday, and the days of a year before its
/// first Monday form week `00` of that year. The week slot is the pair (calendar year,
/// week number), so the days of one Monday-to-Sunday week that straddle a new year fall
/// into two slots.
#[derive(Clone, Copy, Debug, PartialEq, Eq, Structural)]
pub enum Resolution {
    Second,
    Minute,
    Hour,
    Day,
    Week,
    Month,
    Year,
}

/// The chrono pattern that names the slot of an instant at a granularity.
pub open spec fn pattern_of(r: Resolution) -> Seq<char> {
    match r {
        Resolution::Second => "%Y-%m-%d %H:%M:%S"@,
        Resolution::Minute => "%Y-%m-%d %H:%M"@,
        Resolution::Hour => "%Y-%m-%d %H"@,
        Resolution::Day => "%Y-%m-%d"@,
        Resolution::Week => "%Y %W"@,
        Resolution::Month => "%Y-%m"@,
        Resolution::Year => "%Y"@,
    }
}

/// The patterns that slot keys are written with.
pub open spec fn is_slot_pattern(p: Seq<char>) -> bool {
    exists|r: Resolution| pattern_of(r) == p
}

/// The slot key of the instant `secs` at granularity `r`.
pub open spec fn slot_key_of(secs: int, r: Resolution) -> Seq<char> {
    utc_format(secs, pattern_of(r))
}

impl Resolution {
    /// The chrono format pattern of this granularity.
    pub fn pattern(self) -> (p: &'static str)
        ensures
            p@ == pattern_of(self),
    {
        match self {
            Resolution::Second => "%Y-%m-%d %H:%M:%S",
            Resolution::Minute => "%Y-%m-%d %H:%M",
            Resolution::Hour => "%Y-%m-%d %H",
            Resolution::Day => "%Y-%m-%d",
            Resolution::Week => "%Y %W",
            Resolution::Month => "%Y-%m",
            Resolution::Year => "%Y",
        }
    }
}

/// An instant, as whole seconds since the Unix epoch (1970-01-01 00:00:00 UTC), that lies
/// on chrono's UTC calendar.
#[derive(Clone, Copy, Debug, PartialEq, Eq)]
pub struct Timestamp {
    secs: i64,
}

impl View for Timestamp {
    type V = int;

    closed spec fn view(&self) -> int {
        self.secs as int
    }
}

impl Timestamp {
    #[verifier::type_invariant]
    spec fn on_calendar(self) -> bool {
        utc_representable(self.secs as int)
    }

    /// The instant `secs` seconds after the Unix epoch, or `None` where that instant is
    /// outside the calendar range.
    pub fn from_unix(secs: i64) -> (r: Option<Timestamp>)
        ensures
            r is Some <==> utc_representable(secs as int),
            r matches Some(t) ==> t@ == secs as int,
    {
        if utc_in_range(secs) {
            Some(Timestamp { secs })
        } else {
            None
        }
    }

    /// The number of seconds since the Unix epoch.
    pub fn unix_seconds(&self) -> (r: i64)
        ensures
            r as int == self@,
    {
        self.secs
    }

    /// The key of the slot that this instant falls into at granularity `r`.
    pub fn slot_key(&self, r: Resolution) -> (k: String)
        ensures
            k@ == slot_key_of(self@, r),
    {
        proof {
            use_type_invariant(self);
        }
        format_utc(self.secs, r.pattern())
    }
}

} // verus!
