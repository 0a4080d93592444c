//! Points in time, as the models hold them and as the database stores them.

use vstd::prelude::*;
use chrono::Timelike;

verus! {

/// The earliest second that a date-time can hold, counted from 1970-01-01T00:00:00Z.
pub const MIN_SECONDS: i64 = -8_334_601_228_800;

/// The latest second that a date-time can hold, counted from 1970-01-01T00:00:00Z.
pub const MAX_SECONDS: i64 = 8_210_266_876_799;

/// Bound on the nanoseconds within a second; a leap second uses the upper half.
pub const NANOS_BOUND: u32 = 2_000_000_000;

/// Bound on an offset from UTC, in seconds to either side.
pub const OFFSET_BOUND: i32 = 86_400;

/// A point in time: whole seconds since 1970-01-01T00:00:00Z, and the
/// nanoseconds within that second.
pub ghost struct Instant {
    pub seconds: i64,
    pub nanos: u32,
}

impl Instant {
    /// Whether a date-time can hold this point.
    pub open spec fn in_range(self) -> bool {
        MIN_SECONDS <= self.seconds <= MAX_SECONDS && self.nanos < NANOS_BOUND
    }
}

/// The RFC 3339 text that `chrono` writes for the UTC date-time at `seconds` and `nanos`.
pub uninterp spec fn rfc3339(seconds: i64, nanos: u32) -> Seq<char>;

/// `chrono::DateTime::<Utc>::to_rfc3339`, on the UTC date-time at `seconds` and
/// `nanos`. The text depends on nothing else; its layout is left to `chrono`.
#[verifier::external_body]
fn chrono_to_rfc3339(seconds: i64, nanos: u32) -> (text: String)
    requires
        (Instant { seconds, nanos }).in_range(),
    ensures
        text@ == rfc3339(seconds, nanos),
{
    let second = chrono::DateTime::from_timestamp(seconds, 0).unwrap().naive_utc();
    let value = second.with_nanosecond(nanos).unwrap().and_utc();
    value.to_rfc3339()
}

/// `chrono::DateTime::<Utc>::fixed_offset`, on the UTC date-time at `seconds` and
/// `nanos`. The result is the same instant at offset zero: its seconds, its
/// nanoseconds and its offset in seconds east of UTC.
#[verifier::external_body]
fn chrono_fixed_offset(seconds: i64, nanos: u32) -> (stored: (i64, u32, i32))
    requires
        (Instant { seconds, nanos }).in_range(),
    ensures
        stored == (seconds, nanos, 0i32),
{
    let second = chrono::DateTime::from_timestamp(seconds, 0).unwrap().naive_utc();
    let value = second.with_nanosecond(nanos).unwrap().and_utc();
    let fixed = value.fixed_offset();
    (fixed.timestamp(), fixed.timestamp_subsec_nanos(), fixed.offset().local_minus_utc())
}

/// `chrono::DateTime::<FixedOffset>::with_timezone(&Utc)`, on the date-time at
/// `seconds` and `nanos` with `offset` seconds east of UTC. The result is the same
/// instant seen from UTC: its seconds and its nanoseconds.
#[verifier::external_body]
fn chrono_with_utc(seconds: i64, nanos: u32, offset: i32) -> (instant: (i64, u32))
    requires
        (Instant { seconds, nanos }).in_range(),
        -OFFSET_BOUND < offset < OFFSET_BOUND,
    ensures
        instant == (seconds, nanos),
{
    let second = chrono::DateTime::from_timestamp(seconds, 0).unwrap().naive_utc();
    let east = chrono::FixedOffset::east_opt(offset).unwrap();
    let utc = second.with_nanosecond(nanos).unwrap();
    let stored = chrono::DateTime::<chrono::FixedOffset>::from_naive_utc_and_offset(utc, east);
    let value = stored.with_timezone(&chrono::Utc);
    (value.timestamp(), value.timestamp_subsec_nanos())
}

/// A date-time in UTC.
#[derive(Clone, Copy, Debug, PartialEq, Eq)]
pub struct UtcDateTime {
    seconds: i64,
    nanos: u32,
}

impl View for UtcDateTime {
    type V = Instant;

    closed spec fn view(&self) -> Instant {
        Instant { seconds: self.seconds, nanos: self.nanos }
    }
}

impl DeepView for UtcDateTime {
    type V = Instant;

    open spec fn deep_view(&self) -> Instant {
        self@
    }
}

impl UtcDateTime {
    #[verifier::type_invariant]
    spec fn well_formed(self) -> bool {
        self@.in_range()
    }

    /// The UTC date-time at `seconds` and `nanos`, if a date-time can hold it.
    pub fn new(seconds: i64, nanos: u32) -> (value: Option<UtcDateTime>)
        ensures
            value is Some <==> (Instant { seconds, nanos }).in_range(),
            value matches Some(at) ==> at@ == (Instant { seconds, nanos }),
    {
        if MIN_SECONDS <= seconds && seconds <= MAX_SECONDS && nanos < NANOS_BOUND {
            Some(UtcDateTime { seconds, nanos })
        } else {
            None
        }
    }

    /// The whole seconds since 1970-01-01T00:00:00Z.
    pub fn seconds(&self) -> (seconds: i64)
        ensures
            seconds == self@.seconds,
            MIN_SECONDS <= seconds <= MAX_SECONDS,
    {
        proof {
            use_type_invariant(self);
        }
        self.seconds
    }

    /// The nanoseconds within the second.
    pub fn nanos(&self) -> (nanos: u32)
        ensures
            nanos == self@.nanos,
            nanos < NANOS_BOUND,
    {
        proof {
            use_type_invariant(self);
        }
        self.nanos
    }

    /// The RFC 3339 text of this date-time.
    pub fn to_rfc3339(&self) -> (text: String)
        ensures
            text@ == rfc3339(self@.seconds, self@.nanos),
    {
        proof {
            use_type_invariant(self);
        }
        chrono_to_rfc3339(self.seconds, self.nanos)
    }

    /// The same instant as a stored date-time, at offset zero.
    pub fn fixed_offset(&self) -> (stored: OffsetDateTime)
        ensures
            stored@ == (Stored { instant: self@, offset: 0 }),
    {
        proof {
            use_type_invariant(self);
        }
        let (seconds, nanos, offset) = chrono_fixed_offset(self.seconds, self.nanos);
        OffsetDateTime { seconds, nanos, offset }
    }
}

/// A point in time with the offset from UTC, in seconds east, that it is written at.
pub ghost struct Stored {
    pub instant: Instant,
    pub offset: i32,
}

impl Stored {
    /// Whether a stored date-time can hold this value.
    pub open spec fn in_range(self) -> bool {
        self.instant.in_range() && -OFFSET_BOUND < self.offset < OFFSET_BOUND
    }
}

/// A date-time with a fixed offset, as the database stores it.
#[derive(Clone, Copy, Debug, PartialEq, Eq)]
pub struct OffsetDateTime {
    seconds: i64,
    nanos: u32,
    offset: i32,
}

impl View for OffsetDateTime {
    type V = Stored;

    closed spec fn view(&self) -> Stored {
        Stored {
            instant: Instant { seconds: self.seconds, nanos: self.nanos },
            offset: self.offset,
        }
    }
}

impl DeepView for OffsetDateTime {
    type V = Stored;

    open spec fn deep_view(&self) -> Stored {
        self@
    }
}

impl OffsetDateTime {
    #[verifier::type_invariant]
    spec fn well_formed(self) -> bool {
        self@.in_range()
    }

    /// The date-time of the instant at `seconds` and `nanos`, written at `offset`
    /// seconds east of UTC, if a date-time can hold it.
    pub fn new(seconds: i64, nanos: u32, offset: i32) -> (value: Option<OffsetDateTime>)
        ensures
            value is Some <==> (Stored { instant: Instant { seconds, nanos }, offset }).in_range(),
            value matches Some(at) ==> at@ == (Stored {
                instant: Instant { seconds, nanos },
                offset,
            }),
    {
        if MIN_SECONDS <= seconds && seconds <= MAX_SECONDS && nanos < NANOS_BOUND
            && -OFFSET_BOUND < offset && offset < OFFSET_BOUND {
            Some(OffsetDateTime { seconds, nanos, offset })
        } else {
            None
        }
    }

    /// The whole seconds since 1970-01-01T00:00:00Z.
    pub fn seconds(&self) -> (seconds: i64)
        ensures
            seconds == self@.instant.seconds,
            MIN_SECONDS <= seconds <= MAX_SECONDS,
    {
        proof {
            use_type_invariant(self);
        }
        self.seconds
    }

    /// The nanoseconds within the second.
    pub fn nanos(&self) -> (nanos: u32)
        ensures
            nanos == self@.instant.nanos,
            nanos < NANOS_BOUND,
    {
        proof {
            use_type_invariant(self);
        }
        self.nanos
    }

    /// The offset from UTC, in seconds east.
    pub fn offset(&self) -> (offset: i32)
        ensures
            offset == self@.offset,
            -OFFSET_BOUND < offset < OFFSET_BOUND,
    {
        proof {
            use_type_invariant(self);
        }
        self.offset
    }

    /// The same instant in UTC.
    pub fn to_utc(&self) -> (value: UtcDateTime)
        ensures
            value@ == self@.instant,
    {
        proof {
            use_type_invariant(self);
        }
        let (seconds, nanos) = chrono_with_utc(self.seconds, self.nanos, self.offset);
        UtcDateTime { seconds, nanos }
    }
}

/// A date-time can hold every point of the calendar from the first second of the year
/// -262143 to the last of the year 262142, down to the nanosecond and with leap seconds, and
/// no other; it can be written at any offset of less than a day.
pub proof fn law_range_of_date_times(seconds: i64, nanos: u32, offset: i32)
    ensures
        (Instant { seconds, nanos }).in_range() <==> -8_334_601_228_800 <= seconds
            <= 8_210_266_876_799 && nanos < 2_000_000_000,
        (Stored { instant: Instant { seconds, nanos }, offset }).in_range() <==> (Instant {
            seconds,
            nanos,
        }).in_range() && -86_400 < offset < 86_400,
{
}

/// A date-time is told apart from others by its instant, and a stored one by its instant and
/// its offset, wherever they stand.
pub proof fn law_content_of_a_date_time(at: UtcDateTime, stored: OffsetDateTime)
    ensures
        at.deep_view() == at@,
        stored.deep_view() == stored@,
{
}

} // verus!
