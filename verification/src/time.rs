//! Instants in UTC, and the calls into `chrono` that read the clock and convert
//! between instants and their RFC 3339 text.

use vstd::prelude::*;

verus! {

/// The earliest second that a timestamp can hold: the start of the year
/// -262143, which is the second of `chrono::DateTime::<Utc>::MIN_UTC`.
pub const MIN_SECONDS: i64 = -8_334_601_228_800;

/// The latest second that a timestamp can hold: the last second of the year
/// 262142, which is the second of `chrono::DateTime::<Utc>::MAX_UTC`.
pub const MAX_SECONDS: i64 = 8_210_266_876_799;

/// Nanoseconds in one second.
pub const NANOS_PER_SECOND: u32 = 1_000_000_000;

/// The mathematical value of a [`Timestamp`]: seconds since 1970-01-01T00:00:00Z
/// (leap seconds not counted) and nanoseconds past that second.
pub ghost struct Instant {
    pub secs: int,
    pub nanos: int,
}

impl Instant {
    /// The instant with these seconds and nanoseconds.
    pub open spec fn at(secs: int, nanos: int) -> Instant {
        Instant { secs, nanos }
    }

    /// Whether `self` lies strictly before `other`: by the seconds, then by the nanoseconds.
    pub open spec fn precedes(self, other: Instant) -> bool {
        self.secs < other.secs || (self.secs == other.secs && self.nanos < other.nanos)
    }

    /// The later of the two; `self` where neither precedes the other.
    pub open spec fn later_of(self, other: Instant) -> Instant {
        if self.precedes(other) {
            other
        } else {
            self
        }
    }
}

/// Whether a pair of seconds and nanoseconds denotes an instant that
/// `chrono::DateTime::from_timestamp` accepts. The nanoseconds reach past one
/// second only to write a leap second, in the last second of a minute.
pub open spec fn representable(secs: int, nanos: int) -> bool {
    &&& MIN_SECONDS <= secs <= MAX_SECONDS
    &&& 0 <= nanos < 2 * NANOS_PER_SECOND
    &&& nanos >= NANOS_PER_SECOND ==> secs % 60 == 59
}

/// An instant in UTC. Every value is representable.
#[derive(Clone, Copy, Debug, PartialEq, Eq, Structural)]
pub struct Timestamp {
    secs: i64,
    nanos: u32,
}

impl View for Timestamp {
    type V = Instant;

    closed spec fn view(&self) -> Instant {
        Instant { secs: self.secs as int, nanos: self.nanos as int }
    }
}

/// The instant of an optional timestamp.
pub open spec fn instant_view(at: Option<Timestamp>) -> Option<Instant> {
    match at {
        Some(t) => Some(t@),
        None => None,
    }
}

/// The text that `chrono::DateTime::<Utc>::to_rfc3339` writes for the instant
/// with these seconds and nanoseconds.
pub uninterp spec fn rfc3339_text(secs: int, nanos: int) -> Seq<char>;

/// What `chrono::DateTime::parse_from_rfc3339` makes of a text: the instant it
/// denotes, or `None` where the text is refused.
pub uninterp spec fn rfc3339_instant(text: Seq<char>) -> Option<Instant>;

/// Reads the system clock with `std::time::SystemTime::now` and turns the
/// reading into a `chrono::DateTime<Utc>` with chrono's `From<SystemTime>`,
/// which takes a reading before 1970 as well as one after, and returns its
/// seconds and nanoseconds. Nothing is known of the instant that comes back but
/// that it is representable. (chrono holds no instant past the year 262142; a
/// clock would have to read one for the conversion to fail.)
#[verifier::external_body]
fn clock_now() -> (now: (i64, u32))
    ensures
        representable(now.0 as int, now.1 as int),
{
    let now = chrono::DateTime::<chrono::Utc>::from(std::time::SystemTime::now());
    (now.timestamp(), now.timestamp_subsec_nanos())
}

/// Writes an instant as RFC 3339 text with `chrono::DateTime::to_rfc3339`. The
/// instant becomes a `DateTime<Utc>` through `DateTime::from_timestamp`, which
/// accepts every representable pair.
#[verifier::external_body]
fn write_rfc3339(secs: i64, nanos: u32) -> (text: String)
    requires
        representable(secs as int, nanos as int),
    ensures
        text@ == rfc3339_text(secs as int, nanos as int),
{
    chrono::DateTime::from_timestamp(secs, nanos).unwrap().to_rfc3339()
}

/// Reads RFC 3339 text with `chrono::DateTime::parse_from_rfc3339`, moves the
/// result to UTC and returns its seconds and nanoseconds. The instant of a text
/// that is accepted is representable: the offset of such a text is a whole
/// number of minutes, so a second 60 stays the last second of a minute.
#[verifier::external_body]
fn read_rfc3339(text: &str) -> (parsed: Option<(i64, u32)>)
    ensures
        parsed matches Some(at) ==> representable(at.0 as int, at.1 as int) && rfc3339_instant(
            text@,
        ) == Some(Instant::at(at.0 as int, at.1 as int)),
        parsed is None ==> rfc3339_instant(text@) is None,
{
    let local = chrono::DateTime::parse_from_rfc3339(text).ok()?;
    let utc = local.with_timezone(&chrono::Utc);
    Some((utc.timestamp(), utc.timestamp_subsec_nanos()))
}

impl Timestamp {
    #[verifier::type_invariant]
    spec fn is_representable(self) -> bool {
        representable(self.secs as int, self.nanos as int)
    }

    /// The timestamp with these seconds and nanoseconds, where that pair is representable.
    pub fn new(secs: i64, nanos: u32) -> (made: Option<Timestamp>)
        ensures
            representable(secs as int, nanos as int) <==> made is Some,
            made matches Some(t) ==> t@ == Instant::at(secs as int, nanos as int),
    {
        if secs < MIN_SECONDS || secs > MAX_SECONDS {
            return None;
        }
        if nanos >= NANOS_PER_SECOND {
            if nanos - NANOS_PER_SECOND >= NANOS_PER_SECOND {
                return None;
            }
            if secs.checked_rem_euclid(60) != Some(59) {
                return None;
            }
        }
        Some(Timestamp { secs, nanos })
    }

    /// The current time.
    pub fn now() -> (now: Timestamp)
        ensures
            representable(now@.secs, now@.nanos),
    {
        let (secs, nanos) = clock_now();
        Timestamp { secs, nanos }
    }

    /// Seconds since 1970-01-01T00:00:00Z.
    pub fn secs(&self) -> (secs: i64)
        ensures
            secs == self@.secs,
            representable(self@.secs, self@.nanos),
    {
        proof {
            use_type_invariant(self);
        }
        self.secs
    }

    /// Nanoseconds past the second.
    pub fn nanos(&self) -> (nanos: u32)
        ensures
            nanos == self@.nanos,
            representable(self@.secs, self@.nanos),
    {
        proof {
            use_type_invariant(self);
        }
        self.nanos
    }

    /// Whether `self` lies strictly before `other`.
    pub fn is_before(&self, other: &Timestamp) -> (before: bool)
        ensures
            before == self@.precedes(other@),
    {
        self.secs < other.secs || (self.secs == other.secs && self.nanos < other.nanos)
    }

    /// The later of the two instants; `self` where neither lies before the other.
    pub fn later_of(self, other: Timestamp) -> (later: Timestamp)
        ensures
            later@ == self@.later_of(other@),
    {
        if self.is_before(&other) {
            other
        } else {
            self
        }
    }

    /// The instant as RFC 3339 text.
    pub fn to_rfc3339(&self) -> (text: String)
        ensures
            text@ == rfc3339_text(self@.secs, self@.nanos),
    {
        proof {
            use_type_invariant(self);
        }
        write_rfc3339(self.secs, self.nanos)
    }

    /// The instant that an RFC 3339 text denotes, or `None` where the text is not
    /// accepted.
    pub fn parse_rfc3339(text: &str) -> (parsed: Option<Timestamp>)
        ensures
            instant_view(parsed) == rfc3339_instant(text@),
    {
        match read_rfc3339(text) {
            Some((secs, nanos)) => Some(Timestamp { secs, nanos }),
            None => None,
        }
    }
}

} // verus!
