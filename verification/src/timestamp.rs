//! Moments in Coordinated Universal Time.

use vstd::prelude::*;

verus! {

/// The first second that a timestamp can name: the start of the year -262143.
pub const MIN_SECONDS: i64 = -8334601228800;

/// The last second that a timestamp can name: the end of the year 262142.
pub const MAX_SECONDS: i64 = 8210266876799;

/// Whether `secs` whole seconds after the Unix epoch and `nanos` nanoseconds name
/// a moment. The nanoseconds exceed a second only inside a leap second, which
/// follows the last second of a minute.
pub open spec fn is_moment(secs: int, nanos: int) -> bool {
    &&& MIN_SECONDS <= secs <= MAX_SECONDS
    &&& 0 <= nanos < 2_000_000_000
    &&& nanos >= 1_000_000_000 ==> secs % 60 == 59
}

/// `chrono::DateTime::from_timestamp`, with the moment that it makes taken apart
/// again by `timestamp` and `timestamp_subsec_nanos`: a moment comes back with
/// the seconds and nanoseconds that were given exactly where these name one.
#[verifier::external_body]
fn utc_from_timestamp(secs: i64, nsecs: u32) -> (r: Option<(i64, u32)>)
    ensures
        r == (if is_moment(secs as int, nsecs as int) {
            Some((secs, nsecs))
        } else {
            None
        }),
{
    chrono::DateTime::from_timestamp(secs, nsecs).map(
        |t| (t.timestamp(), t.timestamp_subsec_nanos()),
    )
}

/// `chrono::Utc::now`, with the moment taken apart by `timestamp` and
/// `timestamp_subsec_nanos`: some moment at or after the Unix epoch. Which one it
/// is depends on the machine's clock; where that clock stands before the epoch or
/// past the last moment, the call does not return.
#[verifier::external_body]
fn utc_now() -> (r: (i64, u32))
    ensures
        is_moment(r.0 as int, r.1 as int),
        r.0 >= 0,
        r.1 < 1_000_000_000,
{
    let t = chrono::Utc::now();
    (t.timestamp(), t.timestamp_subsec_nanos())
}

/// A moment in Coordinated Universal Time, to the nanosecond.
#[derive(Debug, Clone, Copy, PartialEq, Eq, Structural)]
pub struct Timestamp {
    secs: i64,
    nanos: u32,
}

/// The model of `Timestamp`: the whole seconds after the Unix epoch and the
/// nanoseconds after that second.
pub struct TimestampView {
    pub secs: int,
    pub nanos: int,
}

impl TimestampView {
    /// Whether the seconds and nanoseconds name a moment.
    pub open spec fn is_moment(self) -> bool {
        is_moment(self.secs, self.nanos)
    }

    /// Whether this moment is earlier than the other.
    pub open spec fn before(self, other: TimestampView) -> bool {
        self.secs < other.secs || (self.secs == other.secs && self.nanos < other.nanos)
    }
}

impl View for Timestamp {
    type V = TimestampView;

    closed spec fn view(&self) -> TimestampView {
        TimestampView { secs: self.secs as int, nanos: self.nanos as int }
    }
}

impl Timestamp {
    #[verifier::type_invariant]
    closed spec fn inv(self) -> bool {
        is_moment(self.secs as int, self.nanos as int)
    }

    /// The moment `secs` whole seconds after the Unix epoch and `nsecs`
    /// nanoseconds later, where there is one.
    pub fn from_timestamp(secs: i64, nsecs: u32) -> (r: Option<Timestamp>)
        ensures
            match r {
                Some(t) => {
                    &&& is_moment(secs as int, nsecs as int)
                    &&& t@ == (TimestampView { secs: secs as int, nanos: nsecs as int })
                },
                None => !is_moment(secs as int, nsecs as int),
            },
    {
        match utc_from_timestamp(secs, nsecs) {
            Some((secs, nanos)) => Some(Timestamp { secs, nanos }),
            None => None,
        }
    }

    /// The present moment.
    pub fn now() -> (r: Timestamp)
        ensures
            r@.is_moment(),
            r@.secs >= 0,
            r@.nanos < 1_000_000_000,
    {
        let (secs, nanos) = utc_now();
        Timestamp { secs, nanos }
    }

    /// The whole seconds after the Unix epoch.
    pub fn timestamp(&self) -> (r: i64)
        ensures
            r == self@.secs,
            self@.is_moment(),
    {
        proof {
            use_type_invariant(self);
        }
        self.secs
    }

    /// The nanoseconds after the last whole second.
    pub fn timestamp_subsec_nanos(&self) -> (r: u32)
        ensures
            r == self@.nanos,
            self@.is_moment(),
    {
        proof {
            use_type_invariant(self);
        }
        self.nanos
    }

    /// Whether this moment is earlier than the other.
    pub fn is_before(&self, other: &Timestamp) -> (r: bool)
        ensures
            r == self@.before(other@),
    {
        self.secs < other.secs || (self.secs == other.secs && self.nanos < other.nanos)
    }
}

/// Two timestamps are the same exactly where their seconds and nanoseconds are.
pub proof fn law_moments_are_told_apart(a: Timestamp, b: Timestamp)
    ensures
        a@ == b@ <==> a == b,
{
}

/// Of two moments exactly one holds: the first is earlier, they are the same, or
/// the second is earlier; and "earlier" passes on from moment to moment.
pub proof fn law_moments_are_ordered(a: TimestampView, b: TimestampView, c: TimestampView)
    ensures
        a.before(b) || a == b || b.before(a),
        !(a.before(b) && b.before(a)),
        !a.before(a),
        a.before(b) && b.before(c) ==> a.before(c),
{
}

/// Earlier means earlier in time: by whole seconds first, and inside a second by
/// nanoseconds, of which a leap second makes it hold up to twice as many.
pub proof fn law_earlier_is_by_time(a: TimestampView, b: TimestampView)
    requires
        0 <= a.nanos < 2_000_000_000,
        0 <= b.nanos < 2_000_000_000,
    ensures
        a.before(b) <==> a.secs * 2_000_000_000 + a.nanos < b.secs * 2_000_000_000 + b.nanos,
{
}

/// Every nanosecond of the years -262143 to 262142 is a moment, and outside of them
/// there is none.
pub proof fn law_every_second_in_range_is_a_moment(secs: int, nanos: int)
    requires
        0 <= nanos < 1_000_000_000,
    ensures
        is_moment(secs, nanos) <==> -8334601228800 <= secs <= 8210266876799,
{
}

/// A leap second is a moment exactly where it follows the last second of a minute, and
/// no second is longer than two.
pub proof fn law_leap_seconds(secs: int, nanos: int)
    requires
        nanos >= 1_000_000_000,
    ensures
        is_moment(secs, nanos) <==> -8334601228800 <= secs <= 8210266876799 && secs % 60 == 59
            && nanos < 2_000_000_000,
{
}

} // verus!
