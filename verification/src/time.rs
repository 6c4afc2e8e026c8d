//! Points in time on the UTC time line.

use vstd::prelude::*;

verus! {

/// The first second that a timestamp can name: the start of the year -262143.
pub const FIRST_SECOND: i64 = -8334601228800;

/// The last second that a timestamp can name: the end of the year 262142.
pub const LAST_SECOND: i64 = 8210266876799;

/// A point in time: whole seconds since the Unix epoch, rounded down, and the
/// nanoseconds that have passed since.
#[derive(Debug, Clone, Copy, PartialEq, Eq, Structural)]
pub struct Timestamp {
    pub secs: i64,
    pub nanos: u32,
}

impl DeepView for Timestamp {
    type V = Timestamp;

    open spec fn deep_view(&self) -> Timestamp {
        *self
    }
}

impl Timestamp {
    /// Whether the second lies in the range that can be named and the
    /// nanoseconds make up less than a second.
    pub open spec fn valid(self) -> bool {
        &&& FIRST_SECOND <= self.secs <= LAST_SECOND
        &&& self.nanos < 1_000_000_000
    }

    /// Nanoseconds since the Unix epoch.
    pub open spec fn total_nanos(self) -> int {
        self.secs * 1_000_000_000 + self.nanos
    }

    /// Milliseconds since the Unix epoch, rounded down.
    pub open spec fn total_millis(self) -> int {
        self.secs * 1000 + self.nanos / 1_000_000
    }

    /// Whether the point `millis` milliseconds later can be named.
    pub open spec fn reaches(self, millis: int) -> bool {
        FIRST_SECOND * 1_000_000_000 <= self.total_nanos() + millis * 1_000_000 < (LAST_SECOND + 1)
            * 1_000_000_000
    }

    /// The point `millis` milliseconds later.
    pub open spec fn later(self, millis: int) -> Timestamp {
        let nanos = self.total_nanos() + millis * 1_000_000;
        Timestamp {
            secs: (nanos / 1_000_000_000) as i64,
            nanos: (nanos % 1_000_000_000) as u32,
        }
    }

    /// Whether this is a valid timestamp.
    pub fn is_valid(&self) -> (r: bool)
        ensures
            r == self.valid(),
    {
        FIRST_SECOND <= self.secs && self.secs <= LAST_SECOND && self.nanos < 1_000_000_000
    }

    /// Milliseconds since the Unix epoch, rounded down.
    pub fn millis(&self) -> (r: i64)
        requires
            self.valid(),
        ensures
            r == self.total_millis(),
    {
        self.secs * 1000 + (self.nanos / 1_000_000) as i64
    }

    /// `chrono::DateTime::<Utc>::checked_add_signed` on this point and
    /// `chrono::TimeDelta::milliseconds(millis)`: the point that lies `millis`
    /// milliseconds later, and nothing exactly where that point is out of the
    /// range that can be named.
    #[verifier::external_body]
    pub(crate) fn checked_add_millis(&self, millis: i64) -> (r: Option<Timestamp>)
        requires
            self.valid(),
            millis > i64::MIN,
        ensures
            r == (if self.reaches(millis as int) {
                Some(self.later(millis as int))
            } else {
                None
            }),
    {
        let delta = chrono::TimeDelta::milliseconds(millis);
        let at = chrono::DateTime::from_timestamp(self.secs, self.nanos)?;
        let sum = at.checked_add_signed(delta)?;
        Some(Timestamp { secs: sum.timestamp(), nanos: sum.timestamp_subsec_nanos() })
    }

    /// The point that lies `millis` milliseconds later.
    pub fn plus_millis(&self, millis: i64) -> (r: Timestamp)
        requires
            self.valid(),
            self.reaches(millis as int),
            millis > i64::MIN,
        ensures
            r == self.later(millis as int),
    {
        match self.checked_add_millis(millis) {
            Some(at) => at,
            None => *self,
        }
    }
}

/// A later point is later by just as many milliseconds, and can be named where it
/// is reached.
pub proof fn law_later_is_later_by_as_much(now: Timestamp, millis: int)
    requires
        now.valid(),
        now.reaches(millis),
    ensures
        now.later(millis).valid(),
        now.later(millis).total_nanos() == now.total_nanos() + millis * 1_000_000,
        now.later(millis).total_millis() == now.total_millis() + millis,
{
    let nanos = now.total_nanos() + millis * 1_000_000;
    let later = now.later(millis);
    assert(nanos == (nanos / 1_000_000_000) * 1_000_000_000 + nanos % 1_000_000_000);
    assert(FIRST_SECOND <= nanos / 1_000_000_000 <= LAST_SECOND);
    assert(later.secs == nanos / 1_000_000_000);
    assert(later.nanos == nanos % 1_000_000_000);
    let (a, b) = (now.nanos as int, later.nanos as int);
    assert(a == (a / 1_000_000) * 1_000_000 + a % 1_000_000);
    assert(b == (b / 1_000_000) * 1_000_000 + b % 1_000_000);
}

}
