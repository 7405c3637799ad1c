//! Moments of the calendar, as nanoseconds from the Unix epoch.
use vstd::prelude::*;

verus! {

/// The first moment that a [`Timestamp`] can hold: the start of the year -9999.
pub const MIN_NANOSECONDS: i128 = -377_705_116_800_000_000_000;

/// The last moment that a [`Timestamp`] can hold: the end of the year 9999.
pub const MAX_NANOSECONDS: i128 = 253_402_300_799_999_999_999;

pub const NANOSECONDS_PER_SECOND: i128 = 1_000_000_000;

/// A moment between the years -9999 and 9999.
#[derive(Clone, Copy, Debug, PartialEq, Eq)]
pub struct Timestamp {
    nanoseconds: i128,
}

impl View for Timestamp {
    type V = int;

    closed spec fn view(&self) -> int {
        self.nanoseconds as int
    }
}

/// Whether a number of nanoseconds from the Unix epoch is a moment that a
/// [`Timestamp`] can hold.
pub open spec fn representable(nanoseconds: int) -> bool {
    MIN_NANOSECONDS <= nanoseconds <= MAX_NANOSECONDS
}

/// `time::Timestamp::now`, as nanoseconds from the Unix epoch. Nothing is said
/// of the clock but that it shows a moment that the type can hold.
#[verifier::external_body]
pub(crate) fn clock_nanoseconds() -> (nanoseconds: i128)
    ensures
        representable(nanoseconds as int),
{
    time::Timestamp::now().as_nanoseconds()
}

/// Whether a reading of the system clock gives a moment. Nothing but a reading
/// shows that it does.
pub closed spec fn clock_shows(moment: int) -> bool {
    exists|nanoseconds: i128| #[trigger]
        call_ensures(clock_nanoseconds, (), nanoseconds) && nanoseconds == moment
}

impl Timestamp {
    #[verifier::type_invariant]
    closed spec fn in_range(self) -> bool {
        representable(self.nanoseconds as int)
    }

    /// The moment that the system clock shows.
    pub fn now() -> (result: Timestamp)
        ensures
            representable(result@),
            clock_shows(result@),
    {
        Timestamp { nanoseconds: clock_nanoseconds() }
    }

    /// The moment that many nanoseconds from the Unix epoch, unless it is out of range.
    pub fn from_nanoseconds(nanoseconds: i128) -> (result: Option<Timestamp>)
        ensures
            result is Some == representable(nanoseconds as int),
            result is Some ==> result->0@ == nanoseconds,
    {
        if MIN_NANOSECONDS <= nanoseconds && nanoseconds <= MAX_NANOSECONDS {
            Some(Timestamp { nanoseconds })
        } else {
            None
        }
    }

    /// The nanoseconds from the Unix epoch to this moment.
    pub fn as_nanoseconds(&self) -> (nanoseconds: i128)
        ensures
            nanoseconds == self@,
            representable(self@),
    {
        proof {
            use_type_invariant(self);
        }
        self.nanoseconds
    }

    /// The moment that many seconds later, unless it is out of range.
    pub fn checked_add_seconds(&self, seconds: u64) -> (result: Option<Timestamp>)
        ensures
            result is Some == representable(self@ + seconds * NANOSECONDS_PER_SECOND),
            result is Some ==> result->0@ == self@ + seconds * NANOSECONDS_PER_SECOND,
    {
        Timestamp::from_nanoseconds(self.as_nanoseconds() + seconds as i128 * NANOSECONDS_PER_SECOND)
    }
}

/// A moment that the clock shows is one that a reading of it gave, to the
/// nanosecond, and it is in the range of the calendar.
pub(crate) proof fn law_clock_moment_is_a_reading(moment: int)
    requires
        clock_shows(moment),
    ensures
        representable(moment),
        call_ensures(clock_nanoseconds, (), moment as i128),
        moment as i128 == moment,
{
}

/// The moments that can be held run from the start of the year -9999 to the end of
/// the year 9999, without a gap.
pub proof fn law_moments_have_no_gap(moment: int)
    ensures
        representable(moment) <==> -377_705_116_800_000_000_000 <= moment
            < 253_402_300_800_000_000_000,
{
}

}
