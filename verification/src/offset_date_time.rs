//! Dates of the calendar with the time zone that they are written in.
use vstd::prelude::*;

use crate::timestamp;
use crate::timestamp::Timestamp;

verus! {

/// The most seconds that the clocks of a time zone are ahead of UTC, or behind it.
pub const OFFSET_MAX_SECONDS: i32 = 93_599;

/// A date and a time of day between the years -9999 and 9999, as the clocks of a
/// time zone show them. Its moment may lie just outside of those years.
#[derive(Clone, Copy, Debug)]
pub struct OffsetDateTime {
    local_nanoseconds: i128,
    offset_seconds: i32,
}

/// What an [`OffsetDateTime`] says: the date and the time of day, as nanoseconds
/// from the start of 1970 on the same clocks, and how far these are ahead of UTC.
pub struct OffsetDateTimeView {
    pub local_nanoseconds: int,
    pub offset_seconds: int,
}

impl OffsetDateTimeView {
    /// A moment, written in UTC.
    pub open spec fn utc(moment: int) -> OffsetDateTimeView {
        OffsetDateTimeView { local_nanoseconds: moment, offset_seconds: 0 }
    }

    /// The moment at which the clocks show this, as nanoseconds from the Unix epoch.
    pub open spec fn moment(self) -> int {
        self.local_nanoseconds - self.offset_seconds * timestamp::NANOSECONDS_PER_SECOND
    }

    /// Whether an [`OffsetDateTime`] can say this.
    pub open spec fn representable(self) -> bool {
        &&& timestamp::representable(self.local_nanoseconds)
        &&& -OFFSET_MAX_SECONDS <= self.offset_seconds <= OFFSET_MAX_SECONDS
    }
}

impl View for OffsetDateTime {
    type V = OffsetDateTimeView;

    closed spec fn view(&self) -> OffsetDateTimeView {
        OffsetDateTimeView {
            local_nanoseconds: self.local_nanoseconds as int,
            offset_seconds: self.offset_seconds as int,
        }
    }
}

impl OffsetDateTime {
    #[verifier::type_invariant]
    closed spec fn in_range(self) -> bool {
        self@.representable()
    }

    /// What the clocks of a time zone show, unless it is out of range.
    pub fn new(local_nanoseconds: i128, offset_seconds: i32) -> (result: Option<OffsetDateTime>)
        ensures
            ({
                let date_time = OffsetDateTimeView {
                    local_nanoseconds: local_nanoseconds as int,
                    offset_seconds: offset_seconds as int,
                };
                &&& result is Some == date_time.representable()
                &&& result is Some ==> result->0@ == date_time
            }),
    {
        if timestamp::MIN_NANOSECONDS <= local_nanoseconds && local_nanoseconds
            <= timestamp::MAX_NANOSECONDS && -OFFSET_MAX_SECONDS <= offset_seconds
            && offset_seconds <= OFFSET_MAX_SECONDS {
            Some(OffsetDateTime { local_nanoseconds, offset_seconds })
        } else {
            None
        }
    }

    /// A moment, written in UTC.
    pub fn from_timestamp(moment: Timestamp) -> (result: OffsetDateTime)
        ensures
            result@ == OffsetDateTimeView::utc(moment@),
    {
        OffsetDateTime { local_nanoseconds: moment.as_nanoseconds(), offset_seconds: 0 }
    }

    /// The date and the time of day, as nanoseconds from the start of 1970 on the
    /// same clocks.
    pub fn local_nanoseconds(&self) -> (nanoseconds: i128)
        ensures
            nanoseconds == self@.local_nanoseconds,
            self@.representable(),
    {
        proof {
            use_type_invariant(self);
        }
        self.local_nanoseconds
    }

    /// How many seconds the clocks are ahead of UTC.
    pub fn offset_seconds(&self) -> (seconds: i32)
        ensures
            seconds == self@.offset_seconds,
            self@.representable(),
    {
        proof {
            use_type_invariant(self);
        }
        self.offset_seconds
    }

    /// The nanoseconds from the Unix epoch to the moment at which the clocks show
    /// this.
    pub fn unix_timestamp_nanos(&self) -> (nanoseconds: i128)
        ensures
            nanoseconds == self@.moment(),
    {
        self.local_nanoseconds() - self.offset_seconds() as i128 * timestamp::NANOSECONDS_PER_SECOND
    }

    /// Whether this is more than that many seconds after a moment.
    pub fn is_after_by(&self, moment: &Timestamp, seconds: u64) -> (result: bool)
        ensures
            result == (self@.moment() > moment@ + seconds * timestamp::NANOSECONDS_PER_SECOND),
    {
        proof {
            use_type_invariant(self);
        }
        self.unix_timestamp_nanos() > moment.as_nanoseconds() + seconds as i128
            * timestamp::NANOSECONDS_PER_SECOND
    }
}

/// Moving the clocks of a time zone ahead by a second moves the moment at which
/// they show a given time back by a second; on the clocks of UTC the two agree.
pub proof fn law_moment_goes_by_the_offset(date_time: OffsetDateTimeView, seconds: int)
    ensures
        date_time.offset_seconds == 0 ==> date_time.moment() == date_time.local_nanoseconds,
        (OffsetDateTimeView {
            offset_seconds: date_time.offset_seconds + seconds,
            ..date_time
        }).moment() == date_time.moment() - seconds * 1_000_000_000,
        OffsetDateTimeView::utc(date_time.moment()).moment() == date_time.moment(),
        OffsetDateTimeView::utc(date_time.moment()).offset_seconds == 0,
        date_time.representable() <==> {
            &&& timestamp::representable(date_time.local_nanoseconds)
            &&& -93_600 < date_time.offset_seconds < 93_600
        },
{
}

}
