//! A point in time together with the offset of the zone it is shown in.

use crate::calendar::{local_now, local_offset_at};
use vstd::prelude::*;
use vstd::std_specs::cmp::PartialEqSpecImpl;

verus! {

/// The first second that an instant can hold, counted from the Unix epoch:
/// midnight of 1 January of the year -262143.
pub const MIN_SECS: i64 = -8_334_601_228_800;

/// The last second that an instant can hold, counted from the Unix epoch:
/// 23:59:59 of 31 December of the year 262142.
pub const MAX_SECS: i64 = 8_210_266_876_799;

/// Nanoseconds in one second.
pub const NANOS_PER_SEC: u32 = 1_000_000_000;

/// Seconds in one day. An offset from UTC is strictly smaller in magnitude.
pub const DAY_SECS: i32 = 86_400;

/// Whether `secs` seconds and `nanos` nanoseconds after the Unix epoch name a
/// point in time that an instant can hold. A nanosecond part of a second or
/// more stands for a leap second, which can only follow the 59th second of a
/// minute.
pub open spec fn valid_point(secs: int, nanos: int) -> bool {
    &&& MIN_SECS <= secs <= MAX_SECS
    &&& 0 <= nanos < 2 * NANOS_PER_SEC
    &&& (nanos >= NANOS_PER_SEC ==> secs % 60 == 59)
}

/// Whether `offset` seconds east of UTC is an offset that a zone can have.
pub open spec fn valid_offset(offset: int) -> bool {
    -DAY_SECS < offset < DAY_SECS
}

/// The mathematical value of an [`Instant`].
pub ghost struct Moment {
    /// Whole seconds since the Unix epoch, leap seconds not counted.
    pub secs: int,
    /// Nanoseconds since the start of that second.
    pub nanos: int,
    /// Seconds that the local clock is ahead of UTC.
    pub offset: int,
}

impl Moment {
    /// Whether the three parts form an instant.
    pub open spec fn valid(self) -> bool {
        valid_point(self.secs, self.nanos) && valid_offset(self.offset)
    }

    /// Whether both moments name the same point in time, whatever their
    /// offsets.
    pub open spec fn same_point(self, other: Moment) -> bool {
        self.secs == other.secs && self.nanos == other.nanos
    }

    /// The same point in time, shown at another offset.
    pub open spec fn at_offset(self, offset: int) -> Moment {
        Moment { secs: self.secs, nanos: self.nanos, offset }
    }

    /// The start of the second in which the moment lies; within a leap
    /// second, the start of the leap second.
    pub open spec fn whole_second(self) -> Moment {
        Moment {
            secs: self.secs,
            nanos: if self.nanos >= NANOS_PER_SEC {
                NANOS_PER_SEC as int
            } else {
                0
            },
            offset: self.offset,
        }
    }

    /// The moment with the parts `(secs, nanos, offset)`, where there are
    /// parts and they form an instant.
    pub open spec fn of_parts(parts: Option<(int, int, int)>) -> Option<Moment> {
        match parts {
            Some((secs, nanos, offset)) => if valid_point(secs, nanos) && valid_offset(offset) {
                Some(Moment { secs, nanos, offset })
            } else {
                None
            },
            None => None,
        }
    }
}

/// A point in time with the offset from UTC of the zone it is shown in.
///
/// Two instants are equal when they name the same point in time; the offset
/// only decides how the instant is written out.
#[derive(Clone, Copy, Debug)]
pub struct Instant {
    secs: i64,
    nanos: u32,
    offset: i32,
}

impl View for Instant {
    type V = Moment;

    closed spec fn view(&self) -> Moment {
        Moment { secs: self.secs as int, nanos: self.nanos as int, offset: self.offset as int }
    }
}

impl Instant {
    /// Every instant is valid.
    #[verifier::type_invariant]
    pub open spec fn well_formed(self) -> bool {
        self@.valid()
    }

    /// The instant with the given parts, where they form one.
    pub fn new(secs: i64, nanos: u32, offset: i32) -> (r: Option<Instant>)
        ensures
            r is Some <==> valid_point(secs as int, nanos as int) && valid_offset(offset as int),
            r is Some ==> r.unwrap()@ == (Moment {
                secs: secs as int,
                nanos: nanos as int,
                offset: offset as int,
            }),
    {
        if secs < MIN_SECS || secs > MAX_SECS || nanos >= 2 * NANOS_PER_SEC {
            return None;
        }
        if offset <= -DAY_SECS || offset >= DAY_SECS {
            return None;
        }
        if nanos >= NANOS_PER_SEC {
            match secs.checked_rem_euclid(60) {
                Some(59) => {},
                _ => {
                    return None;
                },
            }
        }
        Some(Instant { secs, nanos, offset })
    }

    /// Whole seconds since the Unix epoch.
    pub fn secs(&self) -> (r: i64)
        ensures
            r == self@.secs,
    {
        self.secs
    }

    /// Nanoseconds since the start of the second; a thousand million or more
    /// within a leap second.
    pub fn nanos(&self) -> (r: u32)
        ensures
            r == self@.nanos,
    {
        self.nanos
    }

    /// Seconds that the local clock is ahead of UTC.
    pub fn offset(&self) -> (r: i32)
        ensures
            r == self@.offset,
    {
        self.offset
    }

    /// The start of the second in which the instant lies; within a leap
    /// second, the start of the leap second.
    pub fn whole_second(&self) -> (r: Instant)
        ensures
            r@ == self@.whole_second(),
    {
        proof {
            use_type_invariant(self);
        }
        let nanos: u32 = if self.nanos >= NANOS_PER_SEC {
            NANOS_PER_SEC
        } else {
            0
        };
        Instant { secs: self.secs, nanos, offset: self.offset }
    }

    /// The same point in time, shown at `offset`, where that is an offset a
    /// zone can have.
    pub fn with_offset(&self, offset: i32) -> (r: Option<Instant>)
        ensures
            r is Some <==> valid_offset(offset as int),
            r is Some ==> r.unwrap()@ == self@.at_offset(offset as int),
    {
        proof {
            use_type_invariant(self);
        }
        if offset <= -DAY_SECS || offset >= DAY_SECS {
            None
        } else {
            Some(Instant { secs: self.secs, nanos: self.nanos, offset })
        }
    }

    /// The same point in time, shown at the offset at which `other` is shown.
    pub fn in_zone_of(&self, other: &Instant) -> (r: Instant)
        ensures
            r@ == self@.at_offset(other@.offset),
    {
        proof {
            use_type_invariant(self);
            use_type_invariant(other);
        }
        Instant { secs: self.secs, nanos: self.nanos, offset: other.offset }
    }

    /// The current time by the machine's clock, shown in the machine's zone.
    /// It lies outside a leap second; nothing else is known of it.
    pub fn now() -> (r: Instant)
        ensures
            r@.nanos < NANOS_PER_SEC,
    {
        let (secs, nanos, offset): (i64, u32, i32) = local_now();
        Instant { secs, nanos, offset }
    }

    /// The same point in time, shown in the machine's zone. Which offset the
    /// zone has there is the machine's matter.
    pub fn to_local(&self) -> (r: Instant)
        ensures
            r@.same_point(self@),
    {
        proof {
            use_type_invariant(self);
        }
        let offset: i32 = local_offset_at(self.secs, self.nanos);
        Instant { secs: self.secs, nanos: self.nanos, offset }
    }
}

impl PartialEq for Instant {
    fn eq(&self, other: &Instant) -> (r: bool) {
        self.secs == other.secs && self.nanos == other.nanos
    }
}

impl PartialEqSpecImpl for Instant {
    open spec fn obeys_eq_spec() -> bool {
        true
    }

    open spec fn eq_spec(&self, other: &Instant) -> bool {
        self@.same_point(other@)
    }
}

} // verus!
