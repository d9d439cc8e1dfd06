//! The in-game night clock.
use vstd::prelude::*;
use vstd::std_specs::cmp::PartialOrdSpecImpl;

use core::cmp::Ordering;

use crate::{DECISECS_PER_HOUR, DECISECS_PER_SEC, SECS_PER_HOUR, SECS_PER_MIN};

verus! {

/// A reading of the in-game clock, with how many readings in a row were rejected.
#[derive(Debug, Clone, Copy, PartialEq, Eq, Hash, Structural)]
pub struct ClockTime {
    /// One hour is 45 seconds. A night is 4 minutes 30 seconds, or 270 seconds -- 2700 deciseconds.
    /// This can be expressed in 12 bits as 0b101010001100.
    pub deciseconds: u16,
    pub pings_since_change: u32,
}

/// Largest jump forward that [`ClockTime::update_time`] accepts at once, exclusive,
/// unless enough readings were rejected in a row.
pub const MAX_JUMP: u16 = 10;

/// Readings rejected in a row after which any later reading is accepted.
pub const MAX_PINGS: u32 = 10;

/// Whether [`ClockTime::update_time`] takes `new_time` as the clock's new reading.
pub open spec fn accepts(old: ClockTime, new_time: u16) -> bool {
    &&& new_time > old.deciseconds
    &&& new_time <= ClockTime::MAX
    &&& new_time > 0
    &&& (new_time - old.deciseconds < MAX_JUMP || old.pings_since_change > MAX_PINGS)
}

/// The clock after [`ClockTime::update_time`] is given `new_time`.
pub open spec fn updated(old: ClockTime, new_time: u16) -> ClockTime {
    if accepts(old, new_time) {
        ClockTime { deciseconds: new_time, pings_since_change: 0 }
    } else {
        ClockTime {
            deciseconds: old.deciseconds,
            pings_since_change: (old.pings_since_change + 1) as u32,
        }
    }
}

impl Default for ClockTime {
    fn default() -> (c: Self)
        ensures
            c == ClockTime::new_spec(0),
    {
        Self::new(0)
    }
}

impl ClockTime {
    /// Largest time of a night, in deciseconds
    pub const MAX: u16 = 2700;

    pub open spec fn new_spec(deciseconds: u16) -> ClockTime {
        ClockTime { deciseconds, pings_since_change: 0 }
    }

    pub fn new(deciseconds: u16) -> (c: Self)
        ensures
            c == Self::new_spec(deciseconds),
    {
        Self { deciseconds, pings_since_change: 0 }
    }

    pub fn deciseconds(&self) -> (d: u16)
        ensures
            d == self.deciseconds,
    {
        self.deciseconds
    }

    pub fn pings_since_change(&self) -> (p: u32)
        ensures
            p == self.pings_since_change,
    {
        self.pings_since_change
    }

    pub open spec fn seconds_spec(self) -> int {
        (self.deciseconds / DECISECS_PER_SEC) as int
    }

    pub open spec fn hour_spec(self) -> int {
        self.seconds_spec() / 45
    }

    /// It takes 1 bit more than a char to describe the number of seconds in a night.
    pub fn seconds(&self) -> (s: u16)
        ensures
            s == self.seconds_spec(),
    {
        self.deciseconds / DECISECS_PER_SEC
    }

    /// Whole real-time minutes.
    pub fn minutes(&self) -> (m: u16)
        ensures
            m == self.seconds_spec() / 60,
    {
        self.seconds() / SECS_PER_MIN
    }

    /// What hour of the night we are at
    pub fn hour(&self) -> (h: u16)
        ensures
            h == self.hour_spec(),
    {
        self.seconds() / SECS_PER_HOUR
    }

    /// Converts hours to deciseconds, for finding how many deciseconds we are through the current hour.
    pub fn whole_hour_deciseconds(&self) -> (d: u16)
        ensures
            d == self.hour_spec() * 450,
            d <= self.deciseconds,
    {
        let h = self.hour();
        assert(h * 450 <= self.deciseconds) by (nonlinear_arith)
            requires
                h == (self.deciseconds / 10) / 45,
        ;
        h * DECISECS_PER_HOUR
    }

    /// Finds how many deciseconds into the current hour we are.
    pub fn deciseconds_since_hour(&self) -> (d: u16)
        ensures
            d == self.deciseconds - self.hour_spec() * 450,
            d < DECISECS_PER_HOUR,
    {
        let w = self.whole_hour_deciseconds();
        assert(self.deciseconds - w < 450) by (nonlinear_arith)
            requires
                w == ((self.deciseconds / 10) / 45) * 450,
                self.deciseconds >= 0,
        ;
        self.deciseconds() - w
    }

    /// Updates [`Self::pings_since_change`] if the time is a duplicate or erroneous
    pub fn update_time(&mut self, new_time: u16)
        requires
            !accepts(*old(self), new_time) ==> old(self).pings_since_change < u32::MAX,
        ensures
            *final(self) == updated(*old(self), new_time),
            accepts(*old(self), new_time) ==> *final(self) == Self::new_spec(new_time),
            !accepts(*old(self), new_time) ==> *final(self) == (ClockTime {
                deciseconds: old(self).deciseconds,
                pings_since_change: (old(self).pings_since_change + 1) as u32,
            }),
    {
        if new_time > self.deciseconds && new_time <= ClockTime::MAX && new_time > 0 && ((new_time
            - self.deciseconds) < MAX_JUMP || self.pings_since_change > MAX_PINGS) {
            self.deciseconds = new_time;
            self.pings_since_change = 0;
        } else {
            self.pings_since_change = self.pings_since_change + 1;
        }
    }

    /// The numbers a clock shows: minutes, seconds within the minute, and the tenth of a second.
    ///
    /// A clock is shown as `minutes:seconds.tenth`, the seconds with two digits.
    pub fn display_parts(&self) -> (p: (u16, u16, u16))
        ensures
            p.0 == self.seconds_spec() / 60,
            p.1 == self.seconds_spec() % 60,
            p.2 == self.deciseconds % DECISECS_PER_SEC,
    {
        (self.minutes(), self.seconds() % SECS_PER_MIN, self.deciseconds() % DECISECS_PER_SEC)
    }
}

/// A reading never moves the clock backwards: the time after an update is the time before,
/// or a later reading within the night, at most [`ClockTime::MAX`].
pub proof fn lemma_update_never_rewinds(c: ClockTime, new_time: u16)
    ensures
        updated(c, new_time).deciseconds >= c.deciseconds,
        updated(c, new_time).deciseconds == c.deciseconds || (updated(c, new_time).deciseconds
            == new_time && new_time <= ClockTime::MAX),
{
}

/// A clock within the night stays within it: no reading moves it past [`ClockTime::MAX`].
pub proof fn lemma_update_stays_in_night(c: ClockTime, new_time: u16)
    requires
        c.deciseconds <= ClockTime::MAX,
    ensures
        updated(c, new_time).deciseconds <= ClockTime::MAX,
        new_time > ClockTime::MAX ==> updated(c, new_time).deciseconds == c.deciseconds,
{
}

/// A reading equal to the current time is always rejected, so repeating a reading only counts a
/// ping.
pub proof fn lemma_repeat_reading_rejected(c: ClockTime)
    ensures
        !accepts(c, c.deciseconds),
{
}

/// Once more than [`MAX_PINGS`] readings in a row were rejected, any later in-range reading is
/// taken, however far it jumps.
pub proof fn lemma_resync_after_pings(c: ClockTime, new_time: u16)
    requires
        c.pings_since_change > MAX_PINGS,
        c.deciseconds < new_time <= ClockTime::MAX,
    ensures
        updated(c, new_time) == ClockTime::new_spec(new_time),
{
}

/// The whole hours and the deciseconds since the hour add up to the clock's time.
pub proof fn lemma_hour_split(c: ClockTime)
    ensures
        c.hour_spec() * 450 + (c.deciseconds - c.hour_spec() * 450) == c.deciseconds,
        0 <= c.deciseconds - c.hour_spec() * 450 < DECISECS_PER_HOUR,
{
    assert(0 <= c.deciseconds - c.hour_spec() * 450 < 450) by (nonlinear_arith)
        requires
            c.hour_spec() == (c.deciseconds / 10) / 45,
            c.deciseconds >= 0,
    ;
}

/// Clock readings are ordered by their time alone.
impl PartialOrd for ClockTime {
    fn partial_cmp(&self, other: &Self) -> (o: Option<Ordering>) {
        if self.deciseconds < other.deciseconds {
            Some(Ordering::Less)
        } else if self.deciseconds == other.deciseconds {
            Some(Ordering::Equal)
        } else {
            Some(Ordering::Greater)
        }
    }
}

impl PartialOrdSpecImpl for ClockTime {
    open spec fn obeys_partial_cmp_spec() -> bool {
        true
    }

    open spec fn partial_cmp_spec(&self, other: &Self) -> Option<Ordering> {
        if self.deciseconds < other.deciseconds {
            Some(Ordering::Less)
        } else if self.deciseconds == other.deciseconds {
            Some(Ordering::Equal)
        } else {
            Some(Ordering::Greater)
        }
    }
}

} // verus!
