//! The time of day shown on the face, and the steps that move it.
//!
//! A [`Time`] is one of the 24 x 60 states `(hours, minutes)` of a day. The
//! four steps move it by one hour or one minute in either direction and wrap
//! around at the ends, so each of them maps the legal states onto themselves
//! and is undone by its opposite.

use vstd::prelude::*;

verus! {

/// Hours in a day: the hour field counts `0..HOURS_PER_DAY`.
pub const HOURS_PER_DAY: u8 = 24;

/// Minutes in an hour: the minute field counts `0..MINUTES_PER_HOUR`.
pub const MINUTES_PER_HOUR: u8 = 60;

/// Minutes in a day: the number of legal states.
pub const MINUTES_PER_DAY: u16 = 1440;

/// A time of day, to the minute.
#[derive(Clone, Copy, Debug, PartialEq, Eq, Structural)]
pub struct Time {
    pub hours: u8,
    pub minutes: u8,
}

impl Time {
    /// The legal states: `hours` in `0..24` and `minutes` in `0..60`.
    pub open spec fn wf(self) -> bool {
        self.hours < HOURS_PER_DAY && self.minutes < MINUTES_PER_HOUR
    }

    /// Minutes since midnight. On legal states this numbers them `0..1440`.
    pub open spec fn minute_of_day(self) -> int {
        self.hours * MINUTES_PER_HOUR + self.minutes
    }

    /// The state one hour later: `(hours + 1) mod 24`, minutes untouched.
    pub open spec fn hours_increased(self) -> Time {
        Time { hours: ((self.hours + 1) % 24) as u8, minutes: self.minutes }
    }

    /// The state one hour earlier: `(hours - 1 + 24) mod 24`, minutes untouched.
    pub open spec fn hours_decreased(self) -> Time {
        Time { hours: ((self.hours - 1 + 24) % 24) as u8, minutes: self.minutes }
    }

    /// The state one minute later: `(minutes + 1) mod 60`, and one hour later
    /// as well when the minutes wrap to 0.
    pub open spec fn minutes_increased(self) -> Time {
        let stepped = Time { hours: self.hours, minutes: ((self.minutes + 1) % 60) as u8 };
        if stepped.minutes == 0 {
            stepped.hours_increased()
        } else {
            stepped
        }
    }

    /// The state one minute earlier: `(minutes - 1 + 60) mod 60`, and one hour
    /// earlier as well when the minutes wrap to 59.
    pub open spec fn minutes_decreased(self) -> Time {
        let stepped = Time { hours: self.hours, minutes: ((self.minutes - 1 + 60) % 60) as u8 };
        if stepped.minutes == 59 {
            stepped.hours_decreased()
        } else {
            stepped
        }
    }

    /// The time `hours:minutes`, if that is a time of day.
    pub fn new(hours: u8, minutes: u8) -> (time: Option<Time>)
        ensures
            time == if hours < 24 && minutes < 60 {
                Some(Time { hours, minutes })
            } else {
                None
            },
    {
        if hours < HOURS_PER_DAY && minutes < MINUTES_PER_HOUR {
            Some(Time { hours, minutes })
        } else {
            None
        }
    }

    /// Whether this is a legal state.
    pub fn is_valid(&self) -> (valid: bool)
        ensures
            valid == self.wf(),
    {
        self.hours < HOURS_PER_DAY && self.minutes < MINUTES_PER_HOUR
    }
}

impl Default for Time {
    /// Noon, the time a fresh clock shows.
    fn default() -> (time: Time)
        ensures
            time == (Time { hours: 12, minutes: 0 }),
            time.wf(),
    {
        Time { hours: 12, minutes: 0 }
    }
}

/// Moves the time one hour back, from 0 to 23.
pub fn decrease_hours(data: &mut Time)
    requires
        old(data).wf(),
    ensures
        *final(data) == old(data).hours_decreased(),
        final(data).wf(),
{
    if data.hours == 0 {
        data.hours = 23;
    } else {
        data.hours -= 1;
    }
}

/// Moves the time one hour forward, from 23 to 0.
pub fn increase_hours(data: &mut Time)
    requires
        old(data).wf(),
    ensures
        *final(data) == old(data).hours_increased(),
        final(data).wf(),
{
    if data.hours == 23 {
        data.hours = 0;
    } else {
        data.hours += 1;
    }
}

/// Moves the time one minute back. From minute 0 it goes to minute 59 of the
/// hour before.
pub fn decrease_minutes(data: &mut Time)
    requires
        old(data).wf(),
    ensures
        *final(data) == old(data).minutes_decreased(),
        final(data).wf(),
{
    if data.minutes == 0 {
        data.minutes = 59;
        decrease_hours(data)
    } else {
        data.minutes -= 1;
    }
}

/// Moves the time one minute forward. From minute 59 it goes to minute 0 of
/// the hour after.
pub fn increase_minutes(data: &mut Time)
    requires
        old(data).wf(),
    ensures
        *final(data) == old(data).minutes_increased(),
        final(data).wf(),
{
    if data.minutes == 59 {
        data.minutes = 0;
        increase_hours(data)
    } else {
        data.minutes += 1;
    }
}

/// An hour forward and then an hour back leaves every legal state where it
/// was.
pub proof fn lemma_increase_then_decrease_hours(t: Time)
    requires
        t.wf(),
    ensures
        t.hours_increased().hours_decreased() == t,
{
}

/// An hour back and then an hour forward leaves every legal state where it
/// was.
pub proof fn lemma_decrease_then_increase_hours(t: Time)
    requires
        t.wf(),
    ensures
        t.hours_decreased().hours_increased() == t,
{
}

/// A minute forward and then a minute back leaves every legal state where it
/// was, the hour included when the step crossed into the next one.
pub proof fn lemma_increase_then_decrease_minutes(t: Time)
    requires
        t.wf(),
    ensures
        t.minutes_increased().minutes_decreased() == t,
{
}

/// A minute back and then a minute forward leaves every legal state where it
/// was, the hour included when the step crossed into the one before.
pub proof fn lemma_decrease_then_increase_minutes(t: Time)
    requires
        t.wf(),
    ensures
        t.minutes_decreased().minutes_increased() == t,
{
}

/// None of the four steps leaves the legal states.
pub proof fn lemma_steps_stay_legal(t: Time)
    requires
        t.wf(),
    ensures
        t.hours_increased().wf(),
        t.hours_decreased().wf(),
        t.minutes_increased().wf(),
        t.minutes_decreased().wf(),
{
}

/// From minute 59 a minute forward lands on minute 0 of the next hour, and
/// the hour after 23 is 0.
pub proof fn lemma_increase_minutes_carries(t: Time)
    requires
        t.wf(),
        t.minutes == 59,
    ensures
        t.minutes_increased().minutes == 0,
        t.minutes_increased().hours == (t.hours + 1) % 24,
{
}

/// From minute 0 a minute back lands on minute 59 of the hour before, and the
/// hour before 0 is 23.
pub proof fn lemma_decrease_minutes_borrows(t: Time)
    requires
        t.wf(),
        t.minutes == 0,
    ensures
        t.minutes_decreased().minutes == 59,
        t.minutes_decreased().hours == (t.hours - 1 + 24) % 24,
{
}

/// Away from the hour boundary a minute step leaves the hour alone.
pub proof fn lemma_minute_steps_within_the_hour(t: Time)
    requires
        t.wf(),
    ensures
        t.minutes < 59 ==> t.minutes_increased() == (Time {
            hours: t.hours,
            minutes: (t.minutes + 1) as u8,
        }),
        t.minutes > 0 ==> t.minutes_decreased() == (Time {
            hours: t.hours,
            minutes: (t.minutes - 1) as u8,
        }),
{
}

/// Counted in minutes since midnight, the steps are additions modulo the
/// length of the day: a minute step adds or takes 1, an hour step 60.
pub proof fn lemma_steps_on_minute_of_day(t: Time)
    requires
        t.wf(),
    ensures
        0 <= t.minute_of_day() < 1440,
        t.minutes_increased().minute_of_day() == (t.minute_of_day() + 1) % 1440,
        t.minutes_decreased().minute_of_day() == (t.minute_of_day() - 1 + 1440) % 1440,
        t.hours_increased().minute_of_day() == (t.minute_of_day() + 60) % 1440,
        t.hours_decreased().minute_of_day() == (t.minute_of_day() - 60 + 1440) % 1440,
{
}

/// Two legal states with the same minute of the day are the same state.
pub proof fn lemma_minute_of_day_is_injective(a: Time, b: Time)
    requires
        a.wf(),
        b.wf(),
        a.minute_of_day() == b.minute_of_day(),
    ensures
        a == b,
{
}

} // verus!
