//! Timers that hazards count with, and the round clock.

use vstd::prelude::*;

verus! {

/// What a timer does once its interval has passed.
#[derive(Clone, Copy, Debug, PartialEq, Eq, Structural)]
pub enum TimerMode {
    /// Stop at the interval and stay there until reset.
    Once,
    /// Start over, keeping the overshoot.
    Repeating,
}

/// Counts elapsed time against an interval, both in microseconds.
#[derive(Clone, Copy, Debug, PartialEq, Eq, Structural)]
pub struct IntervalTimer {
    pub duration: u64,
    pub elapsed: u64,
    pub mode: TimerMode,
    /// The interval has passed: for a repeating timer, during the last tick.
    pub finished: bool,
    /// The interval passed during the last tick.
    pub just_finished: bool,
}

/// The time a round has been running, in microseconds.
#[derive(Clone, Copy, Debug, PartialEq, Eq, Structural)]
pub struct ElapsedTime(pub u64);

/// `value` rounded to the nearest multiple of `unit`, counted in units; a
/// value halfway between two multiples goes to the even one.
pub open spec fn rounded_units(value: nat, unit: nat) -> nat {
    let whole = value / unit;
    let rest = value % unit;
    if 2 * rest > unit || (2 * rest == unit && whole % 2 == 1) {
        whole + 1
    } else {
        whole
    }
}

impl IntervalTimer {
    /// A timer at the start of its interval.
    pub open spec fn fresh(duration: u64, mode: TimerMode) -> IntervalTimer {
        IntervalTimer { duration, elapsed: 0, mode, finished: false, just_finished: false }
    }

    /// The timer after `dt` more microseconds.
    ///
    /// A repeating timer that passes its interval keeps what is left over
    /// after as many whole intervals as fit. A one-shot timer stops at its
    /// interval and ignores every later tick.
    pub open spec fn after_tick(self, dt: u64) -> IntervalTimer {
        let total = self.elapsed + dt;
        match self.mode {
            TimerMode::Once => if self.finished {
                IntervalTimer { just_finished: false, ..self }
            } else if total >= self.duration {
                IntervalTimer { elapsed: self.duration, finished: true, just_finished: true, ..self }
            } else {
                IntervalTimer { elapsed: total as u64, finished: false, just_finished: false, ..self }
            },
            TimerMode::Repeating => if total >= self.duration {
                IntervalTimer {
                    elapsed: if self.duration == 0 {
                        0
                    } else {
                        (total % self.duration as int) as u64
                    },
                    finished: true,
                    just_finished: true,
                    ..self
                }
            } else {
                IntervalTimer { elapsed: total as u64, finished: false, just_finished: false, ..self }
            },
        }
    }

    /// The timer back at the start of its interval.
    pub open spec fn after_reset(self) -> IntervalTimer {
        IntervalTimer { elapsed: 0, finished: false, just_finished: false, ..self }
    }

    /// A timer at the start of an interval of `duration` microseconds.
    pub fn new(duration: u64, mode: TimerMode) -> (timer: Self)
        ensures
            timer == Self::fresh(duration, mode),
    {
        IntervalTimer { duration, elapsed: 0, mode, finished: false, just_finished: false }
    }

    /// Advances the timer by `dt` microseconds.
    pub fn tick(&mut self, dt: u64)
        ensures
            *final(self) == old(self).after_tick(dt),
    {
        let total: u128 = self.elapsed as u128 + dt as u128;
        match self.mode {
            TimerMode::Once => {
                if self.finished {
                    self.just_finished = false;
                } else if total >= self.duration as u128 {
                    self.elapsed = self.duration;
                    self.finished = true;
                    self.just_finished = true;
                } else {
                    self.elapsed = total as u64;
                    self.finished = false;
                    self.just_finished = false;
                }
            },
            TimerMode::Repeating => {
                if total >= self.duration as u128 {
                    self.elapsed = if self.duration == 0 {
                        0
                    } else {
                        (total % self.duration as u128) as u64
                    };
                    self.finished = true;
                    self.just_finished = true;
                } else {
                    self.elapsed = total as u64;
                    self.finished = false;
                    self.just_finished = false;
                }
            },
        }
    }

    /// Puts the timer back at the start of its interval.
    pub fn reset(&mut self)
        ensures
            *final(self) == old(self).after_reset(),
    {
        self.elapsed = 0;
        self.finished = false;
        self.just_finished = false;
    }
}

/// A timer that has not run past its interval never does: a tick leaves the
/// time counted within the interval, and short of it on a repeating timer
/// whose interval has a length.
pub proof fn lemma_timer_stays_within_interval(timer: IntervalTimer, dt: u64)
    requires
        timer.elapsed <= timer.duration,
    ensures
        timer.after_tick(dt).elapsed <= timer.duration,
        timer.after_tick(dt).duration == timer.duration,
        timer.after_tick(dt).mode == timer.mode,
        timer.mode == TimerMode::Repeating && timer.duration > 0 && timer.elapsed < timer.duration
            ==> timer.after_tick(dt).elapsed < timer.duration,
        timer.after_tick(dt).just_finished ==> timer.after_tick(dt).finished,
{
}

impl Default for ElapsedTime {
    fn default() -> (clock: Self)
        ensures
            clock == ElapsedTime(0),
    {
        ElapsedTime(0)
    }
}

impl ElapsedTime {
    /// The clock after `dt` more microseconds; it stops at the largest time
    /// it can hold.
    pub open spec fn after_tick(self, dt: u64) -> ElapsedTime {
        if self.0 + dt > u64::MAX {
            ElapsedTime(u64::MAX)
        } else {
            ElapsedTime((self.0 + dt) as u64)
        }
    }

    /// The minutes shown: the elapsed time in minutes, rounded to the
    /// nearest whole number.
    pub open spec fn minutes_shown(self) -> nat {
        rounded_units(self.0 as nat, 60_000_000)
    }

    /// The seconds shown: the seconds into the current minute, rounded to
    /// the nearest whole number, so that 59.5 seconds and more show as 60.
    pub open spec fn seconds_shown(self) -> nat {
        rounded_units((self.0 % 60_000_000) as nat, 1_000_000)
    }

    /// Advances the clock by `dt` microseconds.
    pub fn increment_time(&mut self, dt: u64)
        ensures
            *final(self) == old(self).after_tick(dt),
    {
        self.0 = self.0.saturating_add(dt);
    }

    /// The two numbers of the clock face, minutes and seconds.
    pub fn clock_face(&self) -> (face: (u64, u64))
        ensures
            face.0 == self.minutes_shown(),
            face.1 == self.seconds_shown(),
            face.1 <= 60,
    {
        (round_to_units(self.0, 60_000_000), round_to_units(self.0 % 60_000_000, 1_000_000))
    }
}

/// `value` in units of `unit`, rounded to nearest, halves to even.
fn round_to_units(value: u64, unit: u64) -> (units: u64)
    requires
        unit >= 2,
    ensures
        units == rounded_units(value as nat, unit as nat),
        units <= value / unit + 1,
{
    let whole = value / unit;
    let rest = value % unit;
    assert(whole <= u64::MAX / 2) by (nonlinear_arith)
        requires
            whole == value / unit,
            unit >= 2,
            value <= u64::MAX,
    ;
    let twice: u128 = 2 * (rest as u128);
    if twice > unit as u128 || (twice == unit as u128 && whole % 2 == 1) {
        whole + 1
    } else {
        whole
    }
}

} // verus!
