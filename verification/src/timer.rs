//! A stopwatch over the monotonic clock. Its rules are stated over clock
//! readings, in nanoseconds since the timer was made; the clock itself is
//! read in one place. A span never is negative: where a reading lies before
//! the one it is measured from, the span is 0.

use std::time::Duration;
use std::time::Instant;
use vstd::prelude::*;

verus! {

/// `std::time::Instant`: a reading of the monotonic clock. Nothing is known
/// of what is inside.
#[verifier::external_type_specification]
#[verifier::external_body]
pub struct ExInstant(Instant);

/// `Instant::clone`: an `Instant` is `Copy`, and its clone is that copy.
pub assume_specification[ <Instant as Clone>::clone ](instant: &Instant) -> (copy: Instant)
    ensures
        copy == *instant,
;

/// `Instant::now`: a reading of the monotonic clock. Nothing is claimed of it.
#[verifier::external_body]
fn instant_now() -> Instant {
    Instant::now()
}

/// `Instant::elapsed`: the time that has gone by since `since`. Nothing is
/// claimed of it.
#[verifier::external_body]
fn instant_elapsed(since: &Instant) -> Duration {
    since.elapsed()
}

/// `Duration::as_nanos`: the whole span in nanoseconds. Nothing is claimed
/// of it.
#[verifier::external_body]
fn duration_nanos(span: &Duration) -> u128 {
    span.as_nanos()
}

/// How many nanoseconds make a millisecond.
pub const NANOS_PER_MILLI: u128 = 1_000_000;

/// What a timer knows: the reading from which it counts while it runs, the
/// span it has measured, and whether it was paused.
pub struct TimerState {
    pub start: Option<u128>,
    pub elapsed: u128,
    pub paused: bool,
}

/// `a - b`, or 0 where that would be negative.
pub open spec fn span(a: u128, b: u128) -> u128 {
    if a >= b {
        (a - b) as u128
    } else {
        0
    }
}

impl TimerState {
    pub open spec fn fresh() -> TimerState {
        TimerState { start: None, elapsed: 0, paused: false }
    }

    /// A timer at rest begins to count at `now`, and keeps the mark that it
    /// was paused. A timer that counts and bears that mark counts on as if it
    /// had begun `elapsed` before `now`, and loses the mark.
    pub open spec fn started(self, now: u128) -> TimerState {
        if self.start is None {
            TimerState { start: Some(now), ..self }
        } else if self.paused {
            TimerState { start: Some(span(now, self.elapsed)), paused: false, ..self }
        } else {
            self
        }
    }

    /// A timer that counts comes to rest with the span since its start.
    pub open spec fn stopped(self, now: u128) -> TimerState {
        match self.start {
            Some(start) => TimerState { start: None, elapsed: span(now, start), paused: false },
            None => self,
        }
    }

    /// As `stopped`, and the timer is marked as paused.
    pub open spec fn halted(self, now: u128) -> TimerState {
        match self.start {
            Some(start) => TimerState { start: None, elapsed: span(now, start), paused: true },
            None => self,
        }
    }

    /// The nanoseconds the timer shows at `now`.
    pub open spec fn shown(self, now: u128) -> u128 {
        match self.start {
            Some(start) => if self.paused {
                self.elapsed
            } else {
                span(now, start)
            },
            None => self.elapsed,
        }
    }

    /// Whether what the timer shows depends on the clock.
    pub open spec fn counting(self) -> bool {
        self.start is Some && !self.paused
    }
}

#[derive(Clone)]
pub struct Timer {
    origin: Instant,
    start_time: Option<u128>,
    elapsed: u128,
    is_paused: bool,
}

impl View for Timer {
    type V = TimerState;

    closed spec fn view(&self) -> TimerState {
        TimerState { start: self.start_time, elapsed: self.elapsed, paused: self.is_paused }
    }
}

impl Timer {
    pub fn new() -> (timer: Timer)
        ensures
            timer@ == TimerState::fresh(),
    {
        Timer { origin: instant_now(), start_time: None, elapsed: 0, is_paused: false }
    }

    /// The clock's reading: nanoseconds since this timer was made.
    pub fn now(&self) -> u128 {
        let since = instant_elapsed(&self.origin);
        duration_nanos(&since)
    }

    pub fn start_at(&mut self, now: u128)
        ensures
            final(self)@ == old(self)@.started(now),
    {
        if self.start_time.is_none() {
            self.start_time = Some(now);
        } else if self.is_paused {
            let begin: u128 = if now >= self.elapsed {
                now - self.elapsed
            } else {
                0
            };
            self.start_time = Some(begin);
            self.is_paused = false;
        }
    }

    pub fn stop_at(&mut self, now: u128)
        ensures
            final(self)@ == old(self)@.stopped(now),
    {
        if let Some(start) = self.start_time {
            self.elapsed = if now >= start {
                now - start
            } else {
                0
            };
            self.start_time = None;
            self.is_paused = false;
        }
    }

    pub fn pause_at(&mut self, now: u128)
        ensures
            final(self)@ == old(self)@.halted(now),
    {
        if let Some(start) = self.start_time {
            self.elapsed = if now >= start {
                now - start
            } else {
                0
            };
            self.is_paused = true;
            self.start_time = None;
        }
    }

    /// The whole milliseconds the timer shows at the reading `now`.
    pub fn elapsed_ms_at(&self, now: u128) -> (millis: u128)
        ensures
            millis == self@.shown(now) / NANOS_PER_MILLI,
    {
        let nanos: u128 = match self.start_time {
            Some(start) => if self.is_paused {
                self.elapsed
            } else if now >= start {
                now - start
            } else {
                0
            },
            None => self.elapsed,
        };
        nanos / NANOS_PER_MILLI
    }

    /// Starts the timer at the clock's reading.
    pub fn start(&mut self)
        ensures
            exists|now: u128| final(self)@ == old(self)@.started(now),
            final(self)@.start is Some,
            final(self)@.elapsed == old(self)@.elapsed,
            final(self)@.paused == (old(self)@.paused && old(self)@.start is None),
    {
        let now = self.now();
        self.start_at(now);
    }

    /// Stops the timer at the clock's reading.
    pub fn stop(&mut self)
        ensures
            exists|now: u128| final(self)@ == old(self)@.stopped(now),
            final(self)@.start is None,
            old(self)@.start is None ==> final(self)@ == old(self)@,
            old(self)@.start is Some ==> !final(self)@.paused,
    {
        let now = self.now();
        self.stop_at(now);
    }

    /// Pauses the timer at the clock's reading.
    pub fn pause(&mut self)
        ensures
            exists|now: u128| final(self)@ == old(self)@.halted(now),
            final(self)@.start is None,
            old(self)@.start is None ==> final(self)@ == old(self)@,
            old(self)@.start is Some ==> final(self)@.paused,
    {
        let now = self.now();
        self.pause_at(now);
    }

    /// Brings the timer back to where `new` left it.
    pub fn reset(&mut self)
        ensures
            final(self)@ == TimerState::fresh(),
    {
        self.start_time = None;
        self.elapsed = 0;
        self.is_paused = false;
    }

    /// The whole milliseconds the timer shows now. While the timer does not
    /// count, that is the span it measured last.
    pub fn elapsed_ms(&self) -> (millis: u128)
        ensures
            exists|now: u128| millis == self@.shown(now) / NANOS_PER_MILLI,
            !self@.counting() ==> millis == self@.elapsed / NANOS_PER_MILLI,
    {
        let now = self.now();
        self.elapsed_ms_at(now)
    }
}

} // verus!
