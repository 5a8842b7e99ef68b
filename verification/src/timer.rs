//! A polling interval timer.
//!
//! The timer is asked once per frame whether its interval has passed since
//! it last fired. It keeps a clock of its own, which counts microseconds
//! from the moment the timer was made, and remembers the reading at which
//! its interval started. What it decides depends on its settings, on that
//! start and on the reading at the poll, and on nothing else;
//! [`TimerState`] is that decision written down, and [`Timer`] carries it
//! out against the clock.

use vstd::prelude::*;
use std::time::{Duration, Instant};
use crate::units::MICROS_PER_SECOND;

verus! {

/// `std::time::Instant`, a reading of the monotonic clock. Nothing is known
/// of what a value holds.
#[verifier::external_type_specification]
#[verifier::external_body]
pub struct ExInstant(std::time::Instant);

/// Calls `std::time::Instant::now`. The reading depends on when the call is
/// made, so nothing is claimed of it.
#[verifier::external_body]
fn clock_now() -> Instant {
    Instant::now()
}

/// Calls `std::time::Instant::elapsed`: the time since `start` was read.
/// Nothing is claimed of it.
#[verifier::external_body]
fn clock_elapsed(start: &Instant) -> Duration {
    start.elapsed()
}

/// Calls `std::time::Duration::as_micros`: a span in whole microseconds.
/// Nothing is claimed of the number.
#[verifier::external_body]
fn whole_micros(span: &Duration) -> u128 {
    span.as_micros()
}

/// What the decisions of a timer depend on besides the reading of its clock.
#[derive(Clone, Copy, Debug, PartialEq, Eq, Structural)]
pub struct TimerState {
    /// Seconds between two firings.
    pub interval: u64,
    /// Whether the timer stops for good when it first fires.
    pub oneshot: bool,
    /// Whether it has stopped.
    pub stopped: bool,
    /// The reading of the timer's clock at which its interval started.
    pub start: u128,
}

impl TimerState {
    /// The microseconds that have passed of the interval when the clock
    /// reads `at`: none, should the clock read less than at the start.
    pub open spec fn elapsed(self, at: u128) -> int {
        if at >= self.start {
            at - self.start
        } else {
            0
        }
    }

    /// The interval has passed when the clock reads `at`.
    pub open spec fn due(self, at: u128) -> bool {
        self.elapsed(at) >= self.interval * MICROS_PER_SECOND
    }

    /// Polled when the clock reads `at`, the timer fires.
    pub open spec fn fires(self, at: u128) -> bool {
        !self.stopped && self.due(at)
    }

    /// The timer with its interval starting at the reading `at`.
    pub open spec fn restarted(self, at: u128) -> TimerState {
        TimerState { start: at, ..self }
    }

    /// The timer after a poll at the reading `at`. Where it fires, a
    /// one-shot timer stops and the interval starts anew at `at`; where it
    /// does not, nothing changes.
    pub open spec fn after(self, at: u128) -> TimerState {
        if self.fires(at) {
            TimerState { stopped: self.oneshot, start: at, ..self }
        } else {
            self
        }
    }

    /// The timer after one poll at each reading of `polls`, in order.
    pub open spec fn after_all(self, polls: Seq<u128>) -> TimerState
        decreases polls.len(),
    {
        if polls.len() == 0 {
            self
        } else {
            self.after(polls[0]).after_all(polls.drop_first())
        }
    }

    /// How often the timer fires over the polls at the readings `polls`.
    pub open spec fn firings(self, polls: Seq<u128>) -> nat
        decreases polls.len(),
    {
        if polls.len() == 0 {
            0
        } else {
            let rest = self.after(polls[0]).firings(polls.drop_first());
            if self.fires(polls[0]) {
                rest + 1
            } else {
                rest
            }
        }
    }
}

/// A poll before the interval has passed does not fire and leaves the timer
/// as it was: the stopped flag, the other settings and the start of the
/// interval. Early polls therefore cannot put off the next firing.
pub proof fn lemma_early_poll_changes_nothing(t: TimerState, at: u128)
    requires
        t.elapsed(at) < t.interval * MICROS_PER_SECOND,
    ensures
        !t.fires(at),
        t.after(at) == t,
        t.after(at).stopped == t.stopped,
        t.after(at).start == t.start,
{
}

/// A firing poll stops a one-shot timer, keeps the interval and the kind of
/// the timer, and starts the interval anew at the reading of the poll.
pub proof fn lemma_firing_restarts(t: TimerState, at: u128)
    requires
        t.fires(at),
    ensures
        t.after(at).start == at,
        t.after(at).stopped == t.oneshot,
        t.after(at).interval == t.interval,
        t.after(at).oneshot == t.oneshot,
        t.after(at).elapsed(at) == 0,
{
}

/// After a firing at the reading `at`, a poll at `next` fires only once a
/// whole interval has passed since `at`.
pub proof fn lemma_next_firing_waits(t: TimerState, at: u128, next: u128)
    requires
        t.fires(at),
        t.interval > 0,
    ensures
        t.after(at).fires(next) ==> !t.oneshot && next - at >= t.interval * MICROS_PER_SECOND,
        !t.oneshot && next - at >= t.interval * MICROS_PER_SECOND ==> t.after(at).fires(next),
{
}

/// A stopped timer stays as it is and never fires, whatever the polls.
pub proof fn lemma_stopped_never_fires(t: TimerState, polls: Seq<u128>)
    requires
        t.stopped,
    ensures
        t.firings(polls) == 0,
        t.after_all(polls) == t,
    decreases polls.len(),
{
    if polls.len() > 0 {
        lemma_stopped_never_fires(t.after(polls[0]), polls.drop_first());
    }
}

/// Once a one-shot timer has fired, no later poll makes it fire again,
/// however much time has passed.
pub proof fn lemma_oneshot_fires_once(t: TimerState, at: u128, later: Seq<u128>)
    requires
        t.oneshot,
        t.fires(at),
    ensures
        t.after(at).stopped,
        t.after(at).firings(later) == 0,
        t.firings(seq![at] + later) == 1,
{
    let polls = seq![at] + later;
    assert(polls[0] == at);
    assert(polls.drop_first() =~= later);
    lemma_stopped_never_fires(t.after(at), later);
}

/// A one-shot timer fires at most once over any polls.
pub proof fn lemma_oneshot_fires_at_most_once(t: TimerState, polls: Seq<u128>)
    requires
        t.oneshot,
    ensures
        t.firings(polls) <= 1,
    decreases polls.len(),
{
    if polls.len() > 0 {
        if t.fires(polls[0]) {
            lemma_stopped_never_fires(t.after(polls[0]), polls.drop_first());
        } else {
            lemma_oneshot_fires_at_most_once(t.after(polls[0]), polls.drop_first());
        }
    }
}

/// An interval timer read against the monotonic clock.
pub struct Timer {
    origin: Instant,
    start: u128,
    time: u64,
    oneshot: bool,
    stop_timer: bool,
}

impl View for Timer {
    type V = TimerState;

    closed spec fn view(&self) -> TimerState {
        TimerState {
            interval: self.time,
            oneshot: self.oneshot,
            stopped: self.stop_timer,
            start: self.start,
        }
    }
}

impl Timer {
    /// The moment from which the timer's clock counts: the moment the timer
    /// was made. It is what the clock is asked about, and it never changes.
    pub closed spec fn origin(&self) -> Instant {
        self.origin
    }

    /// A running timer of `new_time` seconds. Its clock counts from now, and
    /// its interval starts now, at the reading zero.
    pub fn new(new_time: u64, new_oneshot: bool) -> (t: Timer)
        ensures
            t@ == (TimerState {
                interval: new_time,
                oneshot: new_oneshot,
                stopped: false,
                start: 0,
            }),
    {
        Timer {
            origin: clock_now(),
            start: 0,
            time: new_time,
            oneshot: new_oneshot,
            stop_timer: false,
        }
    }

    /// Seconds between two firings.
    pub fn interval(&self) -> (secs: u64)
        ensures
            secs == self@.interval,
    {
        self.time
    }

    /// Whether the timer stops for good when it first fires.
    pub fn is_oneshot(&self) -> (b: bool)
        ensures
            b == self@.oneshot,
    {
        self.oneshot
    }

    /// Whether the timer has stopped for good.
    pub fn is_stopped(&self) -> (b: bool)
        ensures
            b == self@.stopped,
    {
        self.stop_timer
    }

    /// The reading of the timer's clock at which its interval started.
    pub fn start(&self) -> (at: u128)
        ensures
            at == self@.start,
    {
        self.start
    }

    /// Reads the timer's clock: the whole microseconds since the timer was
    /// made. What the clock shows is not for this library to say.
    pub fn reading(&self) -> (at: u128) {
        let span = clock_elapsed(&self.origin);
        whole_micros(&span)
    }

    /// Starts the interval anew at the reading `at`. The settings stay.
    pub fn restart(&mut self, at: u128)
        ensures
            final(self)@ == old(self)@.restarted(at),
            final(self).origin() == old(self).origin(),
    {
        self.start = at;
    }

    /// Polls the timer when its clock reads `at`.
    ///
    /// If the interval has passed and the timer has not stopped, a one-shot
    /// timer stops, `callback` runs once, the interval starts anew at `at`
    /// and the callback's result comes back. Otherwise nothing changes, the
    /// callback does not run and `None` comes back.
    pub fn tick<R, F: FnOnce() -> R>(&mut self, at: u128, callback: F) -> (out: Option<R>)
        requires
            old(self)@.fires(at) ==> callback.requires(()),
        ensures
            out is Some <==> old(self)@.fires(at),
            out matches Some(r) ==> callback.ensures((), r),
            final(self)@ == old(self)@.after(at),
            out is None ==> final(self)@ == old(self)@,
            final(self).origin() == old(self).origin(),
    {
        let elapsed: u128 = if at >= self.start {
            at - self.start
        } else {
            0
        };
        let threshold: u128 = (self.time as u128) * (MICROS_PER_SECOND as u128);
        if elapsed >= threshold {
            if self.stop_timer {
                return None;
            }
            if self.oneshot {
                self.stop_timer = true;
            }
            let r = callback();
            self.start = at;
            Some(r)
        } else {
            None
        }
    }

    /// Polls the timer against its clock: [`Timer::tick`] at the reading
    /// that the clock shows.
    ///
    /// A stopped timer never fires, a running timer of interval zero always
    /// does; in between the clock decides. Where the timer does not fire,
    /// nothing changes; where it does, the interval starts anew at the
    /// reading of this poll.
    pub fn update<R, F: FnOnce() -> R>(&mut self, callback: F) -> (out: Option<R>)
        requires
            !old(self)@.stopped ==> callback.requires(()),
        ensures
            exists|at: u128|
                (out is Some <==> #[trigger] old(self)@.fires(at)) && final(self)@ == old(
                    self,
                )@.after(at),
            out matches Some(r) ==> callback.ensures((), r),
            out is None ==> final(self)@ == old(self)@,
            final(self).origin() == old(self).origin(),
    {
        let at = self.reading();
        self.tick(at, callback)
    }
}

} // verus!
