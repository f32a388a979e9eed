//! Spans of time and the engine timer that counts them.
//!
//! A [`Span`] holds a duration as whole seconds and sub-second nanoseconds,
//! the same split that `std::time::Duration` uses. A [`Timer`] holds, as
//! plain values, everything that the engine's timer keeps; advancing it is
//! done by the engine's own `Timer::tick`.

use vstd::prelude::*;
use bevy::reflect::GetField;

verus! {

/// Number of nanoseconds in a second.
pub const NANOS_PER_SEC: u32 = 1_000_000_000;

/// The largest span, in nanoseconds, that a `Duration` can hold.
pub open spec fn max_span_nanos() -> nat {
    (u64::MAX as nat) * 1_000_000_000 + 999_999_999
}

/// A span of time: `secs` whole seconds plus `nanos` nanoseconds.
#[derive(Clone, Copy, Debug, PartialEq, Eq, Structural)]
pub struct Span {
    pub secs: u64,
    pub nanos: u32,
}

impl Span {
    /// The sub-second part is below one second.
    pub open spec fn wf(self) -> bool {
        self.nanos < NANOS_PER_SEC
    }

    /// The span in nanoseconds.
    pub open spec fn total(self) -> nat {
        (self.secs as nat) * 1_000_000_000 + (self.nanos as nat)
    }

    /// A span of zero length.
    pub fn zero() -> (s: Span)
        ensures
            s.wf(),
            s.total() == 0,
    {
        Span { secs: 0, nanos: 0 }
    }

    /// A span of `secs` whole seconds.
    pub fn from_secs(secs: u64) -> (s: Span)
        ensures
            s.wf(),
            s.total() == secs * 1_000_000_000,
    {
        Span { secs, nanos: 0 }
    }

    /// A span of `millis` milliseconds.
    pub fn from_millis(millis: u64) -> (s: Span)
        ensures
            s.wf(),
            s.total() == millis * 1_000_000,
    {
        let secs = millis / 1000;
        let rest = millis % 1000;
        assert(rest * 1_000_000 < 1_000_000_000) by (nonlinear_arith)
            requires
                rest < 1000,
        ;
        let nanos: u32 = (rest as u32) * 1_000_000;
        assert(secs * 1_000_000_000 + rest * 1_000_000 == millis * 1_000_000) by (nonlinear_arith)
            requires
                secs == millis / 1000,
                rest == millis % 1000,
        ;
        Span { secs, nanos }
    }

    /// A span of `nanos` nanoseconds.
    pub fn from_nanos(nanos: u64) -> (s: Span)
        ensures
            s.wf(),
            s.total() == nanos,
    {
        let secs = nanos / 1_000_000_000;
        let rest = nanos % 1_000_000_000;
        assert(secs * 1_000_000_000 + rest == nanos) by (nonlinear_arith)
            requires
                secs == nanos / 1_000_000_000,
                rest == nanos % 1_000_000_000,
        ;
        Span { secs, nanos: rest as u32 }
    }

    /// The span in nanoseconds.
    pub fn as_nanos(&self) -> (n: u128)
        requires
            self.wf(),
        ensures
            n == self.total(),
    {
        assert(self.secs * 1_000_000_000 + self.nanos <= u128::MAX) by (nonlinear_arith)
            requires
                self.secs <= u64::MAX,
                self.nanos < 1_000_000_000,
        ;
        (self.secs as u128) * 1_000_000_000 + (self.nanos as u128)
    }

    /// Whether the span has zero length.
    pub fn is_zero(&self) -> (b: bool)
        ensures
            b == (self.total() == 0),
    {
        self.secs == 0 && self.nanos == 0
    }
}

/// What a timer holds, over mathematical integers.
pub struct TimerView {
    /// Length of one run, in nanoseconds.
    pub duration: nat,
    /// Time counted in the current run, in nanoseconds.
    pub elapsed: nat,
    /// Whether the timer starts over once it reaches its duration.
    pub repeating: bool,
    /// Whether the timer has reached its duration.
    pub finished: bool,
    /// How many times the timer reached its duration during the last tick.
    pub times_finished: nat,
}

/// Whether advancing a timer that holds `t` by `delta` nanoseconds runs to
/// completion: the engine panics on a repeating timer of zero duration and
/// when the elapsed time would not fit in a `Duration`.
pub open spec fn tick_allowed(t: TimerView, delta: nat) -> bool {
    (!t.repeating && t.finished) || (t.elapsed + delta <= max_span_nanos() && (t.repeating
        ==> t.duration > 0))
}

/// The timer after advancing `t` by `delta` nanoseconds.
///
/// A finished timer that does not repeat stays as it is and only forgets that
/// it just finished. Any other timer counts `delta` more; once it reaches its
/// duration it is finished: a timer that does not repeat stops at its
/// duration, a repeating one keeps what is left over after the whole runs it
/// completed, and counts them.
pub open spec fn tick_spec(t: TimerView, delta: nat) -> TimerView {
    if !t.repeating && t.finished {
        TimerView { times_finished: 0, ..t }
    } else {
        let e = t.elapsed + delta;
        if e >= t.duration {
            if t.repeating {
                let runs = (e / t.duration) as u32;
                TimerView {
                    elapsed: (e - t.duration * runs) as nat,
                    finished: true,
                    times_finished: runs as nat,
                    ..t
                }
            } else {
                TimerView { elapsed: t.duration, finished: true, times_finished: 1, ..t }
            }
        } else {
            TimerView { elapsed: e, finished: false, times_finished: 0, ..t }
        }
    }
}

/// A countdown of a fixed duration that is advanced by ticks.
#[derive(Clone, Copy, Debug)]
pub struct Timer {
    duration: Span,
    elapsed: Span,
    repeating: bool,
    finished: bool,
    times_finished: u32,
}

impl View for Timer {
    type V = TimerView;

    closed spec fn view(&self) -> TimerView {
        TimerView {
            duration: self.duration.total(),
            elapsed: self.elapsed.total(),
            repeating: self.repeating,
            finished: self.finished,
            times_finished: self.times_finished as nat,
        }
    }
}

/// The view of a timer that holds the given values and did not finish on
/// its last tick.
pub open spec fn fresh_view(duration: Span, elapsed: Span, repeating: bool, finished: bool) -> TimerView {
    TimerView {
        duration: duration.total(),
        elapsed: elapsed.total(),
        repeating,
        finished,
        times_finished: 0,
    }
}

/// Advances the engine's timer (`bevy::core::Timer::tick`) that holds the
/// given values by `delta`, and gives back its elapsed time, whether it is
/// finished and how many times it finished during the tick. The contract
/// restates what the engine's `tick` does with these values (see
/// [`tick_spec`]); the timer is never paused here.
#[verifier::external_body]
fn engine_timer_tick(
    duration: Span,
    elapsed: Span,
    repeating: bool,
    finished: bool,
    delta: Span,
) -> (r: (Span, bool, u32))
    requires
        duration.wf(),
        elapsed.wf(),
        delta.wf(),
        tick_allowed(fresh_view(duration, elapsed, repeating, finished), delta.total()),
    ensures
        r.0.wf(),
        r.0.total() == tick_spec(fresh_view(duration, elapsed, repeating, finished), delta.total()).elapsed,
        r.1 == tick_spec(fresh_view(duration, elapsed, repeating, finished), delta.total()).finished,
        r.2 == tick_spec(fresh_view(duration, elapsed, repeating, finished), delta.total()).times_finished,
{
    let mut timer = bevy::core::Timer::new(
        std::time::Duration::new(duration.secs, duration.nanos),
        repeating,
    );
    timer.set_elapsed(std::time::Duration::new(elapsed.secs, elapsed.nanos));
    *timer.get_field_mut::<bool>("finished").unwrap() = finished;
    timer.tick(std::time::Duration::new(delta.secs, delta.nanos));
    let after = timer.elapsed();
    (Span { secs: after.as_secs(), nanos: after.subsec_nanos() }, timer.finished(), timer.times_finished())
}

impl Timer {
    /// The spans that the timer holds are well formed.
    pub closed spec fn wf(self) -> bool {
        self.duration.wf() && self.elapsed.wf()
    }

    /// A timer of the given duration that has counted nothing yet.
    pub fn new(duration: Span, repeating: bool) -> (t: Timer)
        requires
            duration.wf(),
        ensures
            t.wf(),
            t@ == (TimerView {
                duration: duration.total(),
                elapsed: 0,
                repeating,
                finished: false,
                times_finished: 0,
            }),
    {
        Timer { duration, elapsed: Span::zero(), repeating, finished: false, times_finished: 0 }
    }

    /// A timer of `secs` whole seconds that has counted nothing yet.
    pub fn from_secs(secs: u64, repeating: bool) -> (t: Timer)
        ensures
            t.wf(),
            t@ == (TimerView {
                duration: (secs as nat) * 1_000_000_000,
                elapsed: 0,
                repeating,
                finished: false,
                times_finished: 0,
            }),
    {
        Timer::new(Span::from_secs(secs), repeating)
    }

    /// Advances the timer by `delta`.
    pub fn tick(&mut self, delta: Span)
        requires
            old(self).wf(),
            delta.wf(),
            tick_allowed(old(self)@, delta.total()),
        ensures
            final(self).wf(),
            final(self)@ == tick_spec(old(self)@, delta.total()),
    {
        let (elapsed, finished, times_finished) = engine_timer_tick(
            self.duration,
            self.elapsed,
            self.repeating,
            self.finished,
            delta,
        );
        self.elapsed = elapsed;
        self.finished = finished;
        self.times_finished = times_finished;
    }

    /// Starts the current run over: nothing counted, not finished.
    pub fn reset(&mut self)
        requires
            old(self).wf(),
        ensures
            final(self).wf(),
            final(self)@ == (TimerView {
                elapsed: 0,
                finished: false,
                times_finished: 0,
                ..old(self)@
            }),
    {
        self.elapsed = Span::zero();
        self.finished = false;
        self.times_finished = 0;
    }

    /// Whether the timer has reached its duration.
    pub fn finished(&self) -> (b: bool)
        ensures
            b == self@.finished,
    {
        self.finished
    }

    /// Whether the timer reached its duration during the last tick.
    pub fn just_finished(&self) -> (b: bool)
        ensures
            b == (self@.times_finished > 0),
    {
        self.times_finished > 0
    }

    /// How many times the timer reached its duration during the last tick.
    pub fn times_finished(&self) -> (n: u32)
        ensures
            n == self@.times_finished,
    {
        self.times_finished
    }

    /// The length of one run.
    pub fn duration(&self) -> (d: Span)
        requires
            self.wf(),
        ensures
            d.wf(),
            d.total() == self@.duration,
    {
        self.duration
    }

    /// The time counted in the current run.
    pub fn elapsed(&self) -> (e: Span)
        requires
            self.wf(),
        ensures
            e.wf(),
            e.total() == self@.elapsed,
    {
        self.elapsed
    }

    /// Whether the timer starts over once it reaches its duration.
    pub fn repeating(&self) -> (b: bool)
        ensures
            b == self@.repeating,
    {
        self.repeating
    }
}

/// A finished timer that does not repeat stays where it is on every tick
/// and reports no new finish.
pub proof fn lemma_finished_timer_stays(t: TimerView, delta: nat)
    requires
        !t.repeating,
        t.finished,
    ensures
        tick_spec(t, delta) == (TimerView { times_finished: 0, ..t }),
{
}

/// A timer that does not repeat never counts past its duration, and is
/// finished after a tick exactly when it was before or the tick reached its
/// duration.
pub proof fn lemma_single_run_timer_bounded(t: TimerView, delta: nat)
    requires
        !t.repeating,
        t.elapsed <= t.duration,
    ensures
        tick_spec(t, delta).elapsed <= t.duration,
        tick_spec(t, delta).finished == (t.finished || t.elapsed + delta >= t.duration),
        tick_spec(t, delta).duration == t.duration,
{
}

/// A repeating timer keeps less than one run after a tick, and what it
/// counted is exactly the runs it completed plus what it keeps.
pub proof fn lemma_repeating_timer_wraps(t: TimerView, delta: nat)
    requires
        t.repeating,
        t.duration > 0,
        (t.elapsed + delta) / t.duration <= u32::MAX,
    ensures
        tick_spec(t, delta).elapsed < t.duration,
        tick_spec(t, delta).times_finished * t.duration + tick_spec(t, delta).elapsed == t.elapsed + delta,
        tick_spec(t, delta).finished == (t.elapsed + delta >= t.duration),
{
    let e = t.elapsed + delta;
    let d = t.duration;
    if e >= d {
        let runs = e / d;
        assert((runs as u32) as int == runs);
        assert(runs * d <= e && e - runs * d < d) by (nonlinear_arith)
            requires
                d > 0,
                runs == e / d,
        ;
        assert(d * runs == runs * d) by (nonlinear_arith);
    } else {
        assert(e / d == 0) by (nonlinear_arith)
            requires
                e < d,
                d > 0,
                e >= 0,
        ;
    }
}

} // verus!
