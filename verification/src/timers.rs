//! The timers of the game: cooldowns, despawn and respawn timers, and the
//! timers of effects.

use vstd::prelude::*;
use crate::time::{Span, Timer, TimerView, tick_allowed, tick_spec};

verus! {

impl Timer {
    /// Whether [`Timer::tick`] may advance this timer by `delta`.
    pub fn can_tick(&self, delta: Span) -> (b: bool)
        requires
            self.wf(),
            delta.wf(),
        ensures
            b == tick_allowed(self@, delta.total()),
    {
        if !self.repeating() && self.finished() {
            return true;
        }
        let d = self.duration();
        let e = self.elapsed();
        let max_secs = u64::MAX;
        let fits = if e.secs > max_secs - delta.secs {
            false
        } else if e.secs + delta.secs < max_secs {
            true
        } else {
            e.nanos as u64 + delta.nanos as u64 <= 999_999_999
        };
        proof {
            let total = e.total() + delta.total();
            if e.secs > max_secs - delta.secs {
                assert(e.secs + delta.secs >= u64::MAX + 1);
                assert(total >= (u64::MAX as nat + 1) * 1_000_000_000) by (nonlinear_arith)
                    requires
                        total == (e.secs + delta.secs) * 1_000_000_000 + e.nanos + delta.nanos,
                        e.secs + delta.secs >= u64::MAX + 1,
                ;
            } else if e.secs + delta.secs < max_secs {
                assert(total <= (u64::MAX as nat - 1) * 1_000_000_000 + 1_999_999_998) by (nonlinear_arith)
                    requires
                        total == (e.secs + delta.secs) * 1_000_000_000 + e.nanos + delta.nanos,
                        e.secs + delta.secs <= u64::MAX - 1,
                        e.nanos < 1_000_000_000,
                        delta.nanos < 1_000_000_000,
                ;
            } else {
                assert(total == (u64::MAX as nat) * 1_000_000_000 + e.nanos + delta.nanos) by (nonlinear_arith)
                    requires
                        total == (e.secs + delta.secs) * 1_000_000_000 + e.nanos + delta.nanos,
                        e.secs + delta.secs == u64::MAX,
                ;
            }
        }
        fits && (!self.repeating() || !d.is_zero())
    }
}

/// Whether advancing `t` by `delta` makes it finish during that tick.
pub open spec fn finishes_on_tick(t: TimerView, delta: nat) -> bool {
    tick_spec(t, delta).times_finished > 0
}

/// Cooldown of an ability or a pickup.
#[derive(Clone, Copy, Debug)]
pub struct Cooldown(pub Timer);

impl Cooldown {
    /// A cooldown of `secs` seconds that is already over: its timer was
    /// advanced by its whole duration, so it is finished.
    pub fn from_secs(secs: u64) -> (c: Cooldown)
        ensures
            c.0.wf(),
            c.0@ == (TimerView {
                duration: (secs as nat) * 1_000_000_000,
                elapsed: (secs as nat) * 1_000_000_000,
                repeating: false,
                finished: true,
                times_finished: 1,
            }),
    {
        let duration = Span::from_secs(secs);
        let mut timer = Timer::new(duration, false);
        timer.tick(duration);
        Cooldown(timer)
    }
}

/// Seconds after which a projectile disappears.
pub const PROJECTILE_LIFETIME_SECS: u64 = 4;

/// A timer after which its entity is removed.
#[derive(Clone, Copy, Debug)]
pub struct DespawnTimer(pub Timer);

impl DespawnTimer {
    /// A despawn timer of `secs` seconds that has counted nothing yet.
    pub fn from_secs(secs: u64) -> (t: DespawnTimer)
        ensures
            t.0.wf(),
            t.0@ == (TimerView {
                duration: (secs as nat) * 1_000_000_000,
                elapsed: 0,
                repeating: false,
                finished: false,
                times_finished: 0,
            }),
    {
        DespawnTimer(Timer::from_secs(secs, false))
    }

    /// A despawn timer of zero duration: it runs out on its first tick.
    pub fn zero() -> (t: DespawnTimer)
        ensures
            t.0.wf(),
            t.0@ == (TimerView {
                duration: 0,
                elapsed: 0,
                repeating: false,
                finished: false,
                times_finished: 0,
            }),
    {
        DespawnTimer(Timer::new(Span::zero(), false))
    }

    /// Advances the timer by `delta` and tells whether its entity is to be
    /// removed now: on the tick that the timer runs out.
    pub fn advance(&mut self, delta: Span) -> (despawn: bool)
        requires
            old(self).0.wf(),
            delta.wf(),
            tick_allowed(old(self).0@, delta.total()),
        ensures
            final(self).0.wf(),
            final(self).0@ == tick_spec(old(self).0@, delta.total()),
            despawn == finishes_on_tick(old(self).0@, delta.total()),
    {
        self.0.tick(delta);
        self.0.just_finished()
    }
}

/// Seconds a player waits before respawning.
pub const RESPAWN_SECS: u64 = 10;

/// A timer that a dead player waits out before respawning.
#[derive(Clone, Copy, Debug)]
pub struct RespawnTimer(pub Timer);

impl RespawnTimer {
    /// A respawn timer of [`RESPAWN_SECS`] seconds that has counted nothing
    /// yet.
    pub fn new() -> (t: RespawnTimer)
        ensures
            t.0.wf(),
            t.0@ == (TimerView {
                duration: (RESPAWN_SECS as nat) * 1_000_000_000,
                elapsed: 0,
                repeating: false,
                finished: false,
                times_finished: 0,
            }),
    {
        RespawnTimer(Timer::from_secs(RESPAWN_SECS, false))
    }

    /// Advances the timer by `delta` and tells whether the player respawns
    /// now: on the tick that the timer runs out.
    pub fn advance(&mut self, delta: Span) -> (respawn: bool)
        requires
            old(self).0.wf(),
            delta.wf(),
            tick_allowed(old(self).0@, delta.total()),
        ensures
            final(self).0.wf(),
            final(self).0@ == tick_spec(old(self).0@, delta.total()),
            respawn == finishes_on_tick(old(self).0@, delta.total()),
    {
        self.0.tick(delta);
        self.0.just_finished()
    }
}

/// A timer that ends an effect once it is finished.
#[derive(Clone, Copy, Debug)]
pub struct EffectTimer(pub Timer);

impl EffectTimer {
    /// An effect timer of `secs` seconds that has counted nothing yet.
    pub fn from_secs(secs: u64) -> (t: EffectTimer)
        ensures
            t.0.wf(),
            t.0@ == (TimerView {
                duration: (secs as nat) * 1_000_000_000,
                elapsed: 0,
                repeating: false,
                finished: false,
                times_finished: 0,
            }),
    {
        EffectTimer(Timer::from_secs(secs, false))
    }

    /// Advances the timer by `delta` and tells whether the effect ends now:
    /// whenever the timer is finished after the tick.
    pub fn advance(&mut self, delta: Span) -> (expired: bool)
        requires
            old(self).0.wf(),
            delta.wf(),
            tick_allowed(old(self).0@, delta.total()),
        ensures
            final(self).0.wf(),
            final(self).0@ == tick_spec(old(self).0@, delta.total()),
            expired == tick_spec(old(self).0@, delta.total()).finished,
    {
        self.0.tick(delta);
        self.0.finished()
    }
}

/// Seconds between two applications of a periodic effect.
pub const PERIODIC_EFFECT_SECS: u64 = 1;

/// The repeating timer that paces a periodic effect.
#[derive(Clone, Copy, Debug)]
pub struct PeriodicEffectTimer(pub Timer);

impl PeriodicEffectTimer {
    /// A repeating timer of [`PERIODIC_EFFECT_SECS`] seconds that has
    /// counted nothing yet.
    pub fn new() -> (t: PeriodicEffectTimer)
        ensures
            t.0.wf(),
            t.0@ == (TimerView {
                duration: (PERIODIC_EFFECT_SECS as nat) * 1_000_000_000,
                elapsed: 0,
                repeating: true,
                finished: false,
                times_finished: 0,
            }),
    {
        PeriodicEffectTimer(Timer::from_secs(PERIODIC_EFFECT_SECS, true))
    }
}

} // verus!
