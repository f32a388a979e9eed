//! Health of characters and the statistics that damage and healing feed.
//!
//! Modifiers scale the raw amount of damage or healing before it reaches
//! these rules; the functions here take the amount after scaling.

use vstd::prelude::*;

verus! {

/// Health points of a character.
#[derive(Clone, Copy, Debug, PartialEq, Eq, Structural)]
pub struct Health {
    pub current: u32,
    pub max: u32,
}

/// Health that a new character starts with, and its maximum.
pub const DEFAULT_HEALTH: u32 = 100;

impl Health {
    /// Full health of [`DEFAULT_HEALTH`] points.
    pub fn new() -> (h: Health)
        ensures
            h.current == DEFAULT_HEALTH,
            h.max == DEFAULT_HEALTH,
    {
        Health { current: DEFAULT_HEALTH, max: DEFAULT_HEALTH }
    }

    /// Points missing to full health.
    pub fn missing(&self) -> (m: u32)
        requires
            self.current <= self.max,
        ensures
            m == self.max - self.current,
    {
        self.max - self.current
    }

    /// Whether the character has no health left.
    pub fn is_dead(&self) -> (b: bool)
        ensures
            b == (self.current == 0),
    {
        self.current == 0
    }
}

/// Points that a heal of `amount` restores to `h`: nothing to a dead
/// character, otherwise as much as is missing, at most `amount`.
pub open spec fn healed_points(h: Health, amount: u32) -> nat {
    if h.current == 0 {
        0
    } else if amount <= h.max - h.current {
        amount as nat
    } else {
        (h.max - h.current) as nat
    }
}

/// Points that damage of `amount` takes from `h`: at most what is left.
pub open spec fn dealt_points(h: Health, amount: u32) -> nat {
    if amount <= h.current {
        amount as nat
    } else {
        h.current as nat
    }
}

/// Heals `health` by `amount` and returns the points restored.
pub fn heal(health: &mut Health, amount: u32) -> (restored: u32)
    requires
        old(health).current <= old(health).max,
    ensures
        restored == healed_points(*old(health), amount),
        old(health).current == 0 ==> restored == 0,
        old(health).current > 0 && amount <= old(health).max - old(health).current ==> restored == amount,
        old(health).current > 0 && amount > old(health).max - old(health).current ==> restored == old(health).max - old(health).current,
        final(health).current == old(health).current + restored,
        final(health).max == old(health).max,
        final(health).current <= final(health).max,
{
    if health.current == 0 {
        return 0;
    }
    let missing = health.missing();
    let delta = if amount <= missing {
        amount
    } else {
        missing
    };
    health.current = health.current + delta;
    delta
}

/// What a hit did to its target and owes to the statistics.
#[derive(Clone, Copy, Debug, PartialEq, Eq, Structural)]
pub struct DamageOutcome {
    /// Points taken from the target.
    pub dealt: u32,
    /// The target has no health left after the hit.
    pub death: bool,
    /// Points credited to the instigator: none for damage to oneself.
    pub credited: u32,
    /// The instigator is credited with a kill.
    pub kill: bool,
}

/// Applies damage of `amount` to `health`. `self_inflicted` tells whether the
/// instigator is the target itself.
///
/// A target at zero health after the hit counts a death, also when it had
/// none left before; the instigator of someone else's death counts a kill.
pub fn damage(health: &mut Health, amount: u32, self_inflicted: bool) -> (outcome: DamageOutcome)
    ensures
        outcome.dealt == dealt_points(*old(health), amount),
        amount <= old(health).current ==> outcome.dealt == amount,
        amount > old(health).current ==> outcome.dealt == old(health).current,
        final(health).current == old(health).current - outcome.dealt,
        final(health).max == old(health).max,
        outcome.death == (final(health).current == 0),
        outcome.credited == (if self_inflicted {
            0
        } else {
            outcome.dealt
        }),
        outcome.kill == (!self_inflicted && final(health).current == 0),
{
    let delta = if amount <= health.current {
        amount
    } else {
        health.current
    };
    health.current = health.current - delta;
    let death = health.current == 0;
    DamageOutcome {
        dealt: delta,
        death,
        credited: if self_inflicted {
            0
        } else {
            delta
        },
        kill: !self_inflicted && death,
    }
}

/// Kills, deaths, damage done and healing done by a player.
#[derive(Clone, Copy, Debug, PartialEq, Eq, Structural)]
pub struct Statistics {
    pub kills: u32,
    pub deaths: u32,
    pub damage: u32,
    pub healing: u32,
}

impl Statistics {
    /// Statistics of a new player: all zero.
    pub fn new() -> (s: Statistics)
        ensures
            s == (Statistics { kills: 0, deaths: 0, damage: 0, healing: 0 }),
    {
        Statistics { kills: 0, deaths: 0, damage: 0, healing: 0 }
    }

    /// Counts the death of the target of a hit, if the hit left it dead.
    pub fn record_hit_taken(&mut self, outcome: DamageOutcome)
        requires
            old(self).deaths + 1 <= u32::MAX,
        ensures
            *final(self) == (Statistics {
                deaths: (old(self).deaths + if outcome.death {
                    1int
                } else {
                    0int
                }) as u32,
                ..*old(self)
            }),
    {
        if outcome.death {
            self.deaths = self.deaths + 1;
        }
    }

    /// Credits the instigator of a hit with its damage and kill.
    pub fn record_hit_done(&mut self, outcome: DamageOutcome)
        requires
            old(self).damage + outcome.credited <= u32::MAX,
            old(self).kills + 1 <= u32::MAX,
        ensures
            *final(self) == (Statistics {
                damage: (old(self).damage + outcome.credited) as u32,
                kills: (old(self).kills + if outcome.kill {
                    1int
                } else {
                    0int
                }) as u32,
                ..*old(self)
            }),
    {
        self.damage = self.damage + outcome.credited;
        if outcome.kill {
            self.kills = self.kills + 1;
        }
    }

    /// Credits the instigator of a heal with the points restored.
    pub fn record_healing(&mut self, restored: u32)
        requires
            old(self).healing + restored <= u32::MAX,
        ensures
            *final(self) == (Statistics { healing: (old(self).healing + restored) as u32, ..*old(self) }),
    {
        self.healing = self.healing + restored;
    }
}

/// A change of health caused by `instigator` to `target`: a heal when
/// `delta` is positive, damage when it is negative.
#[derive(Clone, Copy, Debug, PartialEq, Eq, Structural)]
pub struct HealthChange {
    pub instigator: u64,
    pub target: u64,
    pub delta: i32,
}

/// A heal never lifts health above its maximum, never changes the maximum,
/// and never brings back a character with no health left.
pub proof fn lemma_heal_bounded(before: Health, amount: u32)
    requires
        before.current <= before.max,
    ensures
        before.current + healed_points(before, amount) <= before.max,
        before.current == 0 ==> healed_points(before, amount) == 0,
        healed_points(before, amount) <= amount,
        before.current > 0 && amount <= before.max - before.current ==> healed_points(before, amount) == amount,
        before.current > 0 && amount > before.max - before.current ==> healed_points(before, amount) == before.max - before.current,
{
}

/// Damage never raises health, takes exactly what was dealt, and never
/// takes more than the amount of the hit.
pub proof fn lemma_damage_bounded(before: Health, amount: u32)
    ensures
        dealt_points(before, amount) <= before.current,
        dealt_points(before, amount) <= amount,
        amount >= before.current ==> before.current - dealt_points(before, amount) == 0,
{
}

} // verus!
