//! Heroes and their abilities.

use vstd::prelude::*;
use crate::ability::{AbilitySlot, ControlAction};
use crate::health::HealthChange;
use crate::settings::reads_as;
use crate::time::TimerView;
use crate::timers::Cooldown;

verus! {

/// Heroes a player can play.
#[derive(Clone, Copy, Debug, PartialEq, Eq, Hash, Structural)]
pub enum HeroKind {
    North,
}

impl HeroKind {
    /// The hero's name.
    pub fn name(self) -> (s: &'static str)
        ensures
            s@ == "North"@,
    {
        match self {
            HeroKind::North => "North",
        }
    }

    /// The hero whose name is `s`, if there is one.
    pub fn parse(s: &str) -> (h: Option<HeroKind>)
        ensures
            h == if s@ == "North"@ {
                Some(HeroKind::North)
            } else {
                None
            },
    {
        if reads_as(s, "North") {
            Some(HeroKind::North)
        } else {
            None
        }
    }

    /// Every hero, in declaration order.
    pub fn all() -> (v: Vec<HeroKind>)
        ensures
            v@ == seq![HeroKind::North],
    {
        vec![HeroKind::North]
    }
}

/// The hero given to a player who joins: a random one when the server
/// chooses heroes randomly (there is only one hero to choose), none
/// otherwise.
pub fn hero_for_new_player(random_heroes: bool) -> (h: Option<HeroKind>)
    ensures
        h == if random_heroes {
            Some(HeroKind::North)
        } else {
            None
        },
{
    if random_heroes {
        Some(HeroKind::North)
    } else {
        None
    }
}

/// Seconds of the cooldown of North's abilities.
pub const NORTH_COOLDOWN_SECS: u64 = 4;

/// Health change that a frost bolt causes to what it hits.
pub const FROST_BOLT_DAMAGE: i32 = -20;

/// Name of North's frost bolt ability.
pub const FROST_BOLT_NAME: &'static str = "Frost Bolt Ability";

/// Icon of North's frost bolt ability.
pub const FROST_BOLT_ICON: &'static str = "character/hero/north/frost_bolt.png";

/// Name of North's frost path ability.
pub const FROST_PATH_NAME: &'static str = "Frost Path Ability";

/// Icon of North's frost path ability.
pub const FROST_PATH_ICON: &'static str = "character/hero/north/frost_path.png";

/// The timer of a cooldown of `secs` seconds that is already over.
pub open spec fn ready_cooldown(secs: nat) -> TimerView {
    TimerView {
        duration: secs * 1_000_000_000,
        elapsed: secs * 1_000_000_000,
        repeating: false,
        finished: true,
        times_finished: 1,
    }
}

/// A ready cooldown is a single run that has fully elapsed: it does not
/// repeat, it is finished, and it counted its whole duration.
pub proof fn lemma_ready_cooldown_is_over(secs: nat)
    ensures
        !ready_cooldown(secs).repeating,
        ready_cooldown(secs).finished,
        ready_cooldown(secs).duration == secs * 1_000_000_000,
        ready_cooldown(secs).elapsed == secs * 1_000_000_000,
{
}

/// The abilities of a hero, in slot order. North has the frost bolt on the
/// base attack and the frost path on the first ability, both with a cooldown
/// of [`NORTH_COOLDOWN_SECS`] that is over.
pub fn hero_abilities(kind: HeroKind) -> (slots: Vec<AbilitySlot>)
    ensures
        slots@.len() == 2,
        slots@[0].action == ControlAction::BaseAttack,
        slots@[1].action == ControlAction::Ability1,
        forall|i: int|
            0 <= i < 2 ==> ((#[trigger] slots@[i]).cooldown matches Some(c) && c.0.wf() && c.0@
                == ready_cooldown(NORTH_COOLDOWN_SECS as nat)),
        forall|i: int|
            0 <= i < 2 ==> ((#[trigger] slots@[i]).cooldown matches Some(c) && !c.0@.repeating
                && c.0@.finished && c.0@.duration == 4_000_000_000 && c.0@.elapsed == 4_000_000_000),
{
    match kind {
        HeroKind::North => {
            let bolt = AbilitySlot {
                action: ControlAction::BaseAttack,
                cooldown: Some(Cooldown::from_secs(NORTH_COOLDOWN_SECS)),
            };
            let path = AbilitySlot {
                action: ControlAction::Ability1,
                cooldown: Some(Cooldown::from_secs(NORTH_COOLDOWN_SECS)),
            };
            vec![bolt, path]
        },
    }
}

/// What a frost bolt does when it touched something: nothing if it touched
/// nothing; otherwise it disappears, and if the first thing it touched has
/// health, that thing takes the bolt's damage from the bolt's owner.
/// `first_touched` is the first body touched and whether it has health.
pub fn frost_bolt_hit(owner: u64, first_touched: Option<(u64, bool)>) -> (r: (bool, Option<HealthChange>))
    ensures
        r == match first_touched {
            None => (false, None),
            Some((target, has_health)) => (
                true,
                if has_health {
                    Some(HealthChange { instigator: owner, target, delta: FROST_BOLT_DAMAGE })
                } else {
                    None
                },
            ),
        },
{
    match first_touched {
        None => (false, None),
        Some((target, has_health)) => {
            if has_health {
                (true, Some(HealthChange { instigator: owner, target, delta: FROST_BOLT_DAMAGE }))
            } else {
                (true, None)
            }
        },
    }
}

} // verus!
