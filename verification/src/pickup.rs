//! Pickups: what they give and when they are available.

use vstd::prelude::*;
use crate::effect::{PICKUP_BOOST_SECS, PICKUP_HEALING_DELTA, PICKUP_HEALING_SECS};
use crate::time::{Span, tick_allowed, tick_spec};
use crate::timers::{Cooldown, finishes_on_tick};
use crate::ability::reset_view;

verus! {

/// Kinds of pickups.
#[derive(Clone, Copy, Debug, PartialEq, Eq, Hash, Structural)]
pub enum PickupKind {
    Healing,
    Rage,
    Speed,
}

/// Seconds before a pickup can be taken again.
pub const PICKUP_COOLDOWN_SECS: u64 = 10;

/// Path of the scene of the platform under every pickup.
pub const PLATFORM_PATH: &'static str = "pickup/platform.glb#Scene0";

impl PickupKind {
    /// Path of the scene of the pickup's model.
    pub fn asset_path(self) -> (s: &'static str)
        ensures
            s@ == match self {
                PickupKind::Speed => "pickup/lightning.glb#Scene0"@,
                PickupKind::Rage => "pickup/blood_drop.glb#Scene0"@,
                PickupKind::Healing => "pickup/cross.glb#Scene0"@,
            },
    {
        match self {
            PickupKind::Speed => "pickup/lightning.glb#Scene0",
            PickupKind::Rage => "pickup/blood_drop.glb#Scene0",
            PickupKind::Healing => "pickup/cross.glb#Scene0",
        }
    }

    /// Every kind, in declaration order.
    pub fn all() -> (v: Vec<PickupKind>)
        ensures
            v@ == seq![PickupKind::Healing, PickupKind::Rage, PickupKind::Speed],
    {
        vec![PickupKind::Healing, PickupKind::Rage, PickupKind::Speed]
    }
}

/// An effect that a pickup gives to the character that takes it.
#[derive(Clone, Copy, Debug, PartialEq, Eq, Structural)]
pub enum PickupEffect {
    /// Changes health by `delta` every period, for `secs` seconds.
    PeriodicHealth { delta: i32, secs: u64 },
    /// Raises outgoing damage and healing, for `secs` seconds.
    Rage { secs: u64 },
    /// Raises movement speed, for `secs` seconds.
    Speed { secs: u64 },
}

/// The effect a pickup of `kind` gives.
pub open spec fn effect_of_spec(kind: PickupKind) -> PickupEffect {
    match kind {
        PickupKind::Healing => PickupEffect::PeriodicHealth { delta: PICKUP_HEALING_DELTA, secs: PICKUP_HEALING_SECS },
        PickupKind::Rage => PickupEffect::Rage { secs: PICKUP_BOOST_SECS },
        PickupKind::Speed => PickupEffect::Speed { secs: PICKUP_BOOST_SECS },
    }
}

/// The effect a pickup of `kind` gives (see [`effect_of_spec`]).
pub fn effect_of(kind: PickupKind) -> (e: PickupEffect)
    ensures
        e == effect_of_spec(kind),
        kind == PickupKind::Healing ==> e == (PickupEffect::PeriodicHealth { delta: 10, secs: 4 }),
        kind == PickupKind::Rage ==> e == (PickupEffect::Rage { secs: 10 }),
        kind == PickupKind::Speed ==> e == (PickupEffect::Speed { secs: 10 }),
{
    match kind {
        PickupKind::Healing => PickupEffect::PeriodicHealth { delta: PICKUP_HEALING_DELTA, secs: PICKUP_HEALING_SECS },
        PickupKind::Rage => PickupEffect::Rage { secs: PICKUP_BOOST_SECS },
        PickupKind::Speed => PickupEffect::Speed { secs: PICKUP_BOOST_SECS },
    }
}

/// A pickup of `kind`, with its cooldown, touched by characters: the first
/// character it touches takes it if the cooldown is over, in which case the
/// cooldown starts over and the pickup hides. Gives the effect and the
/// character that gets it.
pub fn take(cooldown: &mut Cooldown, kind: PickupKind, first_touched: Option<u64>) -> (taken: Option<(PickupEffect, u64)>)
    requires
        old(cooldown).0.wf(),
    ensures
        final(cooldown).0.wf(),
        match first_touched {
            Some(character) if old(cooldown).0@.finished => {
                &&& taken == Some((effect_of_spec(kind), character))
                &&& final(cooldown).0@ == reset_view(old(cooldown).0@)
            },
            _ => {
                &&& taken is None
                &&& final(cooldown).0@ == old(cooldown).0@
            },
        },
{
    let character = match first_touched {
        Some(c) => c,
        None => return None,
    };
    if !cooldown.0.finished() {
        return None;
    }
    cooldown.0.reset();
    Some((effect_of(kind), character))
}

/// Advances the cooldown of a pickup by `delta` and tells whether the
/// pickup shows again: on the tick that the cooldown runs out.
pub fn advance_cooldown(cooldown: &mut Cooldown, delta: Span) -> (reappears: bool)
    requires
        old(cooldown).0.wf(),
        delta.wf(),
        tick_allowed(old(cooldown).0@, delta.total()),
    ensures
        final(cooldown).0.wf(),
        final(cooldown).0@ == tick_spec(old(cooldown).0@, delta.total()),
        reappears == finishes_on_tick(old(cooldown).0@, delta.total()),
{
    cooldown.0.tick(delta);
    cooldown.0.just_finished()
}

} // verus!
