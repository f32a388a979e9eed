//! Effects on characters: how they end and what periodic effects do.

use vstd::prelude::*;
use crate::health::HealthChange;
use crate::timers::PeriodicEffectTimer;

verus! {

/// The effects among `effects` (pairs of an effect and its target) that
/// target `character`, in order.
pub open spec fn effects_on(effects: Seq<(u64, u64)>, character: u64) -> Seq<u64>
    decreases effects.len(),
{
    if effects.len() == 0 {
        Seq::empty()
    } else {
        let earlier = effects_on(effects.drop_last(), character);
        if effects.last().1 == character {
            earlier.push(effects.last().0)
        } else {
            earlier
        }
    }
}

/// The effects to dispel when the characters `died` died: for each of them
/// in order, the effects that target it, in order.
pub open spec fn dispelled_by(died: Seq<u64>, effects: Seq<(u64, u64)>) -> Seq<u64>
    decreases died.len(),
{
    if died.len() == 0 {
        Seq::empty()
    } else {
        dispelled_by(died.drop_last(), effects) + effects_on(effects, died.last())
    }
}

/// The effects that target `character`.
fn effects_targeting(effects: &Vec<(u64, u64)>, character: u64) -> (v: Vec<u64>)
    ensures
        v@ == effects_on(effects@, character),
{
    let mut v: Vec<u64> = Vec::new();
    let mut i: usize = 0;
    while i < effects.len()
        invariant
            i <= effects@.len(),
            v@ == effects_on(effects@.take(i as int), character),
        decreases effects@.len() - i,
    {
        assert(effects@.take(i + 1).drop_last() == effects@.take(i as int));
        let (effect, target) = effects[i];
        if target == character {
            v.push(effect);
        }
        i = i + 1;
    }
    assert(effects@.take(i as int) == effects@);
    v
}

/// The effects to dispel because the characters `died` died, given the
/// effects with their targets (see [`dispelled_by`]).
pub fn dispel_on_death(died: &Vec<u64>, effects: &Vec<(u64, u64)>) -> (dispelled: Vec<u64>)
    ensures
        dispelled@ == dispelled_by(died@, effects@),
{
    let mut dispelled: Vec<u64> = Vec::new();
    let mut i: usize = 0;
    while i < died.len()
        invariant
            i <= died@.len(),
            dispelled@ == dispelled_by(died@.take(i as int), effects@),
        decreases died@.len() - i,
    {
        assert(died@.take(i + 1).drop_last() == died@.take(i as int));
        let mut on = effects_targeting(effects, died[i]);
        dispelled.append(&mut on);
        i = i + 1;
    }
    assert(died@.take(i as int) == died@);
    dispelled
}

/// An effect is dispelled exactly when its target is among the characters
/// that died.
pub proof fn lemma_dispelled_iff_target_died(died: Seq<u64>, effects: Seq<(u64, u64)>, e: int)
    requires
        0 <= e < effects.len(),
        forall|i: int, j: int| 0 <= i < j < effects.len() ==> effects[i].0 != effects[j].0,
    ensures
        dispelled_by(died, effects).contains(effects[e].0) <==> died.contains(effects[e].1),
    decreases died.len(),
{
    if died.len() > 0 {
        lemma_dispelled_iff_target_died(died.drop_last(), effects, e);
        lemma_effects_on_contains(effects, died.last(), e);
        let earlier = dispelled_by(died.drop_last(), effects);
        let on = effects_on(effects, died.last());
        assert(dispelled_by(died, effects) == earlier + on);
        if died.contains(effects[e].1) {
            if effects[e].1 == died.last() {
                assert(on.contains(effects[e].0));
                let k = choose|k: int| 0 <= k < on.len() && on[k] == effects[e].0;
                assert((earlier + on)[earlier.len() + k] == effects[e].0);
            } else {
                let k = choose|k: int| 0 <= k < died.len() && died[k] == effects[e].1;
                assert(died.drop_last()[k] == effects[e].1);
                assert(earlier.contains(effects[e].0));
                let m = choose|m: int| 0 <= m < earlier.len() && earlier[m] == effects[e].0;
                assert((earlier + on)[m] == effects[e].0);
            }
        } else {
            assert(!died.drop_last().contains(effects[e].1)) by {
                if died.drop_last().contains(effects[e].1) {
                    let k = choose|k: int| 0 <= k < died.drop_last().len() && died.drop_last()[k] == effects[e].1;
                    assert(died[k] == effects[e].1);
                }
            }
            assert(died.last() != effects[e].1) by {
                assert(died[died.len() - 1] == died.last());
            }
            if (earlier + on).contains(effects[e].0) {
                let k = choose|k: int| 0 <= k < (earlier + on).len() && (earlier + on)[k] == effects[e].0;
                if k < earlier.len() {
                    assert(earlier[k] == effects[e].0);
                } else {
                    assert(on[k - earlier.len()] == effects[e].0);
                }
            }
        }
    }
}

/// An effect is among those targeting `character` exactly when its target
/// is `character`.
pub proof fn lemma_effects_on_contains(effects: Seq<(u64, u64)>, character: u64, e: int)
    requires
        0 <= e < effects.len(),
        forall|i: int, j: int| 0 <= i < j < effects.len() ==> effects[i].0 != effects[j].0,
    ensures
        effects_on(effects, character).contains(effects[e].0) <==> effects[e].1 == character,
    decreases effects.len(),
{
    let earlier = effects_on(effects.drop_last(), character);
    if e < effects.len() - 1 {
        assert(effects.drop_last()[e] == effects[e]);
        lemma_effects_on_contains(effects.drop_last(), character, e);
        assert(effects.last() == effects[effects.len() - 1]);
        if effects.last().1 == character {
            let all = earlier.push(effects.last().0);
            if earlier.contains(effects[e].0) {
                let k = choose|k: int| 0 <= k < earlier.len() && earlier[k] == effects[e].0;
                assert(all[k] == effects[e].0);
            }
            if all.contains(effects[e].0) {
                let k = choose|k: int| 0 <= k < all.len() && all[k] == effects[e].0;
                if k == earlier.len() {
                    assert(effects[e].0 == effects[effects.len() - 1].0);
                } else {
                    assert(earlier[k] == effects[e].0);
                }
            }
        }
    } else {
        lemma_effects_on_excludes(effects.drop_last(), character, effects[e].0);
        if effects.last().1 == character {
            let all = earlier.push(effects.last().0);
            assert(all[earlier.len() as int] == effects[e].0);
        }
    }
}

/// An effect that occurs nowhere among the effects is not among those
/// targeting any character.
pub proof fn lemma_effects_on_excludes(effects: Seq<(u64, u64)>, character: u64, effect: u64)
    requires
        forall|i: int| 0 <= i < effects.len() ==> effects[i].0 != effect,
    ensures
        !effects_on(effects, character).contains(effect),
    decreases effects.len(),
{
    if effects.len() > 0 {
        lemma_effects_on_excludes(effects.drop_last(), character, effect);
        let earlier = effects_on(effects.drop_last(), character);
        if effects.last().1 == character {
            let all = earlier.push(effects.last().0);
            if all.contains(effect) {
                let k = choose|k: int| 0 <= k < all.len() && all[k] == effect;
                if k < earlier.len() {
                    assert(earlier[k] == effect);
                } else {
                    assert(effects[effects.len() - 1].0 == effect);
                }
            }
        }
    }
}

/// Health change of the healing effect of a pickup, on each period.
pub const PICKUP_HEALING_DELTA: i32 = 10;

/// Seconds that the healing effect of a pickup lasts.
pub const PICKUP_HEALING_SECS: u64 = 4;

/// Seconds that the rage and speed effects of a pickup last.
pub const PICKUP_BOOST_SECS: u64 = 10;

/// The health change that a periodic effect of `delta`, owned by `owner` and
/// on `target`, causes now: one whenever its timer just finished a period.
pub fn periodic_health_change(owner: u64, target: u64, delta: i32, timer: &PeriodicEffectTimer) -> (change: Option<HealthChange>)
    ensures
        change == if timer.0@.times_finished > 0 {
            Some(HealthChange { instigator: owner, target, delta })
        } else {
            None
        },
{
    if timer.0.just_finished() {
        Some(HealthChange { instigator: owner, target, delta })
    } else {
        None
    }
}

} // verus!
