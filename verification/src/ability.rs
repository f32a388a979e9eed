//! Actions a player controls and the activation of a character's abilities.

use vstd::prelude::*;
use crate::time::{Span, TimerView, tick_allowed, tick_spec};
use crate::timers::Cooldown;

verus! {

/// What a player can ask a character to do.
#[derive(Clone, Copy, Debug, PartialEq, Eq, Hash, Structural)]
pub enum ControlAction {
    Forward,
    Backward,
    Left,
    Right,
    Jump,
    BaseAttack,
    Ability1,
    Ability2,
    Ability3,
    Ultimate,
}

/// Whether `action` is among `actions`.
pub fn contains_action(actions: &Vec<ControlAction>, action: ControlAction) -> (b: bool)
    ensures
        b == actions@.contains(action),
{
    let mut i: usize = 0;
    while i < actions.len()
        invariant
            i <= actions.len(),
            forall|j: int| 0 <= j < i ==> actions@[j] != action,
        decreases actions.len() - i,
    {
        if actions[i] == action {
            return true;
        }
        i = i + 1;
    }
    false
}

/// An ability of a character: the action that activates it and its
/// cooldown, if it has one.
#[derive(Clone, Copy, Debug)]
pub struct AbilitySlot {
    pub action: ControlAction,
    pub cooldown: Option<Cooldown>,
}

/// The timer of a cooldown, if there is one.
pub open spec fn cooldown_view(c: Option<Cooldown>) -> Option<TimerView> {
    match c {
        Some(c) => Some(c.0@),
        None => None,
    }
}

/// The cooldown of every slot holds well-formed spans.
pub open spec fn slots_wf(slots: Seq<AbilitySlot>) -> bool {
    forall|i: int| 0 <= i < slots.len() ==> slot_wf(#[trigger] slots[i])
}

/// The cooldown of the slot, if any, holds well-formed spans.
pub open spec fn slot_wf(slot: AbilitySlot) -> bool {
    match slot.cooldown {
        Some(c) => c.0.wf(),
        None => true,
    }
}

/// The cooldown of the slot, if any, may be advanced by `delta`.
pub open spec fn slot_tickable(slot: AbilitySlot, delta: nat) -> bool {
    match slot.cooldown {
        Some(c) => tick_allowed(c.0@, delta),
        None => true,
    }
}

/// Index of the first slot, at or after `from`, whose action was just
/// pressed; the number of slots if there is none.
pub open spec fn first_pressed(
    slots: Seq<AbilitySlot>,
    pressed: Seq<ControlAction>,
    from: int,
) -> int
    decreases slots.len() - from,
{
    if from < 0 || from >= slots.len() {
        slots.len() as int
    } else if pressed.contains(slots[from].action) {
        from
    } else {
        first_pressed(slots, pressed, from + 1)
    }
}

/// The first pressed slot at or after `from` lies between `from` and the
/// number of slots, and is pressed unless it is past the last slot.
pub proof fn lemma_first_pressed_bounds(slots: Seq<AbilitySlot>, pressed: Seq<ControlAction>, from: int)
    requires
        0 <= from <= slots.len(),
    ensures
        from <= first_pressed(slots, pressed, from) <= slots.len(),
        first_pressed(slots, pressed, from) < slots.len() ==> pressed.contains(
            slots[first_pressed(slots, pressed, from)].action,
        ),
        forall|j: int|
            from <= j < first_pressed(slots, pressed, from) ==> !pressed.contains(
                #[trigger] slots[j].action,
            ),
    decreases slots.len() - from,
{
    if from < slots.len() && !pressed.contains(slots[from].action) {
        lemma_first_pressed_bounds(slots, pressed, from + 1);
    }
}

/// The timer with its current run started over.
pub open spec fn reset_view(t: TimerView) -> TimerView {
    TimerView { elapsed: 0, finished: false, times_finished: 0, ..t }
}

/// The cooldown timer of a slot after advancing it by `delta`.
pub open spec fn ticked_cooldown(c: Option<Cooldown>, delta: nat) -> Option<TimerView> {
    match c {
        Some(c) => Some(tick_spec(c.0@, delta)),
        None => None,
    }
}

/// Whether the slot at `k` gets activated once its cooldown is advanced by
/// `delta`: it has no cooldown, or the cooldown is over after that tick.
pub open spec fn ready_after_tick(slot: AbilitySlot, delta: nat) -> bool {
    match slot.cooldown {
        Some(c) => tick_spec(c.0@, delta).finished,
        None => true,
    }
}

/// A slot is ready after a tick exactly when it has no cooldown or its
/// cooldown is finished after that tick; a single-run cooldown that was not
/// finished becomes ready only once the tick brings it to its duration.
pub proof fn lemma_ready_after_tick(slot: AbilitySlot, delta: nat)
    ensures
        slot.cooldown is None ==> ready_after_tick(slot, delta),
        slot.cooldown matches Some(c) ==> (ready_after_tick(slot, delta) == tick_spec(c.0@, delta).finished),
        match slot.cooldown {
            Some(c) => !c.0@.repeating && !c.0@.finished ==> (ready_after_tick(slot, delta)
                == (c.0@.elapsed + delta >= c.0@.duration)),
            None => true,
        },
{
}

/// Runs one frame of ability activation for a character whose abilities
/// are `slots` (in order), with `pressed` the actions just pressed and
/// `delta` the time since the last frame.
///
/// Slots are visited in order up to the first one whose action was just
/// pressed; the cooldown of every visited slot is advanced by `delta`. The
/// first pressed slot is activated, and its cooldown started over, if its
/// cooldown is over; otherwise nothing is activated. Returns the index of the
/// activated slot.
pub fn activate(slots: &mut Vec<AbilitySlot>, pressed: &Vec<ControlAction>, delta: Span) -> (activated: Option<usize>)
    requires
        slots_wf(old(slots)@),
        delta.wf(),
        forall|i: int|
            0 <= i < old(slots)@.len() && i <= first_pressed(old(slots)@, pressed@, 0)
                ==> slot_tickable(#[trigger] old(slots)@[i], delta.total()),
    ensures
        ({
            let k = first_pressed(old(slots)@, pressed@, 0);
            &&& final(slots)@.len() == old(slots)@.len()
            &&& slots_wf(final(slots)@)
            &&& forall|i: int|
                0 <= i < old(slots)@.len() ==> (#[trigger] final(slots)@[i]).action == old(
                    slots,
                )@[i].action
            &&& forall|i: int|
                0 <= i < k && i < old(slots)@.len() ==> cooldown_view(
                    (#[trigger] final(slots)@[i]).cooldown,
                ) == ticked_cooldown(old(slots)@[i].cooldown, delta.total())
            &&& forall|i: int|
                k < i < old(slots)@.len() ==> cooldown_view((#[trigger] final(slots)@[i]).cooldown)
                    == cooldown_view(old(slots)@[i].cooldown)
            &&& k == old(slots)@.len() ==> activated is None
            &&& forall|j: usize|
                activated == Some(j) ==> j == k && (old(slots)@[j as int].cooldown matches Some(c)
                    ==> tick_spec(c.0@, delta.total()).finished)
            &&& forall|j: usize|
                activated == Some(j) ==> match old(slots)@[j as int].cooldown {
                    Some(c) => !c.0@.repeating ==> c.0@.finished || c.0@.elapsed + delta.total()
                        >= c.0@.duration,
                    None => true,
                }
            &&& k < old(slots)@.len() ==> match old(slots)@[k].cooldown {
                Some(c) => !tick_spec(c.0@, delta.total()).finished ==> activated is None,
                None => true,
            }
            &&& k < old(slots)@.len() ==> {
                let slot = old(slots)@[k];
                if ready_after_tick(slot, delta.total()) {
                    &&& activated == Some(k as usize)
                    &&& cooldown_view(final(slots)@[k].cooldown) == match slot.cooldown {
                        Some(c) => Some(reset_view(tick_spec(c.0@, delta.total()))),
                        None => None,
                    }
                } else {
                    &&& activated is None
                    &&& cooldown_view(final(slots)@[k].cooldown) == ticked_cooldown(
                        slot.cooldown,
                        delta.total(),
                    )
                }
            }
        }),
{
    let ghost orig = slots@;
    let mut i: usize = 0;
    while i < slots.len()
        invariant
            orig == old(slots)@,
            slots@.len() == orig.len(),
            0 <= i <= orig.len(),
            delta.wf(),
            slots_wf(orig),
            slots_wf(slots@),
            first_pressed(orig, pressed@, 0) == first_pressed(orig, pressed@, i as int),
            forall|j: int|
                0 <= j < orig.len() && j <= first_pressed(orig, pressed@, 0) ==> slot_tickable(
                    #[trigger] orig[j],
                    delta.total(),
                ),
            forall|j: int| 0 <= j < orig.len() ==> (#[trigger] slots@[j]).action == orig[j].action,
            forall|j: int|
                0 <= j < i ==> cooldown_view((#[trigger] slots@[j]).cooldown) == ticked_cooldown(
                    orig[j].cooldown,
                    delta.total(),
                ),
            forall|j: int|
                i <= j < orig.len() ==> #[trigger] slots@[j] == orig[j],
        decreases orig.len() - i,
    {
        proof {
            lemma_first_pressed_bounds(orig, pressed@, i as int);
        }
        let mut slot = slots[i];
        assert(slot == orig[i as int]);
        let just_pressed = contains_action(pressed, slot.action);
        if !just_pressed {
            assert(first_pressed(orig, pressed@, i as int) == first_pressed(
                orig,
                pressed@,
                i + 1,
            ));
        }
        let mut ready = true;
        match slot.cooldown {
            Some(mut c) => {
                c.0.tick(delta);
                if just_pressed {
                    if !c.0.finished() {
                        ready = false;
                    } else {
                        c.0.reset();
                    }
                }
                slot.cooldown = Some(c);
            },
            None => {},
        }
        slots.set(i, slot);
        if just_pressed {
            if ready {
                return Some(i);
            } else {
                return None;
            }
        }
        i = i + 1;
    }
    None
}

/// Chooses the ability that a character activates when its abilities
/// are `slots` and `pressed` were just pressed, without advancing cooldowns:
/// the first slot whose action was just pressed, if its cooldown is over, in
/// which case the cooldown starts over.
pub fn select_ability(slots: &mut Vec<AbilitySlot>, pressed: &Vec<ControlAction>) -> (activated: Option<usize>)
    requires
        slots_wf(old(slots)@),
    ensures
        ({
            let k = first_pressed(old(slots)@, pressed@, 0);
            &&& final(slots)@.len() == old(slots)@.len()
            &&& slots_wf(final(slots)@)
            &&& forall|i: int|
                0 <= i < old(slots)@.len() ==> (#[trigger] final(slots)@[i]).action == old(
                    slots,
                )@[i].action
            &&& forall|i: int|
                0 <= i < old(slots)@.len() && i != k ==> cooldown_view(
                    (#[trigger] final(slots)@[i]).cooldown,
                ) == cooldown_view(old(slots)@[i].cooldown)
            &&& k == old(slots)@.len() ==> activated is None
            &&& k < old(slots)@.len() ==> match old(slots)@[k].cooldown {
                Some(c) => if c.0@.finished {
                    &&& activated == Some(k as usize)
                    &&& cooldown_view(final(slots)@[k].cooldown) == Some(reset_view(c.0@))
                } else {
                    &&& activated is None
                    &&& cooldown_view(final(slots)@[k].cooldown) == Some(c.0@)
                },
                None => activated == Some(k as usize) && final(slots)@[k].cooldown is None,
            }
        }),
{
    let ghost orig = slots@;
    let mut i: usize = 0;
    while i < slots.len()
        invariant
            orig == old(slots)@,
            slots@ == orig,
            0 <= i <= orig.len(),
            slots_wf(orig),
            first_pressed(orig, pressed@, 0) == first_pressed(orig, pressed@, i as int),
        decreases orig.len() - i,
    {
        proof {
            lemma_first_pressed_bounds(orig, pressed@, i as int);
        }
        let mut slot = slots[i];
        if contains_action(pressed, slot.action) {
            match slot.cooldown {
                Some(mut c) => {
                    if !c.0.finished() {
                        return None;
                    }
                    c.0.reset();
                    slot.cooldown = Some(c);
                    slots.set(i, slot);
                },
                None => {},
            }
            return Some(i);
        }
        i = i + 1;
    }
    None
}

/// Seconds of the cooldown of the first hero's abilities.
pub const HERO_ABILITY_COOLDOWN_SECS: u64 = 4;

/// Which ability button was pressed this frame, in the earliest scheme of
/// ability input: one slot per button.
#[derive(Clone, Copy, Debug, PartialEq, Eq, Structural)]
pub enum AbilityInput {
    Idle,
    BaseAttack,
    Ability1,
    Ability2,
    Ability3,
    Ultimate,
}

/// The ability input of a frame from the buttons just pressed: `Q`, `E`,
/// left shift, `R` and the left mouse button, in that order of precedence.
pub fn ability_input(q: bool, e: bool, left_shift: bool, r: bool, mouse_left: bool) -> (input: AbilityInput)
    ensures
        input == (if q {
            AbilityInput::Ability1
        } else if e {
            AbilityInput::Ability2
        } else if left_shift {
            AbilityInput::Ability3
        } else if r {
            AbilityInput::Ultimate
        } else if mouse_left {
            AbilityInput::BaseAttack
        } else {
            AbilityInput::Idle
        }),
{
    if q {
        AbilityInput::Ability1
    } else if e {
        AbilityInput::Ability2
    } else if left_shift {
        AbilityInput::Ability3
    } else if r {
        AbilityInput::Ultimate
    } else if mouse_left {
        AbilityInput::BaseAttack
    } else {
        AbilityInput::Idle
    }
}

/// The slot that an ability input selects: base attack first, ultimate last.
pub open spec fn input_slot_spec(input: AbilityInput) -> Option<usize> {
    match input {
        AbilityInput::Idle => None,
        AbilityInput::BaseAttack => Some(0usize),
        AbilityInput::Ability1 => Some(1usize),
        AbilityInput::Ability2 => Some(2usize),
        AbilityInput::Ability3 => Some(3usize),
        AbilityInput::Ultimate => Some(4usize),
    }
}

/// The slot that an ability input selects (see [`input_slot_spec`]).
pub fn input_slot(input: AbilityInput) -> (slot: Option<usize>)
    ensures
        slot == input_slot_spec(input),
        slot == match input {
            AbilityInput::Idle => None,
            AbilityInput::BaseAttack => Some(0usize),
            AbilityInput::Ability1 => Some(1usize),
            AbilityInput::Ability2 => Some(2usize),
            AbilityInput::Ability3 => Some(3usize),
            AbilityInput::Ultimate => Some(4usize),
        },
{
    match input {
        AbilityInput::Idle => None,
        AbilityInput::BaseAttack => Some(0),
        AbilityInput::Ability1 => Some(1),
        AbilityInput::Ability2 => Some(2),
        AbilityInput::Ability3 => Some(3),
        AbilityInput::Ultimate => Some(4),
    }
}

/// An ability in the earliest scheme of abilities: its logic is run by the
/// caller whenever a cast succeeds.
#[derive(Clone, Copy, Debug)]
pub struct Ability {
    pub cooldown: Cooldown,
}

impl Ability {
    /// An ability with a cooldown of `secs` seconds that is already over.
    pub fn new(secs: u64) -> (a: Ability)
        ensures
            a.cooldown.0.wf(),
            a.cooldown.0@ == (TimerView {
                duration: (secs as nat) * 1_000_000_000,
                elapsed: (secs as nat) * 1_000_000_000,
                repeating: false,
                finished: true,
                times_finished: 1,
            }),
    {
        Ability { cooldown: Cooldown::from_secs(secs) }
    }

    /// Casts the ability: only when its cooldown is over, in which case the
    /// cooldown starts over. Tells whether the ability's logic runs.
    pub fn cast(&mut self) -> (casts: bool)
        requires
            old(self).cooldown.0.wf(),
        ensures
            final(self).cooldown.0.wf(),
            casts == old(self).cooldown.0@.finished,
            final(self).cooldown.0@ == if casts {
                reset_view(old(self).cooldown.0@)
            } else {
                old(self).cooldown.0@
            },
    {
        if self.cooldown.0.finished() {
            self.cooldown.0.reset();
            true
        } else {
            false
        }
    }
}

/// The abilities of a character in the earliest scheme, one per input slot.
#[derive(Clone, Debug)]
pub struct Abilities(pub Vec<Ability>);

impl Abilities {
    /// Every ability's cooldown holds well-formed spans.
    pub open spec fn wf(&self) -> bool {
        forall|i: int| 0 <= i < self.0@.len() ==> (#[trigger] self.0@[i]).cooldown.0.wf()
    }

    /// Casts the ability that `input` selects, if the character has one
    /// there. Gives its slot when the cast succeeds; every other ability
    /// stays as it was.
    pub fn cast_input(&mut self, input: AbilityInput) -> (cast: Option<usize>)
        requires
            old(self).wf(),
        ensures
            final(self).wf(),
            final(self).0@.len() == old(self).0@.len(),
            match input_slot_spec(input) {
                Some(k) if k < old(self).0@.len() => {
                    &&& cast == if old(self).0@[k as int].cooldown.0@.finished {
                        Some(k)
                    } else {
                        None
                    }
                    &&& final(self).0@[k as int].cooldown.0@ == if old(self).0@[k as int].cooldown.0@.finished {
                        reset_view(old(self).0@[k as int].cooldown.0@)
                    } else {
                        old(self).0@[k as int].cooldown.0@
                    }
                    &&& forall|i: int| 0 <= i < old(self).0@.len() && i != k ==> #[trigger] final(self).0@[i] == old(self).0@[i]
                },
                _ => cast is None && final(self).0@ == old(self).0@,
            },
    {
        let k = match input_slot(input) {
            Some(k) => k,
            None => return None,
        };
        if k >= self.0.len() {
            return None;
        }
        let mut ability = self.0[k];
        let casts = ability.cast();
        self.0.set(k, ability);
        if casts {
            Some(k)
        } else {
            None
        }
    }
}

} // verus!
