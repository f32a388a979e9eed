use gardum::effect::{dispel_on_death, PICKUP_HEALING_DELTA};
use gardum::health::HealthChange;
use gardum::pickup::{advance_cooldown, effect_of, take, PickupEffect, PickupKind, PICKUP_COOLDOWN_SECS};
use gardum::time::Span;
use gardum::timers::{Cooldown, PeriodicEffectTimer};

#[test]
fn effects_cleanup_on_death() {
    let character = 1;
    let effect = 10;
    let dispelled = dispel_on_death(&vec![character], &vec![(effect, character)]);
    assert_eq!(dispelled, vec![effect], "Effect should be removed with character death");
}

#[test]
fn dispel_only_effects_on_the_dead() {
    let dispelled = dispel_on_death(&vec![2, 1], &vec![(10, 1), (11, 2), (12, 3), (13, 1)]);
    assert_eq!(dispelled, vec![11, 10, 13]);
    assert!(dispel_on_death(&vec![], &vec![(10, 1)]).is_empty());
}

#[test]
fn periodic_health_change() {
    const DELTA: i32 = 10;
    let (owner, target) = (7, 8);
    let mut timer = PeriodicEffectTimer::new();
    let almost = Span::from_nanos(timer.0.duration().as_nanos() as u64 - 1);
    timer.0.tick(almost);
    assert_eq!(gardum::effect::periodic_health_change(owner, target, DELTA, &timer), None);
    timer.0.tick(Span::from_millis(16));
    let change = gardum::effect::periodic_health_change(owner, target, DELTA, &timer)
        .expect("Health change event should be triggered");
    assert_eq!(change.instigator, owner, "Event instigator should be equal to effect owner");
    assert_eq!(change.delta, DELTA, "Event delta should be equal to the effect delta");
    assert_eq!(change, HealthChange { instigator: owner, target, delta: DELTA });
}

#[test]
fn pickup_applies_effect() {
    let character = 42;
    for kind in PickupKind::all() {
        let mut cooldown = Cooldown::from_secs(PICKUP_COOLDOWN_SECS);
        let (effect, target) = take(&mut cooldown, kind, Some(character))
            .expect("An effect should be created");
        assert_eq!(target, character, "Effect should be applied to the colliding character");
        assert_eq!(effect, effect_of(kind));
        assert!(!cooldown.0.finished());
    }
    assert_eq!(
        effect_of(PickupKind::Healing),
        PickupEffect::PeriodicHealth { delta: PICKUP_HEALING_DELTA, secs: 4 }
    );
    assert_eq!(effect_of(PickupKind::Rage), PickupEffect::Rage { secs: 10 });
    assert_eq!(effect_of(PickupKind::Speed), PickupEffect::Speed { secs: 10 });
}

#[test]
fn pickup_cooldown() {
    let mut cooldown = Cooldown::from_secs(PICKUP_COOLDOWN_SECS);
    cooldown.0.reset();

    assert!(
        take(&mut cooldown, PickupKind::Healing, Some(1)).is_none(),
        "Effect shouldn't be applied because of cooldown"
    );
    assert!(take(&mut Cooldown::from_secs(1), PickupKind::Healing, None).is_none());

    let left = cooldown.0.duration().as_nanos() - cooldown.0.elapsed().as_nanos();
    assert!(!advance_cooldown(&mut cooldown, Span::from_nanos(left as u64 - 1)));
    assert!(
        advance_cooldown(&mut cooldown, Span::from_millis(16)),
        "Pickup mesh should become visible"
    );
}

#[test]
fn pickup_assets() {
    assert_eq!(PickupKind::Healing.asset_path(), "pickup/cross.glb#Scene0");
    assert_eq!(PickupKind::Rage.asset_path(), "pickup/blood_drop.glb#Scene0");
    assert_eq!(PickupKind::Speed.asset_path(), "pickup/lightning.glb#Scene0");
}
