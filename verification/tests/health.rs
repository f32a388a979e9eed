use gardum::health::{damage, heal, Health, HealthChange, Statistics, DEFAULT_HEALTH};

/// Scales an amount by a modifier the way the game does before the rules
/// see it.
fn scaled(amount: u32, modifier: f32) -> u32 {
    (amount as f32 * modifier) as u32
}

#[test]
fn health_healing() {
    let mut target = Health::new();
    let mut instigator = Statistics::new();
    for (initial_health, amount, expected_healing, expected_health, modifier) in [
        (90, 5, 5, 95, 1.0),
        (90, 20, 10, Health::new().max, 1.0),
        (90, 10, 10, Health::new().max, 1.0),
        (0, 20, 0, 0, 1.0),
        (85, 5, 10, 95, 2.0),
    ] {
        target.current = initial_health;
        instigator.healing = 0;

        let restored = heal(&mut target, scaled(amount, modifier));
        instigator.record_healing(restored);

        assert_eq!(
            target.current, expected_health,
            "Healing from {} for {} points should set health to {}",
            initial_health, amount, expected_health
        );
        assert_eq!(
            instigator.healing, expected_healing,
            "Healing from {} for {} points should set amount of healing to {}",
            initial_health, amount, expected_healing
        );
    }
}

#[test]
fn health_damaging() {
    let mut target = Health::new();
    let mut target_stats = Statistics::new();
    let mut instigator = Statistics::new();
    for (initial_health, amount, expected_damage, expected_health, modifier) in [
        (90, 5, 5, 85, 1.0),
        (90, 95, 90, 0, 1.0),
        (90, 90, 90, 0, 1.0),
        (0, 20, 0, 0, 1.0),
        (90, 5, 10, 80, 2.0),
    ] {
        target.current = initial_health;
        instigator.damage = 0;

        let outcome = damage(&mut target, scaled(amount, modifier), false);
        target_stats.record_hit_taken(outcome);
        instigator.record_hit_done(outcome);

        assert_eq!(
            target.current, expected_health,
            "Damaging from {} for {} points should set health to {}",
            initial_health, amount, expected_health
        );
        assert_eq!(
            instigator.damage, expected_damage,
            "Damaging from {} for {} points should set amount of damage to {}",
            initial_health, amount, expected_damage
        );

        if target.current == 0 {
            assert_eq!(
                instigator.kills, 1,
                "The instigator gets a kill if the target's health drops to 0"
            );
            assert_eq!(
                target_stats.deaths, 1,
                "The target gets a death if its health drops to 0"
            );
            assert!(outcome.death, "Target should have a Death component");

            // Reset for the next iteration
            instigator.kills = 0;
            target_stats.deaths = 0;
        }
    }
}

#[test]
fn health_self_damaging() {
    let amount = Health::new().max;
    let mut health = Health::new();
    let mut stats = Statistics::new();

    let outcome = damage(&mut health, amount, true);
    stats.record_hit_taken(outcome);
    stats.record_hit_done(outcome);

    assert_eq!(
        health.current,
        Health::new().current - amount,
        "Health should decrease by the amount of damage"
    );
    assert_eq!(stats.damage, 0, "Amount of damage shouldn't increase for self-damage");
    assert_eq!(stats.kills, 0, "Kills shouldn't counted for self-damage");
    assert_eq!(stats.deaths, 1, "Deaths should counted for self-damage");
    assert!(outcome.death, "Target should have a Death component");
}

#[test]
fn health_defaults_and_missing() {
    let health = Health::new();
    assert_eq!(health, Health { current: DEFAULT_HEALTH, max: DEFAULT_HEALTH });
    assert_eq!(health.missing(), 0);
    assert_eq!(Health { current: 30, max: 100 }.missing(), 70);
    assert!(Health { current: 0, max: 100 }.is_dead());
    assert!(!health.is_dead());
}

#[test]
fn heal_never_exceeds_max_nor_revives() {
    for current in [0u32, 1, 50, 99, 100] {
        for amount in [0u32, 1, 49, 50, 51, 1000, u32::MAX] {
            let mut health = Health { current, max: 100 };
            let restored = heal(&mut health, amount);
            assert!(health.current <= health.max);
            assert!(restored <= amount);
            if current == 0 {
                assert_eq!(health.current, 0);
                assert_eq!(restored, 0);
            } else {
                assert_eq!(health.current, current + restored);
            }
        }
    }
}

#[test]
fn damage_takes_at_most_what_is_left() {
    for current in [0u32, 1, 50, 100] {
        for amount in [0u32, 1, 50, 51, u32::MAX] {
            let mut health = Health { current, max: 100 };
            let outcome = damage(&mut health, amount, false);
            assert_eq!(outcome.dealt, amount.min(current));
            assert_eq!(health.current, current - outcome.dealt);
            assert_eq!(outcome.death, health.current == 0);
            assert_eq!(outcome.kill, health.current == 0);
            assert_eq!(outcome.credited, outcome.dealt);
        }
    }
}

#[test]
fn damage_to_dead_target_counts_death_again() {
    let mut health = Health { current: 0, max: 100 };
    let outcome = damage(&mut health, 20, false);
    assert_eq!(outcome.dealt, 0);
    assert!(outcome.death);
    assert!(outcome.kill);
}

#[test]
fn health_change_holds_its_parts() {
    let change = HealthChange { instigator: 1, target: 2, delta: -20 };
    assert_eq!(change.instigator, 1);
    assert_eq!(change.target, 2);
    assert_eq!(change.delta, -20);
}
