use gardum::time::{Span, Timer};
use gardum::timers::{
    Cooldown, DespawnTimer, EffectTimer, PeriodicEffectTimer, RespawnTimer, PERIODIC_EFFECT_SECS,
    RESPAWN_SECS,
};

const FRAME: u64 = 16;

#[test]
fn cooldown_cooldown_from_secs() {
    const SECONDS: u64 = 4;

    let cooldown = Cooldown::from_secs(SECONDS);
    assert_eq!(cooldown.0.duration(), Span::from_secs(SECONDS));
    assert!(cooldown.0.finished(), "Cooldown shouldn't tick after creation");
}

#[test]
fn despawn_timer_despawn_timer_from_secs() {
    const SECONDS: u64 = 4;

    let timer = DespawnTimer::from_secs(SECONDS);
    assert_eq!(timer.0.duration(), Span::from_secs(SECONDS));
    assert!(!timer.0.finished(), "Despawn timer should tick after creation");
}

#[test]
fn despawn_timer_despawn_timer_ticks() {
    let mut timer = DespawnTimer::from_secs(1);

    assert!(!timer.advance(Span::from_millis(FRAME)));
    assert!(!timer.advance(Span::from_millis(FRAME)));

    assert!(!timer.0.elapsed().is_zero(), "Despawn timer should tick");
    assert_eq!(timer.0.elapsed().as_nanos(), 2 * FRAME as u128 * 1_000_000);
}

#[test]
fn despawn_timer_despawn_timer_destroys() {
    let mut timer = DespawnTimer::zero();

    assert!(
        timer.advance(Span::from_millis(FRAME)),
        "Despawn timer should destroy its entity after the time expires"
    );
    assert!(!timer.advance(Span::from_millis(FRAME)), "A timer runs out only once");
}

#[test]
fn single_run_timer_clamps_at_duration() {
    let mut timer = Timer::from_secs(1, false);
    timer.tick(Span::from_millis(1500));
    assert_eq!(timer.elapsed(), Span::from_secs(1));
    assert!(timer.finished());
    assert!(timer.just_finished());
    assert_eq!(timer.times_finished(), 1);

    timer.tick(Span::from_millis(500));
    assert_eq!(timer.elapsed(), Span::from_secs(1));
    assert!(timer.finished());
    assert!(!timer.just_finished());
}

#[test]
fn timer_counts_ticks() {
    let mut timer = Timer::from_secs(2, false);
    timer.tick(Span::from_millis(500));
    assert_eq!(timer.elapsed(), Span::from_millis(500));
    assert!(!timer.finished());
    assert_eq!(timer.times_finished(), 0);
}

#[test]
fn repeating_timer_wraps_around() {
    let mut timer = Timer::from_secs(1, true);
    timer.tick(Span::from_millis(1500));
    assert_eq!(timer.elapsed(), Span::from_millis(500));
    assert!(timer.finished());
    assert_eq!(timer.times_finished(), 1);

    timer.tick(Span::from_secs(6));
    assert_eq!(timer.times_finished(), 6);
    assert_eq!(timer.elapsed(), Span::from_millis(500));

    timer.tick(Span::from_millis(100));
    assert_eq!(timer.times_finished(), 0);
    assert!(!timer.finished());
    assert_eq!(timer.elapsed(), Span::from_millis(600));
}

#[test]
fn timer_reset_starts_over() {
    let mut timer = Timer::from_secs(1, false);
    timer.tick(Span::from_millis(1500));
    timer.reset();
    assert!(!timer.finished());
    assert!(!timer.just_finished());
    assert!(timer.elapsed().is_zero());
    assert_eq!(timer.duration(), Span::from_secs(1));
}

#[test]
fn timer_tick_guard() {
    let timer = Timer::from_secs(1, false);
    assert!(timer.can_tick(Span::from_secs(u64::MAX)));
    let mut timer = Timer::from_secs(1, false);
    timer.tick(Span::from_secs(u64::MAX - 1));
    assert!(timer.can_tick(Span::from_secs(u64::MAX)), "a finished timer ignores ticks");
    let mut repeating = Timer::from_secs(1, true);
    repeating.tick(Span::from_millis(500));
    assert!(repeating.can_tick(Span::from_secs(1)));
    assert!(repeating.can_tick(Span { secs: u64::MAX, nanos: 0 }));
    assert!(!repeating.can_tick(Span { secs: u64::MAX, nanos: 600_000_000 }));
    assert!(!Timer::new(Span::zero(), true).can_tick(Span::zero()));
}

#[test]
fn span_conversions() {
    assert_eq!(Span::from_millis(1500), Span { secs: 1, nanos: 500_000_000 });
    assert_eq!(Span::from_nanos(2_000_000_001), Span { secs: 2, nanos: 1 });
    assert_eq!(Span::from_secs(3).as_nanos(), 3_000_000_000);
    assert!(Span::zero().is_zero());
}

#[test]
fn game_timer_defaults() {
    let respawn = RespawnTimer::new();
    assert_eq!(respawn.0.duration(), Span::from_secs(RESPAWN_SECS));
    assert!(!respawn.0.repeating());
    let periodic = PeriodicEffectTimer::new();
    assert_eq!(periodic.0.duration(), Span::from_secs(PERIODIC_EFFECT_SECS));
    assert!(periodic.0.repeating());
    let effect = EffectTimer::from_secs(4);
    assert_eq!(effect.0.duration(), Span::from_secs(4));
    assert!(!effect.0.finished());
}

#[test]
fn effect_timer_assigns_and_removes() {
    let mut timer = EffectTimer::from_secs(1);
    assert!(!timer.advance(Span::from_millis(FRAME)));
    let duration = timer.0.duration();
    assert!(timer.advance(duration), "Effect timer should be removed when expires");
    assert!(timer.advance(Span::from_millis(FRAME)), "An expired effect stays expired");
}

#[test]
fn effect_expires() {
    let mut timer = EffectTimer::from_secs(1);
    let duration = timer.0.duration();
    assert!(timer.advance(duration), "Effect should be removed when its duration expires");
}

#[test]
fn timer_ticks() {
    let mut timer = PeriodicEffectTimer::new();
    timer.0.tick(Span::from_millis(FRAME));
    timer.0.tick(Span::from_millis(FRAME));
    assert!(
        !timer.0.elapsed().is_zero(),
        "Periodic health effect timer should tick"
    );
    assert!(timer.0.repeating(), "Periodic timer shouldn't stop");
}

#[test]
fn respawn_asigns() {
    let timer = RespawnTimer::new();
    assert!(!timer.0.finished(), "Player should have respawn timer assigned after death");
}

#[test]
fn player_respawns() {
    let mut timer = RespawnTimer::new();
    assert!(!timer.advance(Span::from_millis(FRAME)));
    assert!(!timer.0.elapsed().is_zero(), "Respawn timer should tick");

    let left = timer.0.duration().as_nanos() - timer.0.elapsed().as_nanos();
    assert!(!timer.advance(Span::from_nanos(left as u64 - 1)));
    assert!(
        timer.advance(Span::from_millis(FRAME)),
        "Player should be moved to spawn point when the respawn timer runs out"
    );
}
