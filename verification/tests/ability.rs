use gardum::ability::{
    ability_input, activate, contains_action, input_slot, select_ability, Abilities, Ability,
    AbilityInput, AbilitySlot, ControlAction,
};
use gardum::time::Span;
use gardum::timers::Cooldown;

const FRAME: u64 = 16;

fn dummy_slot() -> AbilitySlot {
    AbilitySlot { action: ControlAction::Ability1, cooldown: Some(Cooldown::from_secs(1)) }
}

#[test]
fn ability_ability_ignores_unrelated_action() {
    let mut slots = vec![dummy_slot()];
    let activated = activate(&mut slots, &vec![ControlAction::Ability2], Span::from_millis(FRAME));
    assert!(activated.is_none(), "Ability shouldn't be triggered for unrelated action");

    let mut slots = vec![dummy_slot()];
    let activated = select_ability(&mut slots, &vec![ControlAction::Ability2]);
    assert!(activated.is_none(), "Activation event shouldn't be triggered for unrelated key");
}

#[test]
fn ability_ability_activates() {
    let mut slots = vec![dummy_slot()];
    let activated = activate(&mut slots, &vec![ControlAction::Ability1], Span::from_millis(FRAME));
    assert_eq!(activated, Some(0), "Ability should be activated");

    let cooldown = slots[0].cooldown.unwrap();
    assert!(!cooldown.0.finished(), "Cooldown should be triggered");
    assert!(
        cooldown.0.elapsed().is_zero(),
        "Cooldown shouldn't have elapsed right after activation time"
    );

    let activated = activate(&mut slots, &vec![], Span::from_millis(FRAME));
    assert_eq!(activated, None);
    let cooldown = slots[0].cooldown.unwrap();
    assert!(!cooldown.0.elapsed().is_zero(), "Cooldown should tick");

    let mut slots = vec![dummy_slot()];
    assert_eq!(select_ability(&mut slots, &vec![ControlAction::Ability1]), Some(0));
    assert!(!slots[0].cooldown.unwrap().0.finished(), "Cooldown should be triggered");
}

#[test]
fn ability_ability_affected_by_cooldown() {
    let mut slots = vec![dummy_slot()];
    let mut cooldown = slots[0].cooldown.unwrap();
    cooldown.0.reset();
    slots[0].cooldown = Some(cooldown);
    let mut again = slots.clone();

    let activated = activate(&mut slots, &vec![ControlAction::Ability1], Span::from_millis(FRAME));
    assert!(activated.is_none(), "Ability shouldn't be triggered because of cooldown");

    assert!(select_ability(&mut again, &vec![ControlAction::Ability1]).is_none());
}

#[test]
fn activation_stops_at_first_pressed_slot() {
    let mut slots = vec![
        AbilitySlot { action: ControlAction::BaseAttack, cooldown: Some(Cooldown::from_secs(4)) },
        AbilitySlot { action: ControlAction::Ability1, cooldown: None },
        AbilitySlot { action: ControlAction::Ability1, cooldown: Some(Cooldown::from_secs(4)) },
    ];
    let before_last = slots[2].cooldown.unwrap().0.elapsed();
    let activated = activate(
        &mut slots,
        &vec![ControlAction::Ability1, ControlAction::Jump],
        Span::from_millis(FRAME),
    );
    assert_eq!(activated, Some(1));
    assert_eq!(slots[2].cooldown.unwrap().0.elapsed(), before_last, "later slots are not ticked");
    assert!(slots[0].cooldown.unwrap().0.finished());
}

#[test]
fn earliest_ability_scheme() {
    assert_eq!(ability_input(true, true, false, false, true), AbilityInput::Ability1);
    assert_eq!(ability_input(false, false, false, false, true), AbilityInput::BaseAttack);
    assert_eq!(ability_input(false, false, false, false, false), AbilityInput::Idle);
    assert_eq!(input_slot(AbilityInput::Ultimate), Some(4));
    assert_eq!(input_slot(AbilityInput::Idle), None);

    let mut abilities = Abilities(vec![Ability::new(4), Ability::new(4)]);
    assert_eq!(abilities.cast_input(AbilityInput::Ability1), Some(1));
    assert_eq!(abilities.cast_input(AbilityInput::Ability1), None, "the cooldown runs");
    assert_eq!(abilities.cast_input(AbilityInput::Ultimate), None, "no ability in that slot");
    assert!(abilities.0[0].cooldown.0.finished());
}

#[test]
fn action_lookup() {
    let pressed = vec![ControlAction::Jump, ControlAction::Left];
    assert!(contains_action(&pressed, ControlAction::Left));
    assert!(!contains_action(&pressed, ControlAction::Right));
}
