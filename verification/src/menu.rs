//! The main menu.

use vstd::prelude::*;

verus! {

/// Screens of the main menu.
#[derive(Clone, Copy, Debug, PartialEq, Eq, Hash, Structural)]
pub enum MainMenuState {
    Disabled,
    Idle,
    CustomGame,
}

/// What the player did in the main menu.
#[derive(Clone, Copy, Debug, PartialEq, Eq, Structural)]
pub enum MenuEvent {
    /// Clicked "Custom game" on the main screen.
    CustomGameClicked,
    /// Clicked "Exit" on the main screen.
    ExitClicked,
    /// Pressed escape or clicked "Back" on the custom game screen.
    BackPressed,
    /// Clicked "Create" or "Connect" on the custom game screen.
    StartClicked,
    /// The game left the menu.
    MenuLeft,
}

/// What the menu asks the game to do besides changing screens.
#[derive(Clone, Copy, Debug, PartialEq, Eq, Structural)]
pub enum MenuCommand {
    Nothing,
    ExitGame,
    StartGame,
}

/// The screen and command after `event` on `state`. Buttons only act on the
/// screen they are shown on; leaving the menu disables it from any screen.
pub fn menu_step(state: MainMenuState, event: MenuEvent) -> (r: (MainMenuState, MenuCommand))
    ensures
        r == match (state, event) {
            (MainMenuState::Idle, MenuEvent::CustomGameClicked) => (MainMenuState::CustomGame, MenuCommand::Nothing),
            (MainMenuState::Idle, MenuEvent::ExitClicked) => (MainMenuState::Idle, MenuCommand::ExitGame),
            (MainMenuState::CustomGame, MenuEvent::BackPressed) => (MainMenuState::Idle, MenuCommand::Nothing),
            (MainMenuState::CustomGame, MenuEvent::StartClicked) => (MainMenuState::CustomGame, MenuCommand::StartGame),
            (_, MenuEvent::MenuLeft) => (MainMenuState::Disabled, MenuCommand::Nothing),
            _ => (state, MenuCommand::Nothing),
        },
{
    match (state, event) {
        (MainMenuState::Idle, MenuEvent::CustomGameClicked) => (MainMenuState::CustomGame, MenuCommand::Nothing),
        (MainMenuState::Idle, MenuEvent::ExitClicked) => (MainMenuState::Idle, MenuCommand::ExitGame),
        (MainMenuState::CustomGame, MenuEvent::BackPressed) => (MainMenuState::Idle, MenuCommand::Nothing),
        (MainMenuState::CustomGame, MenuEvent::StartClicked) => (MainMenuState::CustomGame, MenuCommand::StartGame),
        (_, MenuEvent::MenuLeft) => (MainMenuState::Disabled, MenuCommand::Nothing),
        _ => (state, MenuCommand::Nothing),
    }
}

} // verus!
