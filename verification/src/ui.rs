//! The menu screens' button rule: which phase each screen's button leads to
//! and what wallet action it fires.

use vstd::prelude::*;

use crate::towers::GameState;

verus! {

/// The full-screen menus that carry a button.
#[derive(Clone, Copy, Debug, PartialEq, Eq, Structural)]
pub enum MenuScreen {
    /// The opening screen asking the player to sign the greeting message.
    StartSign,
    /// The instructions screen.
    HowToPlay,
    /// The screen shown when the enemies have won.
    GameOverScreen,
}

/// The wallet action a button press fires.
#[derive(Clone, Copy, Debug, PartialEq, Eq, Structural)]
pub enum MenuAction {
    NoAction,
    /// Sign the greeting message with the player's keypair.
    SignMessage,
    /// Derive the player's account address and send the initialize
    /// transaction.
    InitializePlayer,
}

/// What pressing the button on each screen does: the start screen signs the
/// message and shows the instructions; the instructions screen initializes
/// the player's account and starts building; the game-over screen goes
/// straight back to building.
pub fn handle_btn_interaction(screen: MenuScreen) -> (r: (GameState, MenuAction))
    ensures
        screen == MenuScreen::StartSign ==> r == (GameState::HowToPlay,
            MenuAction::SignMessage),
        screen == MenuScreen::HowToPlay ==> r == (GameState::Building,
            MenuAction::InitializePlayer),
        screen == MenuScreen::GameOverScreen ==> r == (GameState::Building,
            MenuAction::NoAction),
{
    match screen {
        MenuScreen::StartSign => (GameState::HowToPlay, MenuAction::SignMessage),
        MenuScreen::HowToPlay => (GameState::Building, MenuAction::InitializePlayer),
        MenuScreen::GameOverScreen => (GameState::Building, MenuAction::NoAction),
    }
}

} // verus!
