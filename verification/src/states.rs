//! The wave/phase state machine: menu, preparation (with its two
//! sub-screens), combat, wave-clear and defeat, and the discrete transitions
//! between them.

use vstd::prelude::*;

verus! {

/// Top-level phase of a session.
#[derive(Clone, Copy, PartialEq, Eq, Structural, Debug)]
pub enum GameState {
    Splash,
    Menu,
    Prepare,
    Game,
    GameFinish,
    GameOver,
    PostGame,
}

/// Sub-phase of the preparation screen; `Disabled` outside preparation.
#[derive(Clone, Copy, PartialEq, Eq, Structural, Debug)]
pub enum GamePrepareState {
    CreateAntidote,
    CellArrangement,
    Disabled,
}

/// Main-menu buttons.
#[derive(Clone, Copy, PartialEq, Eq, Structural, Debug)]
pub enum MenuButtonAction {
    Play,
    Quit,
}

/// Preparation-screen tabs.
#[derive(Clone, Copy, PartialEq, Eq, Structural, Debug)]
pub enum GamePrepareButtonAction {
    CreateAntidote,
    CellArrangement,
}

/// Antidote-screen buttons.
#[derive(Clone, Copy, PartialEq, Eq, Structural, Debug)]
pub enum CreateAntidoteButtonAction {
    ReturnToMainMenu,
    UnloadAll,
    Inject,
    Go,
}

/// Wave-clear-screen buttons.
#[derive(Clone, Copy, PartialEq, Eq, Structural, Debug)]
pub enum GameFinishButtonAction {
    ReturnToMainMenu,
    NextRound,
}

/// Defeat-screen buttons.
#[derive(Clone, Copy, PartialEq, Eq, Structural, Debug)]
pub enum GameOverButtonAction {
    ReturnToMainMenu,
}

/// Entering preparation always lands on the antidote sub-screen.
pub fn setup_game_prepare() -> (next: GamePrepareState)
    ensures
        next == GamePrepareState::CreateAntidote,
{
    GamePrepareState::CreateAntidote
}

/// Main-menu press: play enters preparation; quit leaves the session (no
/// next phase).
pub fn menu_action(action: &MenuButtonAction) -> (next: Option<GameState>)
    ensures
        *action == MenuButtonAction::Play ==> next == Some(GameState::Prepare),
        *action == MenuButtonAction::Quit ==> next is None,
{
    match action {
        MenuButtonAction::Play => Some(GameState::Prepare),
        MenuButtonAction::Quit => None,
    }
}

/// Preparation tab press: switch to the chosen sub-screen. (Leaving the
/// arrangement screen is when the arranged positions are committed into the
/// roster.)
pub fn game_prepare_btn_action(action: &GamePrepareButtonAction) -> (next: GamePrepareState)
    ensures
        *action == GamePrepareButtonAction::CreateAntidote ==> next
            == GamePrepareState::CreateAntidote,
        *action == GamePrepareButtonAction::CellArrangement ==> next
            == GamePrepareState::CellArrangement,
{
    match action {
        GamePrepareButtonAction::CreateAntidote => GamePrepareState::CreateAntidote,
        GamePrepareButtonAction::CellArrangement => GamePrepareState::CellArrangement,
    }
}

/// Antidote-screen phase transition: return goes back to the menu; go starts
/// combat, but is rejected with no phase change while the roster holds no
/// defenders; the unload and inject buttons act on the roster only and never
/// change the phase.
pub fn create_antidote_btn_action(
    action: &CreateAntidoteButtonAction,
    cell_army_is_empty: bool,
    current: GameState,
    current_prepare: GamePrepareState,
) -> (next: (GameState, GamePrepareState))
    ensures
        *action == CreateAntidoteButtonAction::ReturnToMainMenu ==> next == (
            GameState::Menu,
            GamePrepareState::Disabled,
        ),
        *action == CreateAntidoteButtonAction::Go && !cell_army_is_empty ==> next == (
            GameState::Game,
            GamePrepareState::Disabled,
        ),
        *action == CreateAntidoteButtonAction::Go && cell_army_is_empty ==> next == (
            current,
            current_prepare,
        ),
        *action == CreateAntidoteButtonAction::UnloadAll || *action
            == CreateAntidoteButtonAction::Inject ==> next == (current, current_prepare),
{
    match action {
        CreateAntidoteButtonAction::ReturnToMainMenu => (
            GameState::Menu,
            GamePrepareState::Disabled,
        ),
        CreateAntidoteButtonAction::Go => {
            if cell_army_is_empty {
                (current, current_prepare)
            } else {
                (GameState::Game, GamePrepareState::Disabled)
            }
        },
        CreateAntidoteButtonAction::UnloadAll => (current, current_prepare),
        CreateAntidoteButtonAction::Inject => (current, current_prepare),
    }
}

/// Wave-clear-screen press: back to the menu, or on into the next wave's
/// preparation.
pub fn game_finish_action(action: &GameFinishButtonAction) -> (next: GameState)
    ensures
        *action == GameFinishButtonAction::ReturnToMainMenu ==> next == GameState::Menu,
        *action == GameFinishButtonAction::NextRound ==> next == GameState::Prepare,
{
    match action {
        GameFinishButtonAction::ReturnToMainMenu => GameState::Menu,
        GameFinishButtonAction::NextRound => GameState::Prepare,
    }
}

/// Defeat-screen press: back to the menu; the roster is deliberately kept.
pub fn game_over_action(action: &GameOverButtonAction) -> (next: GameState)
    ensures
        next == GameState::Menu,
{
    match action {
        GameOverButtonAction::ReturnToMainMenu => GameState::Menu,
    }
}

} // verus!
