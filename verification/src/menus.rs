//! Decision rules of the game phase framework's menu screens.
//!
//! The framework shows a main menu before play and a game-over screen
//! after it. The host application draws the screens and reports the key
//! presses; which graphic a screen shows and where each key press sends
//! the game is decided here.
use vstd::prelude::*;

verus! {

/// The menu screen being shown.
#[derive(Clone, Copy, Debug, PartialEq, Eq, Structural)]
pub enum MenuScreen {
    MainMenu,
    GameOver,
}

/// The graphic a menu screen shows.
#[derive(Clone, Copy, Debug, PartialEq, Eq, Structural)]
pub enum MenuGraphic {
    MainMenuImage,
    GameOverImage,
}

/// What the host should do after a frame of menu input.
#[derive(Clone, Copy, Debug, PartialEq, Eq, Structural)]
pub enum MenuAction {
    /// Move to the state in which play begins.
    ToGameStart,
    /// Move to the state that ends play.
    ToGameEnd,
    /// Leave the application.
    ExitApp,
    /// Keep showing the screen.
    Stay,
}

/// The menu screen that a framework state shows: the menu state shows the
/// main menu, the state that ends play shows the game-over screen — in
/// that order, should one state play both roles — and any other state
/// shows no menu.
pub fn screen_for_state(at_menu_state: bool, at_game_end_state: bool) -> (s: Option<MenuScreen>)
    ensures
        at_menu_state ==> s == Some(MenuScreen::MainMenu),
        !at_menu_state && at_game_end_state ==> s == Some(MenuScreen::GameOver),
        !at_menu_state && !at_game_end_state ==> s is None,
{
    if at_menu_state {
        Some(MenuScreen::MainMenu)
    } else if at_game_end_state {
        Some(MenuScreen::GameOver)
    } else {
        None
    }
}

/// The graphic that a menu screen shows while it is up.
pub fn menu_graphic(screen: MenuScreen) -> (g: MenuGraphic)
    ensures
        screen == MenuScreen::MainMenu ==> g == MenuGraphic::MainMenuImage,
        screen == MenuScreen::GameOver ==> g == MenuGraphic::GameOverImage,
{
    match screen {
        MenuScreen::MainMenu => MenuGraphic::MainMenuImage,
        MenuScreen::GameOver => MenuGraphic::GameOverImage,
    }
}

/// One frame of menu input: on the main menu, `P` starts play and
/// otherwise `Q` leaves; on the game-over screen, `M` moves to the state
/// that ends play and otherwise `Q` leaves.
pub fn menu_run(screen: MenuScreen, p_pressed: bool, q_pressed: bool, m_pressed: bool) -> (a:
    MenuAction)
    ensures
        screen == MenuScreen::MainMenu ==> a == (if p_pressed {
            MenuAction::ToGameStart
        } else if q_pressed {
            MenuAction::ExitApp
        } else {
            MenuAction::Stay
        }),
        screen == MenuScreen::GameOver ==> a == (if m_pressed {
            MenuAction::ToGameEnd
        } else if q_pressed {
            MenuAction::ExitApp
        } else {
            MenuAction::Stay
        }),
{
    match screen {
        MenuScreen::MainMenu => {
            if p_pressed {
                MenuAction::ToGameStart
            } else if q_pressed {
                MenuAction::ExitApp
            } else {
                MenuAction::Stay
            }
        },
        MenuScreen::GameOver => {
            if m_pressed {
                MenuAction::ToGameEnd
            } else if q_pressed {
                MenuAction::ExitApp
            } else {
                MenuAction::Stay
            }
        },
    }
}

} // verus!
