use game_kit::menus::{MenuAction, MenuGraphic, MenuScreen, menu_graphic, menu_run, screen_for_state};
use game_kit::movement::movement_delta;
use game_kit::flappy::wall_cells;

#[test]
fn main_menu_starts_game_on_p() {
    assert_eq!(
        menu_run(MenuScreen::MainMenu, true, false, false),
        MenuAction::ToGameStart,
    );
    assert_eq!(
        menu_run(MenuScreen::MainMenu, true, true, true),
        MenuAction::ToGameStart,
    );
}

#[test]
fn main_menu_exits_on_q() {
    assert_eq!(
        menu_run(MenuScreen::MainMenu, false, true, true),
        MenuAction::ExitApp,
    );
}

#[test]
fn main_menu_stays_otherwise() {
    assert_eq!(
        menu_run(MenuScreen::MainMenu, false, false, true),
        MenuAction::Stay,
    );
}

#[test]
fn game_over_screen_keys() {
    assert_eq!(
        menu_run(MenuScreen::GameOver, true, true, true),
        MenuAction::ToGameEnd,
    );
    assert_eq!(
        menu_run(MenuScreen::GameOver, true, true, false),
        MenuAction::ExitApp,
    );
    assert_eq!(
        menu_run(MenuScreen::GameOver, true, false, false),
        MenuAction::Stay,
    );
}

#[test]
fn menu_graphics() {
    assert_eq!(menu_graphic(MenuScreen::MainMenu), MenuGraphic::MainMenuImage);
    assert_eq!(menu_graphic(MenuScreen::GameOver), MenuGraphic::GameOverImage);
}

#[test]
fn movement_priority() {
    assert_eq!(movement_delta(true, true, true, true), (-1, 0));
    assert_eq!(movement_delta(false, true, true, true), (1, 0));
    assert_eq!(movement_delta(false, false, true, true), (0, -1));
    assert_eq!(movement_delta(false, false, false, true), (0, 1));
    assert_eq!(movement_delta(false, false, false, false), (0, 0));
}

#[test]
fn wall_cells_centered_gap() {
    let expected: Vec<i64> = vec![
        -12, -11, -10, -9, -8, -7, -6, -5, 5, 6, 7, 8, 9, 10, 11, 12,
    ];
    assert_eq!(wall_cells(0), expected);
}

#[test]
fn wall_cells_low_gap() {
    let cells = wall_cells(-5);
    assert!(!cells.contains(&-9));
    assert!(!cells.contains(&-1));
    assert!(cells.contains(&0));
    assert!(cells.contains(&-10));
    assert_eq!(cells.len(), 25 - 9);
}

#[test]
fn wall_cells_high_gap() {
    let cells = wall_cells(4);
    assert_eq!(
        cells,
        vec![-12, -11, -10, -9, -8, -7, -6, -5, -4, -3, -2, -1, 9, 10, 11, 12],
    );
}

#[test]
fn screen_for_state_roles() {
    assert_eq!(screen_for_state(true, false), Some(MenuScreen::MainMenu));
    assert_eq!(screen_for_state(true, true), Some(MenuScreen::MainMenu));
    assert_eq!(screen_for_state(false, true), Some(MenuScreen::GameOver));
    assert_eq!(screen_for_state(false, false), None);
}
