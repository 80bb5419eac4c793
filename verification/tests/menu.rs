use bubble_rustle::game::Game;
use bubble_rustle::menu::{
    button_color, button_system, ButtonColor, Interaction, MenuButtonAction, MenuState,
};
use bubble_rustle::splash::SplashTimer;
use bubble_rustle::state::{AppState, Scores};

fn in_menu() -> Game {
    let mut game = Game::new();
    let mut timer = SplashTimer::new();
    game.countdown(&mut timer, 2_000_000_000);
    game
}

#[test]
fn buttons_are_shaded_by_what_the_pointer_does() {
    assert_eq!(button_color(Interaction::Clicked, false), ButtonColor::Pressed);
    assert_eq!(button_color(Interaction::Clicked, true), ButtonColor::Pressed);
    assert_eq!(button_color(Interaction::Idle, true), ButtonColor::Pressed);
    assert_eq!(button_color(Interaction::Hovered, true), ButtonColor::HoveredPressed);
    assert_eq!(button_color(Interaction::Hovered, false), ButtonColor::Hovered);
    assert_eq!(button_color(Interaction::Idle, false), ButtonColor::Normal);
}

#[test]
fn button_system_shades_every_button() {
    let buttons = vec![
        (Interaction::Hovered, false),
        (Interaction::Idle, false),
        (Interaction::Clicked, false),
    ];
    assert_eq!(
        button_system(&buttons),
        vec![ButtonColor::Hovered, ButtonColor::Normal, ButtonColor::Pressed]
    );
    assert!(button_system(&Vec::new()).is_empty());
}

#[test]
fn the_menu_opens_on_its_main_view() {
    let mut game = Game::new();
    game.menu_setup_system();
    assert_eq!(game.menu_state, MenuState::Main);
    assert_eq!(game.app_state, AppState::Splash);
}

#[test]
fn the_scores_button_opens_the_leaderboard_and_back() {
    let mut game = in_menu();
    assert!(!game.action_system(&vec![(Interaction::Clicked, MenuButtonAction::Scores)]));
    assert_eq!(game.menu_state, MenuState::Scores);
    assert_eq!(game.app_state, AppState::Menu);
    assert!(!game.action_system(&vec![(Interaction::Clicked, MenuButtonAction::BackToMain)]));
    assert_eq!(game.menu_state, MenuState::Main);
}

#[test]
fn only_clicks_count() {
    let mut game = in_menu();
    let before = game.clone();
    let quit = game.action_system(&vec![
        (Interaction::Hovered, MenuButtonAction::Play),
        (Interaction::Idle, MenuButtonAction::Quit),
        (Interaction::Hovered, MenuButtonAction::Scores),
    ]);
    assert!(!quit);
    assert_eq!(game, before);
    assert!(!game.action_system(&Vec::new()));
    assert_eq!(game, before);
}

#[test]
fn the_quit_button_asks_to_quit() {
    let mut game = in_menu();
    let before = game.clone();
    assert!(game.action_system(&vec![(Interaction::Clicked, MenuButtonAction::Quit)]));
    assert_eq!(game, before);
    assert!(game.press(MenuButtonAction::Quit));
}

#[test]
fn the_play_button_starts_a_run() {
    let mut game = in_menu();
    game.score.score = 55;
    let quit = game.action_system(&vec![
        (Interaction::Clicked, MenuButtonAction::Play),
        (Interaction::Clicked, MenuButtonAction::Quit),
        (Interaction::Clicked, MenuButtonAction::Scores),
    ]);
    // once the run has begun the menu's buttons are dead
    assert!(!quit);
    assert_eq!(game.app_state, AppState::Game);
    assert_eq!(game.menu_state, MenuState::Disabled);
    assert_eq!(game.score.score, 0);
    assert_eq!(game.screen.walls.len(), 4);
    assert_eq!(game.screen.bubbles.len(), 1);
}

#[test]
fn a_click_before_the_play_button_still_counts() {
    let mut game = in_menu();
    let quit = game.action_system(&vec![
        (Interaction::Clicked, MenuButtonAction::Quit),
        (Interaction::Clicked, MenuButtonAction::Play),
    ]);
    assert!(quit);
    assert_eq!(game.app_state, AppState::Game);
}

#[test]
fn outside_the_menu_buttons_do_nothing() {
    let mut game = Game::new();
    let before = game.clone();
    assert!(!game.press(MenuButtonAction::Play));
    assert!(!game.press(MenuButtonAction::Quit));
    assert!(!game.press(MenuButtonAction::Scores));
    assert_eq!(game, before);
    let mut game = in_menu();
    game.press(MenuButtonAction::Play);
    let before = game.clone();
    assert!(!game.press(MenuButtonAction::Play));
    assert!(!game.press(MenuButtonAction::BackToMain));
    assert_eq!(game, before);
}

#[test]
fn play_starts_the_run_whatever_the_screen() {
    let mut game = Game::new();
    game.play();
    assert_eq!(game.app_state, AppState::Game);
    assert_eq!(game.menu_state, MenuState::Disabled);
    assert_eq!(game.screen.bubbles.len(), 1);
    assert!(game.bubble_state.spawned);
}

#[test]
fn the_leaderboard_shows_fewer_than_five_scores() {
    let mut scores = Scores { score_list: vec![30, 10, 20] };
    assert_eq!(scores.top_scores(), vec![30, 20, 10]);
    assert_eq!(scores.score_list, vec![10, 20, 30]);
    let mut none = Scores::default();
    assert!(none.top_scores().is_empty());
    assert!(none.score_list.is_empty());
}

#[test]
fn the_leaderboard_shows_no_more_than_five_scores() {
    let mut scores = Scores { score_list: vec![5, 1, 9, 3, 7, 8, 2] };
    assert_eq!(scores.top_scores(), vec![9, 8, 7, 5, 3]);
    assert_eq!(scores.score_list, vec![1, 2, 3, 5, 7, 8, 9]);
    let mut same = Scores { score_list: vec![4, 4, 4, 4, 4, 4] };
    assert_eq!(same.top_scores(), vec![4, 4, 4, 4, 4]);
}
