use bubble_rustle::game::Game;
use bubble_rustle::menu::MenuState;
use bubble_rustle::splash::SplashTimer;
use bubble_rustle::state::AppState;

#[test]
fn the_splash_timer_runs_for_two_seconds() {
    let mut timer = SplashTimer::new();
    assert_eq!(timer, SplashTimer { elapsed: 0, duration: 2_000_000_000, finished: false });
    assert!(!timer.tick(1_999_999_999));
    assert_eq!(timer, SplashTimer { elapsed: 1_999_999_999, duration: 2_000_000_000, finished: false });
    assert!(timer.tick(1));
    assert_eq!(timer, SplashTimer { elapsed: 2_000_000_000, duration: 2_000_000_000, finished: true });
}

#[test]
fn a_finished_timer_stays_finished() {
    let mut timer = SplashTimer::new();
    assert!(timer.tick(5_000_000_000));
    assert_eq!(timer.elapsed, 2_000_000_000);
    assert!(timer.tick(0));
    assert!(timer.tick(7));
    assert_eq!(timer, SplashTimer { elapsed: 2_000_000_000, duration: 2_000_000_000, finished: true });
}

#[test]
fn the_timer_takes_the_longest_times() {
    let mut timer = SplashTimer { elapsed: u64::MAX - 1, duration: u64::MAX, finished: false };
    assert!(!timer.tick(0));
    assert!(timer.tick(u64::MAX));
    assert_eq!(timer, SplashTimer { elapsed: u64::MAX, duration: u64::MAX, finished: true });
    let mut instant = SplashTimer { elapsed: 0, duration: 0, finished: false };
    assert!(instant.tick(0));
}

#[test]
fn the_menu_follows_the_splash_screen() {
    let mut game = Game::new();
    let mut timer = SplashTimer::new();
    game.countdown(&mut timer, 16_666_667);
    assert_eq!(game.app_state, AppState::Splash);
    assert_eq!(game.menu_state, MenuState::Disabled);
    for _ in 0..118 {
        game.countdown(&mut timer, 16_666_667);
    }
    assert_eq!(game.app_state, AppState::Splash);
    game.countdown(&mut timer, 16_666_667);
    assert_eq!(game.app_state, AppState::Menu);
    assert_eq!(game.menu_state, MenuState::Main);
    assert!(timer.finished);
}

#[test]
fn countdown_only_leaves_the_splash_screen() {
    let mut game = Game::new();
    let mut timer = SplashTimer::new();
    game.countdown(&mut timer, 2_000_000_000);
    game.play();
    let before = game.clone();
    game.countdown(&mut timer, 1);
    assert_eq!(game, before);
    let mut other = SplashTimer::new();
    game.countdown(&mut other, 2_000_000_000);
    assert_eq!(game, before);
    assert!(other.finished);
}
