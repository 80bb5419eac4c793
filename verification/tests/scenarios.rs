use bubble_rustle::collision::Vec2;
use bubble_rustle::components::{Bubble, BubbleSize, Hook, Movement, Player};
use bubble_rustle::game::Game;
use bubble_rustle::menu::{MenuButtonAction, MenuState};
use bubble_rustle::screen::GameScreen;
use bubble_rustle::splash::SplashTimer;
use bubble_rustle::state::{AppState, BubbleState, PlayerState, Score, Scores};

fn running() -> Game {
    let mut game = Game::new();
    let mut timer = SplashTimer::new();
    game.countdown(&mut timer, 2_000_000_000);
    game.press(MenuButtonAction::Play);
    game
}

/// Fires a hook right into the first bubble and lets it pop.
fn pop_first(game: &mut Game) {
    let target = game.screen.bubbles[0].position;
    game.screen.hook = Some(Hook::new(target));
    game.player_state.hook_shoted = true;
    game.bubble_hook_collision_system();
}

/// Stands the player where the last reward fell and picks it up.
fn collect_last(game: &mut Game) {
    let at = game.screen.rewards[game.screen.rewards.len() - 1].position;
    game.screen.player = Some(Player { position: at });
    game.player_state.is_alive = true;
    game.reward_player_collision_system();
}

fn sizes(game: &Game) -> Vec<u32> {
    game.screen.bubbles.iter().map(|b| b.size.size).collect()
}

#[test]
fn a_fresh_run_starts_with_one_large_bubble() {
    let game = running();
    assert_eq!(game.app_state, AppState::Game);
    assert_eq!(game.menu_state, MenuState::Disabled);
    assert_eq!(
        game.screen.bubbles,
        vec![Bubble {
            position: Vec2::new(0, 0),
            movement: Movement { v_x: 200, v_y: 800, a: 10 },
            size: BubbleSize { size: 4 },
        }]
    );
    assert_eq!(game.bubble_state.count, 1);
    assert!(game.bubble_state.spawned);
    assert_eq!(game.player_state.lives, 3);
    assert_eq!(game.score, Score { score: 0 });
    assert_eq!(game.screen.walls.len(), 4);
}

#[test]
fn a_run_is_won_by_popping_every_bubble() {
    let mut game = running();
    game.scores.score_list = vec![77];

    pop_first(&mut game);
    assert_eq!(sizes(&game), vec![3, 3]);
    assert_eq!(game.bubble_state.count, 2);
    assert_eq!(game.screen.bubbles[0].movement.v_x, -200);
    assert_eq!(game.screen.bubbles[1].movement.v_x, 200);
    collect_last(&mut game);
    assert_eq!(game.score.score, 300);

    pop_first(&mut game);
    assert_eq!(sizes(&game), vec![3, 2, 2]);
    assert_eq!(game.bubble_state.count, 3);
    collect_last(&mut game);
    assert_eq!(game.score.score, 700);

    pop_first(&mut game);
    assert_eq!(sizes(&game), vec![2, 2, 2, 2]);
    assert_eq!(game.bubble_state.count, 4);
    collect_last(&mut game);
    assert_eq!(game.score.score, 1100);

    for left in [3usize, 2, 1] {
        pop_first(&mut game);
        assert_eq!(sizes(&game), vec![2; left]);
        assert_eq!(game.bubble_state.count, left);
        assert_eq!(game.app_state, AppState::Game);
        collect_last(&mut game);
    }
    assert_eq!(game.score.score, 2900);
    assert!(game.scores.score_list == vec![77]);

    pop_first(&mut game);
    assert_eq!(game.app_state, AppState::Menu);
    assert_eq!(game.menu_state, MenuState::Main);
    assert_eq!(game.scores.score_list, vec![77, 2900]);
    assert_eq!(game.score, Score { score: 0 });
    assert_eq!(game.player_state, PlayerState { lives: 3, is_alive: false, hook_shoted: false });
    assert_eq!(game.bubble_state, BubbleState::default());
    assert_eq!(game.screen, GameScreen::new());
}

#[test]
fn the_last_life_ends_the_run() {
    let mut game = running();
    game.player_state = PlayerState { lives: 1, is_alive: true, hook_shoted: false };
    game.screen.player = Some(Player { position: game.screen.bubbles[0].position });
    game.score.score = 700;
    game.scores.score_list = vec![10];
    game.bubble_player_collision_system();
    assert_eq!(game.app_state, AppState::Menu);
    assert_eq!(game.menu_state, MenuState::Main);
    assert_eq!(game.scores.score_list, vec![10, 700]);
    assert_eq!(game.score, Score { score: 0 });
    assert_eq!(game.player_state, PlayerState { lives: 3, is_alive: false, hook_shoted: false });
    assert_eq!(game.bubble_state.count, 1);
    assert_eq!(game.bubble_state.sizes, vec![4]);
    assert_eq!(game.bubble_state.positions, vec![(0, 0)]);
    assert!(!game.bubble_state.spawned);
    assert_eq!(game.screen, GameScreen::new());

    // the next run starts as the first did
    game.press(MenuButtonAction::Play);
    assert_eq!(game.app_state, AppState::Game);
    assert_eq!(sizes(&game), vec![4]);
    assert_eq!(game.player_state.lives, 3);
    assert_eq!(game.score.score, 0);
    assert_eq!(game.screen.walls.len(), 4);
}

#[test]
fn the_leaderboard_shows_the_five_highest_scores() {
    let mut scores = Scores { score_list: vec![100, 400, 250, 400, 50] };
    assert_eq!(scores.top_scores(), vec![400, 400, 250, 100, 50]);
    assert_eq!(scores.score_list, vec![50, 100, 250, 400, 400]);
}
