//! What holds of every game, proved from the definitions of its steps.

use vstd::prelude::*;
use crate::collision::{first_touching, lemma_first_touching, Collision, Solid, Vec2};
use crate::components::{Bubble, BubbleSize, Movement};
use crate::config::{BALL_SPEED_X, LIVE_COUNT, MIN_SPLIT_SIZE, REWARD_MAX, ROOT_BUBBLE_SIZE};
use crate::board::arena_walls;
use crate::game::GameView;
use crate::menu::{Interaction, MenuButtonAction, MenuState};
use crate::player::Controls;
use crate::screen::GameScreenView;
use crate::state::{AppState, BubbleStateView, PlayerState};

verus! {

/// A popped bubble above the smallest sizes leaves exactly two children,
/// each one size tier smaller, at the bubble's place, flying apart at
/// the same speed; a smaller bubble leaves none.
pub proof fn law_children(bubble: Bubble)
    ensures
        bubble.size.size > MIN_SPLIT_SIZE ==> bubble.children().len() == 2,
        bubble.size.size <= MIN_SPLIT_SIZE ==> bubble.children().len() == 0,
        forall|k: int|
            0 <= k < bubble.children().len() ==> {
                let child = #[trigger] bubble.children()[k];
                &&& child.size.size == bubble.size.size - 1
                &&& child.size.size >= MIN_SPLIT_SIZE
                &&& child.position == bubble.position
            },
        bubble.size.size > MIN_SPLIT_SIZE ==> {
            let left = bubble.children()[0].movement;
            let right = bubble.children()[1].movement;
            &&& left.v_x == -right.v_x
            &&& right.v_x == BALL_SPEED_X
            &&& left.v_y == right.v_y
        },
{
}

/// Popping a bubble above the smallest sizes puts its two children on
/// the screen in its place and raises the count of bubbles outstanding
/// by one.
pub proof fn law_large_bubble_splits(game: GameView, i: int)
    requires
        game.wf(),
        game.has_room(),
        0 <= i < game.screen.bubbles.len(),
        game.screen.bubbles[i].size.size > MIN_SPLIT_SIZE,
    ensures
        game.popped(i).screen.bubbles == game.screen.bubbles.remove(i)
            + game.screen.bubbles[i].children(),
        game.popped(i).screen.bubbles.len() == game.screen.bubbles.len() + 1,
        game.popped(i).bubble_state.count == game.bubble_state.count + 1,
        game.popped(i).settled() == game.popped(i),
        game.popped(i).wf(),
{
    law_children(game.screen.bubbles[i]);
    lemma_popped_wf(game, i);
}

/// Popping a bubble of the smallest sizes leaves no bubble in its place
/// and lowers the count of bubbles outstanding by one.
pub proof fn law_small_bubble_vanishes(game: GameView, i: int)
    requires
        game.wf(),
        0 <= i < game.screen.bubbles.len(),
        game.screen.bubbles[i].size.size <= MIN_SPLIT_SIZE,
    ensures
        game.popped(i).screen.bubbles == game.screen.bubbles.remove(i),
        game.popped(i).screen.bubbles.len() == game.screen.bubbles.len() - 1,
        game.popped(i).bubble_state.count == game.bubble_state.count - 1,
        game.popped(i).wf(),
{
    law_children(game.screen.bubbles[i]);
    lemma_popped_wf(game, i);
    assert(game.popped(i).screen.bubbles =~= game.screen.bubbles.remove(i));
}

/// Every popped bubble drops one reward, where it was, worth the highest
/// reward divided by the bubble's size tier, the remainder dropped.
pub proof fn law_reward_value(game: GameView, i: int)
    requires
        0 <= i < game.screen.bubbles.len(),
    ensures
        game.popped(i).screen.rewards == game.screen.rewards.push(
            game.screen.bubbles[i].reward(),
        ),
        game.screen.bubbles[i].reward().score.score == REWARD_MAX / (
        game.screen.bubbles[i].size.size as usize),
        game.screen.bubbles[i].reward().position == game.screen.bubbles[i].position,
{
}

/// The hook pops the first bubble that it overlaps, and no other.
pub proof fn law_hook_pops_first(game: GameView)
    requires
        game.screen.hook is Some,
    ensures
        match first_touching(game.screen.bubbles, game.screen.hook.unwrap().spec_bounds()) {
            Some(i) => 0 <= i < game.screen.bubbles.len() && game.bubble_hook_collision()
                == game.popped(i).settled(),
            None => game.bubble_hook_collision() == game.settled(),
        },
{
    lemma_first_touching(game.screen.bubbles, game.screen.hook.unwrap().spec_bounds());
}

/// A bubble that bounces off side walls twice in a row flies as it did
/// before the first bounce.
pub proof fn law_side_bounce_twice(
    movement: Movement,
    size: BubbleSize,
    first: Collision,
    second: Collision,
)
    requires
        movement.v_x > i64::MIN,
        first == Collision::Left || first == Collision::Right,
        second == Collision::Left || second == Collision::Right,
    ensures
        movement.bounced(size, first).v_x == -movement.v_x,
        movement.bounced(size, first).bounced(size, second) == movement,
{
}

/// The game after popping a bubble keeps its counts in agreement with
/// the screen.
pub proof fn lemma_popped_wf(game: GameView, i: int)
    requires
        game.wf(),
        game.screen.bubbles[i].size.size > MIN_SPLIT_SIZE ==> game.has_room(),
        0 <= i < game.screen.bubbles.len(),
    ensures
        game.popped(i).wf(),
{
    let bubble = game.screen.bubbles[i];
    let after = game.popped(i).screen.bubbles;
    law_children(bubble);
    assert forall|j: int| 0 <= j < after.len() implies (#[trigger] after[j]).size.size >= 1 by {
        if j < game.screen.bubbles.len() - 1 {
            if j < i {
                assert(after[j] == game.screen.bubbles[j]);
            } else {
                assert(after[j] == game.screen.bubbles[j + 1]);
            }
        } else {
            assert(after[j] == bubble.children()[j - (game.screen.bubbles.len() - 1)]);
        }
    }
}

/// Every step of a tick, and the tick itself, keeps the counts in
/// agreement with the screen: the bubbles outstanding are those on the
/// screen, each has a size tier, and a life is left.
pub proof fn law_steps_keep_counts(game: GameView, controls: Controls)
    requires
        game.wf(),
        game.has_room(),
    ensures
        game.spawn_player().wf(),
        game.move_player(controls.left, controls.right).wf(),
        game.shot_player(controls.fire).wf(),
        game.rope_hook().wf(),
        game.velocity().wf(),
        game.hook_wall_collision().wf(),
        game.bubble_wall_collision().wf(),
        game.bubble_hook_collision().wf(),
        game.bubble_player_collision().wf(),
        game.reward_player_collision().wf(),
        game.reward_wall_collision().wf(),
        game.finished().wf(),
        game.input(controls).wf(),
        game.motion().wf(),
        game.collisions().wf(),
        game.update(controls).wf(),
{
    lemma_steps_keep_counts(game, controls);
    lemma_steps_keep_counts(game.spawn_player(), controls);
    lemma_steps_keep_counts(
        game.spawn_player().move_player(controls.left, controls.right),
        controls,
    );
    lemma_steps_keep_counts(game.rope_hook(), controls);
    lemma_collisions_keep_counts(game);
    let a = game.input(controls);
    lemma_steps_keep_counts(a, controls);
    lemma_steps_keep_counts(a.rope_hook(), controls);
    lemma_collisions_keep_counts(a.motion());
}

proof fn lemma_steps_keep_counts(game: GameView, controls: Controls)
    requires
        game.wf(),
    ensures
        game.spawn_player().wf(),
        game.move_player(controls.left, controls.right).wf(),
        game.shot_player(controls.fire).wf(),
        game.rope_hook().wf(),
        game.velocity().wf(),
        game.hook_wall_collision().wf(),
        game.bubble_wall_collision().wf(),
        game.has_room() ==> game.bubble_hook_collision().wf(),
        game.bubble_player_collision().wf(),
        game.reward_player_collision().wf(),
        game.reward_wall_collision().wf(),
        game.finished().wf(),
{
    assert(game.has_room() ==> game.hooked().wf()) by {
        if game.has_room() {
        match game.screen.hook {
            Some(hook) => {
                lemma_first_touching(game.screen.bubbles, hook.spec_bounds());
                match first_touching(game.screen.bubbles, hook.spec_bounds()) {
                    Some(i) => {
                        lemma_popped_wf(game, i);
                    },
                    None => {},
                }
            },
            None => {},
        }
        }
    }
}

proof fn lemma_collisions_keep_counts(game: GameView)
    requires
        game.wf(),
        game.has_room(),
    ensures
        game.collisions().wf(),
{
    let c = Controls { left: false, right: false, fire: false };
    let g1 = game.hook_wall_collision();
    lemma_steps_keep_counts(game, c);
    let g2 = g1.bubble_wall_collision();
    lemma_steps_keep_counts(g1, c);
    let g3 = g2.bubble_hook_collision();
    lemma_steps_keep_counts(g2, c);
    let g4 = g3.bubble_player_collision();
    lemma_steps_keep_counts(g3, c);
    let g5 = g4.reward_player_collision();
    lemma_steps_keep_counts(g4, c);
    lemma_steps_keep_counts(g5, c);
}

/// The run goes on from `before` to `after`: the screen shown and the
/// leaderboard are the same, the score is no lower and the lives are no
/// more.
pub open spec fn goes_on(before: GameView, after: GameView) -> bool {
    &&& after.app_state == before.app_state
    &&& after.scores == before.scores
    &&& after.score.score >= before.score.score
    &&& after.player_state.lives <= before.player_state.lives
}

/// Every step of a tick either lets the run go on or leaves the menu up.
proof fn lemma_step_goes_on_or_ends(game: GameView, controls: Controls)
    requires
        game.wf(),
    ensures
        goes_on(game, game.spawn_player()),
        goes_on(game, game.move_player(controls.left, controls.right)),
        goes_on(game, game.shot_player(controls.fire)),
        goes_on(game, game.rope_hook()),
        goes_on(game, game.velocity()),
        goes_on(game, game.hook_wall_collision()),
        goes_on(game, game.bubble_wall_collision()),
        goes_on(game, game.bubble_hook_collision()) || game.bubble_hook_collision().app_state
            == AppState::Menu,
        goes_on(game, game.bubble_player_collision()) || game.bubble_player_collision().app_state
            == AppState::Menu,
        game.can_collect() ==> goes_on(game, game.reward_player_collision()),
        goes_on(game, game.reward_wall_collision()),
{
}

/// A tick of a run either lets the run go on or leaves the menu up.
proof fn lemma_update_goes_on_or_ends(game: GameView, controls: Controls)
    requires
        game.wf(),
        game.has_room(),
        game.can_update(controls),
        game.app_state == AppState::Game,
    ensures
        goes_on(game, game.update(controls)) || game.update(controls).app_state == AppState::Menu,
{
    let s1 = game.spawn_player();
    let s2 = s1.move_player(controls.left, controls.right);
    let s3 = s2.shot_player(controls.fire);
    let s4 = s3.rope_hook();
    let s5 = s4.velocity();
    let s6 = s5.hook_wall_collision();
    let s7 = s6.bubble_wall_collision();
    let s8 = s7.bubble_hook_collision();
    let s9 = s8.bubble_player_collision();
    let s10 = s9.reward_player_collision();
    let s11 = s10.reward_wall_collision();
    assert(s11 == game.update(controls));
    lemma_steps_keep_counts(game, controls);
    lemma_steps_keep_counts(s1, controls);
    lemma_steps_keep_counts(s2, controls);
    lemma_steps_keep_counts(s3, controls);
    lemma_steps_keep_counts(s4, controls);
    lemma_steps_keep_counts(s5, controls);
    lemma_steps_keep_counts(s6, controls);
    assert(s7.has_room());
    lemma_steps_keep_counts(s7, controls);
    lemma_steps_keep_counts(s8, controls);
    lemma_steps_keep_counts(s9, controls);
    lemma_steps_keep_counts(s10, controls);
    lemma_step_goes_on_or_ends(game, controls);
    lemma_step_goes_on_or_ends(s1, controls);
    lemma_step_goes_on_or_ends(s2, controls);
    lemma_step_goes_on_or_ends(s3, controls);
    lemma_step_goes_on_or_ends(s4, controls);
    lemma_step_goes_on_or_ends(s5, controls);
    lemma_step_goes_on_or_ends(s6, controls);
    lemma_step_goes_on_or_ends(s7, controls);
    lemma_step_goes_on_or_ends(s8, controls);
    lemma_step_goes_on_or_ends(s9, controls);
    lemma_step_goes_on_or_ends(s10, controls);
}

/// Within a run the score never goes down: after a tick that has not
/// ended the run, it is at least what it was.
pub proof fn law_score_never_decreases(game: GameView, controls: Controls)
    requires
        game.wf(),
        game.has_room(),
        game.can_update(controls),
        game.app_state == AppState::Game,
        game.update(controls).app_state == AppState::Game,
    ensures
        game.update(controls).score.score >= game.score.score,
        game.update(controls).scores == game.scores,
{
    lemma_update_goes_on_or_ends(game, controls);
}

/// Within a run the lives never go up, and the run never goes on
/// without a life: after a tick that has not ended the run, the lives
/// are at most what they were and at least one.
pub proof fn law_lives_never_increase(game: GameView, controls: Controls)
    requires
        game.wf(),
        game.has_room(),
        game.can_update(controls),
        game.app_state == AppState::Game,
        game.update(controls).app_state == AppState::Game,
    ensures
        1 <= game.update(controls).player_state.lives <= game.player_state.lives,
{
    lemma_update_goes_on_or_ends(game, controls);
    law_steps_keep_counts(game, controls);
}

/// A tick ends a run only by finishing it: when the run does not go on,
/// the menu is up with its main view, the score that the run had
/// reached is the last on the leaderboard, the screen is bare and the
/// counts are those of a new run.
pub proof fn law_run_ends_finished(game: GameView, controls: Controls)
    requires
        game.wf(),
        game.has_room(),
        game.can_update(controls),
        game.app_state == AppState::Game,
        game.update(controls).app_state != AppState::Game,
    ensures
        game.update(controls) == game.finished(),
{
    let s1 = game.spawn_player();
    let s2 = s1.move_player(controls.left, controls.right);
    let s3 = s2.shot_player(controls.fire);
    let s4 = s3.rope_hook();
    let s5 = s4.velocity();
    let s6 = s5.hook_wall_collision();
    let s7 = s6.bubble_wall_collision();
    let s8 = s7.bubble_hook_collision();
    let s9 = s8.bubble_player_collision();
    let s10 = s9.reward_player_collision();
    let s11 = s10.reward_wall_collision();
    assert(s11 == game.update(controls));
    assert(s7.score == game.score && s7.scores == game.scores && s7.app_state == game.app_state);
    lemma_steps_keep_counts(game, controls);
    lemma_steps_keep_counts(s1, controls);
    lemma_steps_keep_counts(s2, controls);
    lemma_steps_keep_counts(s3, controls);
    lemma_steps_keep_counts(s4, controls);
    lemma_steps_keep_counts(s5, controls);
    lemma_steps_keep_counts(s6, controls);
    lemma_steps_keep_counts(s7, controls);
    lemma_step_goes_on_or_ends(s7, controls);
    lemma_step_goes_on_or_ends(s8, controls);
    lemma_step_goes_on_or_ends(s9, controls);
    lemma_step_goes_on_or_ends(s10, controls);
    let h = s7.hooked();
    assert(h.score == game.score && h.scores == game.scores && h.app_state == game.app_state);
    if s8.app_state != AppState::Game {
        assert(s8 == game.finished());
        lemma_finished_stays(game);
    } else {
        assert(s8 == h);
        assert(s9.app_state != AppState::Game);
        assert(s9 == game.finished());
        lemma_finished_stays(game);
    }
}

/// Once a run has ended, the rest of the tick changes nothing.
proof fn lemma_finished_stays(game: GameView)
    ensures
        game.finished().bubble_player_collision() == game.finished(),
        game.finished().reward_player_collision() == game.finished(),
        game.finished().reward_wall_collision() == game.finished(),
{
    let f = game.finished();
    reveal(Seq::filter);
    assert(f.reward_wall_collision().screen.rewards =~= f.screen.rewards);
}

/// One screen may follow another: the menu follows the splash screen,
/// a run follows the menu, and the menu follows a run.
pub open spec fn may_follow(before: AppState, after: AppState) -> bool {
    ||| before == after
    ||| before == AppState::Splash && after == AppState::Menu
    ||| before == AppState::Menu && after == AppState::Game
    ||| before == AppState::Game && after == AppState::Menu
}

/// The screens follow each other in their order, whatever happens: time
/// passing on the splash screen leads to the menu only, clicks in the
/// menu lead to a run only, and a tick of a run leads to the menu only.
/// A tick changes nothing outside a run, time nothing outside the
/// splash screen, and clicks nothing outside the menu.
pub proof fn law_screens_follow_in_order(
    game: GameView,
    controls: Controls,
    finished: bool,
    buttons: Seq<(Interaction, MenuButtonAction)>,
)
    requires
        game.wf(),
        game.has_room(),
        game.app_state == AppState::Game ==> game.can_update(controls),
    ensures
        may_follow(game.app_state, game.countdown(finished).app_state),
        may_follow(game.app_state, game.action(buttons).app_state),
        may_follow(game.app_state, game.update(controls).app_state),
        game.app_state != AppState::Splash ==> game.countdown(finished) == game,
        game.app_state != AppState::Menu ==> game.action(buttons) == game,
        game.app_state != AppState::Game ==> game.update(controls) == game,
        game.app_state == AppState::Splash ==> game.countdown(finished).app_state
            != AppState::Game,
        game.app_state == AppState::Game ==> game.action(buttons).app_state == AppState::Game,
{
    lemma_action_stays_or_plays(game, buttons);
    if game.app_state == AppState::Game {
        lemma_update_goes_on_or_ends(game, controls);
    }
}

/// Clicks leave a game outside the menu as it is, and lead from the
/// menu to a run or nowhere.
proof fn lemma_action_stays_or_plays(game: GameView, buttons: Seq<(Interaction, MenuButtonAction)>)
    ensures
        game.app_state != AppState::Menu ==> game.action(buttons) == game,
        game.app_state == AppState::Menu ==> game.action(buttons).app_state == AppState::Menu
            || game.action(buttons).app_state == AppState::Game,
    decreases buttons.len(),
{
    if buttons.len() > 0 {
        lemma_action_stays_or_plays(game, buttons.drop_last());
    }
}

/// Outside a run the game is ready for one: the screen is bare, the
/// score is zero, and lives and bubbles are those that a run begins with.
pub open spec fn ready(game: GameView) -> bool {
    game.app_state != AppState::Game ==> {
        &&& game.screen == GameScreenView::empty()
        &&& game.bubble_state == BubbleStateView::fresh()
        &&& game.player_state == PlayerState::fresh()
        &&& game.score.score == 0
    }
}

/// The game is ready for a run when the program starts and whenever it
/// is outside a run afterwards: time passing, clicks, ticks and the end
/// of a run all keep it so.
pub proof fn law_ready_outside_runs(
    game: GameView,
    controls: Controls,
    finished: bool,
    buttons: Seq<(Interaction, MenuButtonAction)>,
)
    requires
        ready(game),
        game.wf(),
        game.has_room(),
        game.app_state == AppState::Game ==> game.can_update(controls),
    ensures
        ready(GameView::initial()),
        ready(game.finished()),
        ready(game.countdown(finished)),
        ready(game.action(buttons)),
        ready(game.update(controls)),
{
    lemma_action_keeps_ready(game, buttons);
    if game.app_state == AppState::Game && game.update(controls).app_state != AppState::Game {
        law_run_ends_finished(game, controls);
    }
}

/// Clicks keep a game ready for a run.
proof fn lemma_action_keeps_ready(game: GameView, buttons: Seq<(Interaction, MenuButtonAction)>)
    requires
        ready(game),
    ensures
        ready(game.action(buttons)),
    decreases buttons.len(),
{
    if buttons.len() > 0 {
        lemma_action_keeps_ready(game, buttons.drop_last());
    }
}

/// Every run starts alike: from a game that is ready, the play button
/// leads to an arena of four walls with one bubble of the largest size
/// tier in its middle, thrown up and to the right, with all lives, no
/// score, and neither hook nor player on the screen yet. The
/// leaderboard is as it was.
pub proof fn law_every_run_starts_alike(game: GameView)
    requires
        ready(game),
        game.app_state == AppState::Menu,
    ensures
        game.pressed(MenuButtonAction::Play) == game.play(),
        game.play().app_state == AppState::Game,
        game.play().menu_state == MenuState::Disabled,
        game.play().screen.walls =~= arena_walls(),
        game.play().screen.bubbles =~= seq![
            Bubble::launched(
                Vec2 { x: 0, y: 0 },
                BubbleSize { size: ROOT_BUBBLE_SIZE },
                BALL_SPEED_X,
            ),
        ],
        game.play().screen.rewards =~= Seq::empty(),
        game.play().screen.hook is None,
        game.play().screen.player is None,
        game.play().bubble_state.count == 1,
        game.play().bubble_state.spawned,
        game.play().player_state == PlayerState::fresh(),
        game.play().player_state.lives == LIVE_COUNT,
        game.play().score.score == 0,
        game.play().scores == game.scores,
        game.play().wf(),
{
}

/// The last life ends the run at once: when a bubble reaches a player
/// with one life, the step that takes the life also brings the menu up,
/// puts the score on the leaderboard and makes the counts ready for a
/// new run.
pub proof fn law_last_life_ends_run(game: GameView)
    requires
        game.wf(),
        game.player_struck(),
        game.player_state.lives == 1,
    ensures
        game.wounded().player_state.lives == 0,
        game.bubble_player_collision() == game.finished(),
        game.bubble_player_collision().app_state == AppState::Menu,
        game.bubble_player_collision().scores == game.scores.push(game.score.score),
        game.bubble_player_collision().player_state.lives == LIVE_COUNT,
        game.bubble_player_collision().score.score == 0,
        game.bubble_player_collision().bubble_state.bubbles() =~= seq![
            Bubble::launched(
                Vec2 { x: 0, y: 0 },
                BubbleSize { size: ROOT_BUBBLE_SIZE },
                BALL_SPEED_X,
            ),
        ],
{
}

/// The last bubble ends the run at once: when no bubble is outstanding
/// after the hook's work, the same step brings the menu up and puts the
/// score on the leaderboard.
pub proof fn law_last_bubble_ends_run(game: GameView)
    requires
        game.hooked().bubble_state.count == 0,
    ensures
        game.bubble_hook_collision() == game.hooked().finished(),
        game.bubble_hook_collision().app_state == AppState::Menu,
        game.bubble_hook_collision().scores == game.scores.push(game.score.score),
{
}

/// A step of a tick that takes a life which is not the last lets the
/// run go on with one life less.
pub proof fn law_life_lost(game: GameView)
    requires
        game.wf(),
        game.player_struck(),
        game.player_state.lives > 1,
    ensures
        game.bubble_player_collision() == game.wounded(),
        game.bubble_player_collision().player_state.lives == game.player_state.lives - 1,
        game.bubble_player_collision().app_state == game.app_state,
{
}

/// The flags agree with the screen: a hook is in flight exactly if one
/// is on the screen, and the player is alive exactly if the figure is.
pub open spec fn coherent(game: GameView) -> bool {
    &&& game.player_state.hook_shoted == game.screen.hook.is_some()
    &&& game.player_state.is_alive == game.screen.player.is_some()
}

/// At most one hook is in flight: every step of a tick, and the tick
/// itself, keeps the flags in agreement with the screen, so that the
/// player fires only when no hook is there.
pub proof fn law_one_hook(game: GameView, controls: Controls)
    requires
        coherent(game),
    ensures
        coherent(game.spawn_player()),
        coherent(game.move_player(controls.left, controls.right)),
        coherent(game.shot_player(controls.fire)),
        coherent(game.rope_hook()),
        coherent(game.velocity()),
        coherent(game.hook_wall_collision()),
        coherent(game.bubble_wall_collision()),
        coherent(game.bubble_hook_collision()),
        coherent(game.bubble_player_collision()),
        coherent(game.reward_player_collision()),
        coherent(game.reward_wall_collision()),
        coherent(game.finished()),
        coherent(game.play()),
        coherent(game.update(controls)),
        game.fires(controls.fire) ==> game.screen.hook is None,
{
    let s1 = game.spawn_player();
    let s2 = s1.move_player(controls.left, controls.right);
    let s3 = s2.shot_player(controls.fire);
    let s4 = s3.rope_hook();
    let s5 = s4.velocity();
    let s6 = s5.hook_wall_collision();
    let s7 = s6.bubble_wall_collision();
    let s8 = s7.bubble_hook_collision();
    let s9 = s8.bubble_player_collision();
    let s10 = s9.reward_player_collision();
    let s11 = s10.reward_wall_collision();
    assert(coherent(s8));
    assert(coherent(s11));
}

} // verus!
