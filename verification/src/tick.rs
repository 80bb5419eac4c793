//! One tick of a run: input, motion, collisions, in that order.

use vstd::prelude::*;
use crate::collision::{first_touching, lemma_first_touching, Solid};
use crate::components::Bubble;
use crate::config::{REWARD_MAX, SCORE_LIMIT};
use crate::game::{Game, GameView};
use crate::laws::law_steps_keep_counts;
use crate::player::Controls;
use crate::state::AppState;

verus! {

impl GameView {
    /// The game after the player has been put on the screen, has moved
    /// and has fired, as far as the keys ask for it.
    pub open spec fn input(self, controls: Controls) -> GameView {
        self.spawn_player().move_player(controls.left, controls.right).shot_player(controls.fire)
    }

    /// The game after hook, bubbles and rewards have moved for a tick.
    pub open spec fn motion(self) -> GameView {
        self.rope_hook().velocity()
    }

    /// The game after every collision of a tick has been seen to: first
    /// the hook against the walls, then the bubbles against the walls,
    /// against the hook and against the player, then the rewards against
    /// the player and against the walls.
    pub open spec fn collisions(self) -> GameView {
        self.hook_wall_collision().bubble_wall_collision().bubble_hook_collision()
            .bubble_player_collision().reward_player_collision().reward_wall_collision()
    }

    /// A tick of the run stays within the machine's integers.
    pub open spec fn can_update(self, controls: Controls) -> bool {
        let a = self.input(controls);
        let b = a.rope_hook();
        let c = b.velocity().hook_wall_collision();
        let d = c.bubble_wall_collision().bubble_hook_collision().bubble_player_collision();
        a.can_rise() && b.can_move() && c.can_bounce() && d.can_collect()
    }

    /// The game one tick later. Outside a run a tick changes nothing.
    pub open spec fn update(self, controls: Controls) -> GameView {
        if self.app_state == AppState::Game {
            self.input(controls).motion().collisions()
        } else {
            self
        }
    }
}

/// The score and every reward on the screen are within `SCORE_LIMIT`.
spec fn modest(game: GameView) -> bool {
    &&& game.score.score <= SCORE_LIMIT
    &&& forall|i: int|
        0 <= i < game.screen.rewards.len() ==> (#[trigger] game.screen.rewards[i]).score.score
            <= SCORE_LIMIT
}

/// No bubble pays more than the highest reward.
proof fn lemma_reward_is_modest(bubble: Bubble)
    requires
        bubble.size.size >= 1,
    ensures
        bubble.reward().score.score <= REWARD_MAX,
{
    let d = bubble.size.size as int;
    assert(1200int / d <= 1200) by (nonlinear_arith)
        requires
            d >= 1,
    ;
}

/// The hook's work leaves score and rewards within `SCORE_LIMIT`.
proof fn lemma_hooked_is_modest(game: GameView)
    requires
        game.wf(),
        modest(game),
    ensures
        modest(game.bubble_hook_collision()),
{
    match game.screen.hook {
        Some(hook) => {
            lemma_first_touching(game.screen.bubbles, hook.spec_bounds());
            match first_touching(game.screen.bubbles, hook.spec_bounds()) {
                Some(i) => {
                    lemma_reward_is_modest(game.screen.bubbles[i]);
                },
                None => {},
            }
        },
        None => {},
    }
}

/// Every step of a tick but the hook's work on the bubbles leaves score
/// and rewards within `SCORE_LIMIT`.
proof fn lemma_steps_are_modest(game: GameView, controls: Controls)
    requires
        game.wf(),
        modest(game),
    ensures
        modest(game.input(controls)),
        modest(game.rope_hook()),
        modest(game.velocity()),
        modest(game.hook_wall_collision()),
        modest(game.bubble_wall_collision()),
        modest(game.bubble_player_collision()),
{
    let v = game.velocity();
    assert forall|i: int| 0 <= i < v.screen.rewards.len() implies (
    #[trigger] v.screen.rewards[i]).score.score <= SCORE_LIMIT by {
        assert(v.screen.rewards[i] == game.screen.rewards[i].advanced());
    }
}

/// With score and rewards within `SCORE_LIMIT`, the score can take any
/// reward.
proof fn lemma_modest_can_collect(game: GameView)
    requires
        modest(game),
    ensures
        game.can_collect(),
{
    if game.player_state.is_alive && game.screen.player is Some {
        lemma_first_touching(game.screen.rewards, game.screen.player.unwrap().spec_bounds());
    }
}

/// The player's part of a tick leaves a small game small.
proof fn lemma_input_is_bounded(game: GameView, controls: Controls)
    requires
        game.bounded(),
    ensures
        game.input(controls).bounded(),
{
}

/// In a small game, hook, bubbles and rewards can move for a tick, and
/// the bubbles can bounce after it.
proof fn lemma_bounded_can_move(game: GameView)
    requires
        game.bounded(),
    ensures
        game.can_rise(),
        game.rope_hook().can_move(),
        game.rope_hook().velocity().hook_wall_collision().can_bounce(),
{
    let b = game.rope_hook();
    assert(b.screen.bubbles == game.screen.bubbles);
    assert(b.screen.rewards == game.screen.rewards);
    let c = b.velocity().hook_wall_collision();
    assert forall|i: int| 0 <= i < c.screen.bubbles.len() implies (
    #[trigger] c.screen.bubbles[i]).movement.reversible() by {
        assert(c.screen.bubbles[i] == game.screen.bubbles[i].advanced());
        assert(game.screen.bubbles[i].bounded());
    }
}

/// A game that is in order and small in every part can be played for a
/// tick.
pub proof fn lemma_bounded_can_update(game: GameView, controls: Controls)
    requires
        game.wf(),
        game.bounded(),
    ensures
        game.can_update(controls),
{
    let a = game.input(controls);
    let b = a.rope_hook();
    let v = b.velocity();
    let c = v.hook_wall_collision();
    let w = c.bubble_wall_collision();
    let h = w.bubble_hook_collision();
    let d = h.bubble_player_collision();
    lemma_input_is_bounded(game, controls);
    lemma_bounded_can_move(a);
    assert(modest(game)) by {
        assert forall|i: int| 0 <= i < game.screen.rewards.len() implies (
        #[trigger] game.screen.rewards[i]).score.score <= SCORE_LIMIT by {
            assert(game.screen.rewards[i].bounded());
        }
    }
    law_steps_keep_counts(game, controls);
    lemma_steps_are_modest(game, controls);
    law_steps_keep_counts(a, controls);
    lemma_steps_are_modest(a, controls);
    law_steps_keep_counts(b, controls);
    lemma_steps_are_modest(b, controls);
    law_steps_keep_counts(v, controls);
    lemma_steps_are_modest(v, controls);
    law_steps_keep_counts(c, controls);
    lemma_steps_are_modest(c, controls);
    lemma_room_is_kept(a);
    lemma_collisions_wf(c);
    lemma_hooked_is_modest(w);
    lemma_steps_are_modest(h, controls);
    lemma_modest_can_collect(d);
}

/// The motion of a tick, and what the walls do to hook and bubbles,
/// leaves the number of bubbles as it is.
proof fn lemma_room_is_kept(game: GameView)
    requires
        game.has_room(),
    ensures
        game.rope_hook().has_room(),
        game.rope_hook().velocity().has_room(),
        game.rope_hook().velocity().hook_wall_collision().has_room(),
        game.rope_hook().velocity().hook_wall_collision().bubble_wall_collision().has_room(),
{
}

/// What the walls do to the bubbles and the hook to the first of them
/// keeps the counts in agreement with the screen.
proof fn lemma_collisions_wf(game: GameView)
    requires
        game.wf(),
        game.has_room(),
    ensures
        game.bubble_wall_collision().wf(),
        game.bubble_wall_collision().bubble_hook_collision().wf(),
{
    let c = Controls { left: false, right: false, fire: false };
    law_steps_keep_counts(game, c);
    law_steps_keep_counts(game.bubble_wall_collision(), c);
}

impl Game {
    /// Plays one tick of the run if the game is in order and small in
    /// every part, and tells whether it did; otherwise it leaves the
    /// game as it is.
    pub fn tick(&mut self, controls: Controls) -> (played: bool)
        ensures
            played == (old(self)@.wf() && old(self)@.bounded()),
            played ==> final(self)@ == old(self)@.update(controls),
            played ==> final(self)@.wf(),
            !played ==> *final(self) == *old(self),
    {
        if self.is_valid() && self.is_bounded() {
            proof {
                lemma_bounded_can_update(self@, controls);
            }
            self.update(controls);
            true
        } else {
            false
        }
    }

    /// Plays one tick of the run.
    pub fn update(&mut self, controls: Controls)
        requires
            old(self)@.wf(),
            old(self).app_state == AppState::Game ==> old(self)@.can_update(controls),
        ensures
            final(self)@ == old(self)@.update(controls),
            final(self)@.wf(),
    {
        if self.app_state == AppState::Game {
            self.spawn_player_system();
            self.move_player_system(controls.left, controls.right);
            self.shot_player_system(controls.fire);
            self.rope_hook_system();
            self.velocity_system();
            self.hook_wall_collision_system();
            self.bubble_wall_collision_system();
            self.bubble_hook_collision_system();
            self.bubble_player_collision_system();
            self.reward_player_collision_system();
            self.reward_wall_collision_system();
        }
    }
}

} // verus!
