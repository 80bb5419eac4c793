//! The state of the whole game and the steps that a tick is made of.

use vstd::prelude::*;
use crate::collision::{any_touching, find_touching, first_touching, touches_any, Solid};
use crate::components::{Bubble, Reward};
use crate::config::SCORE_LIMIT;
use crate::menu::MenuState;
use crate::screen::{despawn_screen, GameScreen, GameScreenView};
use crate::state::{AppState, BubbleState, BubbleStateView, PlayerState, Score, Scores};

verus! {

/// Everything the game keeps between ticks.
#[derive(Clone, Debug, PartialEq, Eq)]
pub struct Game {
    pub app_state: AppState,
    pub menu_state: MenuState,
    pub screen: GameScreen,
    pub player_state: PlayerState,
    pub bubble_state: BubbleState,
    pub score: Score,
    pub scores: Scores,
}

/// A `Game` as plain values.
#[verifier::ext_equal]
pub struct GameView {
    pub app_state: AppState,
    pub menu_state: MenuState,
    pub screen: GameScreenView,
    pub player_state: PlayerState,
    pub bubble_state: BubbleStateView,
    pub score: Score,
    pub scores: Seq<usize>,
}

impl View for Game {
    type V = GameView;

    open spec fn view(&self) -> GameView {
        GameView {
            app_state: self.app_state,
            menu_state: self.menu_state,
            screen: self.screen@,
            player_state: self.player_state,
            bubble_state: self.bubble_state@,
            score: self.score,
            scores: self.scores@,
        }
    }
}

impl GameView {
    /// The game as the program starts: on the splash screen, nothing
    /// played yet.
    pub open spec fn initial() -> GameView {
        GameView {
            app_state: AppState::Splash,
            menu_state: MenuState::Disabled,
            screen: GameScreenView::empty(),
            player_state: PlayerState::fresh(),
            bubble_state: BubbleStateView::fresh(),
            score: Score { score: 0 },
            scores: Seq::empty(),
        }
    }

    /// The counts agree with the screen: once the run's bubbles are on
    /// the screen, `count` is their number; every bubble has a size tier
    /// of at least one; and a life is left.
    pub open spec fn wf(self) -> bool {
        &&& self.bubble_state.wf()
        &&& self.player_state.lives >= 1
        &&& forall|i: int|
            0 <= i < self.screen.bubbles.len() ==> (#[trigger] self.screen.bubbles[i]).size.size
                >= 1
        &&& self.bubble_state.spawned ==> self.bubble_state.count == self.screen.bubbles.len()
        &&& !self.bubble_state.spawned ==> self.screen.bubbles.len() == 0
    }

    /// One more bubble on the screen can still be counted.
    pub open spec fn has_room(self) -> bool {
        self.screen.bubbles.len() < usize::MAX
    }

    /// Everything on the screen, and the score, is small enough for a
    /// tick to stay within the machine's integers whatever happens in it.
    pub open spec fn bounded(self) -> bool {
        &&& self.has_room()
        &&& self.score.score <= SCORE_LIMIT
        &&& forall|i: int|
            0 <= i < self.screen.bubbles.len() ==> (#[trigger] self.screen.bubbles[i]).bounded()
        &&& forall|i: int|
            0 <= i < self.screen.rewards.len() ==> (#[trigger] self.screen.rewards[i]).bounded()
        &&& match self.screen.hook {
            Some(hook) => hook.bounded(),
            None => true,
        }
        &&& match self.screen.player {
            Some(player) => player.position.bounded(),
            None => true,
        }
    }

    /// The game after its run has ended: the menu is up, the score has
    /// gone to the end of the leaderboard, the screen is bare and the
    /// counts are those of a new run.
    pub open spec fn finished(self) -> GameView {
        GameView {
            app_state: AppState::Menu,
            menu_state: MenuState::Main,
            screen: GameScreenView::empty(),
            player_state: PlayerState::fresh(),
            bubble_state: BubbleStateView::fresh(),
            score: Score { score: 0 },
            scores: self.scores.push(self.score.score),
        }
    }

    /// The game after the hook has popped bubble `i`: hook and bubble are
    /// gone, the bubble's children are the last bubbles on the screen and
    /// its reward is the last reward.
    pub open spec fn popped(self, i: int) -> GameView {
        let bubble = self.screen.bubbles[i];
        GameView {
            screen: GameScreenView {
                bubbles: self.screen.bubbles.remove(i) + bubble.children(),
                rewards: self.screen.rewards.push(bubble.reward()),
                hook: None,
                ..self.screen
            },
            bubble_state: BubbleStateView {
                count: (self.bubble_state.count - 1 + bubble.children().len()) as usize,
                ..self.bubble_state
            },
            player_state: PlayerState { hook_shoted: false, ..self.player_state },
            ..self
        }
    }

    /// The game after the hook has run into a wall, if it has: the hook
    /// is gone and the player may fire again.
    pub open spec fn hook_wall_collision(self) -> GameView {
        match self.screen.hook {
            Some(hook) => if any_touching(self.screen.walls, hook.spec_bounds()) {
                GameView {
                    screen: GameScreenView { hook: None, ..self.screen },
                    player_state: PlayerState { hook_shoted: false, ..self.player_state },
                    ..self
                }
            } else {
                self
            },
            None => self,
        }
    }

    /// Every bubble can bounce without overflow.
    pub open spec fn can_bounce(self) -> bool {
        forall|i: int|
            0 <= i < self.screen.bubbles.len() ==> (
            #[trigger] self.screen.bubbles[i]).movement.reversible()
    }

    /// The game after every bubble has bounced off the walls it overlaps.
    pub open spec fn bubble_wall_collision(self) -> GameView {
        GameView {
            screen: GameScreenView {
                bubbles: self.screen.bubbles.map_values(
                    |b: Bubble| b.deflected(self.screen.walls),
                ),
                ..self.screen
            },
            ..self
        }
    }

    /// A bubble has reached the living player.
    pub open spec fn player_struck(self) -> bool {
        self.player_state.is_alive && match self.screen.player {
            Some(player) => any_touching(self.screen.bubbles, player.spec_bounds()),
            None => false,
        }
    }

    /// The game after the player has lost a life: the figure is off the
    /// screen until it is put back.
    pub open spec fn wounded(self) -> GameView {
        GameView {
            screen: GameScreenView { player: None, ..self.screen },
            player_state: PlayerState {
                lives: (self.player_state.lives - 1) as usize,
                is_alive: false,
                ..self.player_state
            },
            ..self
        }
    }

    /// The game after a bubble has reached the player, if one has: a
    /// life is lost, and with the last life the run.
    pub open spec fn bubble_player_collision(self) -> GameView {
        if self.player_struck() {
            if self.wounded().player_state.lives == 0 {
                self.wounded().finished()
            } else {
                self.wounded()
            }
        } else {
            self
        }
    }

    /// Index of the reward that the living player picks up, if any.
    pub open spec fn reward_reached(self) -> Option<int> {
        if self.player_state.is_alive {
            match self.screen.player {
                Some(player) => first_touching(self.screen.rewards, player.spec_bounds()),
                None => None,
            }
        } else {
            None
        }
    }

    /// The score can take the reward that the player picks up.
    pub open spec fn can_collect(self) -> bool {
        match self.reward_reached() {
            Some(i) => self.score.score + self.screen.rewards[i].score.score <= usize::MAX,
            None => true,
        }
    }

    /// The game after the player has picked up the first reward within
    /// reach, if there is one: its points are added to the score.
    pub open spec fn reward_player_collision(self) -> GameView {
        match self.reward_reached() {
            Some(i) => GameView {
                screen: GameScreenView {
                    rewards: self.screen.rewards.remove(i),
                    ..self.screen
                },
                score: Score {
                    score: (self.score.score + self.screen.rewards[i].score.score) as usize,
                },
                ..self
            },
            None => self,
        }
    }

    /// The game after the rewards that have reached a wall are gone.
    pub open spec fn reward_wall_collision(self) -> GameView {
        GameView {
            screen: GameScreenView {
                rewards: self.screen.rewards.filter(
                    |r: Reward| !any_touching(self.screen.walls, r.spec_bounds()),
                ),
                ..self.screen
            },
            ..self
        }
    }

    /// Every bubble and reward can move for a tick without overflow.
    pub open spec fn can_move(self) -> bool {
        &&& forall|i: int|
            0 <= i < self.screen.bubbles.len() ==> (
            #[trigger] self.screen.bubbles[i]).movement.can_advance(self.screen.bubbles[i].position)
        &&& forall|i: int|
            0 <= i < self.screen.rewards.len() ==> (
            #[trigger] self.screen.rewards[i]).movement.can_advance(self.screen.rewards[i].position)
    }

    /// The game after bubbles and rewards have moved for a tick.
    pub open spec fn velocity(self) -> GameView {
        GameView {
            screen: GameScreenView {
                bubbles: self.screen.bubbles.map_values(|b: Bubble| b.advanced()),
                rewards: self.screen.rewards.map_values(|r: Reward| r.advanced()),
                ..self.screen
            },
            ..self
        }
    }

    /// The hook, if there is one, can rise for a tick without overflow.
    pub open spec fn can_rise(self) -> bool {
        match self.screen.hook {
            Some(hook) => hook.can_rise(),
            None => true,
        }
    }

    /// The game after the hook has risen for a tick.
    pub open spec fn rope_hook(self) -> GameView {
        match self.screen.hook {
            Some(hook) => GameView {
                screen: GameScreenView { hook: Some(hook.risen()), ..self.screen },
                ..self
            },
            None => self,
        }
    }

    /// The run ends as won when no bubble is outstanding.
    pub open spec fn settled(self) -> GameView {
        if self.bubble_state.count == 0 {
            self.finished()
        } else {
            self
        }
    }

    /// The game after the hook has popped the first bubble in its way,
    /// if there is one, and the run has ended if that was the last.
    pub open spec fn bubble_hook_collision(self) -> GameView {
        self.hooked().settled()
    }

    /// The hook has met the first bubble in its way, if there is one.
    pub open spec fn hooked(self) -> GameView {
        match self.screen.hook {
            Some(hook) => match first_touching(self.screen.bubbles, hook.spec_bounds()) {
                Some(i) => self.popped(i),
                None => self,
            },
            None => self,
        }
    }
}

impl Game {
    pub fn new() -> (game: Game)
        ensures
            game@ == GameView::initial(),
            game@.wf(),
    {
        Game {
            app_state: AppState::Splash,
            menu_state: MenuState::Disabled,
            screen: GameScreen::new(),
            player_state: PlayerState::default(),
            bubble_state: BubbleState::default(),
            score: Score::default(),
            scores: Scores::default(),
        }
    }

    /// Tells whether the counts agree with the screen.
    pub fn is_valid(&self) -> (ok: bool)
        ensures
            ok == self@.wf(),
    {
        if self.player_state.lives < 1 {
            return false;
        }
        let n = self.screen.bubbles.len();
        if self.bubble_state.spawned {
            if self.bubble_state.count != n {
                return false;
            }
        } else {
            if n != 0 || self.bubble_state.count > self.bubble_state.sizes.len()
                || self.bubble_state.count > self.bubble_state.positions.len() {
                return false;
            }
        }
        let mut i: usize = 0;
        while i < n
            invariant
                i <= n,
                n == self.screen.bubbles.len(),
                forall|j: int| 0 <= j < i ==> (#[trigger] self.screen.bubbles[j]).size.size >= 1,
            decreases n - i,
        {
            if self.screen.bubbles[i].size.size < 1 {
                return false;
            }
            i = i + 1;
        }
        let m = self.bubble_state.sizes.len();
        let mut k: usize = 0;
        while k < m
            invariant
                k <= m,
                m == self.bubble_state.sizes.len(),
                forall|j: int| 0 <= j < k ==> self.bubble_state.sizes[j] >= 1,
            decreases m - k,
        {
            if self.bubble_state.sizes[k] < 1 {
                return false;
            }
            k = k + 1;
        }
        true
    }

    /// Tells whether everything on the screen, and the score, is small.
    pub fn is_bounded(&self) -> (ok: bool)
        ensures
            ok == self@.bounded(),
    {
        if self.score.score > SCORE_LIMIT || self.screen.bubbles.len() >= usize::MAX {
            return false;
        }
        if let Some(hook) = self.screen.hook {
            if !hook.is_bounded() {
                return false;
            }
        }
        if let Some(player) = self.screen.player {
            if !player.position.is_bounded() {
                return false;
            }
        }
        let n = self.screen.bubbles.len();
        let mut i: usize = 0;
        while i < n
            invariant
                i <= n,
                n == self.screen.bubbles.len(),
                forall|j: int| 0 <= j < i ==> (#[trigger] self.screen.bubbles[j]).bounded(),
            decreases n - i,
        {
            if !self.screen.bubbles[i].is_bounded() {
                assert(!self@.screen.bubbles[i as int].bounded());
                return false;
            }
            i = i + 1;
        }
        let m = self.screen.rewards.len();
        let mut k: usize = 0;
        while k < m
            invariant
                k <= m,
                m == self.screen.rewards.len(),
                forall|j: int| 0 <= j < k ==> (#[trigger] self.screen.rewards[j]).bounded(),
            decreases m - k,
        {
            if !self.screen.rewards[k].is_bounded() {
                assert(!self@.screen.rewards[k as int].bounded());
                return false;
            }
            k = k + 1;
        }
        true
    }

    /// Ends the run: records the score, goes back to the menu, clears the
    /// screen and makes the counts ready for the next run.
    pub fn finish_run(&mut self)
        ensures
            final(self)@ == old(self)@.finished(),
            final(self)@.wf(),
    {
        self.app_state = AppState::Menu;
        self.menu_state = MenuState::Main;
        self.bubble_state.despawn();
        self.scores.score_list.push(self.score.score);
        self.score = Score::default();
        self.player_state.restart();
        self.bubble_state.restart();
        despawn_screen(&mut self.screen);
    }

    /// Pops bubble `index`: takes it and the hook off the screen, puts
    /// the bubble's children and its reward there, and counts.
    pub fn pop_bubble(&mut self, index: usize)
        requires
            old(self)@.wf(),
            index < old(self).screen.bubbles.len(),
        ensures
            final(self)@ == old(self)@.popped(index as int),
            final(self)@.wf(),
    {
        let bubble = self.screen.bubbles.remove(index);
        self.screen.hook = None;
        let mut children = bubble.split();
        self.screen.bubbles.append(&mut children);
        self.screen.rewards.push(bubble.drop_reward());
        self.bubble_state.count = self.screen.bubbles.len();
        self.player_state.unhook();
    }

    /// Moves every bubble and every reward by one tick of its velocity
    /// and lets gravity act on its vertical speed.
    pub fn velocity_system(&mut self)
        requires
            old(self)@.can_move(),
        ensures
            final(self)@ == old(self)@.velocity(),
            old(self)@.wf() ==> final(self)@.wf(),
    {
        let n = self.screen.bubbles.len();
        let mut i: usize = 0;
        while i < n
            invariant
                i <= n,
                n == old(self).screen.bubbles.len(),
                self.screen.bubbles.len() == n,
                old(self)@.can_move(),
                forall|j: int|
                    0 <= j < i ==> self.screen.bubbles[j] == old(
                        self,
                    ).screen.bubbles[j].advanced(),
                forall|j: int| i <= j < n ==> self.screen.bubbles[j] == old(self).screen.bubbles[j],
                self.screen.walls == old(self).screen.walls,
                self.screen.rewards == old(self).screen.rewards,
                self.screen.hook == old(self).screen.hook,
                self.screen.player == old(self).screen.player,
                self.app_state == old(self).app_state,
                self.menu_state == old(self).menu_state,
                self.player_state == old(self).player_state,
                self.bubble_state == old(self).bubble_state,
                self.score == old(self).score,
                self.scores == old(self).scores,
            decreases n - i,
        {
            let mut bubble = self.screen.bubbles[i];
            assert(bubble == old(self)@.screen.bubbles[i as int]);
            bubble.movement.advance(&mut bubble.position);
            self.screen.bubbles.set(i, bubble);
            i = i + 1;
        }
        let m = self.screen.rewards.len();
        let mut k: usize = 0;
        while k < m
            invariant
                k <= m,
                m == old(self).screen.rewards.len(),
                self.screen.rewards.len() == m,
                old(self)@.can_move(),
                forall|j: int|
                    0 <= j < k ==> self.screen.rewards[j] == old(
                        self,
                    ).screen.rewards[j].advanced(),
                forall|j: int| k <= j < m ==> self.screen.rewards[j] == old(self).screen.rewards[j],
                self.screen.bubbles@ == old(self)@.velocity().screen.bubbles,
                self.screen.walls == old(self).screen.walls,
                self.screen.hook == old(self).screen.hook,
                self.screen.player == old(self).screen.player,
                self.app_state == old(self).app_state,
                self.menu_state == old(self).menu_state,
                self.player_state == old(self).player_state,
                self.bubble_state == old(self).bubble_state,
                self.score == old(self).score,
                self.scores == old(self).scores,
            decreases m - k,
        {
            let mut reward = self.screen.rewards[k];
            assert(reward == old(self)@.screen.rewards[k as int]);
            reward.movement.advance(&mut reward.position);
            self.screen.rewards.set(k, reward);
            k = k + 1;
        }
        assert(self.screen.rewards@ =~= old(self)@.velocity().screen.rewards);
    }

    /// Lets the hook rise and its rope grow for one tick.
    pub fn rope_hook_system(&mut self)
        requires
            old(self)@.can_rise(),
        ensures
            final(self)@ == old(self)@.rope_hook(),
            old(self)@.wf() ==> final(self)@.wf(),
    {
        if let Some(hook) = self.screen.hook {
            let mut hook = hook;
            hook.rise();
            self.screen.hook = Some(hook);
        }
    }

    /// Takes the hook off the screen when it has run into a wall.
    pub fn hook_wall_collision_system(&mut self)
        ensures
            final(self)@ == old(self)@.hook_wall_collision(),
            old(self)@.wf() ==> final(self)@.wf(),
    {
        if let Some(hook) = self.screen.hook {
            if touches_any(&self.screen.walls, hook.bounds()) {
                self.screen.hook = None;
                self.player_state.unhook();
            }
        }
    }

    /// Bounces every bubble off the walls that it overlaps.
    pub fn bubble_wall_collision_system(&mut self)
        requires
            old(self)@.can_bounce(),
        ensures
            final(self)@ == old(self)@.bubble_wall_collision(),
            final(self)@.can_bounce(),
            old(self)@.wf() ==> final(self)@.wf(),
    {
        let n = self.screen.bubbles.len();
        let mut i: usize = 0;
        while i < n
            invariant
                i <= n,
                n == old(self).screen.bubbles.len(),
                self.screen.bubbles.len() == n,
                old(self)@.can_bounce(),
                forall|j: int|
                    0 <= j < i ==> self.screen.bubbles[j] == old(
                        self,
                    ).screen.bubbles[j].deflected(old(self).screen.walls@),
                forall|j: int|
                    0 <= j < i ==> (#[trigger] self.screen.bubbles[j]).movement.reversible(),
                forall|j: int| i <= j < n ==> self.screen.bubbles[j] == old(self).screen.bubbles[j],
                self.screen.walls == old(self).screen.walls,
                self.screen.rewards == old(self).screen.rewards,
                self.screen.hook == old(self).screen.hook,
                self.screen.player == old(self).screen.player,
                self.app_state == old(self).app_state,
                self.menu_state == old(self).menu_state,
                self.player_state == old(self).player_state,
                self.bubble_state == old(self).bubble_state,
                self.score == old(self).score,
                self.scores == old(self).scores,
            decreases n - i,
        {
            let mut bubble = self.screen.bubbles[i];
            assert(bubble == old(self)@.screen.bubbles[i as int]);
            bubble.deflect(&self.screen.walls);
            self.screen.bubbles.set(i, bubble);
            i = i + 1;
        }
        assert(self.screen.bubbles@ =~= old(self)@.bubble_wall_collision().screen.bubbles);
    }

    /// Takes a life when a bubble has reached the player, and ends the
    /// run as lost when it was the last.
    pub fn bubble_player_collision_system(&mut self)
        requires
            old(self)@.wf(),
        ensures
            final(self)@ == old(self)@.bubble_player_collision(),
            final(self)@.wf(),
    {
        if self.player_state.is_alive {
            if let Some(player) = self.screen.player {
                if touches_any(&self.screen.bubbles, player.bounds()) {
                    self.screen.player = None;
                    self.player_state.kill();
                    if self.player_state.is_completely_dead() {
                        self.finish_run();
                    }
                }
            }
        }
    }

    /// Lets the player pick up the first reward within reach.
    pub fn reward_player_collision_system(&mut self)
        requires
            old(self)@.can_collect(),
        ensures
            final(self)@ == old(self)@.reward_player_collision(),
            old(self)@.wf() ==> final(self)@.wf(),
    {
        if self.player_state.is_alive {
            if let Some(player) = self.screen.player {
                if let Some(index) = find_touching(&self.screen.rewards, player.bounds()) {
                    let reward = self.screen.rewards.remove(index);
                    self.score.score = self.score.score + reward.score.score;
                }
            }
        }
    }

    /// Takes the rewards off the screen that have reached a wall.
    pub fn reward_wall_collision_system(&mut self)
        ensures
            final(self)@ == old(self)@.reward_wall_collision(),
            old(self)@.wf() ==> final(self)@.wf(),
    {
        let ghost unclaimed = |r: Reward| !any_touching(self.screen.walls@, r.spec_bounds());
        let mut kept: Vec<Reward> = Vec::new();
        let n = self.screen.rewards.len();
        let mut i: usize = 0;
        while i < n
            invariant
                i <= n,
                n == self.screen.rewards.len(),
                *self == *old(self),
                unclaimed == |r: Reward| !any_touching(self.screen.walls@, r.spec_bounds()),
                kept@ == self.screen.rewards@.take(i as int).filter(unclaimed),
            decreases n - i,
        {
            let reward = self.screen.rewards[i];
            proof {
                assert(self.screen.rewards@.take(i + 1).drop_last() =~= self.screen.rewards@.take(
                    i as int,
                ));
                reveal(Seq::filter);
            }
            if !touches_any(&self.screen.walls, reward.bounds()) {
                kept.push(reward);
            }
            i = i + 1;
        }
        assert(self.screen.rewards@.take(n as int) =~= self.screen.rewards@);
        self.screen.rewards = kept;
    }

    /// Starts the score of a run at zero.
    pub fn score_system(&mut self)
        ensures
            final(self)@ == (GameView { score: Score { score: 0 }, ..old(self)@ }),
            old(self)@.wf() ==> final(self)@.wf(),
    {
        self.score = Score::default();
    }

    /// Lets the hook pop the first bubble it meets, and ends the run as
    /// won when that was the last bubble outstanding.
    pub fn bubble_hook_collision_system(&mut self)
        requires
            old(self)@.wf(),
        ensures
            final(self)@ == old(self)@.bubble_hook_collision(),
            final(self)@.wf(),
    {
        if let Some(hook) = self.screen.hook {
            let caught = find_touching(&self.screen.bubbles, hook.bounds());
            if let Some(index) = caught {
                self.pop_bubble(index);
            }
        }
        if self.bubble_state.count == 0 {
            self.finish_run();
        }
    }
}

} // verus!
