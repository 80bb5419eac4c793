//! Putting a run's bubbles on the screen.

use vstd::prelude::*;
use crate::collision::Vec2;
use crate::components::{Bubble, BubbleSize};
use crate::config::BALL_SPEED_X;
use crate::game::{Game, GameView};
use crate::screen::GameScreenView;
use crate::state::BubbleStateView;

verus! {

impl BubbleStateView {
    /// The bubble that stands `i`-th in the list of those to put on the
    /// screen: it starts off to the right.
    pub open spec fn bubble(self, i: int) -> Bubble {
        Bubble::launched(
            Vec2 { x: self.positions[i].0, y: self.positions[i].1 },
            BubbleSize { size: self.sizes[i] },
            BALL_SPEED_X,
        )
    }

    /// The bubbles that a run begins with.
    pub open spec fn bubbles(self) -> Seq<Bubble> {
        Seq::new(self.count as nat, |i: int| self.bubble(i))
    }
}

impl GameView {
    /// The game after the run's bubbles have been put on the screen,
    /// unless they were there already.
    pub open spec fn bubble_spawn(self) -> GameView {
        if self.bubble_state.spawned {
            self
        } else {
            GameView {
                screen: GameScreenView {
                    bubbles: self.screen.bubbles + self.bubble_state.bubbles(),
                    ..self.screen
                },
                bubble_state: BubbleStateView { spawned: true, ..self.bubble_state },
                ..self
            }
        }
    }
}

impl Game {
    /// Puts the bubbles that the run begins with on the screen, once.
    pub fn bubble_spawn_system(&mut self)
        requires
            old(self)@.wf(),
        ensures
            final(self)@ == old(self)@.bubble_spawn(),
            final(self)@.wf(),
    {
        if !self.bubble_state.spawned {
            let count = self.bubble_state.count;
            let mut i: usize = 0;
            while i < count
                invariant
                    i <= count,
                    count == old(self).bubble_state.count,
                    count <= self.bubble_state.sizes.len(),
                    count <= self.bubble_state.positions.len(),
                    old(self)@.wf(),
                    self.bubble_state == old(self).bubble_state,
                    self.screen.bubbles@ == old(self).screen.bubbles@ + old(
                        self,
                    ).bubble_state@.bubbles().take(i as int),
                    self.screen.walls == old(self).screen.walls,
                    self.screen.rewards == old(self).screen.rewards,
                    self.screen.hook == old(self).screen.hook,
                    self.screen.player == old(self).screen.player,
                    self.app_state == old(self).app_state,
                    self.menu_state == old(self).menu_state,
                    self.player_state == old(self).player_state,
                    self.score == old(self).score,
                    self.scores == old(self).scores,
                decreases count - i,
            {
                let (x, y) = self.bubble_state.positions[i];
                let size = BubbleSize { size: self.bubble_state.sizes[i] };
                self.screen.bubbles.push(Bubble::new(Vec2::new(x, y), size, BALL_SPEED_X));
                i = i + 1;
            }
            assert(old(self).bubble_state@.bubbles().take(count as int) =~= old(
                self,
            ).bubble_state@.bubbles());
            self.bubble_state.spawn();
        }
    }
}

} // verus!
