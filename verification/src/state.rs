//! What a run keeps count of: lives, bubbles outstanding, score, and the
//! screen that the application shows.

use vstd::prelude::*;
use crate::config::{LIVE_COUNT, ROOT_BUBBLE_SIZE};

verus! {

/// The screen that the application shows.
#[derive(Clone, Copy, Debug, PartialEq, Eq, Hash, Structural)]
pub enum AppState {
    Splash,
    Menu,
    Game,
}

/// The player's standing within a run.
#[derive(Clone, Copy, Debug, PartialEq, Eq, Structural)]
pub struct PlayerState {
    pub lives: usize,
    pub is_alive: bool,
    pub hook_shoted: bool,
}

impl PlayerState {
    /// The standing at the start of a run: all lives, no figure on the
    /// screen yet, no hook in flight.
    pub open spec fn fresh() -> PlayerState {
        PlayerState { lives: LIVE_COUNT, is_alive: false, hook_shoted: false }
    }

    /// Takes one life and marks the figure as gone.
    pub fn kill(&mut self)
        requires
            old(self).lives >= 1,
        ensures
            final(self).lives == old(self).lives - 1,
            !final(self).is_alive,
            final(self).hook_shoted == old(self).hook_shoted,
    {
        self.lives = self.lives - 1;
        self.is_alive = false;
    }

    pub fn spawn(&mut self)
        ensures
            *final(self) == (PlayerState { is_alive: true, ..*old(self) }),
    {
        self.is_alive = true;
    }

    pub fn shoot_hook(&mut self)
        ensures
            *final(self) == (PlayerState { hook_shoted: true, ..*old(self) }),
    {
        self.hook_shoted = true;
    }

    pub fn unhook(&mut self)
        ensures
            *final(self) == (PlayerState { hook_shoted: false, ..*old(self) }),
    {
        self.hook_shoted = false;
    }

    pub fn is_completely_dead(&self) -> (dead: bool)
        ensures
            dead == (self.lives == 0),
    {
        self.lives == 0
    }

    pub fn restart(&mut self)
        ensures
            *final(self) == PlayerState::fresh(),
    {
        self.lives = LIVE_COUNT;
        self.is_alive = false;
        self.hook_shoted = false;
    }
}

impl Default for PlayerState {
    fn default() -> (state: PlayerState)
        ensures
            state == PlayerState::fresh(),
    {
        PlayerState { lives: LIVE_COUNT, is_alive: false, hook_shoted: false }
    }
}

/// The bubbles outstanding in a run, and those to put on the screen
/// when the run begins.
#[derive(Clone, Debug, PartialEq, Eq)]
pub struct BubbleState {
    pub count: usize,
    pub sizes: Vec<u32>,
    pub positions: Vec<(i64, i64)>,
    pub spawned: bool,
}

/// A `BubbleState` as plain values.
#[verifier::ext_equal]
pub struct BubbleStateView {
    pub count: usize,
    pub sizes: Seq<u32>,
    pub positions: Seq<(i64, i64)>,
    pub spawned: bool,
}

impl View for BubbleState {
    type V = BubbleStateView;

    open spec fn view(&self) -> BubbleStateView {
        BubbleStateView {
            count: self.count,
            sizes: self.sizes@,
            positions: self.positions@,
            spawned: self.spawned,
        }
    }
}

impl BubbleStateView {
    /// The state at the start of a run: one bubble of the largest size
    /// tier, in the middle of the arena, not yet on the screen.
    pub open spec fn fresh() -> BubbleStateView {
        BubbleStateView {
            count: 1,
            sizes: seq![ROOT_BUBBLE_SIZE],
            positions: seq![(0i64, 0i64)],
            spawned: false,
        }
    }

    /// The bubbles yet to be put on the screen can be: each has a
    /// position and a size tier of at least one.
    pub open spec fn wf(self) -> bool {
        &&& !self.spawned ==> self.count <= self.sizes.len() && self.count <= self.positions.len()
        &&& forall|i: int| 0 <= i < self.sizes.len() ==> self.sizes[i] >= 1
    }
}

impl BubbleState {
    pub fn spawn(&mut self)
        ensures
            final(self)@ == (BubbleStateView { spawned: true, ..old(self)@ }),
    {
        self.spawned = true;
    }

    pub fn despawn(&mut self)
        ensures
            final(self)@ == (BubbleStateView { spawned: false, ..old(self)@ }),
    {
        self.spawned = false;
    }

    pub fn restart(&mut self)
        ensures
            final(self)@ == BubbleStateView::fresh(),
    {
        self.count = 1;
        self.spawned = false;
        self.sizes = vec![ROOT_BUBBLE_SIZE];
        self.positions = vec![(0i64, 0i64)];
        assert(self.sizes@ =~= seq![ROOT_BUBBLE_SIZE]);
        assert(self.positions@ =~= seq![(0i64, 0i64)]);
    }
}

impl Default for BubbleState {
    fn default() -> (state: BubbleState)
        ensures
            state@ == BubbleStateView::fresh(),
    {
        let sizes = vec![ROOT_BUBBLE_SIZE];
        let positions = vec![(0i64, 0i64)];
        assert(sizes@ =~= seq![ROOT_BUBBLE_SIZE]);
        assert(positions@ =~= seq![(0i64, 0i64)]);
        BubbleState { count: 1, spawned: false, sizes, positions }
    }
}

/// The score of the current run.
#[derive(Clone, Copy, Debug, PartialEq, Eq, Structural)]
pub struct Score {
    pub score: usize,
}

impl Default for Score {
    fn default() -> (score: Score)
        ensures
            score.score == 0,
    {
        Score { score: 0 }
    }
}

/// The scores of the runs played so far, in the order they ended.
#[derive(Clone, Debug, PartialEq, Eq)]
pub struct Scores {
    pub score_list: Vec<usize>,
}

impl View for Scores {
    type V = Seq<usize>;

    open spec fn view(&self) -> Seq<usize> {
        self.score_list@
    }
}

impl Default for Scores {
    fn default() -> (scores: Scores)
        ensures
            scores@ == Seq::<usize>::empty(),
    {
        Scores { score_list: Vec::new() }
    }
}

} // verus!
