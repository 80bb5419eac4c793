//! The game screen: everything that is taken down when a run ends.

use vstd::prelude::*;
use crate::components::{Bubble, Hook, Player, Reward, Wall};

verus! {

/// What is on the game screen. Bubbles, rewards and walls are kept in the
/// order in which they appeared; at most one hook and one player's
/// figure are on the screen at a time.
#[derive(Clone, Debug, PartialEq, Eq)]
pub struct GameScreen {
    pub walls: Vec<Wall>,
    pub bubbles: Vec<Bubble>,
    pub rewards: Vec<Reward>,
    pub hook: Option<Hook>,
    pub player: Option<Player>,
}

/// A `GameScreen` as plain values.
#[verifier::ext_equal]
pub struct GameScreenView {
    pub walls: Seq<Wall>,
    pub bubbles: Seq<Bubble>,
    pub rewards: Seq<Reward>,
    pub hook: Option<Hook>,
    pub player: Option<Player>,
}

impl View for GameScreen {
    type V = GameScreenView;

    open spec fn view(&self) -> GameScreenView {
        GameScreenView {
            walls: self.walls@,
            bubbles: self.bubbles@,
            rewards: self.rewards@,
            hook: self.hook,
            player: self.player,
        }
    }
}

impl GameScreenView {
    /// The screen with nothing on it.
    pub open spec fn empty() -> GameScreenView {
        GameScreenView {
            walls: Seq::empty(),
            bubbles: Seq::empty(),
            rewards: Seq::empty(),
            hook: None,
            player: None,
        }
    }
}

impl GameScreen {
    pub fn new() -> (screen: GameScreen)
        ensures
            screen@ == GameScreenView::empty(),
    {
        GameScreen {
            walls: Vec::new(),
            bubbles: Vec::new(),
            rewards: Vec::new(),
            hook: None,
            player: None,
        }
    }
}

/// Takes everything off the screen.
pub fn despawn_screen(screen: &mut GameScreen)
    ensures
        final(screen)@ == GameScreenView::empty(),
{
    screen.walls.clear();
    screen.bubbles.clear();
    screen.rewards.clear();
    screen.hook = None;
    screen.player = None;
}

} // verus!
