//! The player: where the figure stands, how it moves, when it fires.

use vstd::prelude::*;
use crate::collision::Vec2;
use crate::components::{Hook, Player};
use crate::config::{PLAYER_MAX_X, PLAYER_MIN_X, PLAYER_SPEED};
use crate::game::{Game, GameView};
use crate::screen::GameScreenView;
use crate::state::PlayerState;

verus! {

/// The keys that are down in a tick: `left` and `right` while held,
/// `fire` only in the tick in which it went down.
#[derive(Clone, Copy, Debug, PartialEq, Eq, Structural)]
pub struct Controls {
    pub left: bool,
    pub right: bool,
    pub fire: bool,
}

/// Direction in which the held keys pull: -1 to the left, 1 to the right,
/// 0 with neither or both.
pub open spec fn direction(left: bool, right: bool) -> int {
    (if right { 1int } else { 0int }) - (if left { 1int } else { 0int })
}

/// `x` brought into the range from `low` to `high`.
pub open spec fn clamped(x: int, low: int, high: int) -> int {
    if x < low {
        low
    } else if x > high {
        high
    } else {
        x
    }
}

impl Player {
    /// The player after a tick with the given keys held: a step to the
    /// side, but never into a wall.
    pub open spec fn stepped(self, left: bool, right: bool) -> Player {
        Player {
            position: Vec2 {
                x: clamped(
                    self.position.x + direction(left, right) * PLAYER_SPEED,
                    PLAYER_MIN_X as int,
                    PLAYER_MAX_X as int,
                ) as i64,
                y: self.position.y,
            },
        }
    }

    /// Moves the player for one tick.
    pub fn step(&mut self, left: bool, right: bool)
        ensures
            *final(self) == old(self).stepped(left, right),
            PLAYER_MIN_X <= final(self).position.x <= PLAYER_MAX_X,
    {
        let mut target: i128 = self.position.x as i128;
        if left {
            target = target - (PLAYER_SPEED as i128);
        }
        if right {
            target = target + (PLAYER_SPEED as i128);
        }
        if target < PLAYER_MIN_X as i128 {
            self.position.x = PLAYER_MIN_X;
        } else if target > PLAYER_MAX_X as i128 {
            self.position.x = PLAYER_MAX_X;
        } else {
            self.position.x = target as i64;
        }
    }
}

impl GameView {
    /// The game after the player's figure has been put on the screen,
    /// unless the player is alive already.
    pub open spec fn spawn_player(self) -> GameView {
        if self.player_state.is_alive {
            self
        } else {
            GameView {
                screen: GameScreenView { player: Some(Player::at_start()), ..self.screen },
                player_state: PlayerState { is_alive: true, ..self.player_state },
                ..self
            }
        }
    }

    /// The game after the player has moved for a tick.
    pub open spec fn move_player(self, left: bool, right: bool) -> GameView {
        match self.screen.player {
            Some(player) => GameView {
                screen: GameScreenView {
                    player: Some(player.stepped(left, right)),
                    ..self.screen
                },
                ..self
            },
            None => self,
        }
    }

    /// The player fires: the figure is on the screen, the key went down
    /// and no hook is in flight.
    pub open spec fn fires(self, fire: bool) -> bool {
        self.screen.player is Some && fire && !self.player_state.hook_shoted
    }

    /// The game after the player has fired, if so: a hook leaves from
    /// where the player stands.
    pub open spec fn shot_player(self, fire: bool) -> GameView {
        if self.fires(fire) {
            GameView {
                screen: GameScreenView {
                    hook: Some(Hook::fired_from(self.screen.player.unwrap().position)),
                    ..self.screen
                },
                player_state: PlayerState { hook_shoted: true, ..self.player_state },
                ..self
            }
        } else {
            self
        }
    }
}

impl Game {
    /// Puts the player's figure on the screen when the player is not alive.
    pub fn spawn_player_system(&mut self)
        ensures
            final(self)@ == old(self)@.spawn_player(),
            old(self)@.wf() ==> final(self)@.wf(),
    {
        if !self.player_state.is_alive {
            self.screen.player = Some(Player::new());
            self.player_state.spawn();
        }
    }

    /// Moves the player by the keys that are held.
    pub fn move_player_system(&mut self, left: bool, right: bool)
        ensures
            final(self)@ == old(self)@.move_player(left, right),
            old(self)@.wf() ==> final(self)@.wf(),
    {
        if let Some(player) = self.screen.player {
            let mut player = player;
            player.step(left, right);
            self.screen.player = Some(player);
        }
    }

    /// Fires the hook when the key went down and none is in flight.
    pub fn shot_player_system(&mut self, fire: bool)
        ensures
            final(self)@ == old(self)@.shot_player(fire),
            old(self)@.wf() ==> final(self)@.wf(),
    {
        if let Some(player) = self.screen.player {
            if fire && !self.player_state.hook_shoted {
                self.screen.hook = Some(Hook::new(player.position));
                self.player_state.shoot_hook();
            }
        }
    }
}

} // verus!
