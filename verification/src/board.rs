//! The arena: four walls around the playing field.

use vstd::prelude::*;
use crate::collision::Vec2;
use crate::components::Wall;
use crate::config::{BOTTOM, LEFT, RIGHT, TOP, WALL_SIZE};
use crate::game::{Game, GameView};
use crate::screen::GameScreenView;

verus! {

/// The side of the arena that a wall closes.
#[derive(Clone, Copy, Debug, PartialEq, Eq, Structural)]
pub enum WallLocation {
    Left,
    Right,
    Bottom,
    Top,
}

impl WallLocation {
    /// Centre of the wall on this side.
    pub open spec fn spec_position(&self) -> Vec2 {
        match self {
            WallLocation::Left => Vec2 { x: LEFT, y: 0 },
            WallLocation::Right => Vec2 { x: RIGHT, y: 0 },
            WallLocation::Bottom => Vec2 { x: 0, y: BOTTOM },
            WallLocation::Top => Vec2 { x: 0, y: TOP },
        }
    }

    /// Width and height of the wall on this side: as thick as a wall is
    /// and long enough to close the corners.
    pub open spec fn spec_size(&self) -> Vec2 {
        match self {
            WallLocation::Left | WallLocation::Right => Vec2 {
                x: WALL_SIZE,
                y: (TOP - BOTTOM + WALL_SIZE) as i64,
            },
            WallLocation::Bottom | WallLocation::Top => Vec2 {
                x: (RIGHT - LEFT + WALL_SIZE) as i64,
                y: WALL_SIZE,
            },
        }
    }

    #[verifier::when_used_as_spec(spec_position)]
    pub fn position(&self) -> (p: Vec2)
        ensures
            p == self.spec_position(),
    {
        match self {
            WallLocation::Left => Vec2::new(LEFT, 0),
            WallLocation::Right => Vec2::new(RIGHT, 0),
            WallLocation::Bottom => Vec2::new(0, BOTTOM),
            WallLocation::Top => Vec2::new(0, TOP),
        }
    }

    #[verifier::when_used_as_spec(spec_size)]
    pub fn size(&self) -> (s: Vec2)
        ensures
            s == self.spec_size(),
    {
        let height = TOP - BOTTOM;
        let width = RIGHT - LEFT;
        match self {
            WallLocation::Left | WallLocation::Right => Vec2::new(WALL_SIZE, height + WALL_SIZE),
            WallLocation::Bottom | WallLocation::Top => Vec2::new(width + WALL_SIZE, WALL_SIZE),
        }
    }
}

impl Wall {
    /// The wall on the given side of the arena.
    pub open spec fn at(location: WallLocation) -> Wall {
        Wall { position: location.spec_position(), extent: location.spec_size() }
    }

    pub fn new(location: WallLocation) -> (wall: Wall)
        ensures
            wall == Wall::at(location),
    {
        Wall { position: location.position(), extent: location.size() }
    }
}

/// The four walls of the arena, in the order in which they are built.
pub open spec fn arena_walls() -> Seq<Wall> {
    seq![
        Wall::at(WallLocation::Left),
        Wall::at(WallLocation::Right),
        Wall::at(WallLocation::Bottom),
        Wall::at(WallLocation::Top),
    ]
}

impl GameView {
    /// The game after the arena's walls have been put on the screen.
    pub open spec fn add_walls(self) -> GameView {
        GameView {
            screen: GameScreenView { walls: self.screen.walls + arena_walls(), ..self.screen },
            ..self
        }
    }
}

impl Game {
    /// Puts the four walls of the arena on the screen.
    pub fn add_walls_system(&mut self)
        ensures
            final(self)@ == old(self)@.add_walls(),
            old(self)@.wf() ==> final(self)@.wf(),
    {
        self.screen.walls.push(Wall::new(WallLocation::Left));
        self.screen.walls.push(Wall::new(WallLocation::Right));
        self.screen.walls.push(Wall::new(WallLocation::Bottom));
        self.screen.walls.push(Wall::new(WallLocation::Top));
        assert(self.screen.walls@ =~= old(self).screen.walls@ + arena_walls());
    }
}

} // verus!
