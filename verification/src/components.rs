//! The records of what is on the game screen.

use vstd::prelude::*;
use crate::collision::{is_small, small, Aabb, Collision, Solid, Vec2};
use crate::config::{
    BALL_RADIUS, BALL_SLOWDOWN, BALL_SPEED_X, HOOK_SPEED, HOOK_START_HEIGHT, HOOK_WIDTH,
    MIN_SPLIT_SIZE, PLAYER_HEIGHT, PLAYER_WIDTH, PLAYER_Y, REWARD_MAX, REWARD_SIZE, REWARD_SPEED,
    SCORE_LIMIT,
};

verus! {

/// Size tier of a bubble: larger bubbles are wider and bounce higher.
#[derive(Clone, Copy, Debug, PartialEq, Eq, Structural)]
pub struct BubbleSize {
    pub size: u32,
}

/// Points that a reward token is worth.
#[derive(Clone, Copy, Debug, PartialEq, Eq, Structural)]
pub struct RewardScore {
    pub score: usize,
}

/// Velocity in pixels per second, and the upward speed lost per tick.
#[derive(Clone, Copy, Debug, PartialEq, Eq, Structural)]
pub struct Movement {
    pub v_x: i64,
    pub v_y: i64,
    pub a: i64,
}

impl Movement {
    /// Speeds and slowdown are small.
    pub open spec fn bounded(self) -> bool {
        small(self.v_x) && small(self.v_y) && small(self.a)
    }

    pub fn is_bounded(&self) -> (ok: bool)
        ensures
            ok == self.bounded(),
    {
        is_small(self.v_x) && is_small(self.v_y) && is_small(self.a)
    }

    /// Both components of the velocity can change sign without overflow.
    pub open spec fn reversible(self) -> bool {
        self.v_x > i64::MIN && self.v_y > i64::MIN
    }

    /// One tick of motion from `position` stays within the machine's integers.
    pub open spec fn can_advance(self, position: Vec2) -> bool {
        &&& i64::MIN <= position.x + self.v_x <= i64::MAX
        &&& i64::MIN <= position.y + self.v_y <= i64::MAX
        &&& i64::MIN <= self.v_y - self.a <= i64::MAX
    }

    /// Where a body at `position` is after one tick.
    pub open spec fn moved(self, position: Vec2) -> Vec2 {
        Vec2 { x: (position.x + self.v_x) as i64, y: (position.y + self.v_y) as i64 }
    }

    /// The movement after one tick: the vertical speed has dropped by `a`.
    pub open spec fn slowed(self) -> Movement {
        Movement { v_x: self.v_x, v_y: (self.v_y - self.a) as i64, a: self.a }
    }

    /// The movement after a bubble of the given size tier has met the
    /// given face of a wall: off a side wall the horizontal speed turns
    /// round, off a ceiling the vertical speed does, and on a floor the
    /// bubble leaves upward at the speed of its size tier, however it
    /// came.
    pub open spec fn bounced(self, size: BubbleSize, face: Collision) -> Movement {
        match face {
            Collision::Left | Collision::Right => Movement { v_x: (-self.v_x) as i64, ..self },
            Collision::Top => Movement { v_y: bounce_speed(size), ..self },
            Collision::Bottom => Movement { v_y: (-self.v_y) as i64, ..self },
            Collision::Inside => self,
        }
    }

    /// The speed that the given face turns round can change sign
    /// without overflow.
    pub open spec fn can_bounce(self, face: Collision) -> bool {
        match face {
            Collision::Left | Collision::Right => self.v_x > i64::MIN,
            Collision::Bottom => self.v_y > i64::MIN,
            _ => true,
        }
    }

    /// Changes the velocity of a bubble that has met a face of a wall.
    pub fn bounce(&mut self, size: BubbleSize, face: Collision)
        requires
            old(self).can_bounce(face),
        ensures
            *final(self) == old(self).bounced(size, face),
            old(self).reversible() ==> final(self).reversible(),
    {
        match face {
            Collision::Left => {
                self.v_x = -self.v_x;
            },
            Collision::Right => {
                self.v_x = -self.v_x;
            },
            Collision::Top => {
                self.v_y = size.bounce_speed();
            },
            Collision::Bottom => {
                self.v_y = -self.v_y;
            },
            Collision::Inside => {},
        }
    }

    /// Moves `position` by one tick of this velocity, then lets the
    /// vertical speed drop.
    pub fn advance(&mut self, position: &mut Vec2)
        requires
            old(self).can_advance(*old(position)),
        ensures
            *final(position) == old(self).moved(*old(position)),
            *final(self) == old(self).slowed(),
    {
        position.x = position.x + self.v_x;
        position.y = position.y + self.v_y;
        self.v_y = self.v_y - self.a;
    }
}

/// A bubble: it bounces between the walls until the hook pops it.
#[derive(Clone, Copy, Debug, PartialEq, Eq, Structural)]
pub struct Bubble {
    pub position: Vec2,
    pub movement: Movement,
    pub size: BubbleSize,
}

/// The rope that the player fires upward.
#[derive(Clone, Copy, Debug, PartialEq, Eq, Structural)]
pub struct Hook {
    pub position: Vec2,
    pub extent: Vec2,
    pub movement: Movement,
}

/// A token that falls from a popped bubble.
#[derive(Clone, Copy, Debug, PartialEq, Eq, Structural)]
pub struct Reward {
    pub position: Vec2,
    pub movement: Movement,
    pub score: RewardScore,
}

/// The player's figure.
#[derive(Clone, Copy, Debug, PartialEq, Eq, Structural)]
pub struct Player {
    pub position: Vec2,
}

/// One of the rectangles that bound the arena.
#[derive(Clone, Copy, Debug, PartialEq, Eq, Structural)]
pub struct Wall {
    pub position: Vec2,
    pub extent: Vec2,
}

/// Speed at which a bubble of the given size tier leaves the floor.
pub open spec fn bounce_speed(size: BubbleSize) -> i64 {
    (BALL_SPEED_X * size.size) as i64
}

impl BubbleSize {
    /// Width and height of the box of a bubble of this size tier.
    pub open spec fn spec_extent(self) -> Vec2 {
        Vec2 { x: (BALL_RADIUS * self.size) as i64, y: (BALL_RADIUS * self.size) as i64 }
    }

    #[verifier::when_used_as_spec(spec_extent)]
    pub fn extent(self) -> (e: Vec2)
        ensures
            e == self.spec_extent(),
            e.x == BALL_RADIUS * self.size,
            e.y == BALL_RADIUS * self.size,
    {
        let side: i64 = BALL_RADIUS * (self.size as i64);
        Vec2 { x: side, y: side }
    }

    /// Speed at which a bubble of this size tier leaves the floor.
    pub fn bounce_speed(self) -> (v: i64)
        ensures
            v == bounce_speed(self),
            v == BALL_SPEED_X * self.size,
    {
        BALL_SPEED_X * (self.size as i64)
    }
}

impl Bubble {
    /// Position and movement are small.
    pub open spec fn bounded(self) -> bool {
        self.position.bounded() && self.movement.bounded()
    }

    pub fn is_bounded(&self) -> (ok: bool)
        ensures
            ok == self.bounded(),
    {
        self.position.is_bounded() && self.movement.is_bounded()
    }

    /// A bubble of the given size tier at `position`, thrown upward and
    /// sideways at `v_x`.
    pub open spec fn launched(position: Vec2, size: BubbleSize, v_x: i64) -> Bubble {
        Bubble {
            position,
            movement: Movement { v_x, v_y: bounce_speed(size), a: BALL_SLOWDOWN },
            size,
        }
    }

    pub fn new(position: Vec2, size: BubbleSize, v_x: i64) -> (b: Bubble)
        ensures
            b == Bubble::launched(position, size, v_x),
    {
        Bubble {
            position,
            movement: Movement { v_x, v_y: size.bounce_speed(), a: BALL_SLOWDOWN },
            size,
        }
    }

    /// The bubbles that this one leaves behind when it is popped: none
    /// for a small bubble, else two of the next smaller size tier that
    /// fly apart, the first to the left.
    pub open spec fn children(self) -> Seq<Bubble> {
        if self.size.size > MIN_SPLIT_SIZE {
            let smaller = BubbleSize { size: (self.size.size - 1) as u32 };
            seq![
                Bubble::launched(self.position, smaller, (-BALL_SPEED_X) as i64),
                Bubble::launched(self.position, smaller, BALL_SPEED_X),
            ]
        } else {
            Seq::empty()
        }
    }

    /// The token that this bubble drops when it is popped.
    pub open spec fn reward(self) -> Reward {
        Reward {
            position: self.position,
            movement: Movement { v_x: 0, v_y: (-REWARD_SPEED) as i64, a: 0 },
            score: RewardScore { score: REWARD_MAX / (self.size.size as usize) },
        }
    }

    /// The movement of this bubble after it has met, one after the
    /// other, each of `walls` that its box overlaps.
    pub open spec fn rebound(self, walls: Seq<Wall>) -> Movement
        decreases walls.len(),
    {
        if walls.len() == 0 {
            self.movement
        } else {
            let before = self.rebound(walls.drop_last());
            match self.spec_bounds().side_of(walls.last().spec_bounds()) {
                Some(face) => before.bounced(self.size, face),
                None => before,
            }
        }
    }

    /// This bubble with the movement that the walls leave it.
    pub open spec fn deflected(self, walls: Seq<Wall>) -> Bubble {
        Bubble { movement: self.rebound(walls), ..self }
    }

    /// This bubble one tick later, walls aside.
    pub open spec fn advanced(self) -> Bubble {
        Bubble {
            position: self.movement.moved(self.position),
            movement: self.movement.slowed(),
            ..self
        }
    }

    /// Bounces the bubble off every wall that its box overlaps.
    pub fn deflect(&mut self, walls: &Vec<Wall>)
        requires
            old(self).movement.reversible(),
        ensures
            *final(self) == old(self).deflected(walls@),
            final(self).movement.reversible(),
    {
        let bounds = self.bounds();
        let mut k: usize = 0;
        while k < walls.len()
            invariant
                k <= walls.len(),
                bounds == old(self).spec_bounds(),
                self.position == old(self).position,
                self.size == old(self).size,
                self.movement == old(self).rebound(walls@.take(k as int)),
                self.movement.reversible(),
            decreases walls.len() - k,
        {
            assert(walls@.take(k + 1).drop_last() =~= walls@.take(k as int));
            if let Some(face) = bounds.side_of(walls[k].bounds()) {
                self.movement.bounce(self.size, face);
            }
            k = k + 1;
        }
        assert(walls@.take(walls.len() as int) =~= walls@);
    }

    /// Splits a popped bubble into its children.
    pub fn split(&self) -> (children: Vec<Bubble>)
        ensures
            children@ == self.children(),
    {
        let mut children: Vec<Bubble> = Vec::new();
        if self.size.size > MIN_SPLIT_SIZE {
            let smaller = BubbleSize { size: self.size.size - 1 };
            children.push(Bubble::new(self.position, smaller, -BALL_SPEED_X));
            children.push(Bubble::new(self.position, smaller, BALL_SPEED_X));
        }
        children
    }

    /// Makes the token that a popped bubble drops.
    pub fn drop_reward(&self) -> (reward: Reward)
        requires
            self.size.size >= 1,
        ensures
            reward == self.reward(),
    {
        Reward {
            position: self.position,
            movement: Movement { v_x: 0, v_y: -REWARD_SPEED, a: 0 },
            score: RewardScore { score: REWARD_MAX / (self.size.size as usize) },
        }
    }
}

impl Solid for Bubble {
    open spec fn spec_bounds(&self) -> Aabb {
        Aabb { position: self.position, extent: self.size.extent() }
    }

    fn bounds(&self) -> (b: Aabb) {
        Aabb { position: self.position, extent: self.size.extent() }
    }
}

impl Solid for Hook {
    open spec fn spec_bounds(&self) -> Aabb {
        Aabb { position: self.position, extent: self.extent }
    }

    fn bounds(&self) -> (b: Aabb) {
        Aabb { position: self.position, extent: self.extent }
    }
}

impl Solid for Reward {
    open spec fn spec_bounds(&self) -> Aabb {
        Aabb { position: self.position, extent: Reward::extent() }
    }

    fn bounds(&self) -> (b: Aabb) {
        Aabb { position: self.position, extent: Reward::extent() }
    }
}

impl Solid for Player {
    open spec fn spec_bounds(&self) -> Aabb {
        Aabb { position: self.position, extent: Player::extent() }
    }

    fn bounds(&self) -> (b: Aabb) {
        Aabb { position: self.position, extent: Player::extent() }
    }
}

impl Solid for Wall {
    open spec fn spec_bounds(&self) -> Aabb {
        Aabb { position: self.position, extent: self.extent }
    }

    fn bounds(&self) -> (b: Aabb) {
        Aabb { position: self.position, extent: self.extent }
    }
}

impl Hook {
    /// The hook as it leaves a player standing at `position`.
    pub open spec fn fired_from(position: Vec2) -> Hook {
        Hook {
            position,
            extent: Vec2 { x: HOOK_WIDTH, y: HOOK_START_HEIGHT },
            movement: Movement { v_x: 0, v_y: HOOK_SPEED, a: 0 },
        }
    }

    pub fn new(position: Vec2) -> (h: Hook)
        ensures
            h == Hook::fired_from(position),
    {
        Hook {
            position,
            extent: Vec2 { x: HOOK_WIDTH, y: HOOK_START_HEIGHT },
            movement: Movement { v_x: 0, v_y: HOOK_SPEED, a: 0 },
        }
    }
}

impl Hook {
    /// Position, width, height and movement are small.
    pub open spec fn bounded(self) -> bool {
        self.position.bounded() && self.extent.bounded() && self.movement.bounded()
    }

    pub fn is_bounded(&self) -> (ok: bool)
        ensures
            ok == self.bounded(),
    {
        self.position.is_bounded() && self.extent.is_bounded() && self.movement.is_bounded()
    }

    /// One tick of rising stays within the machine's integers.
    pub open spec fn can_rise(self) -> bool {
        &&& i64::MIN <= self.position.y + self.movement.v_y <= i64::MAX
        &&& i64::MIN <= self.extent.y + 2 * self.movement.v_y <= i64::MAX
    }

    /// The hook one tick later: its middle has risen by its speed and
    /// its height has grown by twice that, so that its foot stays where
    /// it was.
    pub open spec fn risen(self) -> Hook {
        Hook {
            position: Vec2 { x: self.position.x, y: (self.position.y + self.movement.v_y) as i64 },
            extent: Vec2 { x: self.extent.x, y: (self.extent.y + 2 * self.movement.v_y) as i64 },
            ..self
        }
    }

    /// Lets the hook rise for one tick.
    pub fn rise(&mut self)
        requires
            old(self).can_rise(),
        ensures
            *final(self) == old(self).risen(),
    {
        let grow: i128 = 2 * (self.movement.v_y as i128);
        self.position.y = self.position.y + self.movement.v_y;
        self.extent.y = ((self.extent.y as i128) + grow) as i64;
    }
}

impl Reward {
    /// Position, movement and points are small.
    pub open spec fn bounded(self) -> bool {
        self.position.bounded() && self.movement.bounded() && self.score.score <= SCORE_LIMIT
    }

    pub fn is_bounded(&self) -> (ok: bool)
        ensures
            ok == self.bounded(),
    {
        self.position.is_bounded() && self.movement.is_bounded() && self.score.score
            <= SCORE_LIMIT
    }

    /// This reward one tick later.
    pub open spec fn advanced(self) -> Reward {
        Reward {
            position: self.movement.moved(self.position),
            movement: self.movement.slowed(),
            ..self
        }
    }

    /// Width and height of every reward token.
    pub open spec fn spec_extent() -> Vec2 {
        Vec2 { x: REWARD_SIZE, y: REWARD_SIZE }
    }

    #[verifier::when_used_as_spec(spec_extent)]
    pub fn extent() -> (e: Vec2)
        ensures
            e == Reward::spec_extent(),
    {
        Vec2 { x: REWARD_SIZE, y: REWARD_SIZE }
    }
}

impl Player {
    /// Width and height of the player's box.
    pub open spec fn spec_extent() -> Vec2 {
        Vec2 { x: PLAYER_WIDTH, y: PLAYER_HEIGHT }
    }

    #[verifier::when_used_as_spec(spec_extent)]
    pub fn extent() -> (e: Vec2)
        ensures
            e == Player::spec_extent(),
    {
        Vec2 { x: PLAYER_WIDTH, y: PLAYER_HEIGHT }
    }

    /// The player where every life begins: mid-arena, on the floor.
    pub open spec fn at_start() -> Player {
        Player { position: Vec2 { x: 0, y: PLAYER_Y } }
    }

    pub fn new() -> (p: Player)
        ensures
            p == Player::at_start(),
    {
        Player { position: Vec2 { x: 0, y: PLAYER_Y } }
    }
}

} // verus!
