//! The numbers the game is tuned with.
//!
//! Lengths are in sub-pixels, speeds in pixels per second (which is
//! sub-pixels per tick), accelerations in speed lost per tick.

use vstd::prelude::*;

verus! {

/// Sub-pixels in one pixel; also the number of ticks in one second.
pub const SUBPIXELS: i64 = 60;

/// Width and height of the player's box: a 144 by 75 pixel sprite at half scale.
pub const PLAYER_WIDTH: i64 = 4320;

pub const PLAYER_HEIGHT: i64 = 2250;

/// Width of the hook: an 8 pixel sprite widened by a tenth.
pub const HOOK_WIDTH: i64 = 528;

/// Height of a hook that has just been fired: half the player's height.
pub const HOOK_START_HEIGHT: i64 = 1125;

/// Lives at the start of a run.
pub const LIVE_COUNT: usize = 3;

pub const PLAYER_SPEED: i64 = 300;

pub const HOOK_SPEED: i64 = 100;

/// Horizontal speed of a bubble, and its rebound speed per size tier.
pub const BALL_SPEED_X: i64 = 200;

/// Upward speed a bubble loses in one tick.
pub const BALL_SLOWDOWN: i64 = 10;

pub const REWARD_SPEED: i64 = 300;

/// Points for a bubble of size tier one; larger bubbles pay a fraction.
pub const REWARD_MAX: usize = 1200;

/// Width of a bubble's box per size tier.
pub const BALL_RADIUS: i64 = 600;

/// Width and height of a reward token.
pub const REWARD_SIZE: i64 = 900;

/// Thickness of the walls.
pub const WALL_SIZE: i64 = 1200;

pub const LEFT: i64 = -33000;

pub const RIGHT: i64 = 33000;

pub const BOTTOM: i64 = -24000;

pub const TOP: i64 = 24000;

/// Height at which the player stands: on top of the bottom wall.
pub const PLAYER_Y: i64 = -22275;

/// Leftmost and rightmost position of the player's centre.
pub const PLAYER_MIN_X: i64 = -30240;

pub const PLAYER_MAX_X: i64 = 30240;

/// Size tier of the bubble that a run starts with.
pub const ROOT_BUBBLE_SIZE: u32 = 4;

/// Bubbles of this size tier or below burst without leaving children.
pub const MIN_SPLIT_SIZE: u32 = 2;

/// Number of scores that the leaderboard shows.
pub const TOP_SCORES: usize = 5;

/// Time the splash screen stays, in nanoseconds.
pub const SPLASH_TIME: u64 = 2_000_000_000;

/// Largest coordinate, length or speed, above or below zero, with
/// which `tick` plays on.
pub const COORD_LIMIT: i64 = 1_099_511_627_776;

/// Largest score, of a run or of a reward, with which `tick` plays on.
pub const SCORE_LIMIT: usize = 1_000_000_000;

/// The constants above agree with the pixel measures they are derived from.
pub proof fn law_constants_agree()
    ensures
        2 * PLAYER_WIDTH == 144 * SUBPIXELS,
        2 * PLAYER_HEIGHT == 75 * SUBPIXELS,
        10 * HOOK_WIDTH == 11 * 8 * SUBPIXELS,
        2 * HOOK_START_HEIGHT == PLAYER_HEIGHT,
        BALL_SLOWDOWN * SUBPIXELS == 600,
        BALL_RADIUS == 10 * SUBPIXELS,
        REWARD_SIZE == 15 * SUBPIXELS,
        WALL_SIZE == 20 * SUBPIXELS,
        LEFT == -550 * SUBPIXELS,
        RIGHT == 550 * SUBPIXELS,
        BOTTOM == -400 * SUBPIXELS,
        TOP == 400 * SUBPIXELS,
        2 * PLAYER_Y == 2 * BOTTOM + WALL_SIZE + PLAYER_HEIGHT,
        2 * PLAYER_MIN_X == 2 * LEFT + PLAYER_WIDTH + WALL_SIZE,
        2 * PLAYER_MAX_X == 2 * RIGHT - PLAYER_WIDTH - WALL_SIZE,
{
}

} // verus!
