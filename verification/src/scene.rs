//! The scene's fixed data: the player character, the two scrolling
//! background strips, and the constants they are spawned with.

use vstd::prelude::*;

verus! {

/// Milliunits in one world unit: all coordinates and lengths below are
/// fixed-point values at this scale.
pub const UNIT: i64 = 1000;

/// Playfield width, in milliunits.
pub const ARENA_WIDTH: i64 = 512 * UNIT;

/// Playfield height, in milliunits.
pub const ARENA_HEIGHT: i64 = 288 * UNIT;

/// Width of the middle background strip, in milliunits.
pub const BACKGROUND_IMAGE_WIDTH: i64 = 1157 * UNIT;

/// Height of the middle background strip, in milliunits.
pub const BACKGROUND_IMAGE_HEIGHT: i64 = 288 * UNIT;

/// Width of the ground strip, in milliunits.
pub const BOTTOM_IMAGE_WIDTH: i64 = 1100 * UNIT;

/// Height of the ground strip, in milliunits.
pub const BOTTOM_IMAGE_HEIGHT: i64 = 16 * UNIT;

/// Width of the player sprite, in milliunits.
pub const BIRD_IMAGE_WIDTH: i64 = 38 * UNIT;

/// Height of the player sprite, in milliunits.
pub const BIRD_IMAGE_HEIGHT: i64 = 24 * UNIT;

/// Scroll speed of the middle strip: 64 world units per second, stored as
/// milliunits per millisecond.
pub const MIDDLE_SPEED: i64 = 64;

/// Coordinate the middle strip snaps back to after a wrap, in milliunits.
pub const MIDDLE_LOOP_POSITION: i64 = 412 * UNIT;

/// Scroll speed of the ground strip: 128 world units per second.
pub const BOTTOM_SPEED: i64 = 128;

/// Coordinate the ground strip snaps back to after a wrap, in milliunits.
pub const BOTTOM_LOOP_POSITION: i64 = 200 * UNIT;

/// Tags which visual layer a background strip belongs to; identification
/// only, it plays no part in the update rule.
#[derive(PartialEq, Eq, Clone, Copy, Debug)]
pub enum BGPosition {
    Middle,
    Bottom,
}

/// Player character: sprite size and spawn placement, in milliunits.
#[derive(Clone, Copy, Debug)]
pub struct Bird {
    pub width: i64,
    pub height: i64,
    pub top: i64,
    pub left: i64,
}

impl Bird {
    pub fn new(w: i64, h: i64, t: i64, l: i64) -> (bird: Bird)
        ensures
            bird.width == w,
            bird.height == h,
            bird.top == t,
            bird.left == l,
    {
        Bird { width: w, height: h, top: t, left: l }
    }
}

/// One horizontally scrolling background strip. Its mutable horizontal
/// coordinate lives outside the strip, paired with it by the caller.
#[derive(Clone, Copy, Debug)]
pub struct Background {
    pub position: BGPosition,
    pub width: i64,
    pub height: i64,
    /// Scroll speed, in milliunits per millisecond.
    pub speed: i64,
    /// Coordinate the strip snaps back to after crossing zero, in milliunits.
    pub loop_position: i64,
}

impl Background {
    pub fn new(pos: BGPosition, w: i64, h: i64, s: i64, lp: i64) -> (bg: Background)
        ensures
            bg.position == pos,
            bg.width == w,
            bg.height == h,
            bg.speed == s,
            bg.loop_position == lp,
    {
        Background { position: pos, width: w, height: h, speed: s, loop_position: lp }
    }
}

/// Spawn data for the player: a sprite-sized character placed at the
/// center of the arena.
pub fn initialize_bird() -> (bird: Bird)
    ensures
        bird.width == BIRD_IMAGE_WIDTH,
        bird.height == BIRD_IMAGE_HEIGHT,
        bird.top == ARENA_HEIGHT / 2,
        bird.left == ARENA_WIDTH / 2,
{
    let y: i64 = ARENA_HEIGHT / 2;
    let x: i64 = ARENA_WIDTH / 2;
    Bird::new(BIRD_IMAGE_WIDTH, BIRD_IMAGE_HEIGHT, y, x)
}

/// Spawn data for the two background strips, each paired with its starting
/// horizontal coordinate: the strip begins centered, at half its width.
pub fn initialize_background() -> (entities: Vec<(Background, i64)>)
    ensures
        entities@.len() == 2,
        entities@[0].0.position == BGPosition::Middle,
        entities@[0].0.width == BACKGROUND_IMAGE_WIDTH,
        entities@[0].0.height == BACKGROUND_IMAGE_HEIGHT,
        entities@[0].0.speed == MIDDLE_SPEED,
        entities@[0].0.loop_position == MIDDLE_LOOP_POSITION,
        entities@[0].1 == BACKGROUND_IMAGE_WIDTH / 2,
        entities@[1].0.position == BGPosition::Bottom,
        entities@[1].0.width == BOTTOM_IMAGE_WIDTH,
        entities@[1].0.height == BOTTOM_IMAGE_HEIGHT,
        entities@[1].0.speed == BOTTOM_SPEED,
        entities@[1].0.loop_position == BOTTOM_LOOP_POSITION,
        entities@[1].1 == BOTTOM_IMAGE_WIDTH / 2,
{
    let mut entities: Vec<(Background, i64)> = Vec::new();
    let middle = Background::new(
        BGPosition::Middle,
        BACKGROUND_IMAGE_WIDTH,
        BACKGROUND_IMAGE_HEIGHT,
        MIDDLE_SPEED,
        MIDDLE_LOOP_POSITION,
    );
    entities.push((middle, BACKGROUND_IMAGE_WIDTH / 2));
    let bottom = Background::new(
        BGPosition::Bottom,
        BOTTOM_IMAGE_WIDTH,
        BOTTOM_IMAGE_HEIGHT,
        BOTTOM_SPEED,
        BOTTOM_LOOP_POSITION,
    );
    entities.push((bottom, BOTTOM_IMAGE_WIDTH / 2));
    entities
}

} // verus!
