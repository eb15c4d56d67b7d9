//! Bird controller: the flap impulse and the cosmetic sprite choice.
//!
//! The bird free-falls under the physics collaborator's gravity; the only
//! decisions made here are the velocity override while the action button
//! is held, and which sprite the current vertical velocity calls for.

use vstd::prelude::*;

verus! {

/// Vertical velocity set by a flap, in world units per second.
pub const FLAP_VELOCITY_Y: i32 = 70;

/// Horizontal starting position of the bird.
pub const BIRD_START_X: i32 = -100;

/// Vertical starting position of the bird.
pub const BIRD_START_Y: i32 = 0;

/// Radius of the bird's circular collision shape.
pub const BIRD_RADIUS: i32 = 16;

/// The sprite the bird shows, chosen by the sign of its vertical velocity.
#[derive(Clone, Copy, Debug, PartialEq, Eq, Structural)]
pub enum BirdSprite {
    Ascending,
    Level,
    Descending,
}

/// Sprite choice: rising shows `Ascending`, exactly level shows `Level`,
/// falling shows `Descending`.
pub open spec fn spec_sprite_for_velocity(vy: int) -> BirdSprite {
    if vy > 0 {
        BirdSprite::Ascending
    } else if vy == 0 {
        BirdSprite::Level
    } else {
        BirdSprite::Descending
    }
}

pub fn sprite_for_velocity(vy: i32) -> (s: BirdSprite)
    ensures
        s == spec_sprite_for_velocity(vy as int),
{
    if vy > 0 {
        BirdSprite::Ascending
    } else if vy == 0 {
        BirdSprite::Level
    } else {
        BirdSprite::Descending
    }
}

/// The vertical velocity after one tick of input: a held action button
/// overrides it with the fixed flap impulse, otherwise it is untouched
/// and gravity alone acts on the bird.
pub open spec fn spec_flap_velocity(action_held: bool, vy: int) -> int {
    if action_held {
        FLAP_VELOCITY_Y as int
    } else {
        vy
    }
}

pub fn flap_velocity(action_held: bool, vy: i32) -> (r: i32)
    ensures
        r as int == spec_flap_velocity(action_held, vy as int),
{
    if action_held {
        FLAP_VELOCITY_Y
    } else {
        vy
    }
}

} // verus!
