//! Handles for the sprite animations the engine drives.
//!
//! The pixel data itself lives with the rendering collaborator; the
//! engine only needs a stable identifier per animation and the number of
//! frames in its cycle (the collectible's disappear animation ends the
//! collectible when its last frame has played).

use vstd::prelude::*;

verus! {

/// A reference to one authored animation: its identifier for the
/// renderer and the length of its frame cycle.
#[derive(Clone, Copy, Debug, PartialEq, Eq, Structural)]
pub struct SpriteTag {
    pub id: u16,
    pub frame_count: usize,
}

/// The player's standing cycle.
pub open spec fn player_idle_v() -> SpriteTag {
    SpriteTag { id: 0, frame_count: 4 }
}

/// See the spec value of the same name.
pub fn player_idle() -> (r: SpriteTag)
    ensures
        r == player_idle_v(),
{
    SpriteTag { id: 0, frame_count: 4 }
}

/// The player's running cycle.
pub open spec fn player_run_v() -> SpriteTag {
    SpriteTag { id: 1, frame_count: 4 }
}

/// See the spec value of the same name.
pub fn player_run() -> (r: SpriteTag)
    ensures
        r == player_run_v(),
{
    SpriteTag { id: 1, frame_count: 4 }
}

/// The rising phase of the player's jump.
pub open spec fn player_jump_up_v() -> SpriteTag {
    SpriteTag { id: 2, frame_count: 1 }
}

/// See the spec value of the same name.
pub fn player_jump_up() -> (r: SpriteTag)
    ensures
        r == player_jump_up_v(),
{
    SpriteTag { id: 2, frame_count: 1 }
}

/// The apex phase of the player's jump.
pub open spec fn player_jump_mid_v() -> SpriteTag {
    SpriteTag { id: 3, frame_count: 1 }
}

/// See the spec value of the same name.
pub fn player_jump_mid() -> (r: SpriteTag)
    ensures
        r == player_jump_mid_v(),
{
    SpriteTag { id: 3, frame_count: 1 }
}

/// The falling phase of the player's jump.
pub open spec fn player_jump_fall_v() -> SpriteTag {
    SpriteTag { id: 4, frame_count: 1 }
}

/// See the spec value of the same name.
pub fn player_jump_fall() -> (r: SpriteTag)
    ensures
        r == player_jump_fall_v(),
{
    SpriteTag { id: 4, frame_count: 1 }
}

/// The collectible clock's rotating cycle.
pub open spec fn clock_rotate_v() -> SpriteTag {
    SpriteTag { id: 5, frame_count: 4 }
}

/// See the spec value of the same name.
pub fn clock_rotate() -> (r: SpriteTag)
    ensures
        r == clock_rotate_v(),
{
    SpriteTag { id: 5, frame_count: 4 }
}

/// The collectible clock's pickup animation; playing it through ends
/// the collectible.
pub open spec fn clock_disappear_v() -> SpriteTag {
    SpriteTag { id: 6, frame_count: 6 }
}

/// See the spec value of the same name.
pub fn clock_disappear() -> (r: SpriteTag)
    ensures
        r == clock_disappear_v(),
{
    SpriteTag { id: 6, frame_count: 6 }
}

} // verus!
