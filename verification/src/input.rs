//! One tick's sample of the buttons the engine reads. The input
//! collaborator polls the hardware and hands this plain value in; the
//! engine never mutates it.

use vstd::prelude::*;

verus! {

/// The button state for one tick: the two held directions, and the two
/// just-pressed edges the state machines react to.
#[derive(Clone, Copy, Debug, PartialEq, Eq, Structural)]
pub struct Input {
    /// LEFT is held.
    pub left: bool,
    /// RIGHT is held.
    pub right: bool,
    /// The jump button was pressed this tick.
    pub jump_just_pressed: bool,
    /// START (or the jump button, on the title screen) was pressed this
    /// tick.
    pub start_just_pressed: bool,
}

impl Input {
    /// No button held or pressed.
    pub fn released() -> (r: Input)
        ensures
            r == (Input {
                left: false,
                right: false,
                jump_just_pressed: false,
                start_just_pressed: false,
            }),
    {
        Input { left: false, right: false, jump_just_pressed: false, start_just_pressed: false }
    }
}

} // verus!
