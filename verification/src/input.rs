//! Per-frame controller and pointer state, polled once per frame by the
//! host shell and handed to the simulation as plain values.

use vstd::prelude::*;

verus! {

/// Digital button and pointer state for one logical controller.
/// `*_pressed` means held this frame; `*_just_pressed` means the press
/// started this frame.  Pointer coordinates are whole pixels.
#[derive(Clone, Copy, PartialEq, Eq, Structural, Debug)]
pub struct InputState {
    pub up: bool,
    pub down: bool,
    pub left: bool,
    pub right: bool,
    pub start_pressed: bool,
    pub a_pressed: bool,
    pub start_just_pressed: bool,
    pub a_just_pressed: bool,
    pub pointer_pressed: bool,
    pub pointer_x: i32,
    pub pointer_y: i32,
}

impl InputState {
    /// No buttons held and the pointer up.
    pub fn idle() -> (r: InputState)
        ensures
            r == (InputState {
                up: false,
                down: false,
                left: false,
                right: false,
                start_pressed: false,
                a_pressed: false,
                start_just_pressed: false,
                a_just_pressed: false,
                pointer_pressed: false,
                pointer_x: 0,
                pointer_y: 0,
            }),
    {
        InputState {
            up: false,
            down: false,
            left: false,
            right: false,
            start_pressed: false,
            a_pressed: false,
            start_just_pressed: false,
            a_just_pressed: false,
            pointer_pressed: false,
            pointer_x: 0,
            pointer_y: 0,
        }
    }

    /// The fire control is held: start, the action button, or the pointer.
    pub open spec fn fire_held(self) -> bool {
        self.start_pressed || self.a_pressed || self.pointer_pressed
    }

    /// A confirm press this frame: start or the action button going down.
    pub open spec fn confirm_pressed(self) -> bool {
        self.start_just_pressed || self.a_just_pressed
    }
}

} // verus!
