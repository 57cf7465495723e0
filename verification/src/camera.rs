//! The camera controller: what the input has asked of the camera since
//! the last frame.
//!
//! The controller only gathers: movement flags per axis, the last mouse
//! delta and the last scroll delta. Moving the camera by them is
//! arithmetic on real numbers and is left to the caller, who takes the
//! gathered motion once per frame.

use vstd::prelude::*;
use crate::input::AbstractKey;
use crate::transform::{ONE_BITS, SIGN_BIT};

verus! {

/// The bit pattern of the negation of a single-precision number.
pub open spec fn negated(bits: u32) -> u32 {
    bits ^ SIGN_BIT
}

/// Negates a single-precision number, given and returned as bit patterns.
pub fn negate(bits: u32) -> (r: u32)
    ensures
        r == negated(bits),
{
    bits ^ SIGN_BIT
}

/// The amount of movement along an axis: one while its key is held, else
/// zero, as bit patterns.
pub open spec fn amount(pressing: bool) -> u32 {
    if pressing {
        ONE_BITS
    } else {
        0
    }
}

/// All numbers are bit patterns of single-precision numbers.
#[derive(Clone, Copy, Debug, PartialEq, Eq, Structural)]
pub struct CameraController {
    pub amount_left: u32,
    pub amount_right: u32,
    pub amount_forward: u32,
    pub amount_backward: u32,
    pub amount_up: u32,
    pub amount_down: u32,
    pub rotate_horizontal: u32,
    pub rotate_vertical: u32,
    pub scroll: u32,
    pub speed: u32,
    pub sensitivity: u32,
}

impl CameraController {
    pub open spec fn spec_new(speed: u32, sensitivity: u32) -> CameraController {
        CameraController {
            amount_left: 0,
            amount_right: 0,
            amount_forward: 0,
            amount_backward: 0,
            amount_up: 0,
            amount_down: 0,
            rotate_horizontal: 0,
            rotate_vertical: 0,
            scroll: 0,
            speed,
            sensitivity,
        }
    }

    /// A controller at rest.
    pub fn new(speed: u32, sensitivity: u32) -> (c: CameraController)
        ensures
            c == Self::spec_new(speed, sensitivity),
    {
        CameraController {
            amount_left: 0,
            amount_right: 0,
            amount_forward: 0,
            amount_backward: 0,
            amount_up: 0,
            amount_down: 0,
            rotate_horizontal: 0,
            rotate_vertical: 0,
            scroll: 0,
            speed,
            sensitivity,
        }
    }

    /// The controller with no movement along any axis.
    pub open spec fn without_movement(self) -> CameraController {
        CameraController {
            amount_left: 0,
            amount_right: 0,
            amount_forward: 0,
            amount_backward: 0,
            amount_up: 0,
            amount_down: 0,
            ..self
        }
    }

    /// Stops the movement along every axis.
    pub fn reset_move_amount(&mut self)
        ensures
            *final(self) == old(self).without_movement(),
    {
        self.amount_left = 0;
        self.amount_right = 0;
        self.amount_forward = 0;
        self.amount_backward = 0;
        self.amount_up = 0;
        self.amount_down = 0;
    }

    /// The controller after a key was pressed or released.
    pub open spec fn with_key(self, key: AbstractKey, pressing: bool) -> CameraController {
        match key {
            AbstractKey::CameraMoveForward => CameraController {
                amount_forward: amount(pressing),
                ..self
            },
            AbstractKey::CameraMoveBackward => CameraController {
                amount_backward: amount(pressing),
                ..self
            },
            AbstractKey::CameraMoveLeft => CameraController {
                amount_left: amount(pressing),
                ..self
            },
            AbstractKey::CameraMoveRight => CameraController {
                amount_right: amount(pressing),
                ..self
            },
            AbstractKey::CameraMoveUp => CameraController { amount_up: amount(pressing), ..self },
            AbstractKey::CameraMoveDown => CameraController {
                amount_down: amount(pressing),
                ..self
            },
        }
    }

    /// Records that a key was pressed or released. Every key moves the
    /// camera, so every key is handled.
    pub fn process_keyboard(&mut self, key: AbstractKey, pressing: bool) -> (handled: bool)
        ensures
            *final(self) == old(self).with_key(key, pressing),
            handled,
    {
        let amount: u32 = if pressing {
            ONE_BITS
        } else {
            0
        };
        match key {
            AbstractKey::CameraMoveForward => {
                self.amount_forward = amount;
            },
            AbstractKey::CameraMoveBackward => {
                self.amount_backward = amount;
            },
            AbstractKey::CameraMoveLeft => {
                self.amount_left = amount;
            },
            AbstractKey::CameraMoveRight => {
                self.amount_right = amount;
            },
            AbstractKey::CameraMoveUp => {
                self.amount_up = amount;
            },
            AbstractKey::CameraMoveDown => {
                self.amount_down = amount;
            },
        }
        true
    }

    /// The controller after the mouse moved.
    pub open spec fn with_mouse(self, mouse_dx: u32, mouse_dy: u32) -> CameraController {
        CameraController { rotate_horizontal: mouse_dx, rotate_vertical: mouse_dy, ..self }
    }

    /// Records a mouse delta; it replaces the one before.
    pub fn process_mouse(&mut self, mouse_dx: u32, mouse_dy: u32)
        ensures
            *final(self) == old(self).with_mouse(mouse_dx, mouse_dy),
    {
        self.rotate_horizontal = mouse_dx;
        self.rotate_vertical = mouse_dy;
    }

    /// The controller after the wheel turned.
    pub open spec fn with_scroll(self, delta: u32) -> CameraController {
        CameraController { scroll: negated(delta), ..self }
    }

    /// Records a scroll delta, negated; it replaces the one before.
    pub fn process_scroll(&mut self, delta: u32)
        ensures
            *final(self) == old(self).with_scroll(delta),
    {
        self.scroll = negate(delta);
    }

    /// The controller after a frame has taken its motion: turning and
    /// scrolling are used up, movement along the axes goes on.
    pub open spec fn settled(self) -> CameraController {
        CameraController { rotate_horizontal: 0, rotate_vertical: 0, scroll: 0, ..self }
    }

    /// Hands out what was gathered since the last frame, and uses up the
    /// turning and the scrolling.
    pub fn take_motion(&mut self) -> (motion: CameraController)
        ensures
            motion == *old(self),
            *final(self) == old(self).settled(),
    {
        let motion = *self;
        self.rotate_horizontal = 0;
        self.rotate_vertical = 0;
        self.scroll = 0;
        motion
    }
}

} // verus!
