//! The orbit-camera controller: direction flags driven by key events, and
//! the per-tick movement decisions.
//!
//! The controller holds no geometry. Each tick the host measures the
//! distance from eye to target, asks for the movement plan, and applies
//! the planned vector steps: forward moves the eye toward the target,
//! backward away from it, and the left/right orbit steps re-project the
//! eye onto the sphere of unchanged radius around the target. The guard
//! against overshooting the target is decided here: a forward step is
//! planned only when the remaining distance exceeds the step.

use vstd::prelude::*;
use crate::keycode::KeyCode;

verus! {

/// Camera controller state: the per-tick speed, in millionths of a scene
/// unit, and the four direction flags.
#[derive(Clone, Copy, Debug, PartialEq, Eq, Structural)]
pub struct CameraController {
    pub speed: u32,
    pub is_forward_pressed: bool,
    pub is_backward_pressed: bool,
    pub is_left_pressed: bool,
    pub is_right_pressed: bool,
}

/// Whether a key belongs to the controller: the letter and arrow pairs
/// for the four directions.
pub open spec fn controller_key(key: KeyCode) -> bool {
    ||| key == KeyCode::KeyCodeW
    ||| key == KeyCode::KeyCodeArrowUp
    ||| key == KeyCode::KeyCodeA
    ||| key == KeyCode::KeyCodeArrowLeft
    ||| key == KeyCode::KeyCodeS
    ||| key == KeyCode::KeyCodeArrowDown
    ||| key == KeyCode::KeyCodeD
    ||| key == KeyCode::KeyCodeArrowRight
}

/// The controller after one key event: the flag of the key's direction
/// takes the pressed state; any other key changes nothing.
pub open spec fn controller_after_event(
    c: CameraController,
    key: KeyCode,
    pressed: bool,
) -> CameraController {
    if key == KeyCode::KeyCodeW || key == KeyCode::KeyCodeArrowUp {
        CameraController { is_forward_pressed: pressed, ..c }
    } else if key == KeyCode::KeyCodeA || key == KeyCode::KeyCodeArrowLeft {
        CameraController { is_left_pressed: pressed, ..c }
    } else if key == KeyCode::KeyCodeS || key == KeyCode::KeyCodeArrowDown {
        CameraController { is_backward_pressed: pressed, ..c }
    } else if key == KeyCode::KeyCodeD || key == KeyCode::KeyCodeArrowRight {
        CameraController { is_right_pressed: pressed, ..c }
    } else {
        c
    }
}

/// The movements one update tick applies. Forward and backward are steps
/// of one speed along the view direction; the orbit steps keep the
/// eye-to-target distance unchanged.
#[derive(Clone, Copy, Debug, PartialEq, Eq, Structural)]
pub struct MovementPlan {
    pub move_forward: bool,
    pub move_backward: bool,
    pub orbit_right: bool,
    pub orbit_left: bool,
}

/// The plan for one tick. `forward_exceeds_speed` reports whether the
/// measured eye-to-target distance is greater than one speed step; the
/// forward movement is gated on it so the eye never crosses the target.
/// The backward movement has no such guard.
pub open spec fn movement_plan(c: CameraController, forward_exceeds_speed: bool) -> MovementPlan {
    MovementPlan {
        move_forward: c.is_forward_pressed && forward_exceeds_speed,
        move_backward: c.is_backward_pressed,
        orbit_right: c.is_right_pressed,
        orbit_left: c.is_left_pressed,
    }
}

impl CameraController {
    /// A fresh controller with the given speed. As in the demo it drives,
    /// the right-orbit flag starts set, so the camera orbits until a key
    /// releases it.
    pub fn new(speed: u32) -> (r: Self)
        ensures
            r == (CameraController {
                speed,
                is_forward_pressed: false,
                is_backward_pressed: false,
                is_left_pressed: false,
                is_right_pressed: true,
            }),
    {
        CameraController {
            speed,
            is_forward_pressed: false,
            is_backward_pressed: false,
            is_left_pressed: false,
            is_right_pressed: true,
        }
    }

    /// Process one key event: set or clear the flag of the key's
    /// direction. Returns whether the controller consumed the key.
    pub fn process_events(&mut self, key: KeyCode, pressed: bool) -> (consumed: bool)
        ensures
            *final(self) == controller_after_event(*old(self), key, pressed),
            consumed == controller_key(key),
    {
        match key {
            KeyCode::KeyCodeW | KeyCode::KeyCodeArrowUp => {
                self.is_forward_pressed = pressed;
                true
            },
            KeyCode::KeyCodeA | KeyCode::KeyCodeArrowLeft => {
                self.is_left_pressed = pressed;
                true
            },
            KeyCode::KeyCodeS | KeyCode::KeyCodeArrowDown => {
                self.is_backward_pressed = pressed;
                true
            },
            KeyCode::KeyCodeD | KeyCode::KeyCodeArrowRight => {
                self.is_right_pressed = pressed;
                true
            },
            _ => false,
        }
    }

    /// The movement plan for one update tick.
    pub fn plan_update(&self, forward_exceeds_speed: bool) -> (p: MovementPlan)
        ensures
            p == movement_plan(*self, forward_exceeds_speed),
    {
        MovementPlan {
            move_forward: self.is_forward_pressed && forward_exceeds_speed,
            move_backward: self.is_backward_pressed,
            orbit_right: self.is_right_pressed,
            orbit_left: self.is_left_pressed,
        }
    }
}

/// The overshoot guard: when the eye-to-target distance does not exceed
/// one speed step, no forward movement is planned, whatever the flags
/// say, so the forward step alone never moves the eye past its target.
pub proof fn lemma_overshoot_guard(c: CameraController)
    ensures
        !movement_plan(c, false).move_forward,
{
}

/// With only the forward flag set and the target within one speed step,
/// the plan is empty: the update leaves the eye exactly where it is.
pub proof fn lemma_forward_guard_freezes(c: CameraController)
    requires
        c.is_forward_pressed,
        !c.is_backward_pressed,
        !c.is_left_pressed,
        !c.is_right_pressed,
    ensures
        movement_plan(c, false) == (MovementPlan {
            move_forward: false,
            move_backward: false,
            orbit_right: false,
            orbit_left: false,
        }),
{
}

/// With only the right flag set, the plan holds exactly the right-orbit
/// step: the one movement that re-projects the eye onto the sphere of
/// unchanged radius around the target.
pub proof fn lemma_only_right_orbits(c: CameraController, forward_exceeds_speed: bool)
    requires
        c.is_right_pressed,
        !c.is_forward_pressed,
        !c.is_backward_pressed,
        !c.is_left_pressed,
    ensures
        movement_plan(c, forward_exceeds_speed) == (MovementPlan {
            move_forward: false,
            move_backward: false,
            orbit_right: true,
            orbit_left: false,
        }),
{
}

} // verus!
