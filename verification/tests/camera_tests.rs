use render_core::camera::{CameraController, MovementPlan};
use render_core::keycode::KeyCode;

type V3 = [f32; 3];

fn sub(a: V3, b: V3) -> V3 {
    [a[0] - b[0], a[1] - b[1], a[2] - b[2]]
}

fn add(a: V3, b: V3) -> V3 {
    [a[0] + b[0], a[1] + b[1], a[2] + b[2]]
}

fn scale(a: V3, s: f32) -> V3 {
    [a[0] * s, a[1] * s, a[2] * s]
}

fn cross(a: V3, b: V3) -> V3 {
    [
        a[1] * b[2] - a[2] * b[1],
        a[2] * b[0] - a[0] * b[2],
        a[0] * b[1] - a[1] * b[0],
    ]
}

fn magnitude(a: V3) -> f32 {
    (a[0] * a[0] + a[1] * a[1] + a[2] * a[2]).sqrt()
}

fn normalize(a: V3) -> V3 {
    scale(a, 1.0 / magnitude(a))
}

/// The camera update the host applies from a movement plan, on an orbit
/// camera with the given eye, target and up.
fn apply_plan(plan: &MovementPlan, eye: V3, target: V3, up: V3, speed: f32) -> V3 {
    let mut eye = eye;
    let forward = sub(target, eye);
    let forward_norm = normalize(forward);
    if plan.move_forward {
        eye = add(eye, scale(forward_norm, speed));
    }
    if plan.move_backward {
        eye = sub(eye, scale(forward_norm, speed));
    }
    let right = cross(forward_norm, up);
    let forward = sub(target, eye);
    let forward_mag = magnitude(forward);
    if plan.orbit_right {
        eye = sub(target, scale(normalize(add(forward, scale(right, speed))), forward_mag));
    }
    if plan.orbit_left {
        eye = sub(target, scale(normalize(sub(forward, scale(right, speed))), forward_mag));
    }
    eye
}

#[test]
fn new_controller_flags() {
    let c = CameraController::new(200_000);
    assert_eq!(c.speed, 200_000);
    assert!(!c.is_forward_pressed);
    assert!(!c.is_backward_pressed);
    assert!(!c.is_left_pressed);
    assert!(c.is_right_pressed);
}

#[test]
fn key_events_toggle_flags() {
    let mut c = CameraController::new(200_000);
    assert!(c.process_events(KeyCode::KeyCodeW, true));
    assert!(c.is_forward_pressed);
    assert!(c.process_events(KeyCode::KeyCodeW, false));
    assert!(!c.is_forward_pressed);
    assert!(c.process_events(KeyCode::KeyCodeArrowUp, true));
    assert!(c.is_forward_pressed);
    assert!(c.process_events(KeyCode::KeyCodeA, true));
    assert!(c.is_left_pressed);
    assert!(c.process_events(KeyCode::KeyCodeArrowDown, true));
    assert!(c.is_backward_pressed);
    assert!(c.process_events(KeyCode::KeyCodeD, false));
    assert!(!c.is_right_pressed);
    // An unrelated key is not consumed and changes nothing.
    let before = c;
    assert!(!c.process_events(KeyCode::KeyCodeX, true));
    assert!(!c.process_events(KeyCode::Unknown, true));
    assert_eq!(c, before);
}

#[test]
fn orbit_right_keeps_distance() {
    // With only right pressed, |eye - target| is unchanged within 1e-5.
    let mut c = CameraController::new(200_000);
    c.process_events(KeyCode::KeyCodeD, true);
    assert!(c.is_right_pressed && !c.is_forward_pressed && !c.is_backward_pressed
        && !c.is_left_pressed);
    let plan = c.plan_update(true);
    assert_eq!(
        plan,
        MovementPlan {
            move_forward: false,
            move_backward: false,
            orbit_right: true,
            orbit_left: false,
        }
    );
    let eye: V3 = [0.0, 1.0, 2.0];
    let target: V3 = [0.0, 0.0, 0.0];
    let up: V3 = [0.0, 1.0, 0.0];
    let speed = 0.2;
    let before = magnitude(sub(eye, target));
    let mut e = eye;
    for _ in 0..10 {
        e = apply_plan(&plan, e, target, up, speed);
        let after = magnitude(sub(e, target));
        assert!((after - before).abs() < 1e-5, "radius drifted to {}", after);
    }
}

#[test]
fn forward_guard_stops_at_target() {
    // With forward pressed but the distance not exceeding one step, the
    // eye does not move.
    let mut c = CameraController::new(200_000);
    c.process_events(KeyCode::KeyCodeD, false);
    c.process_events(KeyCode::KeyCodeW, true);
    let plan = c.plan_update(false);
    assert!(!plan.move_forward);
    assert!(!plan.move_backward && !plan.orbit_left && !plan.orbit_right);
    let eye: V3 = [0.0, 0.0, 0.1];
    let target: V3 = [0.0, 0.0, 0.0];
    let up: V3 = [0.0, 1.0, 0.0];
    let moved = apply_plan(&plan, eye, target, up, 0.2);
    assert_eq!(moved, eye);

    // With distance above one step the eye does move toward the target.
    let plan = c.plan_update(true);
    assert!(plan.move_forward);
    let far: V3 = [0.0, 0.0, 2.0];
    let moved = apply_plan(&plan, far, target, up, 0.2);
    assert!(magnitude(sub(moved, target)) < magnitude(sub(far, target)));
}
