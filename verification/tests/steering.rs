use glam::{EulerRot, Quat, Vec3};
use std::f32::consts::{FRAC_PI_2, PI};
use viewer_core::camera::{Camera, CameraInput, CameraMotion, Thrust};
use viewer_core::pipeline::{Args, Pipeline};

const PITCH_LIMIT: f32 = FRAC_PI_2 - 1e-6;

#[derive(Clone, Debug)]
struct Model {
    position: Vec3,
    pitch: f32,
    yaw: f32,
    speed: f32,
    mouse_sensitivity: f32,
}

fn default_model() -> Model {
    Model {
        position: Vec3::new(0.0, 0.5, 5.0),
        pitch: 0.0,
        yaw: 0.0,
        speed: 1.0,
        mouse_sensitivity: 0.1,
    }
}

fn forward(model: &Model) -> Vec3 {
    Quat::from_euler(EulerRot::ZYX, 0.0, model.yaw, model.pitch) * Vec3::NEG_Z
}

fn right(model: &Model) -> Vec3 {
    forward(model).cross(Vec3::Y).normalize()
}

fn push(position: Vec3, thrust: Thrust, step: Vec3) -> Vec3 {
    match thrust {
        Thrust::Positive => position + step,
        Thrust::Negative => position - step,
        Thrust::Neutral => position,
    }
}

fn steer(model: &Model, motion: CameraMotion, dt: u64, mouse: (f32, f32)) -> Model {
    let seconds = dt as f32 / 1e9;
    let ahead = (forward(model) * (Vec3::ONE - Vec3::Y)).normalize();
    let mut moved = model.clone();
    moved.position = push(moved.position, motion.forward, ahead * model.speed * seconds);
    moved.position = push(moved.position, motion.right, right(model) * model.speed * seconds);
    moved.position = push(moved.position, motion.up, Vec3::Y * model.speed * seconds);
    if motion.rotate {
        let pitch_delta = mouse.1.to_radians() * model.mouse_sensitivity;
        let yaw_delta = mouse.0.to_radians() * model.mouse_sensitivity;
        moved.pitch = (model.pitch - pitch_delta).clamp(-PITCH_LIMIT, PITCH_LIMIT);
        moved.yaw = (model.yaw - yaw_delta).rem_euclid(2.0 * PI);
    }
    moved
}

fn keys(forward: bool, left: bool, up: bool, mouse_moved: bool) -> CameraInput {
    CameraInput { forward, backward: false, left, right: false, up, down: false, mouse_moved }
}

fn close(a: Vec3, b: Vec3) -> bool {
    (a - b).length() < 1e-5
}

#[test]
fn holding_forward_for_a_second_moves_one_unit_along_negative_z() {
    let mut pipeline = Pipeline::init(
        Args { fps_limit: None, pyramid_transform: (), pyramid_model: () },
        default_model(),
    );
    let input = keys(true, false, false, false);
    pipeline.update(0, &input, false, |_, _| None, |m, motion, dt| steer(m, motion, dt, (0.0, 0.0)));
    assert!(close(pipeline.camera().model().position, Vec3::new(0.0, 0.5, 5.0)));
    let tick = pipeline.update(1_000_000_000, &input, false, |_, _| None, |m, motion, dt| {
        steer(m, motion, dt, (0.0, 0.0))
    });
    assert_eq!(tick.delta, 1_000_000_000);
    let model = pipeline.camera().model();
    assert!(close(model.position, Vec3::new(0.0, 0.5, 4.0)));
    assert_eq!(model.yaw, 0.0);
    assert_eq!(model.pitch, 0.0);
    assert!(pipeline.render(false).camera_upload);
}

#[test]
fn forward_stays_horizontal_when_looking_up() {
    let mut camera = Camera::new(Model { pitch: 1.0, ..default_model() });
    camera.update(2_000_000_000, &keys(true, false, false, false), |m, motion, dt| {
        steer(m, motion, dt, (0.0, 0.0))
    });
    assert!(close(camera.model().position, Vec3::new(0.0, 0.5, 3.0)));
}

#[test]
fn left_and_up_move_along_their_own_axes() {
    let mut camera = Camera::new(default_model());
    camera.update(500_000_000, &keys(false, true, true, false), |m, motion, dt| {
        steer(m, motion, dt, (0.0, 0.0))
    });
    assert!(close(camera.model().position, Vec3::new(-0.5, 1.0, 5.0)));
}

#[test]
fn pitch_stays_short_of_the_poles() {
    let mut camera = Camera::new(default_model());
    let input = keys(false, false, false, true);
    for mouse_y in [-1e9f32, 5_000.0, 900.0, -900.0, -1e30, 1e30] {
        camera.update(16_000_000, &input, |m, motion, dt| steer(m, motion, dt, (0.0, mouse_y)));
        let pitch = camera.model().pitch;
        assert!(-FRAC_PI_2 < pitch && pitch < FRAC_PI_2);
        assert!(-PITCH_LIMIT <= pitch && pitch <= PITCH_LIMIT);
    }
    camera.update(16_000_000, &input, |m, motion, dt| steer(m, motion, dt, (0.0, -1e9)));
    assert_eq!(camera.model().pitch, PITCH_LIMIT);
    camera.update(16_000_000, &input, |m, motion, dt| steer(m, motion, dt, (0.0, 1e9)));
    assert_eq!(camera.model().pitch, -PITCH_LIMIT);
}

#[test]
fn yaw_wraps_into_one_turn() {
    let mut camera = Camera::new(default_model());
    let input = keys(false, false, false, true);
    for mouse_x in [10.0f32, -10.0, 3_600.0, -7_205.0, 123_456.0, -0.5] {
        camera.update(16_000_000, &input, |m, motion, dt| steer(m, motion, dt, (mouse_x, 0.0)));
        let yaw = camera.model().yaw;
        assert!(0.0 <= yaw && yaw < 2.0 * PI);
    }
    // A quarter turn to the left: 900 pixels at 0.1 degrees per pixel.
    let mut turned = Camera::new(default_model());
    turned.update(0, &input, |m, motion, dt| steer(m, motion, dt, (-900.0, 0.0)));
    assert!((turned.model().yaw - FRAC_PI_2).abs() < 1e-5);
    assert!(close(forward(turned.model()), Vec3::new(-1.0, 0.0, 0.0)));
}

#[test]
fn right_is_a_unit_vector_across_up_and_forward() {
    for yaw in [0.0f32, 0.3, 1.0, 2.5, 4.0, 6.2] {
        for pitch in [-PITCH_LIMIT, -1.2, -0.4, 0.0, 0.7, 1.5] {
            let model = Model { yaw, pitch, ..default_model() };
            let right = right(&model);
            let ahead = (forward(&model) * (Vec3::ONE - Vec3::Y)).normalize();
            assert!((right.length() - 1.0).abs() < 1e-5);
            assert!(right.dot(Vec3::Y).abs() < 1e-5);
            assert!(right.dot(ahead).abs() < 1e-4);
        }
    }
}

#[test]
fn mouse_is_ignored_while_unlocked() {
    let mut pipeline = Pipeline::init(
        Args { fps_limit: None, pyramid_transform: (), pyramid_model: () },
        default_model(),
    );
    pipeline.window_event(&viewer_core::cursor_lock::WindowEvent::Focused(false));
    let input = keys(true, true, true, true);
    pipeline.update(0, &input, false, |_, _| None, |m, motion, dt| steer(m, motion, dt, (40.0, -25.0)));
    pipeline.update(1_000_000_000, &input, false, |_, _| None, |m, motion, dt| {
        steer(m, motion, dt, (40.0, -25.0))
    });
    let model = pipeline.camera().model();
    assert_eq!(model.yaw, 0.0);
    assert_eq!(model.pitch, 0.0);
    assert_eq!(model.position, Vec3::new(0.0, 0.5, 5.0));
    assert!(!pipeline.render(false).camera_upload);
}
