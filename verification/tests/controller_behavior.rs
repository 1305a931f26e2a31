use camcore::camera::ACC_LIMIT_RAW;
use camcore::camera::Camera;
use camcore::camera::CameraController;
use camcore::camera::Key;
use camcore::fixed::Fx;
use camcore::trig::PITCH_LIMIT_RAW;
use camcore::fixed::SCALE;
use camcore::vec3::Vec3;

fn camera_at(x: i64, y: i64, z: i64, yaw: i64, pitch: i64) -> Camera {
    Camera {
        position: Vec3 { x: Fx { raw: x }, y: Fx { raw: y }, z: Fx { raw: z } },
        yaw: Fx { raw: yaw },
        pitch: Fx { raw: pitch },
    }
}

#[test]
fn new_controller_has_no_pending_input() {
    let c = CameraController::new();
    assert!(!c.move_forward && !c.move_backward);
    assert!(!c.move_left && !c.move_right);
    assert!(!c.move_up && !c.move_down);
    assert_eq!(c.rotate_horizontal.raw, 0);
    assert_eq!(c.rotate_vertical.raw, 0);
    assert_eq!(c.scroll.raw, 0);
    assert_eq!(c.move_speed.raw, SCALE);
    assert_eq!(c.sensitivity.raw, SCALE);
    assert_eq!(c.scroll_speed.raw, SCALE);
}

#[test]
fn keydown_raises_and_keyup_lowers_each_flag() {
    let mut c = CameraController::new();
    let cases = [
        (Key::W, 0),
        (Key::Up, 0),
        (Key::S, 1),
        (Key::Down, 1),
        (Key::A, 2),
        (Key::Left, 2),
        (Key::D, 3),
        (Key::Right, 3),
        (Key::Space, 4),
        (Key::LShift, 5),
    ];
    for (key, flag) in cases {
        c.process_keydown(key);
        let flags = [
            c.move_forward,
            c.move_backward,
            c.move_left,
            c.move_right,
            c.move_up,
            c.move_down,
        ];
        for (i, v) in flags.iter().enumerate() {
            assert_eq!(*v, i == flag, "after keydown {key:?}");
        }
        c.process_keyup(key);
        assert_eq!(c, CameraController::new(), "after keyup {key:?}");
    }
}

#[test]
fn unrecognized_keys_are_ignored() {
    let mut c = CameraController::new();
    c.process_keydown(Key::Other);
    assert_eq!(c, CameraController::new());
    c.process_keyup(Key::Other);
    assert_eq!(c, CameraController::new());
}

#[test]
fn key_down_then_up_restores_the_flag_state() {
    let mut c = CameraController::new();
    c.process_keydown(Key::A);
    let before = c;
    c.process_keydown(Key::W);
    c.process_keyup(Key::W);
    assert_eq!(c, before);
}

#[test]
fn mouse_deltas_accumulate_and_tick_resets_them() {
    let mut c = CameraController::new();
    c.on_mouse_move(Fx::from_int(10), Fx::from_int(5));
    c.on_mouse_move(Fx::from_int(10), Fx::from_int(5));
    assert_eq!(c.rotate_horizontal.raw, 20 * SCALE);
    assert_eq!(c.rotate_vertical.raw, 10 * SCALE);
    let mut cam = Camera::new();
    c.update_camera(&mut cam, Fx::one());
    assert_eq!(c.rotate_horizontal.raw, 0);
    assert_eq!(c.rotate_vertical.raw, 0);
}

#[test]
fn mouse_accumulators_saturate_at_their_bound() {
    let mut c = CameraController::new();
    c.on_mouse_move(Fx { raw: ACC_LIMIT_RAW }, Fx { raw: -ACC_LIMIT_RAW });
    c.on_mouse_move(Fx { raw: ACC_LIMIT_RAW }, Fx { raw: -ACC_LIMIT_RAW });
    assert_eq!(c.rotate_horizontal.raw, ACC_LIMIT_RAW);
    assert_eq!(c.rotate_vertical.raw, -ACC_LIMIT_RAW);
}

#[test]
fn scroll_accumulates_and_tick_resets_it() {
    let mut c = CameraController::new();
    c.on_scroll(Fx::from_int(2));
    c.on_scroll(Fx::from_int(-5));
    assert_eq!(c.scroll.raw, -3 * SCALE);
    let mut cam = Camera::new();
    c.update_camera(&mut cam, Fx::one());
    assert_eq!(c.scroll.raw, 0);
}

#[test]
fn idle_tick_leaves_the_camera_unchanged() {
    let mut c = CameraController::new();
    let mut cam = camera_at(SCALE, 2 * SCALE, 3 * SCALE, 50000, -50000);
    let before = cam;
    let controller_before = c;
    c.update_camera(&mut cam, Fx::one());
    assert_eq!(cam, before);
    assert_eq!(c, controller_before);
}

#[test]
fn forward_move_covers_speed_times_time() {
    let mut c = CameraController::new();
    c.process_keydown(Key::W);
    c.move_speed = Fx::from_int(2);
    let mut cam = camera_at(0, 0, 0, 0, 0);
    c.update_camera(&mut cam, Fx::one());
    assert_eq!(cam.position.x.raw, 2 * SCALE);
    assert_eq!(cam.position.y.raw, 0);
    assert_eq!(cam.position.z.raw, 0);
    assert_eq!(cam.yaw.raw, 0);
    assert_eq!(cam.pitch.raw, 0);
}

#[test]
fn strafe_right_moves_along_the_right_vector() {
    let mut c = CameraController::new();
    c.process_keydown(Key::D);
    let mut cam = camera_at(0, 0, 0, 0, 0);
    c.update_camera(&mut cam, Fx::one());
    assert_eq!(cam.position.x.raw, 0);
    assert_eq!(cam.position.z.raw, SCALE);
}

#[test]
fn vertical_keys_move_straight_up_and_down() {
    let mut c = CameraController::new();
    c.process_keydown(Key::Space);
    let mut cam = camera_at(0, 0, 0, 0, 0);
    c.update_camera(&mut cam, Fx::one());
    assert_eq!(cam.position.y.raw, SCALE);
    c.process_keyup(Key::Space);
    c.process_keydown(Key::LShift);
    c.update_camera(&mut cam, Fx::one());
    assert_eq!(cam.position.y.raw, 0);
}

#[test]
fn scroll_dollies_along_the_view_direction() {
    let mut c = CameraController::new();
    c.on_scroll(Fx::from_int(3));
    let mut cam = camera_at(0, 0, 0, 0, 0);
    c.update_camera(&mut cam, Fx::one());
    assert_eq!(cam.position.x.raw, 3 * SCALE);
    assert_eq!(cam.position.y.raw, 0);
    assert_eq!(cam.position.z.raw, 0);
}

#[test]
fn mouse_motion_turns_the_camera_and_pitch_clamps() {
    let mut c = CameraController::new();
    c.on_mouse_move(Fx::from_int(10), Fx::from_int(5));
    let mut cam = camera_at(0, 0, 0, 0, 0);
    c.update_camera(&mut cam, Fx::one());
    // Ten radians of yaw, wrapped back into the principal range.
    assert_eq!(cam.yaw.raw, -168192);
    // Five radians of downward pitch hit the clamp.
    assert_eq!(cam.pitch.raw, -PITCH_LIMIT_RAW);
}

#[test]
fn half_time_step_halves_the_displacement() {
    let mut c = CameraController::new();
    c.process_keydown(Key::W);
    let mut cam = camera_at(0, 0, 0, 0, 0);
    c.update_camera(&mut cam, Fx { raw: SCALE / 2 });
    assert_eq!(cam.position.x.raw, SCALE / 2);
}
