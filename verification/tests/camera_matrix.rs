use camcore::camera::Camera;
use camcore::camera::UniformBuffer;
use camcore::fixed::Fx;
use camcore::fixed::SCALE;
use camcore::matrix::Mat4;
use camcore::projection::Projection;
use camcore::trig::HALF_PI_RAW;
use camcore::trig::PITCH_LIMIT_RAW;
use camcore::vec3::Vec3;

fn entries(m: &Mat4) -> [[i64; 4]; 4] {
    [
        [m.m00.raw, m.m01.raw, m.m02.raw, m.m03.raw],
        [m.m10.raw, m.m11.raw, m.m12.raw, m.m13.raw],
        [m.m20.raw, m.m21.raw, m.m22.raw, m.m23.raw],
        [m.m30.raw, m.m31.raw, m.m32.raw, m.m33.raw],
    ]
}

#[test]
fn new_camera_sits_above_and_behind_the_origin() {
    let cam = Camera::new();
    assert_eq!(cam.position.x.raw, 0);
    assert_eq!(cam.position.y.raw, SCALE);
    assert_eq!(cam.position.z.raw, 2 * SCALE);
    assert_eq!(cam.yaw.raw, -HALF_PI_RAW);
    assert_eq!(cam.pitch.raw, 0);
}

#[test]
fn new_camera_looks_down_the_negative_z_axis() {
    let f = Camera::new().forward();
    assert_eq!(f.x.raw, 0);
    assert_eq!(f.y.raw, 0);
    assert_eq!(f.z.raw, -SCALE);
}

#[test]
fn forward_never_reaches_the_poles_at_the_pitch_clamp() {
    let mut cam = Camera::new();
    cam.pitch = Fx { raw: PITCH_LIMIT_RAW };
    let up = cam.forward();
    assert!(up.y.raw.abs() < SCALE);
    cam.pitch = Fx { raw: -PITCH_LIMIT_RAW };
    let down = cam.forward();
    assert!(down.y.raw.abs() < SCALE);
}

#[test]
fn view_matrix_of_the_default_camera() {
    let cam = Camera::new();
    let e = entries(&cam.view_matrix());
    assert_eq!(
        e,
        [
            [65536, 0, 0, 0],
            [0, 65536, 0, -65536],
            [0, 0, 65536, -131072],
            [0, 0, 0, 65536],
        ]
    );
}

#[test]
fn view_matrix_at_the_origin_facing_positive_x() {
    let cam = Camera {
        position: Vec3 { x: Fx { raw: 0 }, y: Fx { raw: 0 }, z: Fx { raw: 0 } },
        yaw: Fx { raw: 0 },
        pitch: Fx { raw: 0 },
    };
    let e = entries(&cam.view_matrix());
    assert_eq!(
        e,
        [
            [0, 0, 65536, 0],
            [0, 65536, 0, 0],
            [-65536, 0, 0, 0],
            [0, 0, 0, 65536],
        ]
    );
}

#[test]
fn uniform_buffer_starts_as_the_identity() {
    let u = UniformBuffer::new();
    assert_eq!(entries(&u.view_proj), entries(&Mat4::identity()));
    assert_eq!(u.view_proj.m00.raw, SCALE);
    assert_eq!(u.view_proj.m01.raw, 0);
}

#[test]
fn update_view_proj_composes_projection_and_view() {
    let cam = Camera::new();
    let p = Projection::new(800, 600, Fx { raw: HALF_PI_RAW }, Fx { raw: 6554 }, Fx::from_int(100))
        .unwrap();
    let mut u = UniformBuffer::new();
    u.update_view_proj(&cam, &p);
    let e = entries(&u.view_proj);
    assert_eq!(
        e,
        [
            [49152, 0, 0, 0],
            [0, 65536, 0, -65536],
            [0, 0, -65601, 124642],
            [0, 0, -65536, 131072],
        ]
    );
}

#[test]
fn light_uniform_has_the_designed_defaults() {
    let l = camcore::light::UniformBuffer::new();
    assert_eq!(l.position.x.raw, 2 * SCALE);
    assert_eq!(l.position.y.raw, 2 * SCALE);
    assert_eq!(l.position.z.raw, 2 * SCALE);
    assert_eq!(l.color.x.raw, SCALE);
    assert_eq!(l.color.y.raw, SCALE);
    assert_eq!(l.color.z.raw, SCALE);
}
