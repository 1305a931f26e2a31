use camcore::fixed::Fx;
use camcore::matrix::Mat4;
use camcore::projection::DIM_LIMIT;
use camcore::projection::FAR_LIMIT_RAW;
use camcore::projection::Projection;
use camcore::projection::ProjectionError;
use camcore::trig::HALF_PI_RAW;
use camcore::trig::PI_RAW;

fn standard() -> Projection {
    // 800x600, a 90 degree vertical field of view, near 0.1, far 100.
    Projection::new(800, 600, Fx { raw: HALF_PI_RAW }, Fx { raw: 6554 }, Fx::from_int(100))
        .unwrap()
}

fn entries(m: &Mat4) -> [[i64; 4]; 4] {
    [
        [m.m00.raw, m.m01.raw, m.m02.raw, m.m03.raw],
        [m.m10.raw, m.m11.raw, m.m12.raw, m.m13.raw],
        [m.m20.raw, m.m21.raw, m.m22.raw, m.m23.raw],
        [m.m30.raw, m.m31.raw, m.m32.raw, m.m33.raw],
    ]
}

fn det4(e: &[[i64; 4]; 4]) -> i128 {
    fn det3(e: &[[i128; 3]; 3]) -> i128 {
        e[0][0] * (e[1][1] * e[2][2] - e[1][2] * e[2][1])
            - e[0][1] * (e[1][0] * e[2][2] - e[1][2] * e[2][0])
            + e[0][2] * (e[1][0] * e[2][1] - e[1][1] * e[2][0])
    }
    let mut total: i128 = 0;
    for col in 0..4 {
        let mut minor = [[0i128; 3]; 3];
        for (mi, row) in (1..4).enumerate() {
            let mut mj = 0;
            for c in 0..4 {
                if c != col {
                    minor[mi][mj] = e[row][c] as i128;
                    mj += 1;
                }
            }
        }
        let sign: i128 = if col % 2 == 0 { 1 } else { -1 };
        total += sign * (e[0][col] as i128) * det3(&minor);
    }
    total
}

#[test]
fn accepts_standard_parameters() {
    let p = standard();
    assert_eq!(p.width, 800);
    assert_eq!(p.height, 600);
    assert_eq!(p.fovy.raw, HALF_PI_RAW);
    assert_eq!(p.znear.raw, 6554);
    assert_eq!(p.zfar.raw, 100 * 65536);
    // cot(45 degrees) comes out exactly one.
    assert_eq!(p.cot_half_fovy.raw, 65536);
}

#[test]
fn rejects_bad_dimensions() {
    let r = Projection::new(0, 600, Fx { raw: HALF_PI_RAW }, Fx { raw: 6554 }, Fx::from_int(100));
    assert_eq!(r, Err(ProjectionError::BadDimensions));
    let r = Projection::new(
        800,
        DIM_LIMIT + 1,
        Fx { raw: HALF_PI_RAW },
        Fx { raw: 6554 },
        Fx::from_int(100),
    );
    assert_eq!(r, Err(ProjectionError::BadDimensions));
}

#[test]
fn rejects_bad_depth_planes() {
    // A zero near plane.
    let r = Projection::new(800, 600, Fx { raw: HALF_PI_RAW }, Fx { raw: 0 }, Fx::from_int(100));
    assert_eq!(r, Err(ProjectionError::BadDepthPlanes));
    // Near and far coincide.
    let r = Projection::new(800, 600, Fx { raw: HALF_PI_RAW }, Fx::from_int(1), Fx::from_int(1));
    assert_eq!(r, Err(ProjectionError::BadDepthPlanes));
    // Far beyond the supported range.
    let r = Projection::new(
        800,
        600,
        Fx { raw: HALF_PI_RAW },
        Fx::from_int(1),
        Fx { raw: FAR_LIMIT_RAW + 1 },
    );
    assert_eq!(r, Err(ProjectionError::BadDepthPlanes));
}

#[test]
fn rejects_bad_field_of_view() {
    // Essentially zero.
    let r = Projection::new(800, 600, Fx { raw: 1 }, Fx { raw: 6554 }, Fx::from_int(100));
    assert_eq!(r, Err(ProjectionError::BadFieldOfView));
    // A full half turn: the half-angle cosine collapses to zero.
    let r = Projection::new(800, 600, Fx { raw: PI_RAW }, Fx { raw: 6554 }, Fx::from_int(100));
    assert_eq!(r, Err(ProjectionError::BadFieldOfView));
}

#[test]
fn rejects_depth_planes_too_close() {
    let r = Projection::new(
        800,
        600,
        Fx { raw: HALF_PI_RAW },
        Fx { raw: FAR_LIMIT_RAW - 1 },
        Fx { raw: FAR_LIMIT_RAW },
    );
    assert_eq!(r, Err(ProjectionError::DepthPlanesTooClose));
}

#[test]
fn matrix_has_the_expected_entries() {
    let p = standard();
    let e = entries(&p.calc_matrix());
    assert_eq!(
        e,
        [
            [49152, 0, 0, 0],
            [0, 65536, 0, 0],
            [0, 0, -65601, -6560],
            [0, 0, -65536, 0],
        ]
    );
}

#[test]
fn resize_changes_only_the_aspect_scale() {
    let mut p = standard();
    let before = entries(&p.calc_matrix());
    p.resize(1600, 900);
    assert_eq!(p.width, 1600);
    assert_eq!(p.height, 900);
    assert_eq!(p.fovy.raw, HALF_PI_RAW);
    assert_eq!(p.znear.raw, 6554);
    assert_eq!(p.zfar.raw, 100 * 65536);
    let after = entries(&p.calc_matrix());
    assert_eq!(before[0][0], 49152);
    assert_eq!(after[0][0], 36864);
    // The horizontal scale moved in exact inverse proportion to the aspect
    // ratio: 4/3 against 16/9.
    assert_eq!(before[0][0] * 3, after[0][0] * 4);
    for i in 0..4 {
        for j in 0..4 {
            if (i, j) != (0, 0) {
                assert_eq!(before[i][j], after[i][j], "entry {i} {j}");
            }
        }
    }
}

#[test]
fn resize_clamps_a_zero_dimension() {
    let mut p = standard();
    p.resize(800, 0);
    assert_eq!(p.height, 1);
    p.resize(0, 600);
    assert_eq!(p.width, 1);
}

#[test]
fn projection_matrix_is_nonsingular() {
    let p = standard();
    assert_ne!(det4(&entries(&p.calc_matrix())), 0);
    // A thin sliver of a window and a narrow field of view.
    let p = Projection::new(3000, 20, Fx { raw: 30000 }, Fx { raw: 100 }, Fx::from_int(500))
        .unwrap();
    assert_ne!(det4(&entries(&p.calc_matrix())), 0);
    let mut p = standard();
    p.resize(123, 457);
    assert_ne!(det4(&entries(&p.calc_matrix())), 0);
}
