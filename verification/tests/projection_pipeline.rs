use testbed2d::CameraState;
use testbed2d::ProjectionError;
use testbed2d::Rat;
use testbed2d::WORLD_HEIGHT_UNITS;
use testbed2d::aspect_corrected_width;
use testbed2d::frame_transforms;
use testbed2d::orthographic;
use testbed2d::rat_eq;
use testbed2d::view;

// Applies a matrix to a homogeneous 2D point `(x, y, 0, 1)` of rationals,
// returning each resulting coordinate as an exact (num, den) pair.
fn apply(m: &testbed2d::Mat4, x: (i128, i128), y: (i128, i128)) -> [(i128, i128); 4] {
    let p = [x, y, (0, 1), (1, 1)];
    let rows = [
        [m.m11, m.m12, m.m13, m.m14],
        [m.m21, m.m22, m.m23, m.m24],
        [m.m31, m.m32, m.m33, m.m34],
        [m.m41, m.m42, m.m43, m.m44],
    ];
    let mut out = [(0i128, 1i128); 4];
    for (i, row) in rows.iter().enumerate() {
        let mut num: i128 = 0;
        let mut den: i128 = 1;
        for (e, &(pn, pd)) in row.iter().zip(p.iter()) {
            let tn = e.num as i128 * pn;
            let td = e.den as i128 * pd;
            num = num * td + tn * den;
            den *= td;
        }
        out[i] = (num, den);
    }
    out
}

fn frac_eq(a: (i128, i128), b: (i128, i128)) -> bool {
    a.0 * b.1 == b.0 * a.1
}

#[test]
fn ortho_for_800_by_600_window_has_expected_scales() {
    let width = aspect_corrected_width(WORLD_HEIGHT_UNITS, 800, 600).unwrap();
    // 20 world units tall, 800/600 aspect: 80/3 world units wide.
    assert!(rat_eq(width, Rat { num: 80, den: 3 }));
    let m = orthographic(width, Rat { num: 20, den: 1 }, 0, 1).unwrap();
    // x scale 2/(80/3) = 3/40, y scale 2/20 = 1/10, depth 1/(0-1) = -1.
    assert!(rat_eq(m.m11, Rat { num: 3, den: 40 }));
    assert!(rat_eq(m.m22, Rat { num: 1, den: 10 }));
    assert!(rat_eq(m.m33, Rat { num: -1, den: 1 }));
    assert!(rat_eq(m.m12, Rat { num: 0, den: 1 }));
    assert!(rat_eq(m.m44, Rat { num: 1, den: 1 }));
}

#[test]
fn origin_lands_on_viewport_center() {
    let width = aspect_corrected_width(WORLD_HEIGHT_UNITS, 800, 600).unwrap();
    let m = orthographic(width, Rat { num: 20, den: 1 }, 0, 1).unwrap();
    let out = apply(&m, (0, 1), (0, 1));
    assert!(frac_eq(out[0], (0, 1)));
    assert!(frac_eq(out[1], (0, 1)));
    assert!(frac_eq(out[3], (1, 1)));
}

#[test]
fn panning_shifts_a_point_by_offset_times_scale() {
    let width = aspect_corrected_width(WORLD_HEIGHT_UNITS, 800, 600).unwrap();
    let proj = orthographic(width, Rat { num: 20, den: 1 }, 0, 1).unwrap();
    let cam = CameraState { x: 3, y: -2, z: 0 };
    let vm = view(&cam);
    // World point (7/2, 5).
    let px = (7, 2);
    let py = (5, 1);
    let moved = apply(&vm, px, py);
    let panned = apply(&proj, moved[0], moved[1]);
    let base = apply(&proj, px, py);
    // x shift: 3 * 3/40 = 9/40; y shift: -2 * 1/10 = -1/5.
    let dx = (
        panned[0].0 * base[0].1 - base[0].0 * panned[0].1,
        panned[0].1 * base[0].1,
    );
    let dy = (
        panned[1].0 * base[1].1 - base[1].0 * panned[1].1,
        panned[1].1 * base[1].1,
    );
    assert!(frac_eq(dx, (9, 40)));
    assert!(frac_eq(dy, (-1, 5)));
    assert!(frac_eq(panned[3], (1, 1)));
}

#[test]
fn ratio_normalizes_a_negative_denominator() {
    let r = Rat::ratio(3, -4);
    assert!(rat_eq(r, Rat { num: -3, den: 4 }));
    assert!(r.den > 0);
}

#[test]
fn equal_near_and_far_are_rejected() {
    let width = aspect_corrected_width(WORLD_HEIGHT_UNITS, 800, 600).unwrap();
    let r = orthographic(width, Rat { num: 20, den: 1 }, 1, 1);
    assert_eq!(r, Err(ProjectionError::DegenerateDepthRange));
}

#[test]
fn non_positive_extent_is_rejected() {
    let r = orthographic(Rat { num: 0, den: 1 }, Rat { num: 20, den: 1 }, 0, 1);
    assert_eq!(r, Err(ProjectionError::NonPositiveExtent));
    let r2 = orthographic(Rat { num: -4, den: 1 }, Rat { num: 20, den: 1 }, 0, 1);
    assert_eq!(r2, Err(ProjectionError::NonPositiveExtent));
}

#[test]
fn empty_viewport_is_rejected() {
    assert_eq!(
        aspect_corrected_width(WORLD_HEIGHT_UNITS, 0, 600),
        Err(ProjectionError::EmptyViewport)
    );
    let cam = CameraState { x: 0, y: 0, z: 0 };
    assert_eq!(
        frame_transforms(&cam, 800, 0, 0, 1),
        Err(ProjectionError::EmptyViewport)
    );
}

#[test]
fn frame_transforms_recomputes_both_matrices() {
    let cam = CameraState { x: 1, y: 2, z: 0 };
    let t = frame_transforms(&cam, 800, 600, 0, 1).unwrap();
    assert!(rat_eq(t.view.m14, Rat { num: 1, den: 1 }));
    assert!(rat_eq(t.view.m24, Rat { num: 2, den: 1 }));
    assert!(rat_eq(t.view.m11, Rat { num: 1, den: 1 }));
    assert!(rat_eq(t.projection.m11, Rat { num: 3, den: 40 }));
    assert!(rat_eq(t.projection.m22, Rat { num: 1, den: 10 }));
    assert_eq!(
        frame_transforms(&cam, 800, 600, 2, 2),
        Err(ProjectionError::DegenerateDepthRange)
    );
}
