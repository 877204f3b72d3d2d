//! The camera/projection pipeline: an orthographic projection whose
//! world-space extents track the window's aspect ratio, and a view
//! transform that is a pure translation by the camera offset.
//!
//! Matrices are carried with exact rational entries; turning them into the
//! renderer's floating-point form is the caller's last, unverified step.

use vstd::prelude::*;

use crate::camera::CameraState;
use crate::rat::Q;
use crate::rat::Rat;
use crate::rat::q_add;
use crate::rat::q_eq;
use crate::rat::q_int;
use crate::rat::q_mul;
use crate::rat::q_sub;
use crate::rat::rat_one;
use crate::rat::rat_zero;

verus! {

/// Height of the visible world slice, in world units; the visible width is
/// this times the window's aspect ratio.
pub const WORLD_HEIGHT_UNITS: i64 = 20;

/// Near bound of the depth range handed to the projection.
pub const DEPTH_NEAR: i32 = 0;

/// Far bound of the depth range handed to the projection.
pub const DEPTH_FAR: i32 = 1;

/// A 4x4 matrix of exact rationals, row by row; `mij` is row `i`, column
/// `j`, acting on column vectors `(x, y, z, w)`.
#[derive(Clone, Copy, PartialEq, Eq, Structural, Debug)]
pub struct Mat4 {
    pub m11: Rat, pub m12: Rat, pub m13: Rat, pub m14: Rat,
    pub m21: Rat, pub m22: Rat, pub m23: Rat, pub m24: Rat,
    pub m31: Rat, pub m32: Rat, pub m33: Rat, pub m34: Rat,
    pub m41: Rat, pub m42: Rat, pub m43: Rat, pub m44: Rat,
}

impl Mat4 {
    /// Every entry carries a positive denominator.
    pub open spec fn wf(self) -> bool {
        &&& self.m11.wf() &&& self.m12.wf() &&& self.m13.wf() &&& self.m14.wf()
        &&& self.m21.wf() &&& self.m22.wf() &&& self.m23.wf() &&& self.m24.wf()
        &&& self.m31.wf() &&& self.m32.wf() &&& self.m33.wf() &&& self.m34.wf()
        &&& self.m41.wf() &&& self.m42.wf() &&& self.m43.wf() &&& self.m44.wf()
    }
}

/// Why a projection request was rejected instead of producing a matrix.
#[derive(Clone, Copy, PartialEq, Eq, Structural, Debug)]
pub enum ProjectionError {
    /// A window dimension of zero pixels: no aspect ratio exists.
    EmptyViewport,
    /// A world-space extent that is not strictly positive.
    NonPositiveExtent,
    /// `near == far`: the depth mapping would divide by zero.
    DegenerateDepthRange,
}

/// A homogeneous point with ghost rational coordinates.
pub struct QPoint {
    pub x: Q,
    pub y: Q,
    pub z: Q,
    pub w: Q,
}

/// The 2D world point `(x, y)` lifted to a homogeneous point.
pub open spec fn q_point2(x: Q, y: Q) -> QPoint {
    QPoint { x: x, y: y, z: q_int(0), w: q_int(1) }
}

/// One matrix row dotted with a homogeneous point.
pub open spec fn row_dot(a: Rat, b: Rat, c: Rat, d: Rat, p: QPoint) -> Q {
    q_add(
        q_add(q_mul(a.q(), p.x), q_mul(b.q(), p.y)),
        q_add(q_mul(c.q(), p.z), q_mul(d.q(), p.w)),
    )
}

/// A matrix applied to a homogeneous point.
pub open spec fn q_apply(m: Mat4, p: QPoint) -> QPoint {
    QPoint {
        x: row_dot(m.m11, m.m12, m.m13, m.m14, p),
        y: row_dot(m.m21, m.m22, m.m23, m.m24, p),
        z: row_dot(m.m31, m.m32, m.m33, m.m34, p),
        w: row_dot(m.m41, m.m42, m.m43, m.m44, p),
    }
}

/// The orthographic matrix for a visible world rectangle `width` by
/// `height` centred on the origin, with depth mapped by `1 / (near - far)`:
/// `x` is scaled by `2 / width`, `y` by `2 / height`, and `w` stays `1`.
pub open spec fn spec_ortho(width: Rat, height: Rat, near: i32, far: i32) -> Mat4 {
    Mat4 {
        m11: Rat { num: (2 * width.den as int) as i64, den: width.num },
        m12: rat_zero(),
        m13: rat_zero(),
        m14: rat_zero(),
        m21: rat_zero(),
        m22: Rat { num: (2 * height.den as int) as i64, den: height.num },
        m23: rat_zero(),
        m24: rat_zero(),
        m31: rat_zero(),
        m32: rat_zero(),
        m33: if near > far {
            Rat { num: 1, den: (near as int - far as int) as i64 }
        } else {
            Rat { num: (-1) as i64, den: (far as int - near as int) as i64 }
        },
        m34: rat_zero(),
        m41: rat_zero(),
        m42: rat_zero(),
        m43: rat_zero(),
        m44: rat_one(),
    }
}

/// The view matrix for a camera offset: the identity carrying the offset
/// in its translation column, so a point gains the offset before the
/// projection scales it.
pub open spec fn spec_view(c: CameraState) -> Mat4 {
    Mat4 {
        m11: rat_one(),
        m12: rat_zero(),
        m13: rat_zero(),
        m14: Rat { num: c.x as i64, den: 1 },
        m21: rat_zero(),
        m22: rat_one(),
        m23: rat_zero(),
        m24: Rat { num: c.y as i64, den: 1 },
        m31: rat_zero(),
        m32: rat_zero(),
        m33: rat_one(),
        m34: Rat { num: c.z as i64, den: 1 },
        m41: rat_zero(),
        m42: rat_zero(),
        m43: rat_zero(),
        m44: rat_one(),
    }
}

/// Build the orthographic projection for a visible world rectangle, or say
/// exactly why none exists: a non-positive extent or `near == far` is
/// rejected, never turned into a division by zero.
pub fn orthographic(width: Rat, height: Rat, near: i32, far: i32) -> (r: Result<
    Mat4,
    ProjectionError,
>)
    requires
        width.wf(),
        height.wf(),
        width.den <= 0x3fff_ffff_ffff_ffff,
        height.den <= 0x3fff_ffff_ffff_ffff,
    ensures
        r is Ok <==> width.num > 0 && height.num > 0 && near != far,
        r == Err::<Mat4, ProjectionError>(ProjectionError::NonPositiveExtent) <==> (width.num <= 0
            || height.num <= 0),
        r == Err::<Mat4, ProjectionError>(ProjectionError::DegenerateDepthRange) <==> (width.num > 0
            && height.num > 0 && near == far),
        r matches Ok(m) ==> m == spec_ortho(width, height, near, far) && m.wf(),
{
    if width.num <= 0 || height.num <= 0 {
        return Err(ProjectionError::NonPositiveExtent);
    }
    if near == far {
        return Err(ProjectionError::DegenerateDepthRange);
    }
    let depth = if near > far {
        Rat { num: 1, den: near as i64 - far as i64 }
    } else {
        Rat { num: -1, den: far as i64 - near as i64 }
    };
    Ok(
        Mat4 {
            m11: Rat { num: 2 * width.den, den: width.num },
            m12: Rat::from_int(0),
            m13: Rat::from_int(0),
            m14: Rat::from_int(0),
            m21: Rat::from_int(0),
            m22: Rat { num: 2 * height.den, den: height.num },
            m23: Rat::from_int(0),
            m24: Rat::from_int(0),
            m31: Rat::from_int(0),
            m32: Rat::from_int(0),
            m33: depth,
            m34: Rat::from_int(0),
            m41: Rat::from_int(0),
            m42: Rat::from_int(0),
            m43: Rat::from_int(0),
            m44: Rat::from_int(1),
        },
    )
}

/// The world-space point `(0, 0)` lands on the viewport centre — `(0, 0)`
/// in normalised device coordinates, with homogeneous `w` equal to one —
/// under every valid orthographic projection.
pub proof fn lemma_ortho_maps_origin_to_center(width: Rat, height: Rat, near: i32, far: i32)
    requires
        width.wf(),
        height.wf(),
        width.num > 0,
        height.num > 0,
        near != far,
    ensures
        ({
            let p = q_apply(spec_ortho(width, height, near, far), q_point2(q_int(0), q_int(0)));
            q_eq(p.x, q_int(0)) && q_eq(p.y, q_int(0)) && q_eq(p.w, q_int(1))
        }),
{
    broadcast use vstd::arithmetic::mul::group_mul_basics;
}

/// Panning the camera by an offset shifts where every world point lands on
/// screen by exactly that offset times the projection's world-to-screen
/// scale (`2 / width` horizontally, `2 / height` vertically), and the
/// homogeneous `w` stays one, so the shift survives the perspective divide.
pub proof fn lemma_pan_shifts_screen_by_offset(
    width: Rat,
    height: Rat,
    near: i32,
    far: i32,
    off: CameraState,
    px: Rat,
    py: Rat,
)
    requires
        width.wf(),
        height.wf(),
        px.wf(),
        py.wf(),
        width.num > 0,
        height.num > 0,
        near != far,
        width.den <= 0x3fff_ffff_ffff_ffff,
        height.den <= 0x3fff_ffff_ffff_ffff,
    ensures
        ({
            let proj = spec_ortho(width, height, near, far);
            let p = q_point2(px.q(), py.q());
            let base = q_apply(proj, p);
            let panned = q_apply(proj, q_apply(spec_view(off), p));
            &&& q_eq(q_sub(panned.x, base.x), q_mul(proj.m11.q(), q_int(off.x as int)))
            &&& q_eq(q_sub(panned.y, base.y), q_mul(proj.m22.q(), q_int(off.y as int)))
            &&& q_eq(base.w, q_int(1))
            &&& q_eq(panned.w, q_int(1))
        }),
{
    broadcast use vstd::arithmetic::mul::group_mul_basics;

    let proj = spec_ortho(width, height, near, far);
    let p = q_point2(px.q(), py.q());
    let vp = q_apply(spec_view(off), p);
    let base = q_apply(proj, p);
    let panned = q_apply(proj, vp);

    let xn = px.num as int;
    let xd = px.den as int;
    let yn = py.num as int;
    let yd = py.den as int;
    let dd = xd * yd;
    let tx = off.x as int;
    let ty = off.y as int;
    let sn = 2 * width.den as int;
    let wn = width.num as int;
    let s2n = 2 * height.den as int;
    let hn = height.num as int;

    assert(proj.m11.q() == Q { n: sn, d: wn });
    assert(proj.m22.q() == Q { n: s2n, d: hn });

    assert(vp.x == Q { n: xn * yd + tx * dd, d: dd });
    assert(vp.y == Q { n: yn * xd + ty * dd, d: dd });
    assert(vp.z == Q { n: off.z as int * dd, d: dd });
    assert(vp.w == Q { n: dd, d: dd });

    assert(base.x == Q { n: (sn * xn) * yd, d: (wn * xd) * yd });
    assert(base.y == Q { n: (s2n * yn) * xd, d: xd * (hn * yd) });
    assert(base.w == Q { n: dd, d: dd });

    assert(panned.x == Q {
        n: ((sn * (xn * yd + tx * dd)) * dd) * (dd * dd),
        d: ((wn * dd) * dd) * (dd * dd),
    });
    assert(panned.y == Q {
        n: ((s2n * (yn * xd + ty * dd)) * dd) * (dd * dd),
        d: (dd * (hn * dd)) * (dd * dd),
    });
    assert(panned.w == Q { n: (dd * dd) * (dd * dd), d: (dd * dd) * (dd * dd) });

    let d2 = dd * dd;
    let d3 = dd * d2;
    let d4 = dd * d3;
    let ux = xn * yd;
    let vx = tx * dd;
    let uy = yn * xd;
    let vy = ty * dd;

    // Bring each numerator and denominator to a flat product of atoms.
    nl_pull_through(sn, ux + vx, dd, d2, d3);
    nl_flat_den_left(wn, dd, d2, d4);
    nl_assoc(sn, xn, yd);
    nl_assoc(wn, xd, yd);
    nl_pull_through(s2n, uy + vy, dd, d2, d3);
    nl_flat_den_mid(hn, dd, d2, d4);
    nl_assoc(s2n, yn, xd);
    nl_swap_mid(xd, hn, yd);

    // The flat forms satisfy the shift identity.
    nl_distribute(ux, vx, d3);
    nl_expand_panned(sn, wn, dd, d3, d4, ux, vx);
    nl_regroup(sn, ux, wn, d4);
    nl_shift_term(sn, wn, vx, tx, dd, d4);
    assert(((sn * ((ux + vx) * d3)) * (wn * dd) - (sn * ux) * (wn * d4)) * wn == (sn * tx) * ((wn
        * d4) * (wn * dd)));

    nl_distribute(uy, vy, d3);
    nl_expand_panned(s2n, hn, dd, d3, d4, uy, vy);
    nl_regroup(s2n, uy, hn, d4);
    nl_shift_term(s2n, hn, vy, ty, dd, d4);
    assert(((s2n * ((uy + vy) * d3)) * (hn * dd) - (s2n * uy) * (hn * d4)) * hn == (s2n * ty) * ((hn
        * d4) * (hn * dd)));

    assert(q_eq(q_sub(panned.x, base.x), q_mul(proj.m11.q(), q_int(tx))));
    assert(q_eq(q_sub(panned.y, base.y), q_mul(proj.m22.q(), q_int(ty))));
    assert(q_eq(base.w, q_int(1)));
    assert(q_eq(panned.w, q_int(1)));
}

/// `((s*a)*d)*d2 == s*(a*d3)` when `d3 == d*d2`: scaling commutes past the
/// denominator powers.
proof fn nl_pull_through(s: int, a: int, d: int, d2: int, d3: int)
    by (nonlinear_arith)
    requires
        d3 == d * d2,
    ensures
        ((s * a) * d) * d2 == s * (a * d3),
{
}

/// `((w*d)*d)*d2` is `w` times the fourth power of `d`.
proof fn nl_flat_den_left(w: int, d: int, d2: int, d4: int)
    by (nonlinear_arith)
    requires
        d2 == d * d,
        d4 == d * (d * d2),
    ensures
        ((w * d) * d) * d2 == w * d4,
{
}

/// `(d*(h*d))*d2` is `h` times the fourth power of `d`.
proof fn nl_flat_den_mid(h: int, d: int, d2: int, d4: int)
    by (nonlinear_arith)
    requires
        d2 == d * d,
        d4 == d * (d * d2),
    ensures
        (d * (h * d)) * d2 == h * d4,
{
}

/// Associativity of one three-way product.
proof fn nl_assoc(a: int, b: int, c: int)
    by (nonlinear_arith)
    ensures
        (a * b) * c == a * (b * c),
{
}

/// The middle factor of a three-way product moves to the front.
proof fn nl_swap_mid(a: int, b: int, c: int)
    by (nonlinear_arith)
    ensures
        a * (b * c) == b * (a * c),
{
}

/// Multiplication distributes over one sum.
proof fn nl_distribute(u: int, v: int, d: int)
    by (nonlinear_arith)
    ensures
        (u + v) * d == u * d + v * d,
{
}

/// The panned numerator times the base denominator splits into the base
/// term and the shift term.
proof fn nl_expand_panned(s: int, w: int, d: int, d3: int, d4: int, u: int, v: int)
    requires
        d4 == d * d3,
    ensures
        (s * ((u + v) * d3)) * (w * d) == (s * w) * (u * d4) + (s * w) * (v * d4),
{
    assert((u + v) * d3 == u * d3 + v * d3) by (nonlinear_arith);
    assert(s * (u * d3 + v * d3) == s * (u * d3) + s * (v * d3)) by (nonlinear_arith);
    assert((s * (u * d3) + s * (v * d3)) * (w * d) == (s * (u * d3)) * (w * d) + (s * (v * d3)) * (w
        * d)) by (nonlinear_arith);
    assert((s * (u * d3)) * (w * d) == (s * w) * (u * d4)) by (nonlinear_arith)
        requires
            d4 == d * d3,
    ;
    assert((s * (v * d3)) * (w * d) == (s * w) * (v * d4)) by (nonlinear_arith)
        requires
            d4 == d * d3,
    ;
}

/// The base numerator times the panned denominator regrouped to match.
proof fn nl_regroup(s: int, u: int, w: int, d4: int)
    by (nonlinear_arith)
    ensures
        (s * u) * (w * d4) == (s * w) * (u * d4),
{
}

/// The leftover shift term is the scale times the offset, over the product
/// of the two denominators.
proof fn nl_shift_term(s: int, w: int, v: int, t: int, d: int, d4: int)
    by (nonlinear_arith)
    requires
        v == t * d,
    ensures
        ((s * w) * (v * d4)) * w == (s * t) * ((w * d4) * (w * d)),
{
}

/// Build the view matrix for the camera: a pure translation by the camera
/// offset, always well formed.
pub fn view(cam: &CameraState) -> (m: Mat4)
    ensures
        m == spec_view(*cam),
        m.wf(),
{
    Mat4 {
        m11: Rat::from_int(1),
        m12: Rat::from_int(0),
        m13: Rat::from_int(0),
        m14: Rat::from_int(cam.x as i64),
        m21: Rat::from_int(0),
        m22: Rat::from_int(1),
        m23: Rat::from_int(0),
        m24: Rat::from_int(cam.y as i64),
        m31: Rat::from_int(0),
        m32: Rat::from_int(0),
        m33: Rat::from_int(1),
        m34: Rat::from_int(cam.z as i64),
        m41: Rat::from_int(0),
        m42: Rat::from_int(0),
        m43: Rat::from_int(0),
        m44: Rat::from_int(1),
    }
}

/// The pair of transforms the renderer needs, recomputed together from
/// camera and window state so neither can go stale on its own.
#[derive(Clone, Copy, PartialEq, Eq, Structural, Debug)]
pub struct Transforms {
    pub view: Mat4,
    pub projection: Mat4,
}

/// The aspect-corrected visible world width: `extent` world units scaled
/// by the window's width-to-height pixel ratio, as an exact rational.
pub open spec fn spec_aspect_width(extent: i64, win_w: u32, win_h: u32) -> Rat {
    Rat { num: (extent * win_w as i64) as i64, den: win_h as i64 }
}

/// Scale a world-height extent by the window's aspect ratio, exactly; a
/// window with a zero dimension has no aspect ratio and is rejected.
pub fn aspect_corrected_width(extent: i64, win_w: u32, win_h: u32) -> (r: Result<
    Rat,
    ProjectionError,
>)
    requires
        0 < extent <= 0x4000_0000,
    ensures
        r is Ok <==> win_w > 0 && win_h > 0,
        r == Err::<Rat, ProjectionError>(ProjectionError::EmptyViewport) <==> (win_w == 0 || win_h
            == 0),
        r matches Ok(w) ==> w == spec_aspect_width(extent, win_w, win_h) && w.wf() && w.num > 0,
{
    if win_w == 0 || win_h == 0 {
        return Err(ProjectionError::EmptyViewport);
    }
    proof {
        assert(0 < extent as int * win_w as int <= 0x4000_0000 * 0xffff_ffff) by (nonlinear_arith)
            requires
                0 < extent <= 0x4000_0000,
                0 < win_w as int <= 0xffff_ffff,
        ;
    }
    Ok(Rat { num: extent * win_w as i64, den: win_h as i64 })
}

/// Recompute both transforms for the current camera offset and window
/// size: the view translation and an orthographic projection showing
/// `WORLD_HEIGHT_UNITS` of world vertically, aspect-corrected horizontally.
/// Must be called, and both matrices reapplied, after every pan or resize.
pub fn frame_transforms(cam: &CameraState, win_w: u32, win_h: u32, near: i32, far: i32) -> (r:
    Result<Transforms, ProjectionError>)
    ensures
        r is Ok <==> win_w > 0 && win_h > 0 && near != far,
        r == Err::<Transforms, ProjectionError>(ProjectionError::EmptyViewport) <==> (win_w == 0
            || win_h == 0),
        r == Err::<Transforms, ProjectionError>(ProjectionError::DegenerateDepthRange) <==> (win_w
            > 0 && win_h > 0 && near == far),
        r matches Ok(t) ==> t.view == spec_view(*cam) && t.projection == spec_ortho(
            spec_aspect_width(WORLD_HEIGHT_UNITS, win_w, win_h),
            Rat { num: WORLD_HEIGHT_UNITS, den: 1 },
            near,
            far,
        ),
{
    let width = match aspect_corrected_width(WORLD_HEIGHT_UNITS, win_w, win_h) {
        Ok(w) => w,
        Err(e) => {
            return Err(e);
        },
    };
    let height = Rat { num: WORLD_HEIGHT_UNITS, den: 1 };
    let projection = match orthographic(width, height, near, far) {
        Ok(m) => m,
        Err(e) => {
            return Err(e);
        },
    };
    Ok(Transforms { view: view(cam), projection })
}

} // verus!
