use vstd::arithmetic::div_mod::lemma_div_is_ordered;
use vstd::arithmetic::div_mod::lemma_div_multiples_vanish_fancy;
use vstd::arithmetic::div_mod::lemma_hoist_over_denominator;
use vstd::prelude::*;

use crate::direction::Axis;
use crate::direction::Direction;

verus! {

/// Fine position units per model unit. A model unit is 1/16 of a block, so a
/// block spans `16 * FINE_PER_UNIT = FP_SCALE` fine units and a full cube's
/// corners lie at fine coordinates -FP_SCALE/2 and FP_SCALE/2 around the
/// block center.
pub const FINE_PER_UNIT: i32 = 256;

/// Denominator of the fixed-point rotation coefficients, equal to the number
/// of fine units in one block.
pub const FP_SCALE: i32 = 4096;

/// Every vertex coordinate handled by this crate stays within this many fine
/// units of the block center (four block widths; rotated corners of a legal
/// element stay well inside).
pub const COORD_BOUND: i32 = 16384;

/// A position in fine units, relative to the center of the block.
#[derive(Debug, Copy, Clone, PartialEq, Eq, Structural)]
pub struct Point3 {
    pub x: i32,
    pub y: i32,
    pub z: i32,
}

/// One texture coordinate pair, in texel units: 16 units span the texture.
#[derive(Debug, Copy, Clone, PartialEq, Eq, Structural)]
pub struct Uv {
    pub u: i32,
    pub v: i32,
}

/// An axis-aligned texture rectangle in texel units 0..16.
#[derive(Debug, Copy, Clone, PartialEq, Eq, Structural)]
pub struct UvRect {
    pub u1: i32,
    pub v1: i32,
    pub u2: i32,
    pub v2: i32,
}

/// A color with alpha, one byte per channel. All-255 doubles as the sentinel
/// for "no biome tint".
#[derive(Debug, Copy, Clone, PartialEq, Eq, Structural)]
pub struct Rgba {
    pub r: u8,
    pub g: u8,
    pub b: u8,
    pub a: u8,
}

impl Rgba {
    pub open spec fn spec_is_white(self) -> bool {
        self.r == 255 && self.g == 255 && self.b == 255 && self.a == 255
    }

    /// The "no tint" sentinel.
    pub fn white() -> (r: Rgba)
        ensures
            r.spec_is_white(),
    {
        Rgba { r: 255, g: 255, b: 255, a: 255 }
    }

    pub fn is_white(&self) -> (r: bool)
        ensures
            r == self.spec_is_white(),
    {
        self.r == 255 && self.g == 255 && self.b == 255 && self.a == 255
    }
}

impl Point3 {
    pub fn new(x: i32, y: i32, z: i32) -> (r: Point3)
        ensures
            r == (Point3 { x, y, z }),
    {
        Point3 { x, y, z }
    }

    pub open spec fn in_bounds(self) -> bool {
        -COORD_BOUND <= self.x <= COORD_BOUND && -COORD_BOUND <= self.y <= COORD_BOUND
            && -COORD_BOUND <= self.z <= COORD_BOUND
    }

    pub open spec fn spec_comp(self, i: int) -> int {
        if i == 0 {
            self.x as int
        } else if i == 1 {
            self.y as int
        } else {
            self.z as int
        }
    }

    /// Component by axis index: 0 is x, 1 is y, 2 is z.
    pub fn comp(&self, i: usize) -> (r: i32)
        requires
            i < 3,
        ensures
            r as int == self.spec_comp(i as int),
    {
        if i == 0 {
            self.x
        } else if i == 1 {
            self.y
        } else {
            self.z
        }
    }

    pub open spec fn spec_with_comp(self, i: int, v: i32) -> Point3 {
        if i == 0 {
            Point3 { x: v, ..self }
        } else if i == 1 {
            Point3 { y: v, ..self }
        } else {
            Point3 { z: v, ..self }
        }
    }

    pub fn with_comp(self, i: usize, v: i32) -> (r: Point3)
        requires
            i < 3,
        ensures
            r == self.spec_with_comp(i as int, v),
    {
        if i == 0 {
            Point3 { x: v, ..self }
        } else if i == 1 {
            Point3 { y: v, ..self }
        } else {
            Point3 { z: v, ..self }
        }
    }
}

/// The angles the model format allows for element rotation.
#[derive(Debug, Copy, Clone, PartialEq, Eq, Structural)]
pub enum Angle {
    Neg45,
    Neg22_5,
    Zero,
    Pos22_5,
    Pos45,
}

/// Rounds a value carrying an extra factor of `FP_SCALE` back to fine units,
/// to the nearest integer with ties toward positive infinity.
pub open spec fn fp_round(n: int) -> int {
    (n + 2048) / 4096
}

/// An axis rotation of one element, about `origin` (model units 0..16).
/// With `rescale`, the element is scaled up so a rotated full face still
/// spans the block.
#[derive(Debug, Copy, Clone, PartialEq, Eq, Structural)]
pub struct Rotation {
    pub origin: Point3,
    pub angle: Angle,
    pub axis: Axis,
    pub rescale: bool,
}

impl Rotation {
    pub open spec fn wf(self) -> bool {
        0 <= self.origin.x <= 16 && 0 <= self.origin.y <= 16 && 0 <= self.origin.z <= 16
    }

    /// Fixed-point cosine and sine of the angle, times `FP_SCALE`, with the
    /// rescale factor folded in. With rescale, the cosine column becomes
    /// exactly 1 and the sine column the tangent.
    pub open spec fn spec_coeffs(self) -> (int, int) {
        match self.angle {
            Angle::Zero => (4096, 0),
            Angle::Pos22_5 => if self.rescale {
                (4096, 1697)
            } else {
                (3784, 1567)
            },
            Angle::Neg22_5 => if self.rescale {
                (4096, -1697)
            } else {
                (3784, -1567)
            },
            Angle::Pos45 => if self.rescale {
                (4096, 4096)
            } else {
                (2896, 2896)
            },
            Angle::Neg45 => if self.rescale {
                (4096, -4096)
            } else {
                (2896, -2896)
            },
        }
    }

    pub fn coeffs(&self) -> (r: (i32, i32))
        ensures
            (r.0 as int, r.1 as int) == self.spec_coeffs(),
    {
        match self.angle {
            Angle::Zero => (4096, 0),
            Angle::Pos22_5 => if self.rescale {
                (4096, 1697)
            } else {
                (3784, 1567)
            },
            Angle::Neg22_5 => if self.rescale {
                (4096, -1697)
            } else {
                (3784, -1567)
            },
            Angle::Pos45 => if self.rescale {
                (4096, 4096)
            } else {
                (2896, 2896)
            },
            Angle::Neg45 => if self.rescale {
                (4096, -4096)
            } else {
                (2896, -2896)
            },
        }
    }

    /// The rotation origin in fine units relative to the block center.
    pub open spec fn spec_origin_fine(self) -> (int, int, int) {
        (
            (self.origin.x - 8) * 256,
            (self.origin.y - 8) * 256,
            (self.origin.z - 8) * 256,
        )
    }

    /// Where this rotation moves a point (fine units): the point is taken
    /// relative to the origin, turned by the coefficient matrix of the axis,
    /// rounded back to fine units, and put back.
    pub open spec fn spec_apply(self, p: Point3) -> (int, int, int) {
        let (a, b) = self.spec_coeffs();
        let (ox, oy, oz) = self.spec_origin_fine();
        let dx = p.x - ox;
        let dy = p.y - oy;
        let dz = p.z - oz;
        match self.axis {
            Axis::X => (
                p.x as int,
                fp_round(a * dy + b * dz) + oy,
                fp_round((-b) * dy + a * dz) + oz,
            ),
            Axis::Y => (
                fp_round(a * dx + (-b) * dz) + ox,
                p.y as int,
                fp_round(b * dx + a * dz) + oz,
            ),
            Axis::Z => (
                fp_round(a * dx + b * dy) + ox,
                fp_round((-b) * dx + a * dy) + oy,
                p.z as int,
            ),
        }
    }

    /// Rotates one point, in fine units.
    pub fn apply(&self, p: Point3) -> (r: Point3)
        requires
            self.wf(),
            -4096 <= p.x <= 4096,
            -4096 <= p.y <= 4096,
            -4096 <= p.z <= 4096,
        ensures
            (r.x as int, r.y as int, r.z as int) == self.spec_apply(p),
            r.in_bounds(),
    {
        let (a, b) = self.coeffs();
        let ox = (self.origin.x - 8) * 256;
        let oy = (self.origin.y - 8) * 256;
        let oz = (self.origin.z - 8) * 256;
        let dx = p.x - ox;
        let dy = p.y - oy;
        let dz = p.z - oz;
        match self.axis {
            Axis::X => {
                let ry = fp_mul2(a, dy, b, dz) + oy;
                let rz = fp_mul2(-b, dy, a, dz) + oz;
                Point3 { x: p.x, y: ry, z: rz }
            },
            Axis::Y => {
                let rx = fp_mul2(a, dx, -b, dz) + ox;
                let rz = fp_mul2(b, dx, a, dz) + oz;
                Point3 { x: rx, y: p.y, z: rz }
            },
            Axis::Z => {
                let rx = fp_mul2(a, dx, b, dy) + ox;
                let ry = fp_mul2(-b, dx, a, dy) + oy;
                Point3 { x: rx, y: ry, z: p.z }
            },
        }
    }
}

/// `fp_round(a * dx + b * dy)` without overflow, for coefficient-sized
/// factors.
fn fp_mul2(a: i32, dx: i32, b: i32, dy: i32) -> (r: i32)
    requires
        -4096 <= a <= 4096,
        -4096 <= b <= 4096,
        -6144 <= dx <= 6144,
        -6144 <= dy <= 6144,
    ensures
        r as int == fp_round(a * dx + b * dy),
        -12288 <= r <= 12288,
{
    proof {
        assert((a * dx) <= 4096 * 6144 && (a * dx) >= -(4096 * 6144)) by (nonlinear_arith)
            requires
                -4096 <= a <= 4096,
                -6144 <= dx <= 6144,
        ;
        assert((b * dy) <= 4096 * 6144 && (b * dy) >= -(4096 * 6144)) by (nonlinear_arith)
            requires
                -4096 <= b <= 4096,
                -6144 <= dy <= 6144,
        ;
    }
    let n: i64 = (a as i64) * (dx as i64) + (b as i64) * (dy as i64);
    let m: i64 = n + 2048 + 1073741824;
    let q: u64 = (m as u64) / 4096;
    proof {
        lemma_hoist_over_denominator(n + 2048, 262144, 4096nat);
        assert(m as int / 4096 == fp_round(n as int) + 262144);
        // Bound the quotient so the casts below stay in range.
        lemma_div_is_ordered(1023412224, n + 2048 + 1073741824, 4096);
        lemma_div_is_ordered(n + 2048 + 1073741824, 1124075520, 4096);
    }
    let r: i64 = (q as i64) - 262144;
    r as i32
}

/// `fp_round` is exact on whole multiples of the scale; rotating by the zero
/// angle therefore moves nothing.
pub proof fn lemma_fp_round_exact(x: int)
    ensures
        fp_round(4096 * x) == x,
{
    lemma_div_multiples_vanish_fancy(x, 2048, 4096);
}

/// Rotating a point by angle zero is the identity, whatever the axis, origin
/// and rescale flag.
pub proof fn lemma_rotate_zero_identity(rot: Rotation, p: Point3)
    requires
        rot.angle == Angle::Zero,
    ensures
        rot.spec_apply(p) == (p.x as int, p.y as int, p.z as int),
{
    let (ox, oy, oz) = rot.spec_origin_fine();
    lemma_fp_round_exact(p.x - ox);
    lemma_fp_round_exact(p.y - oy);
    lemma_fp_round_exact(p.z - oz);
}

} // verus!
