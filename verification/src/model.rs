use vstd::prelude::*;

use crate::direction::Direction;
use crate::geometry::Point3;
use crate::geometry::Rgba;
use crate::geometry::Uv;
use crate::opacity::Opacity;

verus! {

/// One corner of a renderable face: position in fine units around the block
/// center, texture coordinates in texel units, and the face's base color.
#[derive(Debug, Copy, Clone, PartialEq, Eq, Structural)]
pub struct Vertex {
    pub position: Point3,
    pub uv: Uv,
    pub color: Rgba,
}

/// A renderable quad of a resolved model.
#[derive(Debug, Clone)]
pub struct Face {
    pub vertices: Vec<Vertex>,
    pub cull_face: Option<Direction>,
    pub ao_face: Option<Direction>,
    pub texture: String,
}

impl Face {
    pub open spec fn wf(self) -> bool {
        &&& self.vertices.len() == 4
        &&& forall|i: int| 0 <= i < 4 ==> (#[trigger] self.vertices[i]).position.in_bounds()
    }

    /// All texture coordinates lie in the given range.
    pub open spec fn uvs_within(self, lo: int, hi: int) -> bool {
        forall|i: int|
            0 <= i < self.vertices.len() ==> lo <= (#[trigger] self.vertices[i]).uv.u <= hi && lo
                <= self.vertices[i].uv.v <= hi
    }
}

/// A fully resolved model: its renderable faces, how many tint palette
/// entries it was built with, and one opacity classification per cube
/// direction, indexed by `Direction::spec_index`.
#[derive(Debug, Clone)]
pub struct Model {
    pub faces: Vec<Face>,
    pub tints: usize,
    pub opacity: Vec<Opacity>,
}

impl Model {
    pub open spec fn wf(self) -> bool {
        &&& self.opacity.len() == 6
        &&& forall|i: int| 0 <= i < self.faces.len() ==> (#[trigger] self.faces[i]).wf()
    }

    pub open spec fn uvs_within(self, lo: int, hi: int) -> bool {
        forall|i: int| 0 <= i < self.faces.len() ==> (#[trigger] self.faces[i]).uvs_within(lo, hi)
    }

    pub open spec fn spec_is_empty(self) -> bool {
        self.faces.len() == 0
    }

    /// The model of air: no faces, no tints, transparent from every side.
    pub fn empty() -> (r: Model)
        ensures
            r.spec_is_empty(),
            r.tints == 0,
            forall|i: int| 0 <= i < 6 ==> r.opacity[i] == Opacity::Transparent,
            r.wf(),
    {
        let mut opacity: Vec<Opacity> = Vec::new();
        let mut i: usize = 0;
        while i < 6
            invariant
                i <= 6,
                opacity.len() == i,
                forall|j: int| 0 <= j < i ==> opacity[j] == Opacity::Transparent,
            decreases 6 - i,
        {
            opacity.push(Opacity::Transparent);
            i += 1;
        }
        Model { faces: Vec::new(), tints: 0, opacity }
    }

    pub fn is_empty(&self) -> (r: bool)
        ensures
            r == self.spec_is_empty(),
    {
        self.faces.len() == 0
    }
}

/// A quarter, half or three-quarter turn of the plane spanned by two axes:
/// what the rotation matrices for 90, 180 and 270 degrees do to a
/// coordinate pair.
pub open spec fn spec_turn2(r: int, x: int, y: int) -> (int, int) {
    if r == 90 {
        (-y, x)
    } else if r == 180 {
        (-x, -y)
    } else if r == 270 {
        (y, -x)
    } else {
        (x, y)
    }
}

/// What the same turns do to a texture-coordinate pair under UV lock (the
/// inverse turn, so the texture stays put in world space).
pub open spec fn spec_uv_turn2(r: int, u: int, v: int) -> (int, int) {
    if r == 90 {
        (v, -u)
    } else if r == 180 {
        (-u, -v)
    } else if r == 270 {
        (-v, u)
    } else {
        (u, v)
    }
}

/// Turns the `ix`/`iy` components of a point, leaving the third alone.
pub open spec fn spec_turn_point(ix: int, iy: int, r: int, p: Point3) -> Point3 {
    let (nx, ny) = spec_turn2(r, p.spec_comp(ix), p.spec_comp(iy));
    p.spec_with_comp(ix, nx as i32).spec_with_comp(iy, ny as i32)
}

fn turn2(r: usize, x: i32, y: i32) -> (t: (i32, i32))
    requires
        r == 90 || r == 180 || r == 270,
        -16384 <= x <= 16384,
        -16384 <= y <= 16384,
    ensures
        (t.0 as int, t.1 as int) == spec_turn2(r as int, x as int, y as int),
{
    if r == 90 {
        (-y, x)
    } else if r == 180 {
        (-x, -y)
    } else {
        (y, -x)
    }
}

fn turn_point(ix: usize, iy: usize, r: usize, p: Point3) -> (t: Point3)
    requires
        ix < 3,
        iy < 3,
        ix != iy,
        r == 90 || r == 180 || r == 270,
        p.in_bounds(),
    ensures
        t == spec_turn_point(ix as int, iy as int, r as int, p),
        t.in_bounds(),
{
    let (nx, ny) = turn2(r, p.comp(ix), p.comp(iy));
    p.with_comp(ix, nx).with_comp(iy, ny)
}

/// The direction whose neighbor offset is exactly this unit point, if any.
pub open spec fn spec_dir_of_point(p: Point3) -> Option<Direction> {
    if p == (Point3 { x: 0, y: 1, z: 0 }) {
        Some(Direction::Top)
    } else if p == (Point3 { x: 0, y: -1i32, z: 0 }) {
        Some(Direction::Bottom)
    } else if p == (Point3 { x: 0, y: 0, z: 1 }) {
        Some(Direction::Front)
    } else if p == (Point3 { x: 0, y: 0, z: -1i32 }) {
        Some(Direction::Back)
    } else if p == (Point3 { x: 1, y: 0, z: 0 }) {
        Some(Direction::Right)
    } else if p == (Point3 { x: -1i32, y: 0, z: 0 }) {
        Some(Direction::Left)
    } else {
        None
    }
}

fn dir_of_point(p: Point3) -> (r: Option<Direction>)
    ensures
        r == spec_dir_of_point(p),
{
    if p.x == 0 && p.y == 1 && p.z == 0 {
        Some(Direction::Top)
    } else if p.x == 0 && p.y == -1 && p.z == 0 {
        Some(Direction::Bottom)
    } else if p.x == 0 && p.y == 0 && p.z == 1 {
        Some(Direction::Front)
    } else if p.x == 0 && p.y == 0 && p.z == -1 {
        Some(Direction::Back)
    } else if p.x == 1 && p.y == 0 && p.z == 0 {
        Some(Direction::Right)
    } else if p.x == -1 && p.y == 0 && p.z == 0 {
        Some(Direction::Left)
    } else {
        None
    }
}

/// Where a face's cull or ambient-occlusion direction moves under a turn of
/// the `ix`/`iy` plane: the direction's unit offset is turned and snapped
/// back to a canonical direction.
pub open spec fn spec_fixup_dir(d: Direction, ix: int, iy: int, r: int) -> Direction {
    let (ox, oy, oz) = d.spec_offset();
    let p = Point3 { x: ox as i32, y: oy as i32, z: oz as i32 };
    match spec_dir_of_point(spec_turn_point(ix, iy, r, p)) {
        Some(nd) => nd,
        None => d,
    }
}

fn fixup_dir(d: Direction, ix: usize, iy: usize, r: usize) -> (nd: Direction)
    requires
        ix < 3,
        iy < 3,
        ix != iy,
        r == 90 || r == 180 || r == 270,
    ensures
        nd == spec_fixup_dir(d, ix as int, iy as int, r as int),
{
    let (ox, oy, oz) = d.offset();
    let p = Point3 { x: ox, y: oy, z: oz };
    let turned = turn_point(ix, iy, r, p);
    match dir_of_point(turned) {
        Some(nd) => nd,
        None => d,
    }
}

/// A quarter turn applied four times in the same plane brings every point
/// back where it started.
pub proof fn lemma_four_quarter_turns(ix: int, iy: int, p: Point3)
    requires
        0 <= ix < 3,
        0 <= iy < 3,
        ix != iy,
        p.in_bounds(),
    ensures
        spec_turn_point(
            ix,
            iy,
            90,
            spec_turn_point(ix, iy, 90, spec_turn_point(ix, iy, 90, spec_turn_point(ix, iy, 90, p))),
        ) == p,
{
}

} // verus!

verus! {

pub open spec fn spec_min4(a: int, b: int, c: int, d: int) -> int {
    let m1 = if a <= b {
        a
    } else {
        b
    };
    let m2 = if c <= d {
        c
    } else {
        d
    };
    if m1 <= m2 {
        m1
    } else {
        m2
    }
}

/// The texture-tile origin below a coordinate: the nearest multiple of 16
/// not above it. UV lock turns texture coordinates about the center of this
/// tile so the rotated texture still lines up with the tile grid.
pub open spec fn spec_uv_base(m: int) -> int {
    16 * (m / 16)
}

/// Whether a face sits flat in the turned plane: all four turned positions
/// share their `ix` component or all share their `iy` component. UV lock
/// skips such faces; their texture does not turn with the plane.
pub open spec fn spec_face_skips_uvlock(f: Face, ix: int, iy: int, r: int) -> bool {
    let p0 = spec_turn_point(ix, iy, r, f.vertices[0].position);
    let p1 = spec_turn_point(ix, iy, r, f.vertices[1].position);
    let p2 = spec_turn_point(ix, iy, r, f.vertices[2].position);
    let p3 = spec_turn_point(ix, iy, r, f.vertices[3].position);
    (p1.spec_comp(ix) == p0.spec_comp(ix) && p2.spec_comp(ix) == p0.spec_comp(ix) && p3.spec_comp(
        ix,
    ) == p0.spec_comp(ix)) || (p1.spec_comp(iy) == p0.spec_comp(iy) && p2.spec_comp(iy)
        == p0.spec_comp(iy) && p3.spec_comp(iy) == p0.spec_comp(iy))
}

/// Where UV lock moves one texture coordinate pair of a face: taken relative
/// to the center of the tile under the face's smallest coordinates, turned
/// backwards, and put back.
pub open spec fn spec_uvlock_uv(f: Face, r: int, uv: Uv) -> Uv {
    let u_base = spec_uv_base(
        spec_min4(
            f.vertices[0].uv.u as int,
            f.vertices[1].uv.u as int,
            f.vertices[2].uv.u as int,
            f.vertices[3].uv.u as int,
        ),
    );
    let v_base = spec_uv_base(
        spec_min4(
            f.vertices[0].uv.v as int,
            f.vertices[1].uv.v as int,
            f.vertices[2].uv.v as int,
            f.vertices[3].uv.v as int,
        ),
    );
    let (tu, tv) = spec_uv_turn2(r, uv.u - u_base - 8, uv.v - v_base - 8);
    Uv { u: (tu + 8 + u_base) as i32, v: (tv + 8 + v_base) as i32 }
}

/// Vertex `i` of a face after a turn: position turned; texture coordinates
/// turned under UV lock unless the face lies flat in the plane; color kept.
pub open spec fn spec_rotate_vertex(f: Face, ix: int, iy: int, r: int, uvlock: bool, i: int) -> Vertex {
    let old_vertex = f.vertices[i];
    let uv = if uvlock && !spec_face_skips_uvlock(f, ix, iy, r) {
        spec_uvlock_uv(f, r, old_vertex.uv)
    } else {
        old_vertex.uv
    };
    Vertex { position: spec_turn_point(ix, iy, r, old_vertex.position), uv, color: old_vertex.color }
}

pub open spec fn spec_fixup_opt_dir(d: Option<Direction>, ix: int, iy: int, r: int) -> Option<
    Direction,
> {
    match d {
        Some(d) => Some(spec_fixup_dir(d, ix, iy, r)),
        None => None,
    }
}

fn uv_turn2(r: usize, u: i32, v: i32) -> (t: (i32, i32))
    requires
        r == 90 || r == 180 || r == 270,
        -1000000 <= u <= 1000000,
        -1000000 <= v <= 1000000,
    ensures
        (t.0 as int, t.1 as int) == spec_uv_turn2(r as int, u as int, v as int),
{
    if r == 90 {
        (v, -u)
    } else if r == 180 {
        (-u, -v)
    } else {
        (-v, u)
    }
}

/// `16 * (m / 16)` with Euclidean division, for moderately sized inputs.
fn uv_base(m: i32) -> (r: i32)
    requires
        -400000 <= m <= 400000,
    ensures
        r as int == spec_uv_base(m as int),
        r <= m < r + 16,
{
    proof {
        vstd::arithmetic::div_mod::lemma_hoist_over_denominator(m as int, 25000, 16nat);
        vstd::arithmetic::div_mod::lemma_remainder_upper(m + 400000, 16);
        vstd::arithmetic::div_mod::lemma_remainder_lower(m + 400000, 16);
    }
    ((m + 400000) / 16) * 16 - 400000
}

fn min4(a: i32, b: i32, c: i32, d: i32) -> (r: i32)
    ensures
        r as int == spec_min4(a as int, b as int, c as int, d as int),
{
    let m1 = if a <= b {
        a
    } else {
        b
    };
    let m2 = if c <= d {
        c
    } else {
        d
    };
    if m1 <= m2 {
        m1
    } else {
        m2
    }
}

/// One face after a turn of the `ix`/`iy` plane: vertices turned, cull and
/// ambient-occlusion directions turned the same way, texture kept.
fn rotate_face(f: &Face, ix: usize, iy: usize, r: usize, uvlock: bool) -> (nf: Face)
    requires
        f.wf(),
        f.uvs_within(-100000, 100000),
        ix < 3,
        iy < 3,
        ix != iy,
        r == 90 || r == 180 || r == 270,
    ensures
        nf.wf(),
        nf.texture == f.texture,
        nf.cull_face == spec_fixup_opt_dir(f.cull_face, ix as int, iy as int, r as int),
        nf.ao_face == spec_fixup_opt_dir(f.ao_face, ix as int, iy as int, r as int),
        forall|i: int|
            0 <= i < 4 ==> #[trigger] nf.vertices[i] == spec_rotate_vertex(
                *f,
                ix as int,
                iy as int,
                r as int,
                uvlock,
                i,
            ),
{
    let p0 = turn_point(ix, iy, r, f.vertices[0].position);
    let p1 = turn_point(ix, iy, r, f.vertices[1].position);
    let p2 = turn_point(ix, iy, r, f.vertices[2].position);
    let p3 = turn_point(ix, iy, r, f.vertices[3].position);

    let skip = (p1.comp(ix) == p0.comp(ix) && p2.comp(ix) == p0.comp(ix) && p3.comp(ix) == p0.comp(
        ix,
    )) || (p1.comp(iy) == p0.comp(iy) && p2.comp(iy) == p0.comp(iy) && p3.comp(iy) == p0.comp(iy));
    let lock = uvlock && !skip;

    let u_base: i32 = if lock {
        uv_base(
            min4(f.vertices[0].uv.u, f.vertices[1].uv.u, f.vertices[2].uv.u, f.vertices[3].uv.u),
        )
    } else {
        0
    };
    let v_base: i32 = if lock {
        uv_base(
            min4(f.vertices[0].uv.v, f.vertices[1].uv.v, f.vertices[2].uv.v, f.vertices[3].uv.v),
        )
    } else {
        0
    };

    let mut vertices: Vec<Vertex> = Vec::new();
    let mut i: usize = 0;
    while i < 4
        invariant
            f.wf(),
            f.uvs_within(-100000, 100000),
            ix < 3,
            iy < 3,
            ix != iy,
            r == 90 || r == 180 || r == 270,
            i <= 4,
            vertices.len() == i,
            lock == (uvlock && !spec_face_skips_uvlock(*f, ix as int, iy as int, r as int)),
            lock ==> u_base as int == spec_uv_base(
                spec_min4(
                    f.vertices[0].uv.u as int,
                    f.vertices[1].uv.u as int,
                    f.vertices[2].uv.u as int,
                    f.vertices[3].uv.u as int,
                ),
            ),
            lock ==> v_base as int == spec_uv_base(
                spec_min4(
                    f.vertices[0].uv.v as int,
                    f.vertices[1].uv.v as int,
                    f.vertices[2].uv.v as int,
                    f.vertices[3].uv.v as int,
                ),
            ),
            lock ==> -100016 <= u_base <= 100000 && -100016 <= v_base <= 100000,
            forall|j: int|
                0 <= j < i ==> #[trigger] vertices[j] == spec_rotate_vertex(
                    *f,
                    ix as int,
                    iy as int,
                    r as int,
                    uvlock,
                    j,
                ),
            forall|j: int| 0 <= j < i ==> (#[trigger] vertices[j]).position.in_bounds(),
        decreases 4 - i,
    {
        let old_vertex = &f.vertices[i];
        let position = turn_point(ix, iy, r, old_vertex.position);
        let uv = if lock {
            let (tu, tv) = uv_turn2(r, old_vertex.uv.u - u_base - 8, old_vertex.uv.v - v_base - 8);
            Uv { u: tu + 8 + u_base, v: tv + 8 + v_base }
        } else {
            old_vertex.uv
        };
        vertices.push(Vertex { position, uv, color: old_vertex.color });
        i += 1;
    }

    let cull_face = match &f.cull_face {
        Some(d) => Some(fixup_dir(*d, ix, iy, r)),
        None => None,
    };
    let ao_face = match &f.ao_face {
        Some(d) => Some(fixup_dir(*d, ix, iy, r)),
        None => None,
    };
    Face { vertices, cull_face, ao_face, texture: f.texture.clone() }
}

} // verus!

verus! {

/// How one face of the turned model relates to the face it came from.
pub open spec fn spec_face_rotated(of: Face, nf: Face, ix: int, iy: int, r: int, uvlock: bool) -> bool {
    &&& nf.texture == of.texture
    &&& nf.cull_face == spec_fixup_opt_dir(of.cull_face, ix, iy, r)
    &&& nf.ao_face == spec_fixup_opt_dir(of.ao_face, ix, iy, r)
    &&& nf.vertices.len() == 4
    &&& forall|i: int|
        0 <= i < 4 ==> #[trigger] nf.vertices[i] == spec_rotate_vertex(of, ix, iy, r, uvlock, i)
}

impl Model {
    /// Turns the whole model by `r` degrees in the plane of axes `ix` and
    /// `iy` (0 is x, 1 is y, 2 is z): every vertex turns, cull and
    /// ambient-occlusion directions turn with it, the per-direction opacity
    /// table is permuted the same way, and with `uvlock` the texture
    /// coordinates are turned backwards so the texture stays put in world
    /// space. `r` of 0 changes nothing.
    pub fn rotate(&mut self, ix: usize, iy: usize, r: usize, uvlock: bool)
        requires
            ix < 3,
            iy < 3,
            ix != iy,
            r == 0 || r == 90 || r == 180 || r == 270,
            old(self).wf(),
            old(self).uvs_within(-100000, 100000),
        ensures
            final(self).wf(),
            final(self).tints == old(self).tints,
            r == 0 ==> *final(self) == *old(self),
            r != 0 ==> final(self).faces.len() == old(self).faces.len(),
            r != 0 ==> forall|fi: int|
                0 <= fi < old(self).faces.len() ==> spec_face_rotated(
                    old(self).faces[fi],
                    #[trigger] final(self).faces[fi],
                    ix as int,
                    iy as int,
                    r as int,
                    uvlock,
                ),
            r != 0 ==> forall|d: Direction|
                final(self).opacity[(#[trigger] spec_fixup_dir(
                    d,
                    ix as int,
                    iy as int,
                    r as int,
                )).spec_index()] == old(self).opacity[d.spec_index()],
    {
        if r == 0 {
            return ;
        }
        let mut new_faces: Vec<Face> = Vec::new();
        let mut fi: usize = 0;
        while fi < self.faces.len()
            invariant
                *self == *old(self),
                old(self).wf(),
                old(self).uvs_within(-100000, 100000),
                ix < 3,
                iy < 3,
                ix != iy,
                r == 90 || r == 180 || r == 270,
                fi <= self.faces.len(),
                new_faces.len() == fi,
                forall|j: int|
                    0 <= j < fi ==> spec_face_rotated(
                        old(self).faces[j],
                        #[trigger] new_faces[j],
                        ix as int,
                        iy as int,
                        r as int,
                        uvlock,
                    ),
                forall|j: int| 0 <= j < fi ==> (#[trigger] new_faces[j]).wf(),
            decreases self.faces.len() - fi,
        {
            let nf = rotate_face(&self.faces[fi], ix, iy, r, uvlock);
            new_faces.push(nf);
            fi += 1;
        }

        let mut op: Vec<Opacity> = Vec::new();
        let mut k: usize = 0;
        while k < 6
            invariant
                k <= 6,
                op.len() == k,
            decreases 6 - k,
        {
            op.push(Opacity::Transparent);
            k += 1;
        }
        let i_top = fixup_dir(Direction::Top, ix, iy, r).index();
        let i_bottom = fixup_dir(Direction::Bottom, ix, iy, r).index();
        let i_front = fixup_dir(Direction::Front, ix, iy, r).index();
        let i_back = fixup_dir(Direction::Back, ix, iy, r).index();
        let i_right = fixup_dir(Direction::Right, ix, iy, r).index();
        let i_left = fixup_dir(Direction::Left, ix, iy, r).index();
        proof {
            // The six turned directions stay six distinct directions.
            assert(i_top < 6 && i_bottom < 6 && i_front < 6 && i_back < 6 && i_right < 6 && i_left
                < 6);
            assert(i_top != i_bottom && i_top != i_front && i_top != i_back && i_top != i_right
                && i_top != i_left && i_bottom != i_front && i_bottom != i_back && i_bottom
                != i_right && i_bottom != i_left && i_front != i_back && i_front != i_right
                && i_front != i_left && i_back != i_right && i_back != i_left && i_right != i_left);
        }
        op[i_top] = self.opacity[0];
        op[i_bottom] = self.opacity[1];
        op[i_front] = self.opacity[2];
        op[i_back] = self.opacity[3];
        op[i_right] = self.opacity[4];
        op[i_left] = self.opacity[5];

        self.faces = new_faces;
        self.opacity = op;
    }
}

} // verus!
