use vstd::arithmetic::div_mod::lemma_hoist_over_denominator;
use vstd::prelude::*;

use crate::chunk::Neighborhood;
use crate::direction::Direction;
use crate::geometry::Point3;
use crate::geometry::Rgba;
use crate::geometry::Uv;
use crate::model::Face;
use crate::model::Model;
use crate::opacity::Opacity;
use crate::registry::BiomeLoader;
use crate::registry::BlockStatesLoader;

verus! {

/// One emitted vertex: the cell it belongs to, the corner offset in fine
/// units around the cell center, texture coordinates, and the shaded color.
#[derive(Debug, Copy, Clone, PartialEq, Eq, Structural)]
pub struct MeshVertex {
    pub bx: i32,
    pub by: i32,
    pub bz: i32,
    pub off: Point3,
    pub uv: Uv,
    pub color: Rgba,
}

/// One emitted quad: four vertices, the fixed fan triangulation, and the
/// texture to draw it with.
#[derive(Debug, Clone)]
pub struct FaceMesh {
    pub vertices: Vec<MeshVertex>,
    pub indices: Vec<u8>,
    pub texture: String,
}

/// The registered model of the block at a position, if any.
pub open spec fn spec_model_at(
    reg: BlockStatesLoader,
    view: Neighborhood,
    x: int,
    y: int,
    z: int,
) -> Option<Model> {
    let id = view.spec_block_at(x, y, z);
    if id < reg.models.len() {
        match reg.models[id as int] {
            Some(e) => Some(e.1),
            None => None,
        }
    } else {
        None
    }
}

/// Opaque from every side; what face culling for lighting treats as a
/// fully light-blocking neighbor.
pub open spec fn spec_opaque_at(
    reg: BlockStatesLoader,
    view: Neighborhood,
    x: int,
    y: int,
    z: int,
) -> bool {
    match spec_model_at(reg, view, x, y, z) {
        Some(m) => forall|i: int| 0 <= i < 6 ==> #[trigger] m.opacity[i] == Opacity::Opaque,
        None => false,
    }
}

/// Geometrically solid from every side; what darkens an ambient-occlusion
/// corner.
pub open spec fn spec_solid_at(
    reg: BlockStatesLoader,
    view: Neighborhood,
    x: int,
    y: int,
    z: int,
) -> bool {
    match spec_model_at(reg, view, x, y, z) {
        Some(m) => forall|i: int| 0 <= i < 6 ==> #[trigger] m.opacity[i] != Opacity::Transparent,
        None => false,
    }
}

/// Whether the neighbor a face's cull direction points at is opaque toward
/// the face, which hides the face entirely.
pub open spec fn spec_culled(
    reg: BlockStatesLoader,
    view: Neighborhood,
    x: int,
    y: int,
    z: int,
    face: Face,
) -> bool {
    match face.cull_face {
        Some(cd) => {
            let (ox, oy, oz) = cd.spec_offset();
            match spec_model_at(reg, view, x + ox, y + oy, z + oz) {
                Some(m) => m.opacity[cd.spec_opposite().spec_index()] == Opacity::Opaque,
                None => false,
            }
        },
        None => false,
    }
}

/// The block cell a fine offset rounds into: the nearest cell boundary,
/// ties toward positive infinity.
pub open spec fn spec_round_rel(v: int) -> int {
    (v + 2048) / 4096
}

/// Whether the sample at corner offsets `(ox, oy, oz)` (0 picks the cell
/// below the rounded corner, 1 the cell at it) lies on the side the
/// ambient-occlusion direction faces.
pub open spec fn spec_above(ao: Direction, ox: int, oy: int, oz: int) -> bool {
    let (ax, ay, az) = ao.spec_offset();
    &&& (ax == -1 ==> ox == 0)
    &&& (ax == 1 ==> ox == 1)
    &&& (ay == -1 ==> oy == 0)
    &&& (ay == 1 ==> oy == 1)
    &&& (az == -1 ==> oz == 0)
    &&& (az == 1 ==> oz == 1)
}

/// Whether one of the eight cells around a rounded corner contributes to
/// the light average: with an ambient-occlusion direction only the cells
/// on its side count; without one, every cell that is not opaque counts.
pub open spec fn spec_sample_included(
    reg: BlockStatesLoader,
    view: Neighborhood,
    ao: Option<Direction>,
    rx: int,
    ry: int,
    rz: int,
    ox: int,
    oy: int,
    oz: int,
) -> bool {
    match ao {
        Some(d) => spec_above(d, ox, oy, oz),
        None => !spec_opaque_at(reg, view, rx - 1 + ox, ry - 1 + oy, rz - 1 + oz),
    }
}

/// The light one sample contributes: its cell's brighter light nibble,
/// zeroed when an ambient-occlusion sample's cell is itself solid (the
/// corner-darkening effect), and zero for excluded samples.
pub open spec fn spec_sample_light(
    reg: BlockStatesLoader,
    view: Neighborhood,
    ao: Option<Direction>,
    rx: int,
    ry: int,
    rz: int,
    ox: int,
    oy: int,
    oz: int,
) -> int {
    if !spec_sample_included(reg, view, ao, rx, ry, rz, ox, oy, oz) {
        0
    } else {
        let sx = rx - 1 + ox;
        let sy = ry - 1 + oy;
        let sz = rz - 1 + oz;
        match ao {
            Some(_) => if spec_solid_at(reg, view, sx, sy, sz) {
                0
            } else {
                view.spec_light_at(sx, sy, sz).spec_light()
            },
            None => view.spec_light_at(sx, sy, sz).spec_light(),
        }
    }
}

pub open spec fn spec_light_sum(
    reg: BlockStatesLoader,
    view: Neighborhood,
    ao: Option<Direction>,
    rx: int,
    ry: int,
    rz: int,
) -> int {
    spec_sample_light(reg, view, ao, rx, ry, rz, 0, 0, 0) + spec_sample_light(
        reg,
        view,
        ao,
        rx,
        ry,
        rz,
        0,
        0,
        1,
    ) + spec_sample_light(reg, view, ao, rx, ry, rz, 0, 1, 0) + spec_sample_light(
        reg,
        view,
        ao,
        rx,
        ry,
        rz,
        0,
        1,
        1,
    ) + spec_sample_light(reg, view, ao, rx, ry, rz, 1, 0, 0) + spec_sample_light(
        reg,
        view,
        ao,
        rx,
        ry,
        rz,
        1,
        0,
        1,
    ) + spec_sample_light(reg, view, ao, rx, ry, rz, 1, 1, 0) + spec_sample_light(
        reg,
        view,
        ao,
        rx,
        ry,
        rz,
        1,
        1,
        1,
    )
}

pub open spec fn spec_included_one(
    reg: BlockStatesLoader,
    view: Neighborhood,
    ao: Option<Direction>,
    rx: int,
    ry: int,
    rz: int,
    ox: int,
    oy: int,
    oz: int,
) -> int {
    if spec_sample_included(reg, view, ao, rx, ry, rz, ox, oy, oz) {
        1
    } else {
        0
    }
}

pub open spec fn spec_light_count(
    reg: BlockStatesLoader,
    view: Neighborhood,
    ao: Option<Direction>,
    rx: int,
    ry: int,
    rz: int,
) -> int {
    spec_included_one(reg, view, ao, rx, ry, rz, 0, 0, 0) + spec_included_one(
        reg,
        view,
        ao,
        rx,
        ry,
        rz,
        0,
        0,
        1,
    ) + spec_included_one(reg, view, ao, rx, ry, rz, 0, 1, 0) + spec_included_one(
        reg,
        view,
        ao,
        rx,
        ry,
        rz,
        0,
        1,
        1,
    ) + spec_included_one(reg, view, ao, rx, ry, rz, 1, 0, 0) + spec_included_one(
        reg,
        view,
        ao,
        rx,
        ry,
        rz,
        1,
        0,
        1,
    ) + spec_included_one(reg, view, ao, rx, ry, rz, 1, 1, 0) + spec_included_one(
        reg,
        view,
        ao,
        rx,
        ry,
        rz,
        1,
        1,
        1,
    )
}

/// How much a face direction brightens or darkens its vertices, in tenths:
/// top faces get full light, sides and bottoms successively less.
pub open spec fn spec_dir_brightness(ao: Option<Direction>) -> int {
    match ao {
        Some(Direction::Top) => 10,
        Some(Direction::Front) | Some(Direction::Back) => 8,
        Some(Direction::Right) | Some(Direction::Left) => 6,
        Some(Direction::Bottom) => 5,
        None => 10,
    }
}

/// One shaded color channel: the tint channel scaled by a 0.2 floor plus
/// 0.8 of the normalized light average, by the direction brightness (in
/// tenths), less a small bias against texture bleeding, clamped to a byte.
/// All arithmetic is exact integer arithmetic over the scaled values.
pub open spec fn spec_shade_channel(c: int, dm: int, sum: int, num: int) -> int {
    let q = if num > 0 {
        c * dm * (15 * num + 4 * sum) / (750 * num)
    } else {
        c * dm / 50
    };
    let q2 = if q >= 2 {
        q - 2
    } else {
        0
    };
    if q2 > 255 {
        255
    } else {
        q2
    }
}

/// Whether a tint sample position contributes: only tinted faces gather
/// biome color, and only where a column with a known biome exists.
pub open spec fn spec_tint_included(
    reg: BlockStatesLoader,
    biomes: BiomeLoader,
    view: Neighborhood,
    base: Rgba,
    sx: int,
    sz: int,
) -> bool {
    !base.spec_is_white() && match view.spec_biome_at(sx, sz) {
        Some(bid) => biomes.biomes[bid.value as int] is Some,
        None => false,
    }
}

/// The grass tint a sample position contributes (meaningful only when the
/// sample is included).
pub open spec fn spec_tint_at(biomes: BiomeLoader, view: Neighborhood, sx: int, sz: int) -> Rgba {
    match view.spec_biome_at(sx, sz) {
        Some(bid) => match biomes.biomes[bid.value as int] {
            Some(b) => b.grass_color,
            None => Rgba { r: 255, g: 255, b: 255, a: 255 },
        },
        None => Rgba { r: 255, g: 255, b: 255, a: 255 },
    }
}

pub open spec fn spec_tint_one(
    reg: BlockStatesLoader,
    biomes: BiomeLoader,
    view: Neighborhood,
    base: Rgba,
    sx: int,
    sz: int,
) -> int {
    if spec_tint_included(reg, biomes, view, base, sx, sz) {
        1
    } else {
        0
    }
}

pub open spec fn spec_tint_count(
    reg: BlockStatesLoader,
    biomes: BiomeLoader,
    view: Neighborhood,
    base: Rgba,
    rx: int,
    rz: int,
) -> int {
    spec_tint_one(reg, biomes, view, base, rx - 1, rz - 1) + spec_tint_one(
        reg,
        biomes,
        view,
        base,
        rx - 1,
        rz,
    ) + spec_tint_one(reg, biomes, view, base, rx, rz - 1) + spec_tint_one(
        reg,
        biomes,
        view,
        base,
        rx,
        rz,
    )
}

/// One channel of one tint sample: the grass tint where included, else 0.
pub open spec fn spec_tint_channel_one(
    reg: BlockStatesLoader,
    biomes: BiomeLoader,
    view: Neighborhood,
    base: Rgba,
    sx: int,
    sz: int,
    ch: int,
) -> int {
    if spec_tint_included(reg, biomes, view, base, sx, sz) {
        let t = spec_tint_at(biomes, view, sx, sz);
        if ch == 0 {
            t.r as int
        } else if ch == 1 {
            t.g as int
        } else {
            t.b as int
        }
    } else {
        0
    }
}

pub open spec fn spec_tint_channel_sum(
    reg: BlockStatesLoader,
    biomes: BiomeLoader,
    view: Neighborhood,
    base: Rgba,
    rx: int,
    rz: int,
    ch: int,
) -> int {
    spec_tint_channel_one(reg, biomes, view, base, rx - 1, rz - 1, ch) + spec_tint_channel_one(
        reg,
        biomes,
        view,
        base,
        rx - 1,
        rz,
        ch,
    ) + spec_tint_channel_one(reg, biomes, view, base, rx, rz - 1, ch) + spec_tint_channel_one(
        reg,
        biomes,
        view,
        base,
        rx,
        rz,
        ch,
    )
}

/// The biome tint averaged over the corner's valid horizontal samples: the
/// white sentinel passes through untinted, and a tinted face with no valid
/// sample keeps its palette color.
pub open spec fn spec_tint_avg(
    reg: BlockStatesLoader,
    biomes: BiomeLoader,
    view: Neighborhood,
    base: Rgba,
    rx: int,
    rz: int,
) -> Rgba {
    if base.spec_is_white() {
        base
    } else {
        let n = spec_tint_count(reg, biomes, view, base, rx, rz);
        if n == 0 {
            base
        } else {
            Rgba {
                r: (spec_tint_channel_sum(reg, biomes, view, base, rx, rz, 0) / n) as u8,
                g: (spec_tint_channel_sum(reg, biomes, view, base, rx, rz, 1) / n) as u8,
                b: (spec_tint_channel_sum(reg, biomes, view, base, rx, rz, 2) / n) as u8,
                a: base.a,
            }
        }
    }
}

/// The final color of one vertex: the tint average shaded by the averaged
/// light of the corner's included samples and the face's direction
/// brightness.
pub open spec fn spec_vertex_color(
    reg: BlockStatesLoader,
    biomes: BiomeLoader,
    view: Neighborhood,
    x: int,
    y: int,
    z: int,
    ao: Option<Direction>,
    base: Rgba,
    off: Point3,
) -> Rgba {
    let rx = x + spec_round_rel(off.x as int);
    let ry = y + spec_round_rel(off.y as int);
    let rz = z + spec_round_rel(off.z as int);
    let sum = spec_light_sum(reg, view, ao, rx, ry, rz);
    let num = spec_light_count(reg, view, ao, rx, ry, rz);
    let dm = spec_dir_brightness(ao);
    let tint = spec_tint_avg(reg, biomes, view, base, rx, rz);
    Rgba {
        r: spec_shade_channel(tint.r as int, dm, sum, num) as u8,
        g: spec_shade_channel(tint.g as int, dm, sum, num) as u8,
        b: spec_shade_channel(tint.b as int, dm, sum, num) as u8,
        a: tint.a,
    }
}

} // verus!

verus! {

/// How one emitted vertex must relate to a face corner: same cell, the
/// corner's offset and texture coordinates, and the shaded color.
pub open spec fn spec_mesh_vertex_matches(
    reg: BlockStatesLoader,
    biomes: BiomeLoader,
    view: Neighborhood,
    x: int,
    y: int,
    z: int,
    face: Face,
    vi: int,
    mv: MeshVertex,
) -> bool {
    let v = face.vertices[vi];
    &&& mv.bx == x
    &&& mv.by == y
    &&& mv.bz == z
    &&& mv.off == v.position
    &&& mv.uv == v.uv
    &&& mv.color == spec_vertex_color(reg, biomes, view, x, y, z, face.ao_face, v.color, v.position)
}

/// How one emitted quad must relate to its source face.
pub open spec fn spec_face_mesh_matches(
    reg: BlockStatesLoader,
    biomes: BiomeLoader,
    view: Neighborhood,
    x: int,
    y: int,
    z: int,
    face: Face,
    fm: FaceMesh,
) -> bool {
    &&& fm.vertices.len() == 4
    &&& (forall|vi: int|
        0 <= vi < 4 ==> spec_mesh_vertex_matches(
            reg,
            biomes,
            view,
            x,
            y,
            z,
            face,
            vi,
            #[trigger] fm.vertices[vi],
        ))
    &&& fm.indices@ == seq![0u8, 1u8, 2u8, 2u8, 3u8, 0u8]
    &&& fm.texture@ == face.texture@
}

fn model_at<'a>(reg: &'a BlockStatesLoader, view: &Neighborhood, x: i32, y: i32, z: i32) -> (r:
    Option<&'a Model>)
    requires
        reg.wf(),
        view.wf(),
        -16 <= x < 32,
        -16 <= y < 32,
        -16 <= z < 32,
    ensures
        match r {
            Some(m) => spec_model_at(*reg, *view, x as int, y as int, z as int) == Some(*m)
                && m.wf(),
            None => spec_model_at(*reg, *view, x as int, y as int, z as int) is None,
        },
{
    let (b, _) = view.at(x, y, z);
    match reg.get_by_id(b.value) {
        Some(e) => Some(&e.1),
        None => None,
    }
}

fn opacity_all(m: &Model, which: Opacity) -> (r: bool)
    requires
        m.wf(),
    ensures
        r == forall|i: int| 0 <= i < 6 ==> #[trigger] m.opacity[i] == which,
{
    let r = m.opacity[0] == which && m.opacity[1] == which && m.opacity[2] == which && m.opacity[3]
        == which && m.opacity[4] == which && m.opacity[5] == which;
    r
}

fn opaque_at(reg: &BlockStatesLoader, view: &Neighborhood, x: i32, y: i32, z: i32) -> (r: bool)
    requires
        reg.wf(),
        view.wf(),
        -16 <= x < 32,
        -16 <= y < 32,
        -16 <= z < 32,
    ensures
        r == spec_opaque_at(*reg, *view, x as int, y as int, z as int),
{
    match model_at(reg, view, x, y, z) {
        Some(m) => opacity_all(m, Opacity::Opaque),
        None => false,
    }
}

fn solid_at(reg: &BlockStatesLoader, view: &Neighborhood, x: i32, y: i32, z: i32) -> (r: bool)
    requires
        reg.wf(),
        view.wf(),
        -16 <= x < 32,
        -16 <= y < 32,
        -16 <= z < 32,
    ensures
        r == spec_solid_at(*reg, *view, x as int, y as int, z as int),
{
    match model_at(reg, view, x, y, z) {
        Some(m) => {
            let none_transparent = !(m.opacity[0] == Opacity::Transparent || m.opacity[1]
                == Opacity::Transparent || m.opacity[2] == Opacity::Transparent || m.opacity[3]
                == Opacity::Transparent || m.opacity[4] == Opacity::Transparent || m.opacity[5]
                == Opacity::Transparent);
            none_transparent
        },
        None => false,
    }
}

/// Whether an opaque neighbor in the face's cull direction hides it.
pub fn culled(reg: &BlockStatesLoader, view: &Neighborhood, x: i32, y: i32, z: i32, face: &Face) -> (r:
    bool)
    requires
        reg.wf(),
        view.wf(),
        0 <= x < 16,
        0 <= y < 16,
        0 <= z < 16,
    ensures
        r == spec_culled(*reg, *view, x as int, y as int, z as int, *face),
{
    match &face.cull_face {
        Some(cd) => {
            let (ox, oy, oz) = cd.offset();
            match model_at(reg, view, x + ox, y + oy, z + oz) {
                Some(m) => {
                    let op = cd.opposite();
                    let oi = op.index();
                    m.opacity[oi].is_opaque()
                },
                None => false,
            }
        },
        None => false,
    }
}

fn round_rel(v: i32) -> (r: i32)
    requires
        -16384 <= v <= 16384,
    ensures
        r as int == spec_round_rel(v as int),
        -4 <= r <= 4,
{
    proof {
        lemma_hoist_over_denominator(v + 2048, 8, 4096nat);
    }
    ((v + 34816) / 4096) - 8
}

fn sample_light(
    reg: &BlockStatesLoader,
    view: &Neighborhood,
    ao: &Option<Direction>,
    rx: i32,
    ry: i32,
    rz: i32,
    ox: i32,
    oy: i32,
    oz: i32,
) -> (r: (bool, u8))
    requires
        reg.wf(),
        view.wf(),
        -15 <= rx < 32,
        -15 <= ry < 32,
        -15 <= rz < 32,
        0 <= ox <= 1,
        0 <= oy <= 1,
        0 <= oz <= 1,
    ensures
        r.0 == spec_sample_included(
            *reg,
            *view,
            *ao,
            rx as int,
            ry as int,
            rz as int,
            ox as int,
            oy as int,
            oz as int,
        ),
        r.1 as int == spec_sample_light(
            *reg,
            *view,
            *ao,
            rx as int,
            ry as int,
            rz as int,
            ox as int,
            oy as int,
            oz as int,
        ),
        r.1 <= 15,
{
    let sx = rx - 1 + ox;
    let sy = ry - 1 + oy;
    let sz = rz - 1 + oz;
    let included = match ao {
        Some(d) => {
            let (ax, ay, az) = d.offset();
            let cx = if ax == -1 {
                ox == 0
            } else if ax == 1 {
                ox == 1
            } else {
                true
            };
            let cy = if ay == -1 {
                oy == 0
            } else if ay == 1 {
                oy == 1
            } else {
                true
            };
            let cz = if az == -1 {
                oz == 0
            } else if az == 1 {
                oz == 1
            } else {
                true
            };
            cx && cy && cz
        },
        None => !opaque_at(reg, view, sx, sy, sz),
    };
    if !included {
        return (false, 0);
    }
    let light = match ao {
        Some(_) => {
            if solid_at(reg, view, sx, sy, sz) {
                0
            } else {
                let (_, l) = view.at(sx, sy, sz);
                l.light()
            }
        },
        None => {
            let (_, l) = view.at(sx, sy, sz);
            l.light()
        },
    };
    (true, light)
}

fn shade_channel(c: u8, dm: u8, sum: u32, num: u32) -> (r: u8)
    requires
        dm <= 10,
        num <= 8,
        sum <= 120,
    ensures
        r as int == spec_shade_channel(c as int, dm as int, sum as int, num as int),
{
    proof {
        assert((c as int) * (dm as int) <= 2550) by (nonlinear_arith)
            requires
                c <= 255,
                dm <= 10,
        ;
    }
    let p: u32 = (c as u32) * (dm as u32);
    let q: u32 = if num > 0 {
        let w: u32 = 15 * num + 4 * sum;
        proof {
            assert(p * w <= 2550 * 600) by (nonlinear_arith)
                requires
                    p <= 2550,
                    0 <= w <= 600,
            ;
        }
        p * w / (750 * num)
    } else {
        p / 50
    };
    let q2: u32 = if q >= 2 {
        q - 2
    } else {
        0
    };
    if q2 > 255 {
        255
    } else {
        q2 as u8
    }
}

fn tint_sample(
    reg: &BlockStatesLoader,
    biomes: &BiomeLoader,
    view: &Neighborhood,
    base: Rgba,
    sx: i32,
    sz: i32,
) -> (r: (bool, Rgba))
    requires
        reg.wf(),
        biomes.wf(),
        view.wf(),
        -16 <= sx < 32,
        -16 <= sz < 32,
    ensures
        r.0 == spec_tint_included(*reg, *biomes, *view, base, sx as int, sz as int),
        r.0 ==> r.1 == spec_tint_at(*biomes, *view, sx as int, sz as int),
{
    if base.is_white() {
        return (false, base);
    }
    match view.biome_at(sx, sz) {
        Some(bid) => {
            match biomes.get(bid) {
                Some(b) => (true, b.grass_color),
                None => (false, base),
            }
        },
        None => (false, base),
    }
}

/// The light sum and sample count of the eight cells around a rounded
/// corner.
fn light_sums(
    reg: &BlockStatesLoader,
    view: &Neighborhood,
    ao: &Option<Direction>,
    rx: i32,
    ry: i32,
    rz: i32,
) -> (r: (u32, u32))
    requires
        reg.wf(),
        view.wf(),
        -15 <= rx < 32,
        -15 <= ry < 32,
        -15 <= rz < 32,
    ensures
        r.0 as int == spec_light_sum(*reg, *view, *ao, rx as int, ry as int, rz as int),
        r.1 as int == spec_light_count(*reg, *view, *ao, rx as int, ry as int, rz as int),
        r.0 <= 120,
        r.1 <= 8,
{
    let s0 = sample_light(reg, view, ao, rx, ry, rz, 0, 0, 0);
    let s1 = sample_light(reg, view, ao, rx, ry, rz, 0, 0, 1);
    let s2 = sample_light(reg, view, ao, rx, ry, rz, 0, 1, 0);
    let s3 = sample_light(reg, view, ao, rx, ry, rz, 0, 1, 1);
    let s4 = sample_light(reg, view, ao, rx, ry, rz, 1, 0, 0);
    let s5 = sample_light(reg, view, ao, rx, ry, rz, 1, 0, 1);
    let s6 = sample_light(reg, view, ao, rx, ry, rz, 1, 1, 0);
    let s7 = sample_light(reg, view, ao, rx, ry, rz, 1, 1, 1);
    let sum: u32 = s0.1 as u32 + s1.1 as u32 + s2.1 as u32 + s3.1 as u32 + s4.1 as u32 + s5.1
        as u32 + s6.1 as u32 + s7.1 as u32;
    let num: u32 = (if s0.0 {
        1u32
    } else {
        0u32
    }) + (if s1.0 {
        1u32
    } else {
        0u32
    }) + (if s2.0 {
        1u32
    } else {
        0u32
    }) + (if s3.0 {
        1u32
    } else {
        0u32
    }) + (if s4.0 {
        1u32
    } else {
        0u32
    }) + (if s5.0 {
        1u32
    } else {
        0u32
    }) + (if s6.0 {
        1u32
    } else {
        0u32
    }) + (if s7.0 {
        1u32
    } else {
        0u32
    });
    (sum, num)
}

/// The biome tint averaged over a corner's four horizontal samples.
fn tint_avg(
    reg: &BlockStatesLoader,
    biomes: &BiomeLoader,
    view: &Neighborhood,
    base: Rgba,
    rx: i32,
    rz: i32,
) -> (r: Rgba)
    requires
        reg.wf(),
        biomes.wf(),
        view.wf(),
        -15 <= rx < 32,
        -15 <= rz < 32,
    ensures
        r == spec_tint_avg(*reg, *biomes, *view, base, rx as int, rz as int),
{
    if base.is_white() {
        return base;
    }
    let t0 = tint_sample(reg, biomes, view, base, rx - 1, rz - 1);
    let t1 = tint_sample(reg, biomes, view, base, rx - 1, rz);
    let t2 = tint_sample(reg, biomes, view, base, rx, rz - 1);
    let t3 = tint_sample(reg, biomes, view, base, rx, rz);
    let tn: u32 = (if t0.0 {
        1u32
    } else {
        0u32
    }) + (if t1.0 {
        1u32
    } else {
        0u32
    }) + (if t2.0 {
        1u32
    } else {
        0u32
    }) + (if t3.0 {
        1u32
    } else {
        0u32
    });
    let tr: u32 = (if t0.0 {
        t0.1.r as u32
    } else {
        0u32
    }) + (if t1.0 {
        t1.1.r as u32
    } else {
        0u32
    }) + (if t2.0 {
        t2.1.r as u32
    } else {
        0u32
    }) + (if t3.0 {
        t3.1.r as u32
    } else {
        0u32
    });
    let tg: u32 = (if t0.0 {
        t0.1.g as u32
    } else {
        0u32
    }) + (if t1.0 {
        t1.1.g as u32
    } else {
        0u32
    }) + (if t2.0 {
        t2.1.g as u32
    } else {
        0u32
    }) + (if t3.0 {
        t3.1.g as u32
    } else {
        0u32
    });
    let tb: u32 = (if t0.0 {
        t0.1.b as u32
    } else {
        0u32
    }) + (if t1.0 {
        t1.1.b as u32
    } else {
        0u32
    }) + (if t2.0 {
        t2.1.b as u32
    } else {
        0u32
    }) + (if t3.0 {
        t3.1.b as u32
    } else {
        0u32
    });
    if tn == 0 {
        base
    } else {
        proof {
            vstd::arithmetic::div_mod::lemma_div_is_ordered(tr as int, 255 * tn, tn as int);
            vstd::arithmetic::div_mod::lemma_div_multiples_vanish(255, tn as int);
            vstd::arithmetic::div_mod::lemma_div_is_ordered(tg as int, 255 * tn, tn as int);
            vstd::arithmetic::div_mod::lemma_div_is_ordered(tb as int, 255 * tn, tn as int);
            vstd::arithmetic::div_mod::lemma_div_pos_is_pos(tr as int, tn as int);
            vstd::arithmetic::div_mod::lemma_div_pos_is_pos(tg as int, tn as int);
            vstd::arithmetic::div_mod::lemma_div_pos_is_pos(tb as int, tn as int);
        }
        Rgba { r: (tr / tn) as u8, g: (tg / tn) as u8, b: (tb / tn) as u8, a: base.a }
    }
}

/// Shades one vertex: light is averaged over the corner's included cells,
/// biome tint over its valid horizontal samples, and the channels are
/// scaled together.
pub fn shade_vertex(
    reg: &BlockStatesLoader,
    biomes: &BiomeLoader,
    view: &Neighborhood,
    x: i32,
    y: i32,
    z: i32,
    ao: &Option<Direction>,
    base: Rgba,
    off: Point3,
) -> (r: Rgba)
    requires
        reg.wf(),
        biomes.wf(),
        view.wf(),
        0 <= x < 16,
        0 <= y < 16,
        0 <= z < 16,
        off.in_bounds(),
    ensures
        r == spec_vertex_color(
            *reg,
            *biomes,
            *view,
            x as int,
            y as int,
            z as int,
            *ao,
            base,
            off,
        ),
{
    let rx = x + round_rel(off.x);
    let ry = y + round_rel(off.y);
    let rz = z + round_rel(off.z);
    let (sum, num) = light_sums(reg, view, ao, rx, ry, rz);
    let tint = tint_avg(reg, biomes, view, base, rx, rz);
    let dm: u8 = match ao {
        Some(Direction::Top) => 10,
        Some(Direction::Front) | Some(Direction::Back) => 8,
        Some(Direction::Right) | Some(Direction::Left) => 6,
        Some(Direction::Bottom) => 5,
        None => 10,
    };
    Rgba {
        r: shade_channel(tint.r, dm, sum, num),
        g: shade_channel(tint.g, dm, sum, num),
        b: shade_channel(tint.b, dm, sum, num),
        a: tint.a,
    }
}

/// Builds the mesh quad of one face of the block at a cell, unless an
/// opaque neighbor in the face's cull direction hides it.
pub fn emit_face(
    reg: &BlockStatesLoader,
    biomes: &BiomeLoader,
    view: &Neighborhood,
    x: usize,
    y: usize,
    z: usize,
    face: &Face,
) -> (r: Option<FaceMesh>)
    requires
        reg.wf(),
        biomes.wf(),
        view.wf(),
        x < 16,
        y < 16,
        z < 16,
        face.wf(),
    ensures
        (r is None) == spec_culled(*reg, *view, x as int, y as int, z as int, *face),
        r matches Some(fm) ==> spec_face_mesh_matches(
            *reg,
            *biomes,
            *view,
            x as int,
            y as int,
            z as int,
            *face,
            fm,
        ),
{
    if culled(reg, view, x as i32, y as i32, z as i32, face) {
        return None;
    }
    let mut vertices: Vec<MeshVertex> = Vec::new();
    let mut vi: usize = 0;
    while vi < 4
        invariant
            reg.wf(),
            biomes.wf(),
            view.wf(),
            x < 16,
            y < 16,
            z < 16,
            face.wf(),
            vi <= 4,
            vertices.len() == vi,
            forall|j: int|
                0 <= j < vi ==> spec_mesh_vertex_matches(
                    *reg,
                    *biomes,
                    *view,
                    x as int,
                    y as int,
                    z as int,
                    *face,
                    j,
                    #[trigger] vertices[j],
                ),
        decreases 4 - vi,
    {
        let v = face.vertices[vi];
        let color = shade_vertex(
            reg,
            biomes,
            view,
            x as i32,
            y as i32,
            z as i32,
            &face.ao_face,
            v.color,
            v.position,
        );
        vertices.push(
            MeshVertex {
                bx: x as i32,
                by: y as i32,
                bz: z as i32,
                off: v.position,
                uv: v.uv,
                color,
            },
        );
        vi += 1;
    }
    let mut indices: Vec<u8> = Vec::new();
    indices.push(0);
    indices.push(1);
    indices.push(2);
    indices.push(2);
    indices.push(3);
    indices.push(0);
    proof {
        assert(indices@ =~= seq![0u8, 1u8, 2u8, 2u8, 3u8, 0u8]);
    }
    Some(FaceMesh { vertices, indices, texture: face.texture.clone() })
}

} // verus!

verus! {

/// Indices (among the first `k` faces of a model) of the faces that
/// survive neighbor culling at a cell, in declaration order.
pub open spec fn spec_survivors_upto(
    reg: BlockStatesLoader,
    view: Neighborhood,
    x: int,
    y: int,
    z: int,
    faces: Seq<Face>,
    k: int,
) -> Seq<int>
    decreases k,
{
    if k <= 0 {
        Seq::empty()
    } else {
        spec_survivors_upto(reg, view, x, y, z, faces, k - 1) + (if !spec_culled(
            reg,
            view,
            x,
            y,
            z,
            faces[k - 1],
        ) {
            seq![k - 1]
        } else {
            Seq::empty()
        })
    }
}

pub proof fn lemma_survivors_bounds(
    reg: BlockStatesLoader,
    view: Neighborhood,
    x: int,
    y: int,
    z: int,
    faces: Seq<Face>,
    k: int,
)
    ensures
        spec_survivors_upto(reg, view, x, y, z, faces, k).len() <= (if k >= 0 {
            k
        } else {
            0
        }),
        forall|si: int|
            0 <= si < spec_survivors_upto(reg, view, x, y, z, faces, k).len() ==> 0 <= #[trigger] spec_survivors_upto(
                reg,
                view,
                x,
                y,
                z,
                faces,
                k,
            )[si] < k,
    decreases k,
{
    if k > 0 {
        lemma_survivors_bounds(reg, view, x, y, z, faces, k - 1);
    }
}

/// How many mesh quads the block at linear cell index `c` emits. Cells are
/// numbered in the generator's traversal order: `c = (y * 16 + z) * 16 + x`.
pub open spec fn spec_cell_count(reg: BlockStatesLoader, view: Neighborhood, c: int) -> int {
    let x = c % 16;
    let z = (c / 16) % 16;
    let y = c / 256;
    match spec_model_at(reg, view, x, y, z) {
        None => 0,
        Some(m) => spec_survivors_upto(reg, view, x, y, z, m.faces@, m.faces.len() as int).len()
            as int,
    }
}

/// Where the quads of cell `c` start in the output buffer.
pub open spec fn spec_mesh_before(reg: BlockStatesLoader, view: Neighborhood, c: int) -> int
    decreases c,
{
    if c <= 0 {
        0
    } else {
        spec_mesh_before(reg, view, c - 1) + spec_cell_count(reg, view, c - 1)
    }
}

pub proof fn lemma_mesh_before_mono(reg: BlockStatesLoader, view: Neighborhood, a: int, b: int)
    requires
        a <= b,
    ensures
        spec_mesh_before(reg, view, a) <= spec_mesh_before(reg, view, b),
    decreases b - a,
{
    if a < b {
        lemma_mesh_before_mono(reg, view, a, b - 1);
        let x = (b - 1) % 16;
        let z = ((b - 1) / 16) % 16;
        let y = (b - 1) / 256;
        match spec_model_at(reg, view, x, y, z) {
            None => {},
            Some(m) => {
                lemma_survivors_bounds(reg, view, x, y, z, m.faces@, m.faces.len() as int);
            },
        }
    }
}

/// The output buffer holds, at cell `c`'s segment, exactly the quads of
/// the cell's surviving faces, in order.
pub open spec fn spec_cell_meshed(
    reg: BlockStatesLoader,
    biomes: BiomeLoader,
    view: Neighborhood,
    out: Seq<FaceMesh>,
    c: int,
) -> bool {
    let x = c % 16;
    let z = (c / 16) % 16;
    let y = c / 256;
    match spec_model_at(reg, view, x, y, z) {
        None => true,
        Some(m) => {
            let sv = spec_survivors_upto(reg, view, x, y, z, m.faces@, m.faces.len() as int);
            forall|si: int|
                #![trigger sv[si]]
                0 <= si < sv.len() ==> spec_face_mesh_matches(
                    reg,
                    biomes,
                    view,
                    x,
                    y,
                    z,
                    m.faces[sv[si]],
                    out[spec_mesh_before(reg, view, c) + si],
                )
        },
    }
}

/// Already-written cell segments stay valid when the buffer grows at the
/// end.
proof fn lemma_cells_meshed_extend(
    reg: BlockStatesLoader,
    biomes: BiomeLoader,
    view: Neighborhood,
    out1: Seq<FaceMesh>,
    out2: Seq<FaceMesh>,
    c: int,
)
    requires
        forall|c2: int| 0 <= c2 < c ==> spec_cell_meshed(reg, biomes, view, out1, c2),
        spec_mesh_before(reg, view, c) <= out1.len(),
        out1.len() <= out2.len(),
        forall|i: int| 0 <= i < out1.len() ==> #[trigger] out2[i] == out1[i],
    ensures
        forall|c2: int| 0 <= c2 < c ==> spec_cell_meshed(reg, biomes, view, out2, c2),
{
    assert forall|c2: int| 0 <= c2 < c implies spec_cell_meshed(reg, biomes, view, out2, c2) by {
        assert(spec_cell_meshed(reg, biomes, view, out1, c2));
        let x = c2 % 16;
        let z = (c2 / 16) % 16;
        let y = c2 / 256;
        match spec_model_at(reg, view, x, y, z) {
            None => {},
            Some(m) => {
                let sv = spec_survivors_upto(reg, view, x, y, z, m.faces@, m.faces.len() as int);
                let base = spec_mesh_before(reg, view, c2);
                assert forall|si: int|
                    #![trigger sv[si]]
                    0 <= si < sv.len() implies spec_face_mesh_matches(
                    reg,
                    biomes,
                    view,
                    x,
                    y,
                    z,
                    m.faces[sv[si]],
                    out2[base + si],
                ) by {
                    lemma_mesh_before_mono(reg, view, c2 + 1, c);
                    lemma_mesh_before_mono(reg, view, 0, c2);
                    assert(spec_mesh_before(reg, view, c2 + 1) == base + spec_cell_count(
                        reg,
                        view,
                        c2,
                    ));
                    assert(base + si < out1.len());
                    assert(out2[base + si] == out1[base + si]);
                }
            },
        }
    }
}

/// Generates the mesh of the central chunk of a neighborhood: every cell's
/// registered model contributes one quad per face that no opaque neighbor
/// culls, with smoothed light and biome tint baked into the vertex colors.
/// The generator only reads its inputs, so meshing the same neighborhood
/// again yields the same buffer.
pub fn mesh_chunk(reg: &BlockStatesLoader, biomes: &BiomeLoader, view: &Neighborhood) -> (r: Vec<
    FaceMesh,
>)
    requires
        reg.wf(),
        biomes.wf(),
        view.wf(),
    ensures
        r.len() == spec_mesh_before(*reg, *view, 4096),
        forall|c: int| 0 <= c < 4096 ==> spec_cell_meshed(*reg, *biomes, *view, r@, c),
{
    let mut out: Vec<FaceMesh> = Vec::new();
    let mut c: usize = 0;
    while c < 4096
        invariant
            reg.wf(),
            biomes.wf(),
            view.wf(),
            c <= 4096,
            out.len() == spec_mesh_before(*reg, *view, c as int),
            forall|c2: int| 0 <= c2 < c ==> spec_cell_meshed(*reg, *biomes, *view, out@, c2),
        decreases 4096 - c,
    {
        let x = c % 16;
        let z = (c / 16) % 16;
        let y = c / 256;
        let ghost base = spec_mesh_before(*reg, *view, c as int);
        match model_at(reg, view, x as i32, y as i32, z as i32) {
            None => {
                proof {
                    assert(spec_cell_count(*reg, *view, c as int) == 0);
                    assert(spec_cell_meshed(*reg, *biomes, *view, out@, c as int));
                }
            },
            Some(m) => {
                let mut fi: usize = 0;
                while fi < m.faces.len()
                    invariant
                        reg.wf(),
                        biomes.wf(),
                        view.wf(),
                        c < 4096,
                        x == c % 16,
                        z == (c / 16) % 16,
                        y == c / 256,
                        base == spec_mesh_before(*reg, *view, c as int),
                        spec_model_at(*reg, *view, x as int, y as int, z as int) == Some(*m),
                        m.wf(),
                        fi <= m.faces.len(),
                        out.len() == base + spec_survivors_upto(
                            *reg,
                            *view,
                            x as int,
                            y as int,
                            z as int,
                            m.faces@,
                            fi as int,
                        ).len(),
                        forall|c2: int|
                            0 <= c2 < c ==> spec_cell_meshed(*reg, *biomes, *view, out@, c2),
                        forall|si: int|
                            #![trigger spec_survivors_upto(*reg, *view, x as int, y as int, z as int, m.faces@, fi as int)[si]]
                            0 <= si < spec_survivors_upto(
                                *reg,
                                *view,
                                x as int,
                                y as int,
                                z as int,
                                m.faces@,
                                fi as int,
                            ).len() ==> spec_face_mesh_matches(
                                *reg,
                                *biomes,
                                *view,
                                x as int,
                                y as int,
                                z as int,
                                m.faces[spec_survivors_upto(
                                    *reg,
                                    *view,
                                    x as int,
                                    y as int,
                                    z as int,
                                    m.faces@,
                                    fi as int,
                                )[si]],
                                out[base + si],
                            ),
                    decreases m.faces.len() - fi,
                {
                    let ghost sv_old = spec_survivors_upto(
                        *reg,
                        *view,
                        x as int,
                        y as int,
                        z as int,
                        m.faces@,
                        fi as int,
                    );
                    let ghost pre_out = out@;
                    let face = &m.faces[fi];
                    match emit_face(reg, biomes, view, x, y, z, face) {
                        Some(fm) => {
                            out.push(fm);
                        },
                        None => {},
                    }
                    proof {
                        lemma_survivors_bounds(
                            *reg,
                            *view,
                            x as int,
                            y as int,
                            z as int,
                            m.faces@,
                            fi as int,
                        );
                        let sv_new = spec_survivors_upto(
                            *reg,
                            *view,
                            x as int,
                            y as int,
                            z as int,
                            m.faces@,
                            fi as int + 1,
                        );
                        if !spec_culled(
                            *reg,
                            *view,
                            x as int,
                            y as int,
                            z as int,
                            m.faces@[fi as int],
                        ) {
                            assert(sv_new =~= sv_old + seq![fi as int]);
                        } else {
                            assert(sv_new =~= sv_old);
                        }
                        lemma_mesh_before_mono(*reg, *view, 0, c as int);
                        lemma_cells_meshed_extend(
                            *reg,
                            *biomes,
                            *view,
                            pre_out,
                            out@,
                            c as int,
                        );
                        assert forall|si: int|
                            #![trigger sv_new[si]]
                            0 <= si < sv_new.len() implies spec_face_mesh_matches(
                            *reg,
                            *biomes,
                            *view,
                            x as int,
                            y as int,
                            z as int,
                            m.faces[sv_new[si]],
                            out[base + si],
                        ) by {
                            if si < sv_old.len() {
                                assert(sv_new[si] == sv_old[si]);
                                assert(out@[base + si] == pre_out[base + si]);
                            } else {
                                assert(sv_new[si] == fi as int);
                            }
                        }
                    }
                    fi += 1;
                }
                proof {
                    assert(spec_cell_count(*reg, *view, c as int) == spec_survivors_upto(
                        *reg,
                        *view,
                        x as int,
                        y as int,
                        z as int,
                        m.faces@,
                        m.faces.len() as int,
                    ).len());
                    assert(spec_cell_meshed(*reg, *biomes, *view, out@, c as int));
                }
            },
        }
        c += 1;
        proof {
            assert(spec_mesh_before(*reg, *view, c as int) == base + spec_cell_count(
                *reg,
                *view,
                c as int - 1,
            ));
        }
    }
    out
}

} // verus!

verus! {

/// The four cells on the lit side of an ambient-occlusion corner.
pub open spec fn spec_all_above_solid(
    reg: BlockStatesLoader,
    view: Neighborhood,
    d: Direction,
    rx: int,
    ry: int,
    rz: int,
) -> bool {
    &&& (spec_above(d, 0, 0, 0) ==> spec_solid_at(reg, view, rx - 1, ry - 1, rz - 1))
    &&& (spec_above(d, 0, 0, 1) ==> spec_solid_at(reg, view, rx - 1, ry - 1, rz))
    &&& (spec_above(d, 0, 1, 0) ==> spec_solid_at(reg, view, rx - 1, ry, rz - 1))
    &&& (spec_above(d, 0, 1, 1) ==> spec_solid_at(reg, view, rx - 1, ry, rz))
    &&& (spec_above(d, 1, 0, 0) ==> spec_solid_at(reg, view, rx, ry - 1, rz - 1))
    &&& (spec_above(d, 1, 0, 1) ==> spec_solid_at(reg, view, rx, ry - 1, rz))
    &&& (spec_above(d, 1, 1, 0) ==> spec_solid_at(reg, view, rx, ry, rz - 1))
    &&& (spec_above(d, 1, 1, 1) ==> spec_solid_at(reg, view, rx, ry, rz))
}

/// A darkened corner: when every sample on an ambient-occlusion face's lit
/// side is itself solid, no sample contributes light, so the averaged light
/// of the vertex is zero (only the 0.2 floor remains).
pub proof fn lemma_dark_corner(
    reg: BlockStatesLoader,
    view: Neighborhood,
    d: Direction,
    rx: int,
    ry: int,
    rz: int,
)
    requires
        spec_all_above_solid(reg, view, d, rx, ry, rz),
    ensures
        spec_light_sum(reg, view, Some(d), rx, ry, rz) == 0,
{
}

/// An open corner on a face without an ambient-occlusion direction: when no
/// surrounding cell is opaque, all eight samples count, so the vertex uses
/// the full average of all eight lights.
pub proof fn lemma_open_corner_counts_all(
    reg: BlockStatesLoader,
    view: Neighborhood,
    rx: int,
    ry: int,
    rz: int,
)
    requires
        !spec_opaque_at(reg, view, rx - 1, ry - 1, rz - 1),
        !spec_opaque_at(reg, view, rx - 1, ry - 1, rz),
        !spec_opaque_at(reg, view, rx - 1, ry, rz - 1),
        !spec_opaque_at(reg, view, rx - 1, ry, rz),
        !spec_opaque_at(reg, view, rx, ry - 1, rz - 1),
        !spec_opaque_at(reg, view, rx, ry - 1, rz),
        !spec_opaque_at(reg, view, rx, ry, rz - 1),
        !spec_opaque_at(reg, view, rx, ry, rz),
    ensures
        spec_light_count(reg, view, None, rx, ry, rz) == 8,
        spec_light_sum(reg, view, None, rx, ry, rz) == view.spec_light_at(
            rx - 1,
            ry - 1,
            rz - 1,
        ).spec_light() + view.spec_light_at(rx - 1, ry - 1, rz).spec_light() + view.spec_light_at(
            rx - 1,
            ry,
            rz - 1,
        ).spec_light() + view.spec_light_at(rx - 1, ry, rz).spec_light() + view.spec_light_at(
            rx,
            ry - 1,
            rz - 1,
        ).spec_light() + view.spec_light_at(rx, ry - 1, rz).spec_light() + view.spec_light_at(
            rx,
            ry,
            rz - 1,
        ).spec_light() + view.spec_light_at(rx, ry, rz).spec_light(),
{
}

/// A fully opaque neighbor in a face's cull direction removes the face.
pub proof fn lemma_opaque_neighbor_culls(
    reg: BlockStatesLoader,
    view: Neighborhood,
    x: int,
    y: int,
    z: int,
    face: Face,
    cd: Direction,
    m: Model,
)
    requires
        face.cull_face == Some(cd),
        spec_model_at(
            reg,
            view,
            x + cd.spec_offset().0,
            y + cd.spec_offset().1,
            z + cd.spec_offset().2,
        ) == Some(m),
        m.opacity[cd.spec_opposite().spec_index()] == Opacity::Opaque,
    ensures
        spec_culled(reg, view, x, y, z, face),
{
}

/// A neighbor that is air (or anything not opaque toward the face) keeps
/// the face in the mesh.
pub proof fn lemma_open_neighbor_keeps(
    reg: BlockStatesLoader,
    view: Neighborhood,
    x: int,
    y: int,
    z: int,
    face: Face,
    cd: Direction,
)
    requires
        face.cull_face == Some(cd),
        match spec_model_at(
            reg,
            view,
            x + cd.spec_offset().0,
            y + cd.spec_offset().1,
            z + cd.spec_offset().2,
        ) {
            Some(m) => m.opacity[cd.spec_opposite().spec_index()] != Opacity::Opaque,
            None => true,
        },
    ensures
        !spec_culled(reg, view, x, y, z, face),
{
}

} // verus!
