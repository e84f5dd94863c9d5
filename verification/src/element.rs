use vstd::prelude::*;

use crate::direction::Direction;
use crate::geometry::FINE_PER_UNIT;
use crate::geometry::Point3;
use crate::geometry::Rotation;
use crate::geometry::Uv;
use crate::geometry::UvRect;

verus! {

/// One declared face of an element, as the model definition gives it. The
/// texture is either a concrete id or a `#variable` reference.
#[derive(Debug, Clone)]
pub struct ElementFace {
    pub uv: Option<UvRect>,
    pub texture: String,
    pub cullface: Option<Direction>,
    pub rotation: u16,
    pub tint_index: Option<usize>,
}

impl ElementFace {
    pub open spec fn wf(self) -> bool {
        &&& match self.uv {
            Some(rect) => rect.wf(),
            None => true,
        }
        &&& (self.rotation == 0 || self.rotation == 90 || self.rotation == 180 || self.rotation
            == 270)
    }
}

impl UvRect {
    pub open spec fn wf(self) -> bool {
        0 <= self.u1 <= 16 && 0 <= self.v1 <= 16 && 0 <= self.u2 <= 16 && 0 <= self.v2 <= 16
    }
}

/// An axis-aligned box of a block model, in model units 0..16, with its
/// optional rotation and its declared faces in declaration order.
#[derive(Debug, Clone)]
pub struct Element {
    pub from: Point3,
    pub to: Point3,
    pub rotation: Option<Rotation>,
    pub faces: Vec<(Direction, ElementFace)>,
}

impl Element {
    pub open spec fn wf(self) -> bool {
        &&& 0 <= self.from.x <= self.to.x <= 16
        &&& 0 <= self.from.y <= self.to.y <= 16
        &&& 0 <= self.from.z <= self.to.z <= 16
        &&& match self.rotation {
            Some(rot) => rot.wf(),
            None => true,
        }
        &&& forall|i: int| 0 <= i < self.faces.len() ==> (#[trigger] self.faces[i]).1.wf()
    }

    pub open spec fn spec_is_full_cube(self) -> bool {
        self.from == (Point3 { x: 0, y: 0, z: 0 }) && self.to == (Point3 { x: 16, y: 16, z: 16 })
    }

    /// Whether the box spans the whole block. Only faces of such elements can
    /// take part in per-direction opacity classification.
    pub fn is_full_cube(&self) -> (r: bool)
        ensures
            r == self.spec_is_full_cube(),
    {
        self.from.x == 0 && self.from.y == 0 && self.from.z == 0 && self.to.x == 16 && self.to.y
            == 16 && self.to.z == 16
    }

    /// Corner `i` of the box before rotation, in fine units around the block
    /// center. The numbering matches `Direction::vertices`.
    pub open spec fn spec_base_corner(self, i: int) -> Point3 {
        let x1 = ((self.from.x - 8) * 256) as i32;
        let y1 = ((self.from.y - 8) * 256) as i32;
        let z1 = ((self.from.z - 8) * 256) as i32;
        let x2 = ((self.to.x - 8) * 256) as i32;
        let y2 = ((self.to.y - 8) * 256) as i32;
        let z2 = ((self.to.z - 8) * 256) as i32;
        if i == 0 {
            Point3 { x: x1, y: y1, z: z1 }
        } else if i == 1 {
            Point3 { x: x1, y: y2, z: z1 }
        } else if i == 2 {
            Point3 { x: x1, y: y2, z: z2 }
        } else if i == 3 {
            Point3 { x: x1, y: y1, z: z2 }
        } else if i == 4 {
            Point3 { x: x2, y: y1, z: z2 }
        } else if i == 5 {
            Point3 { x: x2, y: y2, z: z2 }
        } else if i == 6 {
            Point3 { x: x2, y: y2, z: z1 }
        } else {
            Point3 { x: x2, y: y1, z: z1 }
        }
    }

    /// Corner `i` after the element's rotation, if it declares one.
    pub open spec fn spec_corner(self, i: int) -> (int, int, int) {
        let base = self.spec_base_corner(i);
        match self.rotation {
            Some(rot) => rot.spec_apply(base),
            None => (base.x as int, base.y as int, base.z as int),
        }
    }

    /// The eight corner vertices of the element, rotated if the element
    /// declares a rotation, in fine units around the block center.
    pub fn corner_vertices(&self) -> (r: Vec<Point3>)
        requires
            self.wf(),
        ensures
            r.len() == 8,
            forall|i: int|
                0 <= i < 8 ==> ((#[trigger] r[i]).x as int, r[i].y as int, r[i].z as int)
                    == self.spec_corner(i),
            forall|i: int| 0 <= i < 8 ==> (#[trigger] r[i]).in_bounds(),
    {
        let x1 = (self.from.x - 8) * FINE_PER_UNIT;
        let y1 = (self.from.y - 8) * FINE_PER_UNIT;
        let z1 = (self.from.z - 8) * FINE_PER_UNIT;
        let x2 = (self.to.x - 8) * FINE_PER_UNIT;
        let y2 = (self.to.y - 8) * FINE_PER_UNIT;
        let z2 = (self.to.z - 8) * FINE_PER_UNIT;
        let mut base: Vec<Point3> = Vec::new();
        base.push(Point3 { x: x1, y: y1, z: z1 });
        base.push(Point3 { x: x1, y: y2, z: z1 });
        base.push(Point3 { x: x1, y: y2, z: z2 });
        base.push(Point3 { x: x1, y: y1, z: z2 });
        base.push(Point3 { x: x2, y: y1, z: z2 });
        base.push(Point3 { x: x2, y: y2, z: z2 });
        base.push(Point3 { x: x2, y: y2, z: z1 });
        base.push(Point3 { x: x2, y: y1, z: z1 });
        match &self.rotation {
            None => base,
            Some(rot) => {
                let mut rotated: Vec<Point3> = Vec::new();
                let mut i: usize = 0;
                while i < 8
                    invariant
                        self.wf(),
                        self.rotation == Some(*rot),
                        i <= 8,
                        base.len() == 8,
                        forall|j: int| 0 <= j < 8 ==> #[trigger] base[j] == self.spec_base_corner(j),
                        forall|j: int|
                            0 <= j < 8 ==> -2048 <= (#[trigger] base[j]).x <= 2048 && -2048
                                <= base[j].y <= 2048 && -2048 <= base[j].z <= 2048,
                        rotated.len() == i,
                        forall|j: int|
                            0 <= j < i ==> ((#[trigger] rotated[j]).x as int, rotated[j].y as int,
                            rotated[j].z as int) == self.spec_corner(j),
                        forall|j: int| 0 <= j < i ==> (#[trigger] rotated[j]).in_bounds(),
                    decreases 8 - i,
                {
                    let p = rot.apply(base[i]);
                    rotated.push(p);
                    i += 1;
                }
                rotated
            },
        }
    }

    /// The UV rectangle a face falls back to when it declares none: the
    /// element's box projected onto the face's plane, in texel units.
    pub open spec fn spec_face_uvs(self, direction: Direction) -> UvRect {
        match direction {
            Direction::Bottom => UvRect {
                u1: self.from.x,
                v1: (16 - self.to.z) as i32,
                u2: self.to.x,
                v2: (16 - self.from.z) as i32,
            },
            Direction::Top => UvRect { u1: self.from.x, v1: self.from.z, u2: self.to.x, v2: self.to.z },
            Direction::Front => UvRect {
                u1: (16 - self.to.x) as i32,
                v1: (16 - self.to.y) as i32,
                u2: (16 - self.from.x) as i32,
                v2: (16 - self.from.y) as i32,
            },
            Direction::Back => UvRect {
                u1: self.from.x,
                v1: (16 - self.to.y) as i32,
                u2: self.to.x,
                v2: (16 - self.from.y) as i32,
            },
            Direction::Left => UvRect {
                u1: self.from.z,
                v1: (16 - self.to.y) as i32,
                u2: self.to.z,
                v2: (16 - self.from.y) as i32,
            },
            Direction::Right => UvRect {
                u1: (16 - self.to.z) as i32,
                v1: (16 - self.to.y) as i32,
                u2: (16 - self.from.z) as i32,
                v2: (16 - self.from.y) as i32,
            },
        }
    }

    pub fn get_face_uvs(&self, direction: &Direction) -> (r: UvRect)
        requires
            self.wf(),
        ensures
            r == self.spec_face_uvs(*direction),
            r.wf(),
    {
        match direction {
            Direction::Bottom => UvRect {
                u1: self.from.x,
                v1: 16 - self.to.z,
                u2: self.to.x,
                v2: 16 - self.from.z,
            },
            Direction::Top => UvRect { u1: self.from.x, v1: self.from.z, u2: self.to.x, v2: self.to.z },
            Direction::Front => UvRect {
                u1: 16 - self.to.x,
                v1: 16 - self.to.y,
                u2: 16 - self.from.x,
                v2: 16 - self.from.y,
            },
            Direction::Back => UvRect {
                u1: self.from.x,
                v1: 16 - self.to.y,
                u2: self.to.x,
                v2: 16 - self.from.y,
            },
            Direction::Left => UvRect {
                u1: self.from.z,
                v1: 16 - self.to.y,
                u2: self.to.z,
                v2: 16 - self.from.y,
            },
            Direction::Right => UvRect {
                u1: 16 - self.to.z,
                v1: 16 - self.to.y,
                u2: 16 - self.from.z,
                v2: 16 - self.from.y,
            },
        }
    }
}

impl Direction {
    /// The four texture-coordinate corners of a face's quad, in the same
    /// order as the corner indices `vertices` gives for this direction.
    pub open spec fn spec_uvs(self, rect: UvRect) -> Seq<Uv> {
        let u1 = rect.u1;
        let v1 = rect.v1;
        let u2 = rect.u2;
        let v2 = rect.v2;
        match self {
            Direction::Front => seq![
                Uv { u: u2, v: v2 },
                Uv { u: u1, v: v2 },
                Uv { u: u1, v: v1 },
                Uv { u: u2, v: v1 },
            ],
            Direction::Back => seq![
                Uv { u: u1, v: v1 },
                Uv { u: u2, v: v1 },
                Uv { u: u2, v: v2 },
                Uv { u: u1, v: v2 },
            ],
            _ => seq![
                Uv { u: u1, v: v2 },
                Uv { u: u1, v: v1 },
                Uv { u: u2, v: v1 },
                Uv { u: u2, v: v2 },
            ],
        }
    }

    pub fn uvs(&self, rect: UvRect) -> (r: Vec<Uv>)
        ensures
            r@ == self.spec_uvs(rect),
    {
        let u1 = rect.u1;
        let v1 = rect.v1;
        let u2 = rect.u2;
        let v2 = rect.v2;
        let mut r: Vec<Uv> = Vec::new();
        match self {
            Direction::Front => {
                r.push(Uv { u: u2, v: v2 });
                r.push(Uv { u: u1, v: v2 });
                r.push(Uv { u: u1, v: v1 });
                r.push(Uv { u: u2, v: v1 });
            },
            Direction::Back => {
                r.push(Uv { u: u1, v: v1 });
                r.push(Uv { u: u2, v: v1 });
                r.push(Uv { u: u2, v: v2 });
                r.push(Uv { u: u1, v: v2 });
            },
            _ => {
                r.push(Uv { u: u1, v: v2 });
                r.push(Uv { u: u1, v: v1 });
                r.push(Uv { u: u2, v: v1 });
                r.push(Uv { u: u2, v: v2 });
            },
        }
        proof {
            assert(r@ =~= self.spec_uvs(rect));
        }
        r
    }
}

} // verus!
