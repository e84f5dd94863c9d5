use vstd::prelude::*;

use crate::direction::Direction;
use crate::element::Element;
use crate::element::ElementFace;
use crate::geometry::Rgba;
use crate::geometry::UvRect;
use crate::model::Face;
use crate::model::Vertex;
use crate::modeldef::ModelDef;
use crate::modeldef::spec_resolve_texture;

verus! {

/// A model expanded into renderable faces, before opacity classification:
/// the faces in declaration order, the indices of those that cover a whole
/// cube side and declare the matching cull direction, and the model's
/// ambient-occlusion flag.
#[derive(Debug, Clone)]
pub struct PartialModel {
    pub faces: Vec<Face>,
    pub full_faces: Vec<usize>,
    pub ambient_occlusion: bool,
}

impl PartialModel {
    pub open spec fn wf(self) -> bool {
        &&& forall|i: int| 0 <= i < self.faces.len() ==> (#[trigger] self.faces[i]).wf()
        &&& forall|k: int|
            0 <= k < self.full_faces.len() ==> (#[trigger] self.full_faces[k]) < self.faces.len()
    }

    /// Whether any face is ineligible for ambient occlusion (it belongs to
    /// a rotated element). With the flag on, such a model renders with
    /// mixed flat and smooth shading, which deserves a log line outside.
    pub fn has_ineligible_ao_faces(&self) -> (r: bool)
        ensures
            r == exists|i: int| 0 <= i < self.faces.len() && (#[trigger] self.faces[i]).ao_face is None,
    {
        let mut i: usize = 0;
        while i < self.faces.len()
            invariant
                i <= self.faces.len(),
                forall|j: int| 0 <= j < i ==> (#[trigger] self.faces[j]).ao_face is Some,
            decreases self.faces.len() - i,
        {
            if self.faces[i].ao_face.is_none() {
                return true;
            }
            i += 1;
        }
        false
    }
}

/// A sequence of indices as mathematical integers.
pub open spec fn indices_view(s: Seq<usize>) -> Seq<int> {
    s.map_values(|u: usize| u as int)
}

/// Total number of faces declared by the elements before index `ei`; the
/// flat index of element `ei`'s first face in the expanded face list.
pub open spec fn spec_faces_before(elements: Seq<Element>, ei: int) -> int
    decreases ei,
{
    if ei <= 0 {
        0
    } else {
        spec_faces_before(elements, ei - 1) + elements[ei - 1].faces.len()
    }
}

/// The UV rectangle a face uses: its own if declared, else the element's
/// projection.
pub open spec fn spec_face_rect(e: Element, d: Direction, ef: ElementFace) -> UvRect {
    match ef.uv {
        Some(rect) => rect,
        None => e.spec_face_uvs(d),
    }
}

/// The base color of a face: the tint palette entry it points at, or the
/// white sentinel when it declares no tint or points past the palette.
pub open spec fn spec_tint_color(tints: Seq<Rgba>, ti: Option<usize>) -> Rgba {
    match ti {
        Some(i) => if i < tints.len() {
            tints[i as int]
        } else {
            Rgba { r: 255, g: 255, b: 255, a: 255 }
        },
        None => Rgba { r: 255, g: 255, b: 255, a: 255 },
    }
}

/// Whether this declared face takes part in per-direction opacity
/// classification: its element spans the whole block and it declares its
/// own direction as cull face.
pub open spec fn spec_is_full_face(e: Element, d: Direction, ef: ElementFace) -> bool {
    ef.cullface == Some(d) && e.spec_is_full_cube()
}

/// How one renderable face is built from a declared face: four corner
/// vertices picked by the direction's corner table, texture coordinates
/// from the face's rectangle, the tint palette color, the declared cull
/// face, ambient occlusion only on unrotated elements, and the texture
/// reference resolved through the model's texture map.
pub open spec fn spec_face_built(
    def: ModelDef,
    tints: Seq<Rgba>,
    e: Element,
    d: Direction,
    ef: ElementFace,
    nf: Face,
) -> bool {
    &&& nf.vertices.len() == 4
    &&& (forall|vi: int|
        0 <= vi < 4 ==> {
            let v = #[trigger] nf.vertices[vi];
            &&& (v.position.x as int, v.position.y as int, v.position.z as int) == e.spec_corner(
                d.spec_vertices()[vi] as int,
            )
            &&& v.uv == d.spec_uvs(spec_face_rect(e, d, ef))[vi]
            &&& v.color == spec_tint_color(tints, ef.tint_index)
        })
    &&& nf.cull_face == ef.cullface
    &&& nf.ao_face == (if e.rotation is None {
        Some(d)
    } else {
        None::<Direction>
    })
    &&& nf.texture@ == spec_resolve_texture(
        def.textures@,
        ef.texture@,
        (2 * def.textures.len() + 2) as nat,
    )
}

/// Flat indices of the full-cube faces among the first `fi` faces of
/// element `ei`, in declaration order.
pub open spec fn spec_elem_full_upto(elements: Seq<Element>, ei: int, fi: int) -> Seq<int>
    decreases fi,
{
    if fi <= 0 {
        Seq::empty()
    } else {
        spec_elem_full_upto(elements, ei, fi - 1) + (if spec_is_full_face(
            elements[ei],
            elements[ei].faces[fi - 1].0,
            elements[ei].faces[fi - 1].1,
        ) {
            seq![spec_faces_before(elements, ei) + fi - 1]
        } else {
            Seq::empty()
        })
    }
}

/// Flat indices of all full-cube faces of the elements before `ei`.
pub open spec fn spec_full_prefix(elements: Seq<Element>, ei: int) -> Seq<int>
    decreases ei,
{
    if ei <= 0 {
        Seq::empty()
    } else {
        spec_full_prefix(elements, ei - 1) + spec_elem_full_upto(
            elements,
            ei - 1,
            elements[ei - 1].faces.len() as int,
        )
    }
}

pub proof fn lemma_faces_before_mono(elements: Seq<Element>, a: int, b: int)
    requires
        a <= b,
    ensures
        spec_faces_before(elements, a) <= spec_faces_before(elements, b),
    decreases b - a,
{
    if a < b {
        lemma_faces_before_mono(elements, a, b - 1);
    }
}

/// Every flat face index below the total decomposes as some element's base
/// index plus a face offset within that element; this returns that pair.
pub proof fn lemma_flat_inverse(elements: Seq<Element>, n: int, i: int) -> (r: (int, int))
    requires
        0 <= n <= elements.len(),
        0 <= i < spec_faces_before(elements, n),
    ensures
        0 <= r.0 < n,
        0 <= r.1 < elements[r.0].faces.len(),
        i == spec_faces_before(elements, r.0) + r.1,
    decreases n,
{
    if n > 0 {
        let b = spec_faces_before(elements, n - 1);
        if i >= b {
            (n - 1, i - b)
        } else {
            lemma_flat_inverse(elements, n - 1, i)
        }
    } else {
        (0, 0)
    }
}

/// The first `ei` elements (and the first `fi` faces of element `ei`) have
/// been expanded correctly into `faces`.
pub open spec fn spec_faces_built_upto(
    def: ModelDef,
    tints: Seq<Rgba>,
    faces: Seq<Face>,
    ei: int,
    fi: int,
) -> bool {
    forall|e2: int, f2: int|
        #![trigger def.elements[e2].faces[f2]]
        0 <= e2 < def.elements.len() && 0 <= f2 < def.elements[e2].faces.len() && (e2 < ei || (e2
            == ei && f2 < fi)) ==> spec_face_built(
            def,
            tints,
            def.elements[e2],
            def.elements[e2].faces[f2].0,
            def.elements[e2].faces[f2].1,
            faces[spec_faces_before(def.elements@, e2) + f2],
        )
}

/// Expands a self-contained model definition into its renderable faces.
pub struct PartialModelLoader;

impl PartialModelLoader {
    /// Expands every declared face of every element into a four-vertex
    /// quad, records which expanded faces are full-cube faces, and carries
    /// the model's ambient-occlusion flag (on when the model says nothing).
    pub fn load(def: &ModelDef, tints: &Vec<Rgba>) -> (r: PartialModel)
        requires
            def.wf(),
            def.textures.len() < 1000000,
        ensures
            r.wf(),
            r.ambient_occlusion == (match def.ambient_occlusion {
                Some(b) => b,
                None => true,
            }),
            r.faces.len() == spec_faces_before(def.elements@, def.elements.len() as int),
            spec_faces_built_upto(*def, tints@, r.faces@, def.elements.len() as int, 0),
            indices_view(r.full_faces@) == spec_full_prefix(
                def.elements@,
                def.elements.len() as int,
            ),
    {
        let ambient_occlusion = match def.ambient_occlusion {
            Some(b) => b,
            None => true,
        };
        let mut faces: Vec<Face> = Vec::new();
        let mut full_faces: Vec<usize> = Vec::new();
        let mut ei: usize = 0;
        while ei < def.elements.len()
            invariant
                def.wf(),
                def.textures.len() < 1000000,
                ei <= def.elements.len(),
                faces.len() == spec_faces_before(def.elements@, ei as int),
                forall|i: int| 0 <= i < faces.len() ==> (#[trigger] faces[i]).wf(),
                forall|k: int|
                    0 <= k < full_faces.len() ==> (#[trigger] full_faces[k]) < faces.len(),
                spec_faces_built_upto(*def, tints@, faces@, ei as int, 0),
                indices_view(full_faces@) == spec_full_prefix(def.elements@, ei as int),
            decreases def.elements.len() - ei,
        {
            let e = &def.elements[ei];
            let is_full = e.is_full_cube();
            let corners = e.corner_vertices();
            let mut fi: usize = 0;
            while fi < e.faces.len()
                invariant
                    def.wf(),
                    def.textures.len() < 1000000,
                    ei < def.elements.len(),
                    e == &def.elements[ei as int],
                    is_full == e.spec_is_full_cube(),
                    corners.len() == 8,
                    forall|i: int|
                        0 <= i < 8 ==> ((#[trigger] corners[i]).x as int, corners[i].y as int,
                        corners[i].z as int) == e.spec_corner(i),
                    forall|i: int| 0 <= i < 8 ==> (#[trigger] corners[i]).in_bounds(),
                    fi <= e.faces.len(),
                    faces.len() == spec_faces_before(def.elements@, ei as int) + fi,
                    forall|i: int| 0 <= i < faces.len() ==> (#[trigger] faces[i]).wf(),
                    forall|k: int|
                        0 <= k < full_faces.len() ==> (#[trigger] full_faces[k]) < faces.len(),
                    spec_faces_built_upto(*def, tints@, faces@, ei as int, fi as int),
                    indices_view(full_faces@) == spec_full_prefix(def.elements@, ei as int)
                        + spec_elem_full_upto(def.elements@, ei as int, fi as int),
                decreases e.faces.len() - fi,
            {
                let (d, ef) = &e.faces[fi];
                let idx4 = d.vertices();
                let rect = match ef.uv {
                    Some(rect) => rect,
                    None => e.get_face_uvs(d),
                };
                let uvs = d.uvs(rect);
                let color = match ef.tint_index {
                    Some(ti) => if ti < tints.len() {
                        tints[ti]
                    } else {
                        Rgba::white()
                    },
                    None => Rgba::white(),
                };
                let is_cull_own = match &ef.cullface {
                    Some(cd) => *cd == *d,
                    None => false,
                };
                let ghost pre_full = full_faces@;
                if is_cull_own && is_full {
                    full_faces.push(faces.len());
                }
                proof {
                    assert(forall|vi: int| 0 <= vi < 4 ==> #[trigger] d.spec_vertices()[vi] < 8);
                }
                let mut vertices: Vec<Vertex> = Vec::new();
                let mut vi: usize = 0;
                while vi < 4
                    invariant
                        vi <= 4,
                        vertices.len() == vi,
                        corners.len() == 8,
                        forall|i: int|
                            0 <= i < 8 ==> ((#[trigger] corners[i]).x as int, corners[i].y as int,
                            corners[i].z as int) == e.spec_corner(i),
                        forall|i: int| 0 <= i < 8 ==> (#[trigger] corners[i]).in_bounds(),
                        idx4@ == d.spec_vertices(),
                        forall|i: int| 0 <= i < 4 ==> #[trigger] d.spec_vertices()[i] < 8,
                        uvs@ == d.spec_uvs(rect),
                        rect == spec_face_rect(*e, *d, *ef),
                        color == spec_tint_color(tints@, ef.tint_index),
                        forall|j: int|
                            0 <= j < vi ==> {
                                let v = #[trigger] vertices[j];
                                &&& (v.position.x as int, v.position.y as int, v.position.z as int)
                                    == e.spec_corner(d.spec_vertices()[j] as int)
                                &&& v.uv == d.spec_uvs(rect)[j]
                                &&& v.color == color
                                &&& v.position.in_bounds()
                            },
                    decreases 4 - vi,
                {
                    vertices.push(
                        Vertex { position: corners[idx4[vi]], uv: uvs[vi], color },
                    );
                    vi += 1;
                }
                let texture = def.get_texture(ef.texture.as_str());
                let nf = Face {
                    vertices,
                    cull_face: ef.cullface,
                    ao_face: if e.rotation.is_none() {
                        Some(*d)
                    } else {
                        None
                    },
                    texture,
                };
                proof {
                    assert(spec_face_built(*def, tints@, *e, *d, *ef, nf));
                }
                let ghost pre_faces = faces@;
                faces.push(nf);
                proof {
                    let elems = def.elements@;
                    let before = spec_faces_before(elems, ei as int);
                    lemma_faces_before_mono(elems, 0, ei as int);
                    assert(before >= 0);
                    assert((is_cull_own && is_full) == spec_is_full_face(
                        elems[ei as int],
                        elems[ei as int].faces[fi as int].0,
                        elems[ei as int].faces[fi as int].1,
                    ));
                    assert(indices_view(pre_full) == spec_full_prefix(elems, ei as int)
                        + spec_elem_full_upto(elems, ei as int, fi as int));
                    if is_cull_own && is_full {
                        assert(full_faces@ == pre_full.push((before + fi) as usize));
                    } else {
                        assert(full_faces@ == pre_full);
                    }
                    if is_cull_own && is_full {
                        assert(spec_elem_full_upto(elems, ei as int, fi as int + 1)
                            =~= spec_elem_full_upto(elems, ei as int, fi as int) + seq![
                            before + fi,
                        ]);
                        assert(indices_view(full_faces@) =~= indices_view(pre_full) + seq![
                            before + fi,
                        ]);
                    } else {
                        assert(spec_elem_full_upto(elems, ei as int, fi as int + 1)
                            =~= spec_elem_full_upto(elems, ei as int, fi as int));
                    }
                    assert(indices_view(full_faces@) =~= spec_full_prefix(elems, ei as int)
                        + spec_elem_full_upto(elems, ei as int, fi as int + 1));
                    assert forall|e2: int, f2: int|
                        #![trigger def.elements[e2].faces[f2]]
                        0 <= e2 < elems.len() && 0 <= f2 < elems[e2].faces.len() && (e2 < ei as int
                            || (e2 == ei as int && f2 < fi as int + 1)) implies spec_face_built(
                        *def,
                        tints@,
                        elems[e2],
                        elems[e2].faces[f2].0,
                        elems[e2].faces[f2].1,
                        faces@[spec_faces_before(elems, e2) + f2],
                    ) by {
                        if e2 == ei as int && f2 == fi as int {
                            assert(faces@[before + f2] == nf);
                        } else {
                            if e2 < ei as int {
                                lemma_faces_before_mono(elems, 0, e2);
                                lemma_faces_before_mono(elems, e2 + 1, ei as int);
                                assert(spec_faces_before(elems, e2 + 1) == spec_faces_before(
                                    elems,
                                    e2,
                                ) + elems[e2].faces.len());
                            }
                            let idx = spec_faces_before(elems, e2) + f2;
                            assert(0 <= idx < pre_faces.len());
                            assert(spec_face_built(
                                *def,
                                tints@,
                                elems[e2],
                                elems[e2].faces[f2].0,
                                elems[e2].faces[f2].1,
                                pre_faces[idx],
                            ));
                            assert(faces@[idx] == pre_faces[idx]);
                        }
                    }
                    assert(spec_faces_built_upto(
                        *def,
                        tints@,
                        faces@,
                        ei as int,
                        fi as int + 1,
                    ));
                }
                fi += 1;
            }
            ei += 1;
            proof {
                assert(spec_full_prefix(def.elements@, ei as int) =~= spec_full_prefix(
                    def.elements@,
                    ei as int - 1,
                ) + spec_elem_full_upto(
                    def.elements@,
                    ei as int - 1,
                    def.elements[ei as int - 1].faces.len() as int,
                ));
            }
        }
        PartialModel { faces, full_faces, ambient_occlusion }
    }
}

} // verus!
