use vstd::prelude::*;

use crate::direction::Direction;
use crate::element::Element;
use crate::element::ElementFace;
use crate::geometry::Rgba;
use crate::ids::spec_as_id;
use crate::model::Face;
use crate::model::Model;
use crate::model::Vertex;
use crate::model::spec_face_rotated;
use crate::model::spec_fixup_dir;
use crate::modeldef::ModelDef;
use crate::modeldef::spec_resolve_texture;
use crate::opacity::Opacity;
use crate::partial::PartialModel;
use crate::partial::PartialModelLoader;
use crate::partial::indices_view;
use crate::partial::lemma_faces_before_mono;
use crate::partial::lemma_flat_inverse;
use crate::partial::spec_face_built;
use crate::partial::spec_face_rect;
use crate::partial::spec_faces_before;
use crate::partial::spec_full_prefix;
use crate::partial::spec_tint_color;
use crate::texture::TextureLoader;
use crate::texture::spec_alpha_of;

verus! {

/// How a face's minimum texture alpha classifies it: fully invisible texels
/// make a see-through but solid face, full alpha an opaque one, anything
/// between a translucent one.
pub open spec fn spec_classify(a: u8) -> Opacity {
    if a == 0 {
        Opacity::TransparentSolid
    } else if a == 255 {
        Opacity::Opaque
    } else {
        Opacity::TranslucentSolid
    }
}

pub fn classify(a: u8) -> (r: Opacity)
    ensures
        r == spec_classify(a),
{
    if a == 0 {
        Opacity::TransparentSolid
    } else if a == 255 {
        Opacity::Opaque
    } else {
        Opacity::TranslucentSolid
    }
}

/// The opacity of direction `d`: the maximum classification over the listed
/// full-cube faces whose cull direction is `d`; Transparent when none is.
pub open spec fn spec_dir_opacity(
    reg: Seq<(String, u8)>,
    faces: Seq<Face>,
    full: Seq<int>,
    d: Direction,
) -> Opacity
    decreases full.len(),
{
    if full.len() == 0 {
        Opacity::Transparent
    } else {
        let rest = spec_dir_opacity(reg, faces, full.drop_last(), d);
        let j = full.last();
        if 0 <= j < faces.len() && faces[j].cull_face == Some(d) {
            rest.spec_max(spec_classify(spec_alpha_of(reg, spec_as_id(faces[j].texture@))))
        } else {
            rest
        }
    }
}

/// How one finished face of a loaded model relates to the declared face it
/// came from: built as the partial-model expansion says, with ambient
/// occlusion kept only when the whole model allows it.
pub open spec fn spec_face_finalized(
    def: ModelDef,
    tints: Seq<Rgba>,
    ao_enabled: bool,
    e: Element,
    d: Direction,
    ef: ElementFace,
    nf: Face,
) -> bool {
    &&& nf.vertices.len() == 4
    &&& (forall|vi: int|
        0 <= vi < 4 ==> {
            let v = #[trigger] nf.vertices[vi];
            &&& (v.position.x as int, v.position.y as int, v.position.z as int) == e.spec_corner(
                d.spec_vertices()[vi] as int,
            )
            &&& v.uv == d.spec_uvs(spec_face_rect(e, d, ef))[vi]
            &&& v.color == spec_tint_color(tints, ef.tint_index)
        })
    &&& nf.cull_face == ef.cullface
    &&& nf.ao_face == (if ao_enabled && e.rotation is None {
        Some(d)
    } else {
        None::<Direction>
    })
    &&& nf.texture@ == spec_resolve_texture(
        def.textures@,
        ef.texture@,
        (2 * def.textures.len() + 2) as nat,
    )
}

/// What loading a model from its definition produces: one finished face per
/// declared face in declaration order, the tint count, and a per-direction
/// opacity classification aggregated over the full-cube faces.
pub open spec fn spec_model_loaded(
    def: ModelDef,
    tints: Seq<Rgba>,
    reg: Seq<(String, u8)>,
    m: Model,
) -> bool {
    let ao_enabled = match def.ambient_occlusion {
        Some(b) => b,
        None => true,
    };
    &&& m.wf()
    &&& m.tints == tints.len()
    &&& m.faces.len() == spec_faces_before(def.elements@, def.elements.len() as int)
    &&& (forall|e2: int, f2: int|
        #![trigger def.elements[e2].faces[f2]]
        0 <= e2 < def.elements.len() && 0 <= f2 < def.elements[e2].faces.len()
            ==> spec_face_finalized(
            def,
            tints,
            ao_enabled,
            def.elements[e2],
            def.elements[e2].faces[f2].0,
            def.elements[e2].faces[f2].1,
            m.faces[spec_faces_before(def.elements@, e2) + f2],
        ))
    &&& m.opacity.len() == 6
    &&& (forall|d: Direction|
        m.opacity[(#[trigger] d.spec_index())] == spec_dir_opacity(
            reg,
            m.faces@,
            spec_full_prefix(def.elements@, def.elements.len() as int),
            d,
        ))
    &&& m.uvs_within(0, 16)
}

fn clone_vertices(vs: &Vec<Vertex>) -> (r: Vec<Vertex>)
    ensures
        r@ == vs@,
{
    let mut r: Vec<Vertex> = Vec::new();
    let mut i: usize = 0;
    while i < vs.len()
        invariant
            i <= vs.len(),
            r.len() == i,
            forall|j: int| 0 <= j < i ==> #[trigger] r[j] == vs[j],
        decreases vs.len() - i,
    {
        r.push(vs[i]);
        i += 1;
    }
    proof {
        assert(r@ =~= vs@);
    }
    r
}

/// Turns partial models into finished ones and applies variant rotation.
pub struct ModelLoader;

impl ModelLoader {
    /// Expands a self-contained model definition and finishes it: full-cube
    /// faces are classified by their texture's minimum alpha and aggregated
    /// into one opacity per cube direction, and ambient-occlusion
    /// eligibility is stripped from every face when the model turns the
    /// flag off.
    pub fn load(def: &ModelDef, textures: &TextureLoader, tints: &Vec<Rgba>) -> (r: Model)
        requires
            def.wf(),
            def.textures.len() < 1000000,
        ensures
            spec_model_loaded(*def, tints@, textures.textures@, r),
    {
        let partial = PartialModelLoader::load(def, tints);
        let ao_enabled = partial.ambient_occlusion;

        let faces = if ao_enabled {
            let mut kept: Vec<Face> = Vec::new();
            let mut i: usize = 0;
            while i < partial.faces.len()
                invariant
                    partial.wf(),
                    i <= partial.faces.len(),
                    kept.len() == i,
                    forall|j: int|
                        0 <= j < i ==> {
                            let nf = #[trigger] kept[j];
                            let of = partial.faces[j];
                            nf.vertices@ == of.vertices@ && nf.cull_face == of.cull_face
                                && nf.ao_face == of.ao_face && nf.texture@ == of.texture@
                                && nf.wf()
                        },
                decreases partial.faces.len() - i,
            {
                let of = &partial.faces[i];
                kept.push(
                    Face {
                        vertices: clone_vertices(&of.vertices),
                        cull_face: of.cull_face,
                        ao_face: of.ao_face,
                        texture: of.texture.clone(),
                    },
                );
                i += 1;
            }
            kept
        } else {
            let mut stripped: Vec<Face> = Vec::new();
            let mut i: usize = 0;
            while i < partial.faces.len()
                invariant
                    partial.wf(),
                    i <= partial.faces.len(),
                    stripped.len() == i,
                    forall|j: int|
                        0 <= j < i ==> {
                            let nf = #[trigger] stripped[j];
                            let of = partial.faces[j];
                            nf.vertices@ == of.vertices@ && nf.cull_face == of.cull_face
                                && nf.ao_face is None && nf.texture@ == of.texture@ && nf.wf()
                        },
                decreases partial.faces.len() - i,
            {
                let of = &partial.faces[i];
                stripped.push(
                    Face {
                        vertices: clone_vertices(&of.vertices),
                        cull_face: of.cull_face,
                        ao_face: None,
                        texture: of.texture.clone(),
                    },
                );
                i += 1;
            }
            stripped
        };
        proof {
            assert(faces.len() == partial.faces.len());
            assert(forall|j: int|
                0 <= j < faces.len() ==> {
                    let nf = #[trigger] faces[j];
                    let of = partial.faces[j];
                    nf.vertices@ == of.vertices@ && nf.cull_face == of.cull_face && nf.texture@
                        == of.texture@ && nf.wf() && nf.ao_face == (if ao_enabled {
                        of.ao_face
                    } else {
                        None::<Direction>
                    })
                });
        }

        let mut opacity: Vec<Opacity> = Vec::new();
        let mut k: usize = 0;
        while k < 6
            invariant
                k <= 6,
                opacity.len() == k,
                forall|j: int| 0 <= j < k ==> opacity[j] == Opacity::Transparent,
            decreases 6 - k,
        {
            opacity.push(Opacity::Transparent);
            k += 1;
        }
        let ghost full_ints = indices_view(partial.full_faces@);
        let mut k: usize = 0;
        while k < partial.full_faces.len()
            invariant
                partial.wf(),
                faces.len() == partial.faces.len(),
                full_ints == indices_view(partial.full_faces@),
                k <= partial.full_faces.len(),
                opacity.len() == 6,
                forall|d: Direction|
                    opacity[(#[trigger] d.spec_index())] == spec_dir_opacity(
                        textures.textures@,
                        faces@,
                        full_ints.take(k as int),
                        d,
                    ),
            decreases partial.full_faces.len() - k,
        {
            let j = partial.full_faces[k];
            let ghost pre_opacity = opacity@;
            match &faces[j].cull_face {
                Some(cd) => {
                    let a = textures.get_alpha(faces[j].texture.as_str());
                    let op = classify(a);
                    let di = cd.index();
                    let cur = opacity[di];
                    opacity[di] = cur.max(op);
                },
                None => {},
            }
            proof {
                assert(full_ints.take(k as int + 1).drop_last() =~= full_ints.take(k as int));
                assert(full_ints.take(k as int + 1).last() == j as int);
                assert forall|d: Direction|
                    opacity@[(#[trigger] d.spec_index())] == spec_dir_opacity(
                        textures.textures@,
                        faces@,
                        full_ints.take(k as int + 1),
                        d,
                    ) by {
                    match faces@[j as int].cull_face {
                        Some(cd) => {
                            if d == cd {
                                assert(opacity@[d.spec_index()] == pre_opacity[d.spec_index()].spec_max(
                                    spec_classify(
                                        spec_alpha_of(
                                            textures.textures@,
                                            spec_as_id(faces@[j as int].texture@),
                                        ),
                                    ),
                                ));
                            } else {
                                assert(d.spec_index() != cd.spec_index());
                                assert(opacity@[d.spec_index()] == pre_opacity[d.spec_index()]);
                            }
                        },
                        None => {},
                    }
                }
            }
            k += 1;
        }
        proof {
            assert(full_ints.take(partial.full_faces.len() as int) =~= full_ints);
        }

        let r = Model { faces, tints: tints.len(), opacity };
        proof {
            let elems = def.elements@;
            let n = def.elements.len() as int;
            assert forall|e2: int, f2: int|
                #![trigger def.elements[e2].faces[f2]]
                0 <= e2 < elems.len() && 0 <= f2 < elems[e2].faces.len() implies spec_face_finalized(
                *def,
                tints@,
                ao_enabled,
                elems[e2],
                elems[e2].faces[f2].0,
                elems[e2].faces[f2].1,
                r.faces[spec_faces_before(elems, e2) + f2],
            ) by {
                lemma_faces_before_mono(elems, 0, e2);
                lemma_faces_before_mono(elems, e2 + 1, n);
                let idx = spec_faces_before(elems, e2) + f2;
                assert(spec_face_built(
                    *def,
                    tints@,
                    elems[e2],
                    elems[e2].faces[f2].0,
                    elems[e2].faces[f2].1,
                    partial.faces@[idx],
                ));
                let of = partial.faces@[idx];
                let nf = r.faces@[idx];
                assert(nf.vertices@ == of.vertices@);
                assert(forall|vi: int| 0 <= vi < 4 ==> #[trigger] nf.vertices[vi] == of.vertices[vi]);
            }
            assert forall|i: int| 0 <= i < r.faces.len() implies (#[trigger] r.faces[i]).uvs_within(
                0,
                16,
            ) by {
                let (e2, f2) = lemma_flat_inverse(elems, n, i);
                assert(spec_face_finalized(
                    *def,
                    tints@,
                    ao_enabled,
                    elems[e2],
                    elems[e2].faces[f2].0,
                    elems[e2].faces[f2].1,
                    r.faces[i],
                ));
                assert(elems[e2].wf());
                assert(elems[e2].faces[f2].1.wf());
                let rect = spec_face_rect(elems[e2], elems[e2].faces[f2].0, elems[e2].faces[f2].1);
                assert(0 <= rect.u1 <= 16 && 0 <= rect.v1 <= 16 && 0 <= rect.u2 <= 16 && 0
                    <= rect.v2 <= 16);
                assert forall|vi: int| 0 <= vi < r.faces[i].vertices.len() implies 0 <= (
                #[trigger] r.faces[i].vertices[vi]).uv.u <= 16 && 0
                    <= r.faces[i].vertices[vi].uv.v <= 16 by {
                    assert(r.faces[i].vertices[vi].uv == elems[e2].faces[f2].0.spec_uvs(rect)[vi]);
                }
            }
        }
        r
    }
}

} // verus!
verus! {

/// How a model after one axis turn relates to the model before it.
pub open spec fn spec_model_rotated(
    m0: Model,
    m1: Model,
    ix: int,
    iy: int,
    r: int,
    uvlock: bool,
) -> bool {
    &&& m1.wf()
    &&& m1.tints == m0.tints
    &&& (r == 0 ==> m1 == m0)
    &&& (r != 0 ==> m1.faces.len() == m0.faces.len() && (forall|fi: int|
        0 <= fi < m0.faces.len() ==> spec_face_rotated(
            m0.faces[fi],
            #[trigger] m1.faces[fi],
            ix,
            iy,
            r,
            uvlock,
        )) && (forall|d: Direction|
        m1.opacity[(#[trigger] spec_fixup_dir(d, ix, iy, r)).spec_index()]
            == m0.opacity[d.spec_index()]))
}

impl ModelLoader {
    /// Loads a model and applies a block-state variant's rotation: first
    /// `x` degrees in the z/y plane, then `y` degrees in the x/z plane,
    /// with the UV lock flag passed through to both turns.
    pub fn load_rotated(
        def: &ModelDef,
        textures: &TextureLoader,
        tints: &Vec<Rgba>,
        x: usize,
        y: usize,
        uvlock: bool,
    ) -> (r: Model)
        requires
            def.wf(),
            def.textures.len() < 1000000,
            x == 0 || x == 90 || x == 180 || x == 270,
            y == 0 || y == 90 || y == 180 || y == 270,
        ensures
            r.wf(),
            r.tints == tints.len(),
            exists|m0: Model, m1: Model|
                #![trigger spec_model_rotated(m0, m1, 2, 1, x as int, uvlock)]
                spec_model_loaded(*def, tints@, textures.textures@, m0) && spec_model_rotated(
                    m0,
                    m1,
                    2,
                    1,
                    x as int,
                    uvlock,
                ) && spec_model_rotated(m1, r, 0, 2, y as int, uvlock),
    {
        let mut model = Self::load(def, textures, tints);
        let ghost m0 = model;
        model.rotate(2, 1, x, uvlock);
        proof {
            lemma_uvs_after_turn(m0, model, 2, 1, x as int, uvlock);
        }
        let ghost m1 = model;
        model.rotate(0, 2, y, uvlock);
        proof {
            assert(spec_model_loaded(*def, tints@, textures.textures@, m0) && spec_model_rotated(
                m0,
                m1,
                2,
                1,
                x as int,
                uvlock,
            ) && spec_model_rotated(m1, model, 0, 2, y as int, uvlock));
        }
        model
    }
}

/// Texture coordinates that start in the 0..16 tile stay within a bounded
/// band under a UV-locked turn, so a second turn can follow.
pub proof fn lemma_uvs_after_turn(m0: Model, m1: Model, ix: int, iy: int, r: int, uvlock: bool)
    requires
        m0.wf(),
        m0.uvs_within(0, 16),
        r == 0 || r == 90 || r == 180 || r == 270,
        spec_model_rotated(m0, m1, ix, iy, r, uvlock),
    ensures
        m1.uvs_within(-100000, 100000),
{
    if r == 0 {
    } else {
        assert forall|i: int| 0 <= i < m1.faces.len() implies (#[trigger] m1.faces[i]).uvs_within(
            -100000,
            100000,
        ) by {
            let of = m0.faces[i];
            assert(spec_face_rotated(of, m1.faces[i], ix, iy, r, uvlock));
            assert(of.wf());
            assert(of.uvs_within(0, 16));
            assert forall|vi: int|
                0 <= vi < m1.faces[i].vertices.len() implies -100000 <= (#[trigger] m1.faces[i].vertices[vi]).uv.u
                <= 100000 && -100000 <= m1.faces[i].vertices[vi].uv.v <= 100000 by {
                assert(m1.faces[i].vertices[vi] == crate::model::spec_rotate_vertex(
                    of,
                    ix,
                    iy,
                    r,
                    uvlock,
                    vi,
                ));
                assert(0 <= of.vertices[0].uv.u <= 16 && 0 <= of.vertices[0].uv.v <= 16);
                assert(0 <= of.vertices[1].uv.u <= 16 && 0 <= of.vertices[1].uv.v <= 16);
                assert(0 <= of.vertices[2].uv.u <= 16 && 0 <= of.vertices[2].uv.v <= 16);
                assert(0 <= of.vertices[3].uv.u <= 16 && 0 <= of.vertices[3].uv.v <= 16);
                assert(0 <= of.vertices[vi].uv.u <= 16 && 0 <= of.vertices[vi].uv.v <= 16);
            }
        }
    }
}

} // verus!

verus! {

/// A direction's classification is at least that of any listed full-cube
/// face that culls toward it.
pub proof fn lemma_dir_opacity_ge(
    reg: Seq<(String, u8)>,
    faces: Seq<Face>,
    full: Seq<int>,
    d: Direction,
    k: int,
)
    requires
        0 <= k < full.len(),
        0 <= full[k] < faces.len(),
        faces[full[k]].cull_face == Some(d),
    ensures
        spec_dir_opacity(reg, faces, full, d).rank() >= spec_classify(
            spec_alpha_of(reg, spec_as_id(faces[full[k]].texture@)),
        ).rank(),
    decreases full.len(),
{
    if k == full.len() - 1 {
        assert(full.last() == full[k]);
    } else {
        assert(full.drop_last()[k] == full[k]);
        lemma_dir_opacity_ge(reg, faces, full.drop_last(), d, k);
    }
}

/// A model whose six sides each carry a full-cube face with a fully opaque
/// texture classifies as Opaque in each such direction: this names one such
/// face and concludes the direction is Opaque.
pub proof fn lemma_opaque_face_makes_opaque(
    reg: Seq<(String, u8)>,
    faces: Seq<Face>,
    full: Seq<int>,
    d: Direction,
    k: int,
)
    requires
        0 <= k < full.len(),
        0 <= full[k] < faces.len(),
        faces[full[k]].cull_face == Some(d),
        spec_alpha_of(reg, spec_as_id(faces[full[k]].texture@)) == 255,
    ensures
        spec_dir_opacity(reg, faces, full, d) == Opacity::Opaque,
{
    lemma_dir_opacity_ge(reg, faces, full, d, k);
}

/// One translucent (partial-alpha) texture caps a direction: when every
/// listed full-cube face toward `d` classifies as translucent, the whole
/// direction classifies as TranslucentSolid and never higher; with at least
/// one such face it is exactly TranslucentSolid.
pub proof fn lemma_translucent_cap(
    reg: Seq<(String, u8)>,
    faces: Seq<Face>,
    full: Seq<int>,
    d: Direction,
)
    requires
        forall|k: int|
            0 <= k < full.len() ==> 0 <= #[trigger] full[k] < faces.len() && (faces[full[k]].cull_face
                == Some(d) ==> spec_classify(
                spec_alpha_of(reg, spec_as_id(faces[full[k]].texture@)),
            ) == Opacity::TranslucentSolid),
    ensures
        spec_dir_opacity(reg, faces, full, d).rank() <= Opacity::TranslucentSolid.rank(),
    decreases full.len(),
{
    if full.len() > 0 {
        assert forall|k: int| 0 <= k < full.drop_last().len() implies 0 <= #[trigger] full.drop_last()[k]
            < faces.len() && (faces[full.drop_last()[k]].cull_face == Some(d) ==> spec_classify(
            spec_alpha_of(reg, spec_as_id(faces[full.drop_last()[k]].texture@)),
        ) == Opacity::TranslucentSolid) by {
            assert(full.drop_last()[k] == full[k]);
        }
        lemma_translucent_cap(reg, faces, full.drop_last(), d);
    }
}

} // verus!

verus! {

/// Four quarter turns in the same plane bring every corner of every face of
/// a model back to its original position.
pub proof fn lemma_four_quarter_turned_models(
    m0: Model,
    m1: Model,
    m2: Model,
    m3: Model,
    m4: Model,
    ix: int,
    iy: int,
    uvlock: bool,
)
    requires
        m0.wf(),
        0 <= ix < 3,
        0 <= iy < 3,
        ix != iy,
        spec_model_rotated(m0, m1, ix, iy, 90, uvlock),
        spec_model_rotated(m1, m2, ix, iy, 90, uvlock),
        spec_model_rotated(m2, m3, ix, iy, 90, uvlock),
        spec_model_rotated(m3, m4, ix, iy, 90, uvlock),
    ensures
        m4.faces.len() == m0.faces.len(),
        forall|fi: int, vi: int|
            #![trigger m4.faces[fi].vertices[vi]]
            0 <= fi < m0.faces.len() && 0 <= vi < 4 ==> m4.faces[fi].vertices[vi].position
                == m0.faces[fi].vertices[vi].position,
{
    assert forall|fi: int, vi: int|
        #![trigger m4.faces[fi].vertices[vi]]
        0 <= fi < m0.faces.len() && 0 <= vi < 4 implies m4.faces[fi].vertices[vi].position
        == m0.faces[fi].vertices[vi].position by {
        assert(crate::model::spec_face_rotated(m0.faces[fi], m1.faces[fi], ix, iy, 90, uvlock));
        assert(crate::model::spec_face_rotated(m1.faces[fi], m2.faces[fi], ix, iy, 90, uvlock));
        assert(crate::model::spec_face_rotated(m2.faces[fi], m3.faces[fi], ix, iy, 90, uvlock));
        assert(crate::model::spec_face_rotated(m3.faces[fi], m4.faces[fi], ix, iy, 90, uvlock));
        let p = m0.faces[fi].vertices[vi].position;
        assert(m0.faces[fi].wf());
        assert(p.in_bounds());
        assert(m1.faces[fi].vertices[vi] == crate::model::spec_rotate_vertex(
            m0.faces[fi],
            ix,
            iy,
            90,
            uvlock,
            vi,
        ));
        crate::model::lemma_four_quarter_turns(ix, iy, p);
    }
}

} // verus!
