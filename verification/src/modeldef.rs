use vstd::prelude::*;

use crate::assoc::lemma_assoc_none;
use crate::assoc::assoc_get;
use crate::assoc::spec_assoc;
use crate::direction::Direction;
use crate::element::Element;
use crate::element::ElementFace;
use crate::ids::as_id;
use crate::ids::spec_as_id;

verus! {

/// A block-model definition as the model file gives it: an optional parent
/// to inherit from, the ambient-occlusion flag (on when absent), the
/// texture-variable assignments in declaration order (newer entries first
/// shadow older ones), and the cuboid elements.
#[derive(Debug, Clone)]
pub struct ModelDef {
    pub parent: Option<String>,
    pub ambient_occlusion: Option<bool>,
    pub textures: Vec<(String, String)>,
    pub elements: Vec<Element>,
}

impl ModelDef {
    pub open spec fn wf(self) -> bool {
        forall|i: int| 0 <= i < self.elements.len() ==> (#[trigger] self.elements[i]).wf()
    }
}

/// Equality of two faces up to string identity: every field agrees, the
/// texture as a character sequence.
pub open spec fn element_face_like(a: ElementFace, b: ElementFace) -> bool {
    &&& a.uv == b.uv
    &&& a.texture@ == b.texture@
    &&& a.cullface == b.cullface
    &&& a.rotation == b.rotation
    &&& a.tint_index == b.tint_index
}

pub open spec fn element_like(a: Element, b: Element) -> bool {
    &&& a.from == b.from
    &&& a.to == b.to
    &&& a.rotation == b.rotation
    &&& a.faces.len() == b.faces.len()
    &&& forall|i: int|
        0 <= i < a.faces.len() ==> (#[trigger] a.faces[i]).0 == b.faces[i].0 && element_face_like(
            a.faces[i].1,
            b.faces[i].1,
        )
}

pub open spec fn elements_like(a: Seq<Element>, b: Seq<Element>) -> bool {
    a.len() == b.len() && forall|i: int| 0 <= i < a.len() ==> element_like(#[trigger] a[i], b[i])
}

/// The texture pairs as plain character sequences.
pub open spec fn pairs_view(s: Seq<(String, String)>) -> Seq<(Seq<char>, Seq<char>)> {
    s.map_values(|p: (String, String)| (p.0@, p.1@))
}

fn clone_element_face(f: &ElementFace) -> (r: ElementFace)
    ensures
        element_face_like(*f, r),
{
    ElementFace {
        uv: f.uv,
        texture: f.texture.clone(),
        cullface: f.cullface,
        rotation: f.rotation,
        tint_index: f.tint_index,
    }
}

fn clone_element(e: &Element) -> (r: Element)
    ensures
        element_like(*e, r),
        e.wf() ==> r.wf(),
{
    let mut faces: Vec<(Direction, ElementFace)> = Vec::new();
    let mut i: usize = 0;
    while i < e.faces.len()
        invariant
            i <= e.faces.len(),
            faces.len() == i,
            forall|j: int|
                0 <= j < i ==> (#[trigger] faces[j]).0 == e.faces[j].0 && element_face_like(
                    e.faces[j].1,
                    faces[j].1,
                ),
        decreases e.faces.len() - i,
    {
        let (d, f) = &e.faces[i];
        faces.push((*d, clone_element_face(f)));
        i += 1;
    }
    let r = Element { from: e.from, to: e.to, rotation: e.rotation, faces };
    proof {
        if e.wf() {
            assert forall|j: int| 0 <= j < r.faces.len() implies (#[trigger] r.faces[j]).1.wf() by {
                assert(element_face_like(e.faces[j as int].1, r.faces[j as int].1));
                assert(e.faces[j as int].1.wf());
            }
        }
    }
    r
}

fn clone_elements(es: &Vec<Element>) -> (r: Vec<Element>)
    ensures
        elements_like(es@, r@),
        (forall|i: int| 0 <= i < es.len() ==> (#[trigger] es[i]).wf()) ==> (forall|i: int|
            0 <= i < r.len() ==> (#[trigger] r[i]).wf()),
{
    let mut r: Vec<Element> = Vec::new();
    let mut i: usize = 0;
    while i < es.len()
        invariant
            i <= es.len(),
            r.len() == i,
            forall|j: int| 0 <= j < i ==> element_like(#[trigger] es[j], r[j]),
            forall|j: int| 0 <= j < i ==> ((#[trigger] es[j]).wf() ==> r[j].wf()),
        decreases es.len() - i,
    {
        let e = clone_element(&es[i]);
        r.push(e);
        i += 1;
    }
    proof {
        if forall|j: int| 0 <= j < es.len() ==> (#[trigger] es[j]).wf() {
            assert forall|j: int| 0 <= j < r.len() implies (#[trigger] r[j]).wf() by {
                assert(es[j].wf());
                assert(es[j].wf() ==> r[j].wf());
            }
        }
    }
    r
}

fn clone_pairs(ps: &Vec<(String, String)>) -> (r: Vec<(String, String)>)
    ensures
        pairs_view(r@) == pairs_view(ps@),
        r.len() == ps.len(),
{
    let mut r: Vec<(String, String)> = Vec::new();
    let mut i: usize = 0;
    while i < ps.len()
        invariant
            i <= ps.len(),
            r.len() == i,
            forall|j: int|
                0 <= j < i ==> (#[trigger] r@[j]).0@ == ps@[j].0@ && r@[j].1@ == ps@[j].1@,
        decreases ps.len() - i,
    {
        let (k, v) = &ps[i];
        r.push((k.clone(), v.clone()));
        i += 1;
    }
    proof {
        assert(pairs_view(r@) =~= pairs_view(ps@));
    }
    r
}

} // verus!

verus! {

/// What chasing `#variable` indirection through the texture map yields,
/// with at most `fuel` steps: a leading `#` is stripped, a name found in the
/// map is replaced by its value, and a name not in the map is the answer.
pub open spec fn spec_resolve_texture(pairs: Seq<(String, String)>, t: Seq<char>, fuel: nat) -> Seq<
    char,
>
    decreases fuel,
{
    if fuel == 0 {
        t
    } else if t.len() > 0 && t[0] == '#' {
        spec_resolve_texture(pairs, t.subrange(1, t.len() as int), (fuel - 1) as nat)
    } else {
        match spec_assoc(pairs, t) {
            Some(v) => spec_resolve_texture(pairs, v@, (fuel - 1) as nat),
            None => t,
        }
    }
}

impl ModelDef {
    /// Resolves a texture reference to a concrete id by chasing `#variable`
    /// indirection through this model's texture map. The step allowance of
    /// twice the map size plus two guarantees an answer even on a cyclic
    /// map, where the reference comes back unresolved.
    pub fn get_texture(&self, t: &str) -> (r: String)
        requires
            self.textures.len() < 1000000,
        ensures
            r@ == spec_resolve_texture(self.textures@, t@, (2 * self.textures.len() + 2) as nat),
    {
        let ghost fuel0: nat = (2 * self.textures.len() + 2) as nat;
        let mut cur: String = t.to_owned();
        let mut fuel: usize = 2 * self.textures.len() + 2;
        while fuel > 0
            invariant
                self.textures.len() < 1000000,
                fuel0 == (2 * self.textures.len() + 2) as nat,
                fuel <= fuel0,
                spec_resolve_texture(self.textures@, t@, fuel0) == spec_resolve_texture(
                    self.textures@,
                    cur@,
                    fuel as nat,
                ),
            decreases fuel,
        {
            let n = cur.as_str().unicode_len();
            let starts_hash = n > 0 && cur.as_str().get_char(0) == '#';
            if starts_hash {
                let stripped = cur.as_str().substring_char(1, n).to_owned();
                proof {
                    assert(stripped@ == cur@.subrange(1, cur@.len() as int));
                }
                cur = stripped;
                fuel = fuel - 1;
            } else {
                match assoc_get(&self.textures, cur.as_str()) {
                    Some(v) => {
                        let nv = v.clone();
                        cur = nv;
                        fuel = fuel - 1;
                    },
                    None => {
                        return cur;
                    },
                }
            }
        }
        cur
    }
}

/// A reference to a model by name could not be resolved: the name (or an
/// ancestor) has no definition, or the parent chain never ends.
#[derive(Debug, Clone)]
pub enum ModelError {
    Missing(String),
    Cyclic(String),
}

impl ModelError {
    /// A short description for logs, naming the offending model.
    pub fn describe(&self) -> String {
        match self {
            ModelError::Missing(name) => {
                let base = String::from_str("no model definition named ");
                base.concat(name.as_str())
            },
            ModelError::Cyclic(name) => {
                let base = String::from_str("cyclic parent chain through model ");
                base.concat(name.as_str())
            },
        }
    }
}

/// The store of raw model definitions, keyed by canonical name. Definitions
/// come in from outside after decoding; `resolve` folds a definition with
/// its parent chain into one self-contained definition.
pub struct BlockLoader {
    pub defs: Vec<(String, ModelDef)>,
}

/// Whether the parent chain starting at `name` reaches a parentless
/// definition within `fuel` steps, every link defined.
pub open spec fn spec_resolve_ok(defs: Seq<(String, ModelDef)>, name: Seq<char>, fuel: nat) -> bool
    decreases fuel,
{
    match spec_assoc(defs, name) {
        None => false,
        Some(d) => match d.parent {
            None => true,
            Some(p) => fuel > 0 && spec_resolve_ok(defs, spec_as_id(p@), (fuel - 1) as nat),
        },
    }
}

/// Whether the chain runs into a name with no definition within `fuel`
/// steps (as opposed to never ending).
pub open spec fn spec_chain_missing(defs: Seq<(String, ModelDef)>, name: Seq<char>, fuel: nat) -> bool
    decreases fuel,
{
    match spec_assoc(defs, name) {
        None => true,
        Some(d) => match d.parent {
            None => false,
            Some(p) => fuel > 0 && spec_chain_missing(defs, spec_as_id(p@), (fuel - 1) as nat),
        },
    }
}

/// The texture map after inheritance: the child's entries first (so they
/// shadow the parent's under first-match lookup), then the parent's own
/// merged map.
pub open spec fn spec_merged_textures(
    defs: Seq<(String, ModelDef)>,
    name: Seq<char>,
    fuel: nat,
) -> Seq<(Seq<char>, Seq<char>)>
    decreases fuel,
{
    match spec_assoc(defs, name) {
        None => seq![],
        Some(d) => match d.parent {
            None => pairs_view(d.textures@),
            Some(p) => if fuel > 0 {
                pairs_view(d.textures@) + spec_merged_textures(defs, spec_as_id(p@), (fuel - 1) as nat)
            } else {
                pairs_view(d.textures@)
            },
        },
    }
}

/// The elements after inheritance: the child's own if it declares any, else
/// the nearest ancestor's, verbatim.
pub open spec fn spec_merged_elements(
    defs: Seq<(String, ModelDef)>,
    name: Seq<char>,
    fuel: nat,
) -> Seq<Element>
    decreases fuel,
{
    match spec_assoc(defs, name) {
        None => seq![],
        Some(d) => if d.elements.len() > 0 {
            d.elements@
        } else {
            match d.parent {
                None => d.elements@,
                Some(p) => if fuel > 0 {
                    spec_merged_elements(defs, spec_as_id(p@), (fuel - 1) as nat)
                } else {
                    d.elements@
                },
            }
        },
    }
}

impl BlockLoader {
    pub open spec fn wf(self) -> bool {
        forall|i: int| 0 <= i < self.defs.len() ==> (#[trigger] self.defs[i]).1.wf()
    }

    pub fn new() -> (r: BlockLoader)
        ensures
            r.defs.len() == 0,
            r.wf(),
    {
        BlockLoader { defs: Vec::new() }
    }

    /// Stores a definition under the canonical form of `name`. A newer
    /// definition of the same name shadows the older one.
    pub fn insert(&mut self, name: &str, def: ModelDef)
        requires
            old(self).wf(),
            def.wf(),
        ensures
            final(self).wf(),
            final(self).defs.len() == old(self).defs.len() + 1,
            final(self).defs[0].0@ == spec_as_id(name@),
            final(self).defs[0].1 == def,
            final(self).defs@.skip(1) == old(self).defs@,
    {
        let key = as_id(name);
        self.defs.insert(0, (key, def));
    }

    /// The raw (unmerged) definition stored under a name, if any.
    pub fn get(&self, name: &str) -> (r: Option<&ModelDef>)
        ensures
            match r {
                Some(d) => spec_assoc(self.defs@, spec_as_id(name@)) == Some(*d),
                None => spec_assoc(self.defs@, spec_as_id(name@)) is None,
            },
    {
        let key = as_id(name);
        assoc_get(&self.defs, key.as_str())
    }

    /// The names of every stored definition, newest first.
    pub fn available(&self) -> (r: Vec<String>)
        ensures
            r.len() == self.defs.len(),
            forall|i: int| 0 <= i < r.len() ==> (#[trigger] r[i])@ == self.defs[i].0@,
    {
        let mut r: Vec<String> = Vec::new();
        let mut i: usize = 0;
        while i < self.defs.len()
            invariant
                i <= self.defs.len(),
                r.len() == i,
                forall|j: int| 0 <= j < i ==> (#[trigger] r[j])@ == self.defs[j].0@,
            decreases self.defs.len() - i,
        {
            r.push(self.defs[i].0.clone());
            i += 1;
        }
        r
    }

    fn resolve_fuel(&self, name: &str, fuel: usize) -> (r: Result<ModelDef, ModelError>)
        requires
            self.wf(),
        ensures
            (r is Ok) == spec_resolve_ok(self.defs@, name@, fuel as nat),
            (r matches Err(ModelError::Missing(_))) == spec_chain_missing(
                self.defs@,
                name@,
                fuel as nat,
            ),
            r matches Ok(d) ==> pairs_view(d.textures@) == spec_merged_textures(
                self.defs@,
                name@,
                fuel as nat,
            ) && elements_like(spec_merged_elements(self.defs@, name@, fuel as nat), d.elements@)
                && d.parent is None && d.ambient_occlusion == spec_assoc(
                self.defs@,
                name@,
            ).unwrap().ambient_occlusion && d.wf(),
        decreases fuel,
    {
        match assoc_get(&self.defs, name) {
            None => Err(ModelError::Missing(name.to_owned())),
            Some(d) => {
                match &d.parent {
                    None => Ok(
                        ModelDef {
                            parent: None,
                            ambient_occlusion: d.ambient_occlusion,
                            textures: clone_pairs(&d.textures),
                            elements: clone_elements(&d.elements),
                        },
                    ),
                    Some(p) => {
                        if fuel == 0 {
                            Err(ModelError::Cyclic(name.to_owned()))
                        } else {
                            let canon = as_id(p.as_str());
                            match self.resolve_fuel(canon.as_str(), fuel - 1) {
                                Err(e) => Err(e),
                                Ok(parent_def) => {
                                    let mut pd = parent_def;
                                    let mut textures = clone_pairs(&d.textures);
                                    textures.append(&mut pd.textures);
                                    proof {
                                        assert(pairs_view(textures@) =~= pairs_view(d.textures@)
                                            + spec_merged_textures(
                                            self.defs@,
                                            spec_as_id(p@),
                                            (fuel - 1) as nat,
                                        ));
                                    }
                                    let elements = if d.elements.len() > 0 {
                                        clone_elements(&d.elements)
                                    } else {
                                        pd.elements
                                    };
                                    proof {
                                        assert(spec_resolve_ok(self.defs@, name@, fuel as nat));
                                        assert(pairs_view(textures@) == spec_merged_textures(self.defs@, name@, fuel as nat));
                                        assert(elements_like(spec_merged_elements(self.defs@, name@, fuel as nat), elements@));
                                    }
                                    Ok(
                                        ModelDef {
                                            parent: None,
                                            ambient_occlusion: d.ambient_occlusion,
                                            textures,
                                            elements,
                                        },
                                    )
                                },
                            }
                        }
                    },
                }
            },
        }
    }

    /// Folds the definition stored under `name` with its parent chain into
    /// one self-contained definition: the child's texture entries shadow the
    /// parent's, elements come from the nearest ancestor that declares any,
    /// and the ambient-occlusion flag is the child's own. A chain longer
    /// than the number of stored definitions must revisit a name, so such a
    /// chain is reported as cyclic.
    pub fn resolve(&self, name: &str) -> (r: Result<ModelDef, ModelError>)
        requires
            self.wf(),
            self.defs.len() < 100000000,
        ensures
            (r is Ok) == spec_resolve_ok(
                self.defs@,
                spec_as_id(name@),
                (self.defs.len() + 1) as nat,
            ),
            (r matches Err(ModelError::Missing(_))) == spec_chain_missing(
                self.defs@,
                spec_as_id(name@),
                (self.defs.len() + 1) as nat,
            ),
            r matches Ok(d) ==> pairs_view(d.textures@) == spec_merged_textures(
                self.defs@,
                spec_as_id(name@),
                (self.defs.len() + 1) as nat,
            ) && elements_like(
                spec_merged_elements(self.defs@, spec_as_id(name@), (self.defs.len() + 1) as nat),
                d.elements@,
            ) && d.parent is None && d.wf(),
    {
        let canon = as_id(name);
        self.resolve_fuel(canon.as_str(), self.defs.len() + 1)
    }
}

} // verus!
