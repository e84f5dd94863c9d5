use vstd::prelude::*;

use crate::assoc::assoc_get;
use crate::assoc::spec_assoc;
use crate::blockstate::BlockStates;
use crate::blockstate::BlockStatesError;
use crate::blockstate::Property;
use crate::blockstate::PropertyValue;
use crate::blockstate::Variant;
use crate::blockstate::find_variant;
use crate::blockstate::select_model;
use crate::blockstate::spec_first_match;
use crate::geometry::Rgba;
use crate::ids::as_id;
use crate::ids::spec_as_id;
use crate::loader::ModelLoader;
use crate::loader::spec_model_loaded;
use crate::loader::spec_model_rotated;
use crate::model::Model;
use crate::modeldef::BlockLoader;
use crate::modeldef::ModelDef;
use crate::modeldef::elements_like;
use crate::modeldef::pairs_view;
use crate::modeldef::spec_merged_elements;
use crate::modeldef::spec_merged_textures;
use crate::modeldef::spec_resolve_ok;
use crate::texture::TextureLoader;

verus! {

/// A biome's shading data: climate scalars in thousandths (inputs to the
/// color-ramp lookup done outside) and the tint colors precomputed from
/// them.
#[derive(Debug, Clone)]
pub struct Biome {
    pub name: String,
    pub temperature: i32,
    pub humidity: i32,
    pub grass_color: Rgba,
    pub foliage_color: Rgba,
}

/// The biome table, indexed by biome id.
pub struct BiomeLoader {
    pub biomes: Vec<Option<Biome>>,
}

impl BiomeLoader {
    pub open spec fn wf(self) -> bool {
        self.biomes.len() == 256
    }

    pub fn new() -> (r: BiomeLoader)
        ensures
            r.wf(),
            forall|i: int| 0 <= i < 256 ==> (#[trigger] r.biomes[i]) is None,
    {
        let mut biomes: Vec<Option<Biome>> = Vec::new();
        let mut i: usize = 0;
        while i < 256
            invariant
                i <= 256,
                biomes.len() == i,
                forall|j: int| 0 <= j < i ==> (#[trigger] biomes[j]) is None,
            decreases 256 - i,
        {
            biomes.push(None);
            i += 1;
        }
        BiomeLoader { biomes }
    }

    pub fn set(&mut self, id: u8, b: Biome)
        requires
            old(self).wf(),
        ensures
            final(self).wf(),
            final(self).biomes[id as int] == Some(b),
            forall|i: int|
                0 <= i < 256 && i != id as int ==> (#[trigger] final(self).biomes[i])
                    == old(self).biomes[i],
    {
        self.biomes[id as usize] = Some(b);
    }

    pub fn get(&self, id: crate::chunk::BiomeId) -> (r: Option<&Biome>)
        requires
            self.wf(),
        ensures
            match r {
                Some(b) => self.biomes[id.value as int] == Some(*b),
                None => self.biomes[id.value as int] is None,
            },
    {
        self.biomes[id.value as usize].as_ref()
    }
}

/// Which render pass a block's faces belong to.
#[derive(Debug, Copy, Clone, PartialEq, Eq, Structural)]
pub enum BlockRenderLayer {
    Solid,
    CutoutMipped,
    Translucent,
}

/// The per-block-type descriptor: declared properties with their current
/// values, shape flags, and the tint palette its faces may point into.
#[derive(Debug, Clone)]
pub struct BaseBlock {
    pub properties: Vec<(String, Property)>,
    pub is_full_block: bool,
    pub is_translucent: bool,
    pub is_full_cube: bool,
    pub is_opaque_cube: bool,
    pub tints: Vec<Rgba>,
}

/// Typed access to a block's properties.
pub trait GetProperty<T> {
    fn get_property<'a>(&'a self, name: &str) -> Option<&'a T>;
}

impl GetProperty<bool> for BaseBlock {
    fn get_property<'a>(&'a self, name: &str) -> Option<&'a bool> {
        match assoc_get(&self.properties, name) {
            Some(p) => match &p.value {
                PropertyValue::Boolean(b) => Some(b),
                _ => None,
            },
            None => None,
        }
    }
}

impl GetProperty<i64> for BaseBlock {
    fn get_property<'a>(&'a self, name: &str) -> Option<&'a i64> {
        match assoc_get(&self.properties, name) {
            Some(p) => match &p.value {
                PropertyValue::Number(n) => Some(n),
                _ => None,
            },
            None => None,
        }
    }
}

impl GetProperty<String> for BaseBlock {
    fn get_property<'a>(&'a self, name: &str) -> Option<&'a String> {
        match assoc_get(&self.properties, name) {
            Some(p) => match &p.value {
                PropertyValue::Text(t) => Some(t),
                _ => None,
            },
            None => None,
        }
    }
}

/// A grass block: a full cube whose top (and grassy side rims) take the
/// biome grass tint.
#[derive(Debug, Copy, Clone, PartialEq, Eq, Structural, Default)]
pub struct GrassBlock {
    pub snowy: bool,
}

impl GrassBlock {
    /// The descriptor this block type registers with: one `snowy` property
    /// and one grass-green tint palette entry.
    pub fn descriptor(&self) -> (r: BaseBlock)
        ensures
            r.properties.len() == 1,
            r.properties[0].0@ == "snowy"@,
            r.properties[0].1.value == PropertyValue::Boolean(self.snowy),
            r.is_full_block,
            !r.is_translucent,
            r.is_full_cube,
            r.is_opaque_cube,
            r.tints.len() == 1,
            r.tints[0] == (Rgba { r: 0x6D, g: 0x99, b: 0x30, a: 255 }),
    {
        let mut properties: Vec<(String, Property)> = Vec::new();
        properties.push(
            (String::from_str("snowy"), Property { value: PropertyValue::Boolean(self.snowy) }),
        );
        let mut tints: Vec<Rgba> = Vec::new();
        tints.push(Rgba { r: 0x6D, g: 0x99, b: 0x30, a: 255 });
        proof {
            reveal_strlit("snowy");
        }
        BaseBlock {
            properties,
            is_full_block: true,
            is_translucent: false,
            is_full_cube: true,
            is_opaque_cube: true,
            tints,
        }
    }
}

/// A dirt block: a plain full cube with a `snowy` property and no tint.
#[derive(Debug, Copy, Clone, PartialEq, Eq, Structural, Default)]
pub struct DirtBlock {
    pub snowy: bool,
}

impl DirtBlock {
    pub fn descriptor(&self) -> (r: BaseBlock)
        ensures
            r.properties.len() == 1,
            r.properties[0].0@ == "snowy"@,
            r.properties[0].1.value == PropertyValue::Boolean(self.snowy),
            r.is_full_block,
            !r.is_translucent,
            r.is_full_cube,
            r.is_opaque_cube,
            r.tints.len() == 0,
    {
        let mut properties: Vec<(String, Property)> = Vec::new();
        properties.push(
            (String::from_str("snowy"), Property { value: PropertyValue::Boolean(self.snowy) }),
        );
        proof {
            reveal_strlit("snowy");
        }
        BaseBlock {
            properties,
            is_full_block: true,
            is_translucent: false,
            is_full_cube: true,
            is_opaque_cube: true,
            tints: Vec::new(),
        }
    }
}

/// The descriptor of air: not a cube at all, nothing to draw.
pub fn air_descriptor() -> (r: BaseBlock)
    ensures
        r.properties.len() == 0,
        !r.is_full_cube,
        !r.is_opaque_cube,
        r.tints.len() == 0,
{
    BaseBlock {
        properties: Vec::new(),
        is_full_block: false,
        is_translucent: false,
        is_full_cube: false,
        is_opaque_cube: false,
        tints: Vec::new(),
    }
}

} // verus!

verus! {

/// A finished model reached this value by loading the named model
/// definition (with its parent chain merged as the store prescribes) and
/// turning it by the variant's rotation.
pub open spec fn spec_model_from_def(
    blocks: BlockLoader,
    textures: TextureLoader,
    tints: Seq<Rgba>,
    model_name: Seq<char>,
    x: int,
    y: int,
    uvlock: bool,
    m: Model,
) -> bool {
    exists|def: ModelDef, m0: Model, m1: Model|
        #![trigger spec_model_loaded(def, tints, textures.textures@, m0), spec_model_rotated(m1, m, 0, 2, y, uvlock)]
        {
            &&& pairs_view(def.textures@) == spec_merged_textures(
                blocks.defs@,
                spec_as_id(model_name),
                (blocks.defs.len() + 1) as nat,
            )
            &&& elements_like(
                spec_merged_elements(
                    blocks.defs@,
                    spec_as_id(model_name),
                    (blocks.defs.len() + 1) as nat,
                ),
                def.elements@,
            )
            &&& spec_model_loaded(def, tints, textures.textures@, m0)
            &&& spec_model_rotated(m0, m1, 2, 1, x, uvlock)
            &&& spec_model_rotated(m1, m, 0, 2, y, uvlock)
        }
}

/// What resolving one chosen variant model reference must produce.
pub open spec fn spec_variant_outcome(
    blocks: BlockLoader,
    textures: TextureLoader,
    tints: Seq<Rgba>,
    vm: crate::blockstate::Model,
    r: Result<Model, BlockStatesError>,
) -> bool {
    let rot_ok = (vm.x == 0 || vm.x == 90 || vm.x == 180 || vm.x == 270) && (vm.y == 0 || vm.y == 90
        || vm.y == 180 || vm.y == 270);
    let fuel = (blocks.defs.len() + 1) as nat;
    if !rot_ok {
        r matches Err(BlockStatesError::BadRotation(_))
    } else if !spec_resolve_ok(blocks.defs@, spec_as_id(vm.model@), fuel) {
        r matches Err(BlockStatesError::Model(_))
    } else if spec_merged_textures(blocks.defs@, spec_as_id(vm.model@), fuel).len() >= 1000000 {
        r matches Err(BlockStatesError::OversizedModel(_))
    } else {
        r matches Ok(m) && spec_model_from_def(
            blocks,
            textures,
            tints,
            vm.model@,
            vm.x as int,
            vm.y as int,
            vm.uvlock,
            m,
        )
    }
}

/// Block-state tables and the per-id registry of finished models.
pub struct BlockStatesLoader {
    pub block_states: Vec<(String, BlockStates)>,
    pub models: Vec<Option<(BaseBlock, Model)>>,
    pub names: Vec<Option<String>>,
    pub name_ids: Vec<(String, u16)>,
}

impl BlockStatesLoader {
    pub open spec fn wf(self) -> bool {
        &&& self.models.len() == self.names.len()
        &&& forall|i: int|
            0 <= i < self.models.len() ==> match #[trigger] self.models[i] {
                Some(e) => e.1.wf(),
                None => true,
            }
    }

    pub fn new() -> (r: BlockStatesLoader)
        ensures
            r.wf(),
            r.block_states.len() == 0,
            r.models.len() == 0,
    {
        BlockStatesLoader {
            block_states: Vec::new(),
            models: Vec::new(),
            names: Vec::new(),
            name_ids: Vec::new(),
        }
    }

    /// Stores a parsed state table under the canonical block name.
    pub fn load(&mut self, name: &str, states: BlockStates)
        requires
            old(self).wf(),
        ensures
            final(self).wf(),
            final(self).block_states.len() == old(self).block_states.len() + 1,
            final(self).block_states[0].0@ == spec_as_id(name@),
            final(self).block_states[0].1 == states,
            final(self).block_states@.skip(1) == old(self).block_states@,
            final(self).models == old(self).models,
            final(self).names == old(self).names,
            final(self).name_ids == old(self).name_ids,
    {
        let key = as_id(name);
        self.block_states.insert(0, (key, states));
    }

    /// Resolves a block instance to its finished model: the block's state
    /// table picks a variant by the first matching condition, `pick`
    /// settles a multi-model variant, and the chosen model reference is
    /// loaded and turned by the variant's rotation.
    pub fn load_model_with_state(
        &self,
        blocks: &BlockLoader,
        textures: &TextureLoader,
        name: &str,
        block: &BaseBlock,
        pick: usize,
    ) -> (r: Result<Model, BlockStatesError>)
        requires
            blocks.wf(),
            blocks.defs.len() < 100000000,
        ensures
            spec_variant_pick(*self, *blocks, *textures, *block, name@, pick, r),
    {
        let key = as_id(name);
        let states = match assoc_get(&self.block_states, key.as_str()) {
            Some(st) => st,
            None => {
                return Err(BlockStatesError::UnknownBlock(name.to_owned()));
            },
        };
        let variant = match find_variant(states, &block.properties, name) {
            Ok(v) => v,
            Err(e) => {
                return Err(e);
            },
        };
        let vm = match select_model(variant, pick) {
            Ok(m) => m,
            Err(e) => {
                return Err(e);
            },
        };
        let rot_ok = (vm.x == 0 || vm.x == 90 || vm.x == 180 || vm.x == 270) && (vm.y == 0 || vm.y
            == 90 || vm.y == 180 || vm.y == 270);
        if !rot_ok {
            return Err(BlockStatesError::BadRotation(vm.model.clone()));
        }
        let def = match blocks.resolve(vm.model.as_str()) {
            Ok(d) => d,
            Err(e) => {
                return Err(BlockStatesError::Model(e));
            },
        };
        if def.textures.len() >= 1000000 {
            return Err(BlockStatesError::OversizedModel(vm.model.clone()));
        }
        let m = ModelLoader::load_rotated(
            &def,
            textures,
            &block.tints,
            vm.x as usize,
            vm.y as usize,
            vm.uvlock,
        );
        proof {
            assert(pairs_view(def.textures@).len() == def.textures@.len());
        }
        Ok(m)
    }

    /// The model registered under an id, with its block descriptor.
    pub fn get_by_id(&self, id: u16) -> (r: Option<&(BaseBlock, Model)>)
        requires
            self.wf(),
        ensures
            match r {
                Some(e) => id < self.models.len() && self.models[id as int] == Some(*e) && e.1.wf(),
                None => id >= self.models.len() || self.models[id as int] is None,
            },
    {
        if (id as usize) < self.models.len() {
            self.models[id as usize].as_ref()
        } else {
            None
        }
    }

    /// The canonical name an id was registered under.
    pub fn get_name_by_id(&self, id: u16) -> (r: Option<&String>)
        requires
            self.wf(),
        ensures
            match r {
                Some(n) => id < self.names.len() && self.names[id as int] == Some(*n),
                None => id >= self.names.len() || self.names[id as int] is None,
            },
    {
        if (id as usize) < self.names.len() {
            self.names[id as usize].as_ref()
        } else {
            None
        }
    }

    /// The registered entry of a block name, if that name has an id.
    pub fn get_by_name(&self, name: &str) -> (r: Option<&(BaseBlock, Model)>)
        requires
            self.wf(),
        ensures
            match spec_assoc(self.name_ids@, spec_as_id(name@)) {
                None => r is None,
                Some(id) => match r {
                    Some(e) => id < self.models.len() && self.models[id as int] == Some(*e),
                    None => id >= self.models.len() || self.models[id as int] is None,
                },
            },
    {
        let key = as_id(name);
        match assoc_get(&self.name_ids, key.as_str()) {
            Some(id) => self.get_by_id(*id),
            None => None,
        }
    }

    /// Resolves a block instance and registers the outcome under its id;
    /// on failure nothing is registered and the error comes back for the
    /// caller to judge (fatal at startup for everything but air).
    pub fn register_block(
        &mut self,
        blocks: &BlockLoader,
        textures: &TextureLoader,
        id: u16,
        name: &str,
        block: BaseBlock,
        pick: usize,
    ) -> (r: Result<(), BlockStatesError>)
        requires
            old(self).wf(),
            blocks.wf(),
            blocks.defs.len() < 100000000,
        ensures
            final(self).wf(),
            r is Err ==> *final(self) == *old(self),
            r matches Err(e) ==> spec_variant_pick(
                *old(self),
                *blocks,
                *textures,
                block,
                name@,
                pick,
                Err(e),
            ),
            r is Ok ==> id < final(self).models.len() && (match final(self).models[id as int] {
                Some(e) => e.0 == block && (exists|
                    rr: Result<Model, BlockStatesError>,
                |
                    #![trigger spec_variant_pick(*old(self), *blocks, *textures, block, name@, pick, rr)]
                    rr matches Ok(m) && m == e.1 && spec_variant_pick(
                        *old(self),
                        *blocks,
                        *textures,
                        block,
                        name@,
                        pick,
                        rr,
                    )),
                None => false,
            }) && (final(self).names[id as int] matches Some(n) && n@ == spec_as_id(name@))
                && final(self).name_ids@[0].0@ == spec_as_id(name@)
                && final(self).name_ids@[0].1 == id,
    {
        let m = match self.load_model_with_state(blocks, textures, name, &block, pick) {
            Ok(m) => m,
            Err(e) => {
                return Err(e);
            },
        };
        proof {
            assert(m.wf());
        }
        let key = as_id(name);
        while self.models.len() <= id as usize
            invariant
                old(self).wf(),
                self.wf(),
                self.block_states == old(self).block_states,
                self.name_ids == old(self).name_ids,
            decreases id as int + 1 - self.models.len(),
        {
            self.models.push(None);
            self.names.push(None);
        }
        self.models[id as usize] = Some((block, m));
        self.names[id as usize] = Some(key.clone());
        self.name_ids.insert(0, (key, id));
        Ok(())
    }
}

/// What resolving `name` with this block and pick yields, as
/// `load_model_with_state` promises it.
pub open spec fn spec_variant_pick(
    loader: BlockStatesLoader,
    blocks: BlockLoader,
    textures: TextureLoader,
    block: BaseBlock,
    name: Seq<char>,
    pick: usize,
    r: Result<Model, BlockStatesError>,
) -> bool {
    match spec_assoc(loader.block_states@, spec_as_id(name)) {
        None => r matches Err(BlockStatesError::UnknownBlock(_)),
        Some(st) => match st {
            BlockStates::Multipart(_) => r matches Err(BlockStatesError::MultipartUnsupported(_)),
            BlockStates::Variants(vs) => {
                let idx = spec_first_match(vs@, block.properties@);
                if idx == -1 {
                    r matches Err(BlockStatesError::NoMatch(_))
                } else {
                    match vs@[idx].1 {
                        Variant::One(vm) => spec_variant_outcome(blocks, textures, block.tints@, vm, r),
                        Variant::Many(l) => if l.len() == 0 {
                            r matches Err(BlockStatesError::EmptyVariantList(_))
                        } else {
                            spec_variant_outcome(
                                blocks,
                                textures,
                                block.tints@,
                                l@[(pick as int) % (l@.len() as int)],
                                r,
                            )
                        },
                    }
                }
            },
        },
    }
}

} // verus!
