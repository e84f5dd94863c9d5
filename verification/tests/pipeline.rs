use maqo::BiomeId;
use maqo::Biome;
use maqo::BiomeLoader;
use maqo::BlockLoader;
use maqo::BlockState;
use maqo::BlockStates;
use maqo::BlockStatesError;
use maqo::BlockStatesLoader;
use maqo::Chunk;
use maqo::ChunkColumn;
use maqo::ChunkManager;
use maqo::Direction;
use maqo::DirtBlock;
use maqo::Element;
use maqo::ElementFace;
use maqo::GrassBlock;
use maqo::LightLevel;
use maqo::ModelDef;
use maqo::ModelError;
use maqo::ModelLoader;
use maqo::Neighborhood;
use maqo::Opacity;
use maqo::Point3;
use maqo::Property;
use maqo::PropertyValue;
use maqo::Rgba;
use maqo::TextureLoader;
use maqo::Variant;
use maqo::VariantCondition;
use maqo::VariantModel;
use maqo::find_variant;
use maqo::mesh_chunk;
use maqo::air_descriptor;
use maqo::select_model;
use maqo::select_model_random;
use maqo::shade_vertex;

fn face(texture: &str, cull: Option<Direction>, tint: Option<usize>) -> ElementFace {
    ElementFace {
        uv: None,
        texture: String::from(texture),
        cullface: cull,
        rotation: 0,
        tint_index: tint,
    }
}

/// A template cube: six full faces referencing texture variables, the top
/// face pointing at tint palette entry 0.
fn cube_def() -> ModelDef {
    let faces = vec![
        (Direction::Top, face("#up", Some(Direction::Top), Some(0))),
        (Direction::Bottom, face("#down", Some(Direction::Bottom), None)),
        (Direction::Front, face("#south", Some(Direction::Front), None)),
        (Direction::Back, face("#north", Some(Direction::Back), None)),
        (Direction::Right, face("#east", Some(Direction::Right), None)),
        (Direction::Left, face("#west", Some(Direction::Left), None)),
    ];
    ModelDef {
        parent: None,
        ambient_occlusion: None,
        textures: Vec::new(),
        elements: vec![Element {
            from: Point3::new(0, 0, 0),
            to: Point3::new(16, 16, 16),
            rotation: None,
            faces,
        }],
    }
}

fn child_def(parent: &str, pairs: &[(&str, &str)]) -> ModelDef {
    ModelDef {
        parent: Some(String::from(parent)),
        ambient_occlusion: None,
        textures: pairs
            .iter()
            .map(|(k, v)| (String::from(*k), String::from(*v)))
            .collect(),
        elements: Vec::new(),
    }
}

fn opaque_texture() -> Vec<u8> {
    vec![0, 0, 0, 255]
}

fn single_variant(model: &str) -> BlockStates {
    BlockStates::Variants(vec![(
        VariantCondition::parse("").unwrap(),
        Variant::One(VariantModel {
            model: String::from(model),
            x: 0,
            y: 0,
            uvlock: false,
        }),
    )])
}

/// The grass-over-dirt fixture: model store, textures, state tables, a
/// registry with dirt as id 1 and grass as id 2, a plains biome, and a
/// neighborhood whose central chunk has one grass block over one dirt
/// block.
fn setup_world() -> (BlockStatesLoader, BiomeLoader, Neighborhood) {
    let mut blocks = BlockLoader::new();
    blocks.insert("block/cube", cube_def());
    blocks.insert(
        "block/dirt",
        child_def(
            "block/cube",
            &[
                ("up", "block/dirt"),
                ("down", "block/dirt"),
                ("north", "block/dirt"),
                ("south", "block/dirt"),
                ("east", "block/dirt"),
                ("west", "block/dirt"),
            ],
        ),
    );
    blocks.insert(
        "block/grass",
        child_def(
            "block/cube",
            &[
                ("up", "block/grass_top"),
                ("down", "block/dirt"),
                ("north", "block/grass_side"),
                ("south", "block/grass_side"),
                ("east", "block/grass_side"),
                ("west", "block/grass_side"),
            ],
        ),
    );

    let mut textures = TextureLoader::new();
    textures.load("block/dirt", &opaque_texture());
    textures.load("block/grass_top", &opaque_texture());
    textures.load("block/grass_side", &opaque_texture());

    let mut loader = BlockStatesLoader::new();
    loader.load("dirt", single_variant("block/dirt"));
    loader.load("grass_block", single_variant("block/grass"));
    loader
        .register_block(
            &blocks,
            &textures,
            1,
            "dirt",
            DirtBlock { snowy: false }.descriptor(),
            0,
        )
        .unwrap();
    loader
        .register_block(
            &blocks,
            &textures,
            2,
            "grass_block",
            GrassBlock { snowy: false }.descriptor(),
            0,
        )
        .unwrap();

    let mut biomes = BiomeLoader::new();
    biomes.set(
        1,
        Biome {
            name: String::from("plains"),
            temperature: 800,
            humidity: 400,
            grass_color: Rgba { r: 0x79, g: 0xC0, b: 0x5A, a: 255 },
            foliage_color: Rgba { r: 0x30, g: 0x80, b: 0x20, a: 255 },
        },
    );

    let mut center = Chunk::empty();
    center.set(8, 8, 8, BlockState { value: 2 }, LightLevel { value: 0xf0 });
    center.set(8, 7, 8, BlockState { value: 1 }, LightLevel { value: 0xf0 });
    let mut world = ChunkManager::new();
    world.add_chunk_column(
        (0, 0),
        ChunkColumn { chunks: vec![center], biomes: vec![BiomeId { value: 1 }; 256] },
    );
    let view = world.neighborhood(0, 0, 0);

    (loader, biomes, view)
}

fn snowy_props(v: bool) -> Vec<(String, Property)> {
    vec![(
        String::from("snowy"),
        Property { value: PropertyValue::Boolean(v) },
    )]
}

#[test]
fn parent_chain_inheritance_and_texture_chase() {
    let mut blocks = BlockLoader::new();
    blocks.insert("block/cube", cube_def());
    blocks.insert("block/dirt", child_def("block/cube", &[("up", "block/dirt_top"), ("down", "#up")]));
    let def = blocks.resolve("block/dirt").unwrap();
    // Elements come from the parent, textures from the child.
    assert_eq!(def.elements.len(), 1);
    assert_eq!(def.get_texture("#up"), "block/dirt_top");
    // Indirection chases through the merged map.
    assert_eq!(def.get_texture("#down"), "block/dirt_top");
    // A reference with no entry stays literal.
    assert_eq!(def.get_texture("block/raw"), "block/raw");
}

#[test]
fn child_textures_shadow_parent_textures() {
    let mut blocks = BlockLoader::new();
    let mut parent = cube_def();
    parent.textures.push((String::from("up"), String::from("block/parent_up")));
    blocks.insert("block/cube", parent);
    blocks.insert("block/child", child_def("block/cube", &[("up", "block/child_up")]));
    let def = blocks.resolve("block/child").unwrap();
    assert_eq!(def.get_texture("#up"), "block/child_up");
}

#[test]
fn missing_and_cyclic_parents_are_errors() {
    let mut blocks = BlockLoader::new();
    blocks.insert("block/orphan", child_def("block/nowhere", &[]));
    match blocks.resolve("block/orphan") {
        Err(ModelError::Missing(name)) => assert_eq!(name, "minecraft:block/nowhere"),
        other => panic!("expected a missing-model error, got {:?}", other),
    }
    assert!(matches!(
        blocks.resolve("block/nowhere"),
        Err(ModelError::Missing(_))
    ));

    let mut loops = BlockLoader::new();
    loops.insert("block/a", child_def("block/b", &[]));
    loops.insert("block/b", child_def("block/a", &[]));
    assert!(matches!(loops.resolve("block/a"), Err(ModelError::Cyclic(_))));
}

#[test]
fn texture_chase_survives_cyclic_indirection() {
    let def = ModelDef {
        parent: None,
        ambient_occlusion: None,
        textures: vec![(String::from("a"), String::from("#a"))],
        elements: Vec::new(),
    };
    // The reference cannot resolve; the chase must end on its own.
    let out = def.get_texture("#a");
    assert!(out == "#a" || out == "a");
}

#[test]
fn opaque_cube_is_opaque_in_every_direction() {
    // Six opaque-textured full-cube faces classify Opaque all around.
    let mut blocks = BlockLoader::new();
    blocks.insert("block/cube", cube_def());
    blocks.insert(
        "block/stone",
        child_def(
            "block/cube",
            &[
                ("up", "block/stone"),
                ("down", "block/stone"),
                ("north", "block/stone"),
                ("south", "block/stone"),
                ("east", "block/stone"),
                ("west", "block/stone"),
            ],
        ),
    );
    let mut textures = TextureLoader::new();
    textures.load("block/stone", &opaque_texture());
    let def = blocks.resolve("block/stone").unwrap();
    let model = ModelLoader::load(&def, &textures, &Vec::new());
    for o in model.opacity.iter() {
        assert_eq!(*o, Opacity::Opaque);
    }
    assert_eq!(model.faces.len(), 6);
}

#[test]
fn translucent_texture_caps_direction_at_translucent_solid() {
    let mut blocks = BlockLoader::new();
    blocks.insert("block/cube", cube_def());
    blocks.insert(
        "block/ice",
        child_def(
            "block/ice_tex",
            &[],
        ),
    );
    // Build directly: a cube whose every texture has partial alpha.
    let mut tex_pairs = Vec::new();
    for k in ["up", "down", "north", "south", "east", "west"].iter() {
        tex_pairs.push((*k, "block/ice"));
    }
    let mut blocks2 = BlockLoader::new();
    blocks2.insert("block/cube", cube_def());
    blocks2.insert("block/icecube", child_def("block/cube", &tex_pairs));
    let mut textures = TextureLoader::new();
    textures.load("block/ice", &vec![0, 0, 0, 100]);
    let def = blocks2.resolve("block/icecube").unwrap();
    let model = ModelLoader::load(&def, &textures, &Vec::new());
    for o in model.opacity.iter() {
        assert_eq!(*o, Opacity::TranslucentSolid);
    }
}

#[test]
fn unknown_texture_counts_as_fully_transparent() {
    let mut blocks = BlockLoader::new();
    blocks.insert("block/cube", cube_def());
    blocks.insert(
        "block/ghost",
        child_def(
            "block/cube",
            &[
                ("up", "block/missing"),
                ("down", "block/missing"),
                ("north", "block/missing"),
                ("south", "block/missing"),
                ("east", "block/missing"),
                ("west", "block/missing"),
            ],
        ),
    );
    let textures = TextureLoader::new();
    let def = blocks.resolve("block/ghost").unwrap();
    let model = ModelLoader::load(&def, &textures, &Vec::new());
    // Alpha 0 marks a see-through but solid face.
    for o in model.opacity.iter() {
        assert_eq!(*o, Opacity::TransparentSolid);
    }
}

#[test]
fn first_matching_condition_wins() {
    // Conditions ["", "snowy=true"] with a snowy=true block: the empty
    // condition comes first and wins.
    let states = BlockStates::Variants(vec![
        (
            VariantCondition::parse("").unwrap(),
            Variant::One(VariantModel {
                model: String::from("block/plain"),
                x: 0,
                y: 0,
                uvlock: false,
            }),
        ),
        (
            VariantCondition::parse("snowy=true").unwrap(),
            Variant::One(VariantModel {
                model: String::from("block/snowy"),
                x: 0,
                y: 0,
                uvlock: false,
            }),
        ),
    ]);
    let props = snowy_props(true);
    let variant = find_variant(&states, &props, "grass_block").unwrap();
    match variant {
        Variant::One(m) => assert_eq!(m.model, "block/plain"),
        _ => panic!("expected a single model"),
    }
}

#[test]
fn mismatched_condition_finds_no_match() {
    let states = BlockStates::Variants(vec![(
        VariantCondition::parse("snowy=true").unwrap(),
        Variant::One(VariantModel {
            model: String::from("block/snowy"),
            x: 0,
            y: 0,
            uvlock: false,
        }),
    )]);
    let props = snowy_props(false);
    assert!(matches!(
        find_variant(&states, &props, "grass_block"),
        Err(BlockStatesError::NoMatch(_))
    ));
    // A condition key the block does not declare never matches either.
    let states2 = BlockStates::Variants(vec![(
        VariantCondition::parse("axis=y").unwrap(),
        Variant::One(VariantModel {
            model: String::from("block/log"),
            x: 0,
            y: 0,
            uvlock: false,
        }),
    )]);
    assert!(matches!(
        find_variant(&states2, &props, "log"),
        Err(BlockStatesError::NoMatch(_))
    ));
}

#[test]
fn unknown_block_is_a_distinct_error() {
    let (loader, _, _) = setup_world();
    let blocks = BlockLoader::new();
    let textures = TextureLoader::new();
    let r = loader.load_model_with_state(
        &blocks,
        &textures,
        "emerald_ore",
        &DirtBlock { snowy: false }.descriptor(),
        0,
    );
    match r {
        Err(e @ BlockStatesError::UnknownBlock(_)) => {
            assert!(e.describe().contains("emerald_ore"));
        }
        other => panic!("expected an unknown-block error, got {:?}", other),
    }
}

#[test]
fn multipart_resolution_is_explicitly_unsupported() {
    let states = BlockStates::Multipart(Vec::new());
    let props = snowy_props(false);
    assert!(matches!(
        find_variant(&states, &props, "redstone_wire"),
        Err(BlockStatesError::MultipartUnsupported(_))
    ));
}

#[test]
fn off_grid_variant_rotation_is_rejected() {
    let mut blocks = BlockLoader::new();
    blocks.insert("block/cube", cube_def());
    let textures = TextureLoader::new();
    let mut loader = BlockStatesLoader::new();
    loader.load(
        "tilted",
        BlockStates::Variants(vec![(
            VariantCondition::parse("").unwrap(),
            Variant::One(VariantModel {
                model: String::from("block/cube"),
                x: 45,
                y: 0,
                uvlock: false,
            }),
        )]),
    );
    let r = loader.load_model_with_state(
        &blocks,
        &textures,
        "tilted",
        &air_descriptor(),
        0,
    );
    assert!(matches!(r, Err(BlockStatesError::BadRotation(_))));
}

#[test]
fn missing_model_reference_surfaces_as_model_error() {
    let blocks = BlockLoader::new();
    let textures = TextureLoader::new();
    let mut loader = BlockStatesLoader::new();
    loader.load("dirt", single_variant("block/dirt"));
    let r = loader.load_model_with_state(
        &blocks,
        &textures,
        "dirt",
        &DirtBlock { snowy: false }.descriptor(),
        0,
    );
    assert!(matches!(r, Err(BlockStatesError::Model(ModelError::Missing(_)))));
}

#[test]
fn variant_pick_wraps_around_list() {
    let mk = |name: &str| VariantModel {
        model: String::from(name),
        x: 0,
        y: 0,
        uvlock: false,
    };
    let many = Variant::Many(vec![mk("block/a"), mk("block/b"), mk("block/c")]);
    assert_eq!(select_model(&many, 0).unwrap().model, "block/a");
    assert_eq!(select_model(&many, 4).unwrap().model, "block/b");
    assert_eq!(select_model(&many, 299).unwrap().model, "block/c");
    let empty = Variant::Many(Vec::new());
    assert!(matches!(
        select_model(&empty, 0),
        Err(BlockStatesError::EmptyVariantList(_))
    ));
}

#[test]
fn random_variant_pick_stays_in_list() {
    let mk = |name: &str| VariantModel {
        model: String::from(name),
        x: 0,
        y: 0,
        uvlock: false,
    };
    let many = Variant::Many(vec![mk("block/a"), mk("block/b"), mk("block/c")]);
    for _ in 0..32 {
        let m = select_model_random(&many).unwrap();
        assert!(m.model == "block/a" || m.model == "block/b" || m.model == "block/c");
    }
}

#[test]
fn four_quarter_turns_restore_all_corners() {
    let mut blocks = BlockLoader::new();
    blocks.insert("block/cube", cube_def());
    let mut textures = TextureLoader::new();
    textures.load("up", &opaque_texture());
    let def = blocks.resolve("block/cube").unwrap();
    let original = ModelLoader::load(&def, &textures, &Vec::new());
    let mut turned = ModelLoader::load(&def, &textures, &Vec::new());
    for _ in 0..4 {
        turned.rotate(0, 2, 90, false);
    }
    assert_eq!(original.faces.len(), turned.faces.len());
    for (a, b) in original.faces.iter().zip(turned.faces.iter()) {
        assert_eq!(a.cull_face, b.cull_face);
        assert_eq!(a.ao_face, b.ao_face);
        for (va, vb) in a.vertices.iter().zip(b.vertices.iter()) {
            assert_eq!(va.position, vb.position);
            assert_eq!(va.uv, vb.uv);
        }
    }
}

#[test]
fn rotation_zero_changes_nothing() {
    let mut blocks = BlockLoader::new();
    blocks.insert("block/cube", cube_def());
    let textures = TextureLoader::new();
    let def = blocks.resolve("block/cube").unwrap();
    let original = ModelLoader::load(&def, &textures, &Vec::new());
    let mut same = ModelLoader::load(&def, &textures, &Vec::new());
    same.rotate(2, 1, 0, true);
    for (a, b) in original.faces.iter().zip(same.faces.iter()) {
        for (va, vb) in a.vertices.iter().zip(b.vertices.iter()) {
            assert_eq!(va.position, vb.position);
            assert_eq!(va.uv, vb.uv);
        }
    }
}

#[test]
fn rotation_permutes_cull_faces_and_opacity() {
    // A cube opaque only on top, turned a quarter around the x axis, is
    // opaque only toward the back.
    let mut def = cube_def();
    def.elements[0].faces.truncate(1); // keep the top face only
    let mut blocks = BlockLoader::new();
    blocks.insert("block/toponly", def);
    let mut textures = TextureLoader::new();
    textures.load("up", &opaque_texture());
    let resolved = blocks.resolve("block/toponly").unwrap();
    let model = ModelLoader::load_rotated(&resolved, &textures, &Vec::new(), 90, 0, false);
    assert_eq!(model.faces.len(), 1);
    assert_eq!(model.faces[0].cull_face, Some(Direction::Back));
    assert_eq!(model.opacity[Direction::Back.index()], Opacity::Opaque);
    assert_eq!(model.opacity[Direction::Top.index()], Opacity::Transparent);
}

#[test]
fn ambient_occlusion_flag_strips_eligibility() {
    let mut def = cube_def();
    def.ambient_occlusion = Some(false);
    let mut blocks = BlockLoader::new();
    blocks.insert("block/flat", def);
    let textures = TextureLoader::new();
    let resolved = blocks.resolve("block/flat").unwrap();
    let model = ModelLoader::load(&resolved, &textures, &Vec::new());
    for f in model.faces.iter() {
        assert!(f.ao_face.is_none());
    }
}

#[test]
fn opaque_neighbor_culls_and_air_keeps() {
    // Face culling: the dirt block under the grass block culls the grass
    // bottom face; the air neighbors leave the other five faces alone.
    let (loader, biomes, view) = setup_world();
    let grass = &loader.get_by_id(2).unwrap().1;
    let bottom = grass
        .faces
        .iter()
        .find(|f| f.cull_face == Some(Direction::Bottom))
        .unwrap();
    let top = grass
        .faces
        .iter()
        .find(|f| f.cull_face == Some(Direction::Top))
        .unwrap();
    assert!(maqo::culled(&loader, &view, 8, 8, 8, bottom));
    assert!(!maqo::culled(&loader, &view, 8, 8, 8, top));
    assert!(maqo::emit_face(&loader, &biomes, &view, 8, 8, 8, bottom).is_none());
    assert!(maqo::emit_face(&loader, &biomes, &view, 8, 8, 8, top).is_some());
}

#[test]
fn darkened_corner_and_open_corner_light() {
    let (mut loader, biomes, mut view) = setup_world();
    let _ = &mut loader;
    // Solid dirt in all four cells above the corner at (5, 5, 5): the
    // ambient-occlusion samples all zero out and only the 0.2 floor stays.
    {
        let center = &mut view.chunks[13];
        for (x, z) in [(4, 4), (4, 5), (5, 4), (5, 5)] {
            center.set(x, 5, z, BlockState { value: 1 }, LightLevel { value: 0xf0 });
        }
    }
    let dark = shade_vertex(
        &loader,
        &biomes,
        &view,
        4,
        4,
        4,
        &Some(Direction::Top),
        Rgba::white(),
        Point3::new(2048, 2048, 2048),
    );
    assert_eq!((dark.r, dark.g, dark.b, dark.a), (49, 49, 49, 255));

    // A corner with nothing solid around it and no ambient-occlusion
    // direction averages all eight sky-lit samples.
    let open = shade_vertex(
        &loader,
        &biomes,
        &view,
        12,
        12,
        12,
        &None,
        Rgba::white(),
        Point3::new(2048, 2048, 2048),
    );
    assert_eq!((open.r, open.g, open.b, open.a), (253, 253, 253, 255));
}

#[test]
fn grass_over_dirt_meshes_ten_faces_with_tinted_top() {
    let (loader, biomes, view) = setup_world();
    let out = mesh_chunk(&loader, &biomes, &view);
    assert_eq!(out.len(), 10);

    let grass_faces: Vec<_> = out.iter().filter(|f| f.vertices[0].by == 8).collect();
    let dirt_faces: Vec<_> = out.iter().filter(|f| f.vertices[0].by == 7).collect();
    assert_eq!(grass_faces.len(), 5);
    assert_eq!(dirt_faces.len(), 5);

    // The grass bottom face is culled by the dirt below, so no grass-cell
    // face uses the dirt texture.
    assert!(grass_faces.iter().all(|f| f.texture != "block/dirt"));
    // The dirt top face is culled by the grass above.
    assert!(dirt_faces
        .iter()
        .all(|f| !f.vertices.iter().all(|v| v.off.y == 2048)));

    // Every quad uses the fixed fan triangulation.
    for f in out.iter() {
        assert_eq!(f.indices, vec![0, 1, 2, 2, 3, 0]);
        assert_eq!(f.vertices.len(), 4);
    }

    // The top face carries the plains grass tint, scaled by full top light.
    let top = grass_faces
        .iter()
        .find(|f| f.texture == "block/grass_top")
        .unwrap();
    for v in top.vertices.iter() {
        assert_eq!((v.color.r, v.color.g, v.color.b, v.color.a), (119, 190, 88, 255));
    }

    // Side faces are untinted: plain gray shading, brighter front and back
    // than left and right.
    for f in grass_faces.iter().filter(|f| f.texture == "block/grass_side") {
        for v in f.vertices.iter() {
            assert_eq!(v.color.r, v.color.g);
            assert_eq!(v.color.g, v.color.b);
            assert!(v.color.r == 202 || v.color.r == 151);
        }
    }
}

#[test]
fn meshing_is_repeatable() {
    let (loader, biomes, view) = setup_world();
    let a = mesh_chunk(&loader, &biomes, &view);
    let b = mesh_chunk(&loader, &biomes, &view);
    assert_eq!(a.len(), b.len());
    for (fa, fb) in a.iter().zip(b.iter()) {
        assert_eq!(fa.texture, fb.texture);
        for (va, vb) in fa.vertices.iter().zip(fb.vertices.iter()) {
            assert_eq!(va, vb);
        }
    }
}

#[test]
fn neighborhood_falls_back_to_sentinel_chunks() {
    let mut world = ChunkManager::new();
    let mut c = Chunk::empty();
    c.set(0, 0, 0, BlockState { value: 7 }, LightLevel { value: 0x0f });
    world.add_chunk_column(
        (4, -2),
        ChunkColumn { chunks: vec![c], biomes: vec![BiomeId { value: 3 }; 256] },
    );
    let view = world.neighborhood(4, 0, -2);
    // The center slot carries the stored chunk.
    let (b, l) = view.at(0, 0, 0);
    assert_eq!(b.value, 7);
    assert_eq!(l.value, 0x0f);
    // Slots past the world edge read as air under full sky light.
    let (b2, l2) = view.at(-1, 0, 0);
    assert_eq!(b2.value, 0);
    assert_eq!(l2.value, 0xf0);
    let (b3, _) = view.at(0, 17, 0);
    assert_eq!(b3.value, 0);
    // Only the center column has a biome grid.
    assert_eq!(view.biome_at(5, 5), Some(BiomeId { value: 3 }));
    assert_eq!(view.biome_at(-1, 5), None);
    assert_eq!(view.biome_at(5, 16), None);
}

#[test]
fn registry_lookups() {
    let (loader, _, _) = setup_world();
    assert_eq!(loader.get_name_by_id(1).unwrap(), "minecraft:dirt");
    assert_eq!(loader.get_name_by_id(2).unwrap(), "minecraft:grass_block");
    assert!(loader.get_by_id(0).is_none());
    assert!(loader.get_by_id(7).is_none());
    assert!(loader.get_by_name("grass_block").is_some());
    assert!(loader.get_by_name("minecraft:dirt").is_some());
    assert!(loader.get_by_name("emerald_ore").is_none());
}
