use maqo::Angle;
use maqo::Axis;
use maqo::Direction;
use maqo::Element;
use maqo::ElementFace;
use maqo::LightLevel;
use maqo::Model;
use maqo::Opacity;
use maqo::Point3;
use maqo::PropertyValue;
use maqo::Rgba;
use maqo::Rotation;
use maqo::UvRect;
use maqo::VariantCondition;
use maqo::as_id;
use maqo::classify;
use maqo::min_alpha;
use maqo::parse_i64;
use maqo::pv_eq;
use maqo::strip_id;
use maqo::trim;

fn full_cube_element() -> Element {
    let dirs = [
        Direction::Top,
        Direction::Bottom,
        Direction::Front,
        Direction::Back,
        Direction::Right,
        Direction::Left,
    ];
    let mut faces = Vec::new();
    for d in dirs.iter() {
        faces.push((
            *d,
            ElementFace {
                uv: None,
                texture: String::from("block/stone"),
                cullface: Some(*d),
                rotation: 0,
                tint_index: None,
            },
        ));
    }
    Element {
        from: Point3::new(0, 0, 0),
        to: Point3::new(16, 16, 16),
        rotation: None,
        faces,
    }
}

#[test]
fn opacity_order_and_tests() {
    assert!(Opacity::Opaque.is_opaque());
    assert!(!Opacity::TranslucentSolid.is_opaque());
    assert!(Opacity::TranslucentSolid.is_solid());
    assert!(Opacity::TransparentSolid.is_solid());
    assert!(!Opacity::Transparent.is_solid());
    assert_eq!(Opacity::Transparent.max(Opacity::Opaque), Opacity::Opaque);
    assert_eq!(
        Opacity::TranslucentSolid.max(Opacity::TransparentSolid),
        Opacity::TransparentSolid
    );
}

#[test]
fn classify_alpha_levels() {
    assert_eq!(classify(0), Opacity::TransparentSolid);
    assert_eq!(classify(255), Opacity::Opaque);
    assert_eq!(classify(1), Opacity::TranslucentSolid);
    assert_eq!(classify(254), Opacity::TranslucentSolid);
}

#[test]
fn light_level_nibbles() {
    let l = LightLevel { value: 0xf3 };
    assert_eq!(l.block_light(), 3);
    assert_eq!(l.sky_light(), 15);
    assert_eq!(l.light(), 15);
    let l2 = LightLevel { value: 0x2a };
    assert_eq!(l2.block_light(), 10);
    assert_eq!(l2.sky_light(), 2);
    assert_eq!(l2.light(), 10);
}

#[test]
fn direction_tables() {
    assert_eq!(Direction::Right.vertices(), [7, 6, 5, 4]);
    assert_eq!(Direction::Top.vertices(), [1, 2, 5, 6]);
    assert_eq!(Direction::Back.vertices(), [1, 6, 7, 0]);
    assert_eq!(Direction::Top.get_axis(), Axis::Y);
    assert_eq!(Direction::Front.get_axis(), Axis::Z);
    assert_eq!(Direction::Left.get_axis(), Axis::X);
    assert_eq!(Direction::Top.offset(), (0, 1, 0));
    assert_eq!(Direction::Back.offset(), (0, 0, -1));
    assert_eq!(Direction::Left.opposite(), Direction::Right);
}

#[test]
fn direction_quarter_turns() {
    assert_eq!(Direction::Top.rotate_x(), Direction::Back);
    assert_eq!(Direction::Back.rotate_x(), Direction::Top);
    assert_eq!(Direction::Front.rotate_y(), Direction::Right);
    assert_eq!(Direction::Left.rotate_y(), Direction::Front);
    assert_eq!(Direction::Top.rotate_z(), Direction::Right);
    assert_eq!(Direction::Right.rotate_around(&Axis::X), Direction::Right);
    assert_eq!(Direction::Top.rotate_around(&Axis::Y), Direction::Top);
    assert_eq!(Direction::Front.rotate_around(&Axis::Z), Direction::Front);
    // Four quarter turns in the same plane are the identity.
    let mut d = Direction::Front;
    for _ in 0..4 {
        d = d.rotate_around(&Axis::Y);
    }
    assert_eq!(d, Direction::Front);
}

#[test]
fn ids_canonicalization() {
    assert_eq!(as_id("dirt"), "minecraft:dirt");
    assert_eq!(as_id("minecraft:dirt"), "minecraft:dirt");
    assert_eq!(strip_id("minecraft:block/dirt"), "block/dirt");
    assert_eq!(strip_id("block/dirt"), "block/dirt");
}

#[test]
fn trim_and_parse_i64() {
    assert_eq!(trim("  a b \t"), "a b");
    assert_eq!(trim(""), "");
    assert_eq!(trim("   "), "");
    assert_eq!(parse_i64("123"), Some(123));
    assert_eq!(parse_i64("-7"), Some(-7));
    assert_eq!(parse_i64("+42"), Some(42));
    assert_eq!(parse_i64("9223372036854775807"), Some(i64::MAX));
    assert_eq!(parse_i64("-9223372036854775808"), Some(i64::MIN));
    assert_eq!(parse_i64("9223372036854775808"), None);
    assert_eq!(parse_i64("12a"), None);
    assert_eq!(parse_i64(""), None);
    assert_eq!(parse_i64("true"), None);
}

#[test]
fn variant_condition_parsing() {
    let c = VariantCondition::parse("snowy=true,age=3,shape=straight").unwrap();
    assert_eq!(c.properties.len(), 3);
    assert_eq!(c.properties[0].0, "snowy");
    assert_eq!(c.properties[0].1.value, PropertyValue::Boolean(true));
    assert_eq!(c.properties[1].0, "age");
    assert_eq!(c.properties[1].1.value, PropertyValue::Number(3));
    assert_eq!(c.properties[2].0, "shape");
    assert_eq!(
        c.properties[2].1.value,
        PropertyValue::Text(String::from("straight"))
    );

    let empty = VariantCondition::parse("").unwrap();
    assert_eq!(empty.properties.len(), 0);
    let blank = VariantCondition::parse("  ").unwrap();
    assert_eq!(blank.properties.len(), 0);

    assert!(VariantCondition::parse("snowy").is_err());
    assert!(VariantCondition::parse("a=1,b").is_err());
}

#[test]
fn min_alpha_scans_every_fourth_byte() {
    assert_eq!(min_alpha(&vec![]), 0);
    assert_eq!(min_alpha(&vec![9, 9, 9]), 0);
    assert_eq!(min_alpha(&vec![0, 0, 0, 255]), 255);
    assert_eq!(min_alpha(&vec![0, 0, 0, 255, 1, 2, 3, 7, 4, 5, 6, 200]), 7);
}

#[test]
fn element_face_uvs_projection() {
    let e = Element {
        from: Point3::new(2, 3, 4),
        to: Point3::new(10, 11, 12),
        rotation: None,
        faces: Vec::new(),
    };
    assert!(!e.is_full_cube());
    assert!(full_cube_element().is_full_cube());
    let top = e.get_face_uvs(&Direction::Top);
    assert_eq!((top.u1, top.v1, top.u2, top.v2), (2, 4, 10, 12));
    let bottom = e.get_face_uvs(&Direction::Bottom);
    assert_eq!((bottom.u1, bottom.v1, bottom.u2, bottom.v2), (2, 4, 10, 12));
    let front = e.get_face_uvs(&Direction::Front);
    assert_eq!((front.u1, front.v1, front.u2, front.v2), (6, 5, 14, 13));
}

#[test]
fn direction_uv_corner_order() {
    let rect = UvRect { u1: 1, v1: 2, u2: 3, v2: 4 };
    let top = Direction::Top.uvs(rect);
    assert_eq!((top[0].u, top[0].v), (1, 4));
    assert_eq!((top[1].u, top[1].v), (1, 2));
    assert_eq!((top[2].u, top[2].v), (3, 2));
    assert_eq!((top[3].u, top[3].v), (3, 4));
    let front = Direction::Front.uvs(rect);
    assert_eq!((front[0].u, front[0].v), (3, 4));
    assert_eq!((front[3].u, front[3].v), (3, 2));
    let back = Direction::Back.uvs(rect);
    assert_eq!((back[0].u, back[0].v), (1, 2));
}

#[test]
fn corner_vertices_unrotated() {
    let e = full_cube_element();
    let corners = e.corner_vertices();
    assert_eq!(corners.len(), 8);
    assert_eq!(corners[0], Point3::new(-2048, -2048, -2048));
    assert_eq!(corners[5], Point3::new(2048, 2048, 2048));
    assert_eq!(corners[7], Point3::new(2048, -2048, -2048));
}

#[test]
fn rotation_by_zero_angle_is_identity() {
    // Rotating an element by the zero angle moves no corner.
    let mut e = full_cube_element();
    let plain = e.corner_vertices();
    e.rotation = Some(Rotation {
        origin: Point3::new(8, 8, 8),
        angle: Angle::Zero,
        axis: Axis::Y,
        rescale: false,
    });
    let rotated = e.corner_vertices();
    assert_eq!(plain, rotated);
}

#[test]
fn rotation_by_45_degrees_moves_corners() {
    let mut e = full_cube_element();
    e.rotation = Some(Rotation {
        origin: Point3::new(8, 8, 8),
        angle: Angle::Pos45,
        axis: Axis::Y,
        rescale: false,
    });
    let rotated = e.corner_vertices();
    // cos 45 = sin 45 = 2896/4096: corner (-2048, _, -2048) lands near
    // (0, _, -2896).
    assert_eq!(rotated[0].y, -2048);
    assert_eq!(rotated[0].x, 0);
    assert_eq!(rotated[0].z, -2896);
}

#[test]
fn model_empty_and_is_empty() {
    let m = Model::empty();
    assert!(m.is_empty());
    assert_eq!(m.tints, 0);
    assert_eq!(m.opacity.len(), 6);
    for o in m.opacity.iter() {
        assert_eq!(*o, Opacity::Transparent);
    }
}

#[test]
fn mixed_pair_values_never_equal() {
    assert!(pv_eq(
        &PropertyValue::Number(3),
        &PropertyValue::Number(3)
    ));
    assert!(!pv_eq(
        &PropertyValue::Number(1),
        &PropertyValue::Boolean(true)
    ));
    assert!(!pv_eq(
        &PropertyValue::Text(String::from("true")),
        &PropertyValue::Boolean(true)
    ));
}

#[test]
fn white_sentinel() {
    let w = Rgba::white();
    assert!(w.is_white());
    assert!(!Rgba { r: 255, g: 255, b: 254, a: 255 }.is_white());
}
