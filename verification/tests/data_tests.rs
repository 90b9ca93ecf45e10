use lift::frame::{Frame, FrameAtlas, XYWH};
use lift::frame_atlas::{Frame as ColliderFrame, FrameAtlas as ColliderAtlas, XYWH as Rect4};
use lift::level::{tile_placements, LevelLayer, LevelObject, TilePlacement};
use lift::renderer::{
    enum_to_shader_source, push_decimal, EffectType, ShaderConstant, SpaceType, TextureType,
};
use lift::utils::urand;

fn r(x: u32, y: u32, w: u32, h: u32) -> XYWH {
    XYWH { x, y, w, h }
}

#[test]
fn xywh_zeros() {
    assert_eq!(XYWH::zeros(), r(0, 0, 0, 0));
}

#[test]
fn frame_masks_read_back() {
    let mut f = Frame::new(r(1, 2, 3, 4));
    assert_eq!(f.mask("rigid"), None);
    f.insert_mask("rigid".to_string(), r(0, 0, 8, 16));
    f.insert_mask("attack".to_string(), r(4, 4, 2, 2));
    assert_eq!(f.mask("rigid"), Some(r(0, 0, 8, 16)));
    assert_eq!(f.mask("attack"), Some(r(4, 4, 2, 2)));
    f.insert_mask("rigid".to_string(), r(1, 1, 1, 1));
    assert_eq!(f.mask("rigid"), Some(r(1, 1, 1, 1)));
    assert_eq!(f.mask("attack"), Some(r(4, 4, 2, 2)));
    assert_eq!(f.sprite(), r(1, 2, 3, 4));
    // each mask is listed once, in the order it was first added
    assert_eq!(f.mask_names(), &vec!["rigid".to_string(), "attack".to_string()]);
}

#[test]
fn frame_atlas_animations_read_back() {
    let mut atlas = FrameAtlas::with_size([256, 128]);
    assert_eq!(atlas.size(), [256, 128]);
    atlas.insert_animation(
        "knight_idle".to_string(),
        vec![Frame::new(r(0, 0, 16, 16)), Frame::new(r(16, 0, 16, 16))],
    );
    atlas.insert_animation("wolf_run".to_string(), vec![Frame::new(r(0, 16, 32, 16))]);
    let frames = atlas.frames("knight_idle");
    assert_eq!(frames.len(), 2);
    assert_eq!(frames[1].sprite(), r(16, 0, 16, 16));
    assert_eq!(atlas.frames("wolf_run")[0].sprite(), r(0, 16, 32, 16));
    atlas.insert_animation("knight_idle".to_string(), vec![]);
    assert!(atlas.frames("knight_idle").is_empty());
    assert_eq!(atlas.animation_names(), &vec!["knight_idle".to_string(), "wolf_run".to_string()]);
}

#[test]
fn collider_atlas_frames() {
    let f0 = ColliderFrame {
        sprite: Rect4 { x: 0, y: 0, w: 10, h: 10 },
        rigid_collider: Some(Rect4 { x: 1, y: 1, w: 8, h: 9 }),
        attack_collider: None,
    };
    let f1 = ColliderFrame {
        sprite: Rect4 { x: 10, y: 0, w: 10, h: 10 },
        rigid_collider: None,
        attack_collider: Some(Rect4 { x: 5, y: 2, w: 4, h: 3 }),
    };
    let mut atlas = ColliderAtlas::with_size([64, 32]);
    atlas.insert_frames("rat_idle".to_string(), vec![f0, f1]);
    assert_eq!(atlas.size(), [64, 32]);
    assert_eq!(atlas.get_frame("rat_idle", 0), f0);
    assert_eq!(atlas.get_sprite_xywh("rat_idle", 1), Rect4 { x: 10, y: 0, w: 10, h: 10 });
    assert_eq!(atlas.get_rigid_collider("rat_idle", 0), Some(Rect4 { x: 1, y: 1, w: 8, h: 9 }));
    assert_eq!(atlas.get_rigid_collider("rat_idle", 1), None);
    assert_eq!(atlas.get_attack_collider("rat_idle", 1), Some(Rect4 { x: 5, y: 2, w: 4, h: 3 }));
    assert_eq!(atlas.get_attack_collider("rat_idle", 0), None);
}

#[test]
fn level_names() {
    assert_eq!(LevelLayer::from_name("tiles"), LevelLayer::Tiles);
    assert_eq!(LevelLayer::from_name("objects"), LevelLayer::Objects);
    assert_eq!(LevelObject::from_name("room"), LevelObject::Room);
    assert_eq!(LevelObject::from_name("player"), LevelObject::Player);
    assert_eq!(LevelObject::from_name("rat"), LevelObject::Rat);
    assert_eq!(LevelObject::from_name("bat"), LevelObject::Bat);
    assert_eq!(LevelObject::from_name("torch"), LevelObject::Torch);
}

#[test]
fn level_tiles_skip_empty_cells() {
    let data = vec![0, 3, 0, 1, 0, 7, 9];
    let tiles = tile_placements(&data, 2, 3);
    assert_eq!(
        tiles,
        vec![
            TilePlacement { row: 0, col: 1, sprite_idx: 2 },
            TilePlacement { row: 1, col: 0, sprite_idx: 0 },
            TilePlacement { row: 1, col: 2, sprite_idx: 6 },
        ]
    );
    assert!(tile_placements(&vec![0, 0], 1, 2).is_empty());
    assert!(tile_placements(&vec![], 0, 5).is_empty());
}

#[test]
fn shader_constants() {
    assert_eq!(
        enum_to_shader_source::<SpaceType>(),
        "const uint WorldSpace = 1;\nconst uint CameraSpace = 2;\nconst uint ScreenSpace = 3;\n"
    );
    assert_eq!(
        enum_to_shader_source::<TextureType>(),
        "const uint ProceduralTexture = 1;\nconst uint SpriteTexture = 2;\nconst uint GlyphTexture = 3;\n"
    );
    assert_eq!(
        enum_to_shader_source::<EffectType>(),
        "const uint ApplyLightEffect = 1;\nconst uint StoneWallEffect = 2;\n"
    );
    assert_eq!(SpaceType::all(), vec![SpaceType::WorldSpace, SpaceType::CameraSpace, SpaceType::ScreenSpace]);
    assert_eq!(EffectType::StoneWallEffect.name(), "StoneWallEffect");
    assert_eq!(TextureType::GlyphTexture.value(), 3);
    assert_eq!(u32::from(EffectType::ApplyLightEffect), 1);
}

#[test]
fn decimal_notation() {
    let mut s = String::from("n=");
    push_decimal(&mut s, 0);
    assert_eq!(s, "n=0");
    let mut s = String::new();
    push_decimal(&mut s, 4096);
    assert_eq!(s, "4096");
    let mut s = String::new();
    push_decimal(&mut s, u32::MAX);
    assert_eq!(s, "4294967295");
    let mut s = String::new();
    push_decimal(&mut s, 10);
    assert_eq!(s, "10");
}

#[test]
fn urand_stays_in_range() {
    assert_eq!(urand(5, 5), 5);
    let mut seen_low = false;
    let mut seen_high = false;
    for _ in 0..1000 {
        let v = urand(3, 7);
        assert!((3..=7).contains(&v));
        seen_low |= v == 3;
        seen_high |= v == 7;
    }
    assert!(seen_low && seen_high);
}
