use lift::graphics::{
    flip_rows, glyph_font_size, glyph_index, glyphs_per_row, pack_glyphs, AnimationMode, GlyphBitmap, ImageFormat, Space, Texture,
};

#[test]
fn image_formats_by_name() {
    assert_eq!(ImageFormat::from_name("RGBA8888"), ImageFormat::RGBA8888);
    assert_eq!(ImageFormat::from_name("R8"), ImageFormat::R8);
}

#[test]
fn texture_and_space_numbers() {
    assert_eq!(u32::from(Texture::Sprite), 1);
    assert_eq!(u32::from(Texture::Glyph), 2);
    assert_eq!(u32::from(Space::World), 1);
    assert_eq!(u32::from(Space::Camera), 2);
    assert_eq!(u32::from(Space::Screen), 3);
    assert_ne!(AnimationMode::Repeat, AnimationMode::Once);
}

#[test]
fn glyph_indices() {
    assert_eq!(glyph_index(' '), 0);
    assert_eq!(glyph_index('A'), 33);
    assert_eq!(glyph_index('~'), 94);
    // anything outside printable ASCII shows as '?'
    assert_eq!(glyph_index('\n'), glyph_index('?'));
    assert_eq!(glyph_index('é'), 31);
}

#[test]
fn flip_rows_reverses_rows() {
    let image = vec![1u8, 2, 3, 4, 5, 6];
    let flipped = flip_rows(&image, 2, 3);
    assert_eq!(flipped, vec![5, 6, 3, 4, 1, 2]);
    // flipping twice gives the image back
    assert_eq!(flip_rows(&flipped, 2, 3), image);
    assert_eq!(flip_rows(&vec![], 0, 0), Vec::<u8>::new());
}

#[test]
fn glyphs_pack_into_cells() {
    let a = GlyphBitmap { width: 2, height: 1, pixels: vec![10, 11] };
    let b = GlyphBitmap { width: 1, height: 2, pixels: vec![20, 21] };
    let c = GlyphBitmap { width: 1, height: 1, pixels: vec![30] };
    let sheet = pack_glyphs(&vec![a, b, c], 2);
    assert_eq!(sheet.cell_width, 2);
    assert_eq!(sheet.cell_height, 2);
    assert_eq!(sheet.n_glyphs_per_row, 2);
    assert_eq!((sheet.image_width, sheet.image_height), (4, 4));
    assert_eq!(
        sheet.image,
        vec![
            10, 11, 20, 0, //
            0, 0, 21, 0, //
            30, 0, 0, 0, //
            0, 0, 0, 0,
        ]
    );
    assert_eq!(sheet.cell_origin(1), (0, 2));
    assert_eq!(sheet.cell_origin(2), (2, 0));
}

#[test]
fn glyph_sheet_rows() {
    assert_eq!(glyphs_per_row(0), 0);
    assert_eq!(glyphs_per_row(1), 1);
    assert_eq!(glyphs_per_row(2), 2);
    assert_eq!(glyphs_per_row(4), 2);
    assert_eq!(glyphs_per_row(5), 3);
    // 95 printable characters at two font sizes
    assert_eq!(glyphs_per_row(190), 14);
    assert_eq!(glyphs_per_row(196), 14);
    assert_eq!(glyphs_per_row(197), 15);
}

#[test]
fn glyph_numbers_map_to_character_and_size() {
    // two font sizes: glyphs alternate between them, character by character
    assert_eq!(glyph_font_size(0, 2), (0, 0));
    assert_eq!(glyph_font_size(1, 2), (0, 1));
    assert_eq!(glyph_font_size(7, 2), (3, 1));
    // the glyph of 'A' at the second size
    assert_eq!(glyph_font_size(glyph_index('A') * 2 + 1, 2), (glyph_index('A'), 1));
    assert_eq!(glyph_font_size(5, 1), (5, 0));
}
