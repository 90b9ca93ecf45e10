use crate::utils::str_eq;
use vstd::prelude::*;
use vstd::std_specs::convert::FromSpecImpl;

verus! {

/// Pixel format of an atlas image.
#[derive(Copy, Clone, Debug, PartialEq, Eq, Structural)]
pub enum ImageFormat {
    RGBA8888,
    R8,
}

/// The format a name in an atlas description denotes, if any.
pub open spec fn image_format_named(name: Seq<char>) -> Option<ImageFormat> {
    if name == "RGBA8888"@ {
        Some(ImageFormat::RGBA8888)
    } else if name == "R8"@ {
        Some(ImageFormat::R8)
    } else {
        None
    }
}

impl ImageFormat {
    /// The format named in an atlas description; any other name is an
    /// error of the description (the caller must pass a known name).
    pub fn from_name(name: &str) -> (f: ImageFormat)
        requires
            image_format_named(name@) is Some,
        ensures
            image_format_named(name@) == Some(f),
    {
        if str_eq(name, "RGBA8888") {
            ImageFormat::RGBA8888
        } else {
            ImageFormat::R8
        }
    }
}

/// Whether an animation loops or plays once.
#[derive(Copy, Clone, Debug, PartialEq, Eq, Structural)]
pub enum AnimationMode {
    Repeat,
    Once,
}

/// The texture a primitive samples.
#[derive(Copy, Clone, Debug, PartialEq, Eq, Structural)]
pub enum Texture {
    Sprite,
    Glyph,
}

/// The space a primitive is given in.
#[derive(Copy, Clone, Debug, PartialEq, Eq, Structural)]
pub enum Space {
    World,
    Camera,
    Screen,
}

impl From<Texture> for u32 {
    fn from(t: Texture) -> (c: u32) {
        match t {
            Texture::Sprite => 1,
            Texture::Glyph => 2,
        }
    }
}

impl FromSpecImpl<Texture> for u32 {
    open spec fn obeys_from_spec() -> bool {
        true
    }

    open spec fn from_spec(t: Texture) -> u32 {
        match t {
            Texture::Sprite => 1,
            Texture::Glyph => 2,
        }
    }
}

impl From<Space> for u32 {
    fn from(s: Space) -> (c: u32) {
        match s {
            Space::World => 1,
            Space::Camera => 2,
            Space::Screen => 3,
        }
    }
}

impl FromSpecImpl<Space> for u32 {
    open spec fn obeys_from_spec() -> bool {
        true
    }

    open spec fn from_spec(s: Space) -> u32 {
        match s {
            Space::World => 1,
            Space::Camera => 2,
            Space::Screen => 3,
        }
    }
}

/// First and last character the glyph atlas holds (the printable ASCII).
pub const FIRST_GLYPH_CHAR: u32 = 32;

pub const LAST_GLYPH_CHAR: u32 = 126;

/// The position of a character among the atlas glyphs of one font size:
/// printable ASCII characters are in code order, any other character is
/// shown as a question mark.
pub open spec fn glyph_slot(c: char) -> int {
    if (c as u32) < FIRST_GLYPH_CHAR || (c as u32) > LAST_GLYPH_CHAR {
        '?' as int - FIRST_GLYPH_CHAR
    } else {
        c as int - FIRST_GLYPH_CHAR
    }
}

pub fn glyph_index(c: char) -> (idx: usize)
    ensures
        idx == glyph_slot(c),
        idx < LAST_GLYPH_CHAR - FIRST_GLYPH_CHAR + 1,
{
    let mut code = c as u32;
    if code < FIRST_GLYPH_CHAR || code > LAST_GLYPH_CHAR {
        code = '?' as u32;
    }
    (code - FIRST_GLYPH_CHAR) as usize
}

/// The number of the glyph rasterized for a character position and a
/// font size position, when every font size is rasterized for a character
/// before the next character.
pub open spec fn glyph_number(char_pos: int, size_pos: int, n_sizes: int) -> int {
    char_pos * n_sizes + size_pos
}

/// Which character position (from `FIRST_GLYPH_CHAR`) and which font size
/// position glyph number `i` is, of `n_sizes` font sizes.
pub fn glyph_font_size(i: usize, n_sizes: usize) -> (r: (usize, usize))
    requires
        n_sizes > 0,
    ensures
        r.0 == i / n_sizes,
        r.1 == i % n_sizes,
        r.1 < n_sizes,
        glyph_number(r.0 as int, r.1 as int, n_sizes as int) == i,
{
    proof {
        vstd::arithmetic::div_mod::lemma_fundamental_div_mod(i as int, n_sizes as int);
        assert((i / n_sizes) * n_sizes == n_sizes * (i / n_sizes)) by (nonlinear_arith);
    }
    (i / n_sizes, i % n_sizes)
}

/// Looking a character up at a font size finds the glyph rasterized for
/// it at that size: the glyph of character slot `glyph_slot(c)` and size
/// position `k` is numbered so that it maps back to that slot and size.
pub proof fn lemma_glyph_lookup_finds_its_glyph(c: char, k: int, n_sizes: int)
    requires
        0 <= k < n_sizes,
    ensures
        glyph_number(glyph_slot(c), k, n_sizes) / n_sizes == glyph_slot(c),
        glyph_number(glyph_slot(c), k, n_sizes) % n_sizes == k,
{
    vstd::arithmetic::div_mod::lemma_fundamental_div_mod_converse(
        glyph_number(glyph_slot(c), k, n_sizes),
        n_sizes,
        glyph_slot(c),
        k,
    );
}

/// `flipped` holds the rows of the `width`-wide image `image` bottom up.
pub open spec fn is_row_flip(image: Seq<u8>, flipped: Seq<u8>, width: int, height: int) -> bool {
    &&& flipped.len() == image.len()
    &&& forall|r: int, c: int|
        0 <= r < height && 0 <= c < width ==> #[trigger] flipped[r * width + c] == image[(height - 1
            - r) * width + c]
}

/// The image with its rows in the opposite order.
pub fn flip_rows(image: &Vec<u8>, width: usize, height: usize) -> (flipped: Vec<u8>)
    requires
        image.len() == width * height,
    ensures
        is_row_flip(image@, flipped@, width as int, height as int),
{
    let mut flipped: Vec<u8> = Vec::new();
    let mut r: usize = 0;
    while r < height
        invariant
            r <= height,
            image.len() == width * height,
            flipped.len() == r * width,
            forall|rr: int, c: int|
                0 <= rr < r && 0 <= c < width ==> #[trigger] flipped@[rr * width + c] == image@[(
                height - 1 - rr) * width + c],
        decreases height - r,
    {
        let src = height - r - 1;
        proof {
            assert((src + 1) * width <= height * width) by (nonlinear_arith)
                requires
                    src + 1 <= height,
            ;
            assert((src + 1) * width == src * width + width) by (nonlinear_arith);
            assert((r + 1) * width == r * width + width) by (nonlinear_arith);
        }
        let start = src * width;
        let mut c: usize = 0;
        while c < width
            invariant
                c <= width,
                r < height,
                src == height - r - 1,
                start == src * width,
                start + width <= image.len(),
                image.len() == width * height,
                flipped.len() == r * width + c,
                forall|rr: int, cc: int|
                    0 <= rr < r && 0 <= cc < width ==> #[trigger] flipped@[rr * width + cc]
                        == image@[(height - 1 - rr) * width + cc],
                forall|cc: int| 0 <= cc < c ==> #[trigger] flipped@[r * width + cc] == image@[start + cc],
            decreases width - c,
        {
            flipped.push(image[start + c]);
            proof {
                assert forall|rr: int, cc: int| 0 <= rr < r && 0 <= cc < width implies #[trigger] flipped@[rr * width + cc]
                    == image@[(height - 1 - rr) * width + cc] by {
                    assert(rr * width + cc < r * width) by (nonlinear_arith)
                        requires
                            rr < r,
                            cc < width,
                    ;
                }
            }
            c = c + 1;
        }
        proof {
            assert forall|rr: int, c: int| 0 <= rr < r + 1 && 0 <= c < width implies #[trigger] flipped@[rr * width + c]
                == image@[(height - 1 - rr) * width + c] by {
                if rr == r {
                } else {
                }
            }
        }
        r = r + 1;
    }
    proof {
        assert(flipped.len() == width * height) by (nonlinear_arith)
            requires
                flipped.len() == height * width,
        ;
    }
    flipped
}

/// A rasterized glyph: a `width` x `height` coverage bitmap, row by row.
#[derive(Clone, Debug)]
pub struct GlyphBitmap {
    pub width: usize,
    pub height: usize,
    pub pixels: Vec<u8>,
}

/// Every bitmap holds exactly its `width * height` pixels.
pub open spec fn bitmaps_well_sized(gs: Seq<GlyphBitmap>) -> bool {
    forall|i: int| 0 <= i < gs.len() ==> (#[trigger] gs[i]).pixels@.len() == gs[i].width * gs[i].height
}

/// The widest bitmap's width (0 when there are none).
pub open spec fn max_width(gs: Seq<GlyphBitmap>) -> nat
    decreases gs.len(),
{
    if gs.len() == 0 {
        0
    } else {
        let m = max_width(gs.drop_last());
        if gs.last().width > m {
            gs.last().width as nat
        } else {
            m
        }
    }
}

/// The tallest bitmap's height (0 when there are none).
pub open spec fn max_height(gs: Seq<GlyphBitmap>) -> nat
    decreases gs.len(),
{
    if gs.len() == 0 {
        0
    } else {
        let m = max_height(gs.drop_last());
        if gs.last().height > m {
            gs.last().height as nat
        } else {
            m
        }
    }
}

/// The pixel at row `r`, column `c` of a sheet of `cell_w` x `cell_h` cells,
/// `per_row` cells to a row: glyph `i` owns the cell in cell row
/// `i / per_row` and cell column `i % per_row`, with its bitmap in the cell's
/// top-left corner; the rest of the sheet is blank.
pub open spec fn sheet_pixel(
    gs: Seq<GlyphBitmap>,
    per_row: int,
    cell_w: int,
    cell_h: int,
    r: int,
    c: int,
) -> u8 {
    let i = (r / cell_h) * per_row + c / cell_w;
    let gr = r % cell_h;
    let gc = c % cell_w;
    if i < gs.len() && gr < gs[i].height && gc < gs[i].width {
        gs[i].pixels@[gr * gs[i].width + gc]
    } else {
        0
    }
}

/// How many cells a row of a square glyph sheet needs for `n` glyphs: the
/// smallest `p` with `p * p >= n` (the ceiling of the square root of `n`).
pub fn glyphs_per_row(n: usize) -> (p: usize)
    ensures
        p * p >= n,
        p == 0 || (p - 1) * (p - 1) < n,
{
    let mut p: usize = 0;
    loop
        invariant
            p <= n,
            p == 0 || (p - 1) * (p - 1) < n,
        ensures
            p * p >= n,
            p == 0 || (p - 1) * (p - 1) < n,
        decreases n - p,
    {
        proof {
            assert(p * p <= u128::MAX) by (nonlinear_arith)
                requires
                    p <= 0xffff_ffff_ffff_ffffint,
            ;
        }
        let square = (p as u128) * (p as u128);
        if square >= n as u128 {
            break;
        }
        proof {
            assert(p < n) by (nonlinear_arith)
                requires
                    p * p < n,
                    p <= n,
            ;
        }
        p = p + 1;
    }
    p
}

/// The glyphs of an atlas packed into one image.
#[derive(Clone, Debug)]
pub struct GlyphSheet {
    /// Size of every cell: the widest and the tallest glyph.
    pub cell_width: usize,
    pub cell_height: usize,
    pub n_glyphs_per_row: usize,
    pub image_width: usize,
    pub image_height: usize,
    /// The image, row by row from the top.
    pub image: Vec<u8>,
}

impl GlyphSheet {
    /// The top-left pixel (row, column) of glyph `i`'s cell.
    pub fn cell_origin(&self, i: usize) -> (rc: (usize, usize))
        requires
            self.n_glyphs_per_row > 0,
            i / self.n_glyphs_per_row < self.n_glyphs_per_row,
            self.image_width == self.cell_width * self.n_glyphs_per_row,
            self.image_height == self.cell_height * self.n_glyphs_per_row,
        ensures
            rc.0 == (i / self.n_glyphs_per_row) * self.cell_height,
            rc.1 == (i % self.n_glyphs_per_row) * self.cell_width,
            rc.0 <= self.image_height,
            rc.1 <= self.image_width,
    {
        let p = self.n_glyphs_per_row;
        proof {
            assert((i / p) * self.cell_height <= self.cell_height * p) by (nonlinear_arith)
                requires
                    i / p < p,
            ;
            assert((i % p) * self.cell_width <= self.cell_width * p) by (nonlinear_arith)
                requires
                    i % p < p,
            ;
        }
        ((i / p) * self.cell_height, (i % p) * self.cell_width)
    }
}

/// Packs glyph bitmaps into one image, `n_glyphs_per_row` square cells to a
/// row and as many rows, each cell as large as the largest glyph.
pub fn pack_glyphs(glyphs: &Vec<GlyphBitmap>, n_glyphs_per_row: usize) -> (sheet: GlyphSheet)
    requires
        bitmaps_well_sized(glyphs@),
        glyphs.len() <= n_glyphs_per_row * n_glyphs_per_row,
        max_width(glyphs@) * n_glyphs_per_row <= usize::MAX,
        max_height(glyphs@) * n_glyphs_per_row <= usize::MAX,
        max_width(glyphs@) * n_glyphs_per_row * (max_height(glyphs@) * n_glyphs_per_row)
            <= usize::MAX,
    ensures
        sheet.cell_width == max_width(glyphs@),
        sheet.cell_height == max_height(glyphs@),
        sheet.n_glyphs_per_row == n_glyphs_per_row,
        sheet.image_width == sheet.cell_width * n_glyphs_per_row,
        sheet.image_height == sheet.cell_height * n_glyphs_per_row,
        sheet.image.len() == sheet.image_width * sheet.image_height,
        forall|r: int, c: int|
            0 <= r < sheet.image_height && 0 <= c < sheet.image_width ==> #[trigger] sheet.image@[r
                * sheet.image_width + c] == sheet_pixel(
                glyphs@,
                n_glyphs_per_row as int,
                sheet.cell_width as int,
                sheet.cell_height as int,
                r,
                c,
            ),
{
    let n = glyphs.len();
    let mut mw: usize = 0;
    let mut mh: usize = 0;
    let mut i: usize = 0;
    while i < n
        invariant
            i <= n,
            n == glyphs.len(),
            mw == max_width(glyphs@.take(i as int)),
            mh == max_height(glyphs@.take(i as int)),
        decreases n - i,
    {
        proof {
            assert(glyphs@.take(i as int + 1).drop_last() == glyphs@.take(i as int));
        }
        if glyphs[i].width > mw {
            mw = glyphs[i].width;
        }
        if glyphs[i].height > mh {
            mh = glyphs[i].height;
        }
        i = i + 1;
    }
    proof {
        assert(glyphs@.take(n as int) == glyphs@);
    }
    let p = n_glyphs_per_row;
    let width = mw * p;
    let height = mh * p;
    let mut image: Vec<u8> = Vec::new();
    let mut r: usize = 0;
    while r < height
        invariant
            r <= height,
            width == mw * p,
            height == mh * p,
            width * height <= usize::MAX,
            mw == max_width(glyphs@),
            mh == max_height(glyphs@),
            n == glyphs.len(),
            bitmaps_well_sized(glyphs@),
            image.len() == r * width,
            forall|rr: int, c: int|
                0 <= rr < r && 0 <= c < width ==> #[trigger] image@[rr * width + c] == sheet_pixel(
                    glyphs@,
                    p as int,
                    mw as int,
                    mh as int,
                    rr,
                    c,
                ),
        decreases height - r,
    {
        let mut c: usize = 0;
        proof {
            assert((r + 1) * width <= height * width) by (nonlinear_arith)
                requires
                    r + 1 <= height,
            ;
            assert((r + 1) * width == r * width + width) by (nonlinear_arith);
            assert(height * width == width * height) by (nonlinear_arith);
        }
        while c < width
            invariant
                r < height,
                c <= width,
                width == mw * p,
                height == mh * p,
                r * width + width <= usize::MAX,
                width * height <= usize::MAX,
                mw == max_width(glyphs@),
                mh == max_height(glyphs@),
                n == glyphs.len(),
                bitmaps_well_sized(glyphs@),
                image.len() == r * width + c,
                forall|rr: int, cc: int|
                    0 <= rr < r && 0 <= cc < width ==> #[trigger] image@[rr * width + cc]
                        == sheet_pixel(glyphs@, p as int, mw as int, mh as int, rr, cc),
                forall|cc: int|
                    0 <= cc < c ==> #[trigger] image@[r * width + cc] == sheet_pixel(
                        glyphs@,
                        p as int,
                        mw as int,
                        mh as int,
                        r as int,
                        cc,
                    ),
            decreases width - c,
        {
            proof {
                assert(mw > 0 && mh > 0) by (nonlinear_arith)
                    requires
                        c < width,
                        r < height,
                        width == mw * p,
                        height == mh * p,
                ;
                assert((r / mh) * p + c / mw <= usize::MAX) by (nonlinear_arith)
                    requires
                        mw > 0,
                        mh > 0,
                        r < mh * p,
                        c < mw * p,
                        mw * p * (mh * p) <= usize::MAX,
                {
                    assert(r / mh < p) by {
                        vstd::arithmetic::div_mod::lemma_div_by_multiple_is_strongly_ordered(
                            r as int, (mh * p) as int, p as int, mh as int);
                    }
                    assert(c / mw < p) by {
                        vstd::arithmetic::div_mod::lemma_div_by_multiple_is_strongly_ordered(
                            c as int, (mw * p) as int, p as int, mw as int);
                    }
                }
            }
            let i = (r / mh) * p + c / mw;
            let gr = r % mh;
            let gc = c % mw;
            let v = if i < n && gr < glyphs[i].height && gc < glyphs[i].width {
                let plen = glyphs[i].pixels.len();
                proof {
                    let g = glyphs@[i as int];
                    assert(g.pixels@.len() == g.width * g.height);
                    assert(g.width * g.height == plen);
                    assert(gr * g.width + gc < g.width * g.height) by (nonlinear_arith)
                        requires
                            gr < g.height,
                            gc < g.width,
                    ;
                }
                glyphs[i].pixels[gr * glyphs[i].width + gc]
            } else {
                0
            };
            image.push(v);
            proof {
                assert forall|rr: int, cc: int| 0 <= rr < r && 0 <= cc < width implies #[trigger] image@[rr
                    * width + cc] == sheet_pixel(glyphs@, p as int, mw as int, mh as int, rr, cc) by {
                    assert(rr * width + cc < r * width) by (nonlinear_arith)
                        requires
                            rr < r,
                            cc < width,
                    ;
                }
            }
            c = c + 1;
        }
        r = r + 1;
    }
    proof {
        assert(height * width == width * height) by (nonlinear_arith);
    }
    GlyphSheet {
        cell_width: mw,
        cell_height: mh,
        n_glyphs_per_row: p,
        image_width: width,
        image_height: height,
        image,
    }
}

/// Flipping the rows of an image twice gives the image back.
pub proof fn lemma_flip_twice_restores(
    image: Seq<u8>,
    once: Seq<u8>,
    twice: Seq<u8>,
    width: int,
    height: int,
)
    requires
        0 <= width,
        0 <= height,
        image.len() == width * height,
        is_row_flip(image, once, width, height),
        is_row_flip(once, twice, width, height),
    ensures
        twice == image,
{
    assert forall|p: int| 0 <= p < image.len() implies twice[p] == image[p] by {
        assert(width > 0) by (nonlinear_arith)
            requires
                0 <= p < width * height,
                0 <= width,
                0 <= height,
        ;
        let r = p / width;
        let c = p % width;
        vstd::arithmetic::div_mod::lemma_fundamental_div_mod(p, width);
        vstd::arithmetic::div_mod::lemma_mod_pos_bound(p, width);
        vstd::arithmetic::div_mod::lemma_div_pos_is_pos(p, width);
        assert(r * width + c == p) by (nonlinear_arith)
            requires
                p == width * r + c,
        ;
        assert(r < height) by (nonlinear_arith)
            requires
                p == width * r + c,
                0 <= c,
                p < width * height,
                0 < width,
        ;
        let r2 = height - 1 - r;
        assert(twice[r * width + c] == once[r2 * width + c]);
        assert(once[r2 * width + c] == image[(height - 1 - r2) * width + c]);
    }
    assert(twice =~= image);
}

/// No glyph is wider than the widest nor taller than the tallest.
pub proof fn lemma_max_size_bounds(gs: Seq<GlyphBitmap>, i: int)
    requires
        0 <= i < gs.len(),
    ensures
        gs[i].width <= max_width(gs),
        gs[i].height <= max_height(gs),
    decreases gs.len(),
{
    if i < gs.len() - 1 {
        lemma_max_size_bounds(gs.drop_last(), i);
    }
}

/// Every pixel of every glyph lands in the glyph's cell of the sheet: glyph
/// `i`'s pixel at row `gr`, column `gc` is the sheet's pixel at row
/// `(i / per_row) * cell height + gr`, column `(i % per_row) * cell width + gc`.
pub proof fn lemma_glyph_lands_in_its_cell(gs: Seq<GlyphBitmap>, per_row: int, i: int, gr: int, gc: int)
    requires
        0 < per_row,
        0 <= i < gs.len(),
        0 <= gr < gs[i].height,
        0 <= gc < gs[i].width,
    ensures
        sheet_pixel(
            gs,
            per_row,
            max_width(gs) as int,
            max_height(gs) as int,
            (i / per_row) * max_height(gs) + gr,
            (i % per_row) * max_width(gs) + gc,
        ) == gs[i].pixels@[gr * gs[i].width + gc],
{
    lemma_max_size_bounds(gs, i);
    let cw = max_width(gs) as int;
    let ch = max_height(gs) as int;
    let q = i / per_row;
    let m = i % per_row;
    let r = q * ch + gr;
    let c = m * cw + gc;
    vstd::arithmetic::div_mod::lemma_fundamental_div_mod_converse(r, ch, q, gr);
    vstd::arithmetic::div_mod::lemma_fundamental_div_mod_converse(c, cw, m, gc);
    vstd::arithmetic::div_mod::lemma_fundamental_div_mod(i, per_row);
    assert(q * per_row + m == i) by (nonlinear_arith)
        requires
            i == per_row * q + m,
    ;
}

} // verus!
