//! The raster renderer: paints a module matrix into a pixel buffer with a
//! quiet zone around the symbol and, optionally, a caption strip below it.
//! Every pixel of the output is pinned down by `spec_pixel`.

use vstd::prelude::*;

use crate::matrix::ModuleMatrix;
use crate::options::RenderColor;

verus! {

/// Width of the quiet zone, in modules, on every side of the symbol.
pub const QUIET_ZONE: usize = 4;

/// Side of one module, in pixels.
pub const MODULE_PX: usize = 8;

/// Height of the caption strip appended below the symbol when text is
/// embedded.
pub const CAPTION_STRIP_PX: usize = 16;

/// Blank rows at the top of the caption strip.
pub const CAPTION_TOP_PX: usize = 3;

/// Scale factor of the built-in 3x5 caption font.
pub const CAPTION_SCALE: usize = 2;

/// Width of one caption character cell, in pixels.
pub const CAPTION_CELL_PX: usize = 8;

/// Largest matrix side the renderer accepts; far above the 177 modules of the
/// largest QR version, and small enough that all pixel arithmetic fits usize.
pub const MAX_SIDE: usize = 1024;

/// Pixel width (and symbol-area height) of the rendering of a matrix.
pub open spec fn raster_width(side: int) -> int {
    (side + 2 * QUIET_ZONE as int) * MODULE_PX as int
}

/// Total pixel height of the rendering: the symbol area, plus the caption
/// strip when text is embedded.
pub open spec fn raster_height(side: int, embed: bool) -> int {
    raster_width(side) + if embed {
        CAPTION_STRIP_PX as int
    } else {
        0
    }
}

/// The rows of the built-in 3x5 glyph of a byte, packed into 15 bits (bit
/// gy * 3 + gx is the pixel at column gx of row gy). Lowercase letters share
/// the uppercase glyphs; bytes without a glyph render blank.
pub open spec fn spec_glyph_bits(ch: u8) -> u16 {
    let n: u8 = if 97 <= ch && ch <= 122 {
        (ch - 32) as u8
    } else {
        ch
    };
    if n == 48 {
        31599
    } else if n == 49 {
        29850
    } else if n == 50 {
        29671
    } else if n == 51 {
        31207
    } else if n == 52 {
        18925
    } else if n == 53 {
        31183
    } else if n == 54 {
        31695
    } else if n == 55 {
        18727
    } else if n == 56 {
        31727
    } else if n == 57 {
        31215
    } else if n == 65 {
        23535
    } else if n == 66 {
        15083
    } else if n == 67 {
        29263
    } else if n == 68 {
        15211
    } else if n == 69 {
        29647
    } else if n == 70 {
        5071
    } else if n == 71 {
        31567
    } else if n == 72 {
        23533
    } else if n == 73 {
        29847
    } else if n == 74 {
        31524
    } else if n == 75 {
        23277
    } else if n == 76 {
        29257
    } else if n == 77 {
        23549
    } else if n == 78 {
        24573
    } else if n == 79 {
        31599
    } else if n == 80 {
        5103
    } else if n == 81 {
        20335
    } else if n == 82 {
        23275
    } else if n == 83 {
        31183
    } else if n == 84 {
        9367
    } else if n == 85 {
        31597
    } else if n == 86 {
        11117
    } else if n == 87 {
        24557
    } else if n == 88 {
        23213
    } else if n == 89 {
        9389
    } else if n == 90 {
        29351
    } else {
        0
    }
}

/// Whether pixel (gx, gy) of the glyph of `ch` is set.
pub open spec fn glyph_on(ch: u8, gx: int, gy: int) -> bool {
    (spec_glyph_bits(ch) >> ((gy * 3 + gx) as u16)) & 1 == 1
}

fn glyph_bits(ch: u8) -> (r: u16)
    ensures
        r == spec_glyph_bits(ch),
{
    let n: u8 = if 97 <= ch && ch <= 122 {
        ch - 32
    } else {
        ch
    };
    if n == 48 {
        31599
    } else if n == 49 {
        29850
    } else if n == 50 {
        29671
    } else if n == 51 {
        31207
    } else if n == 52 {
        18925
    } else if n == 53 {
        31183
    } else if n == 54 {
        31695
    } else if n == 55 {
        18727
    } else if n == 56 {
        31727
    } else if n == 57 {
        31215
    } else if n == 65 {
        23535
    } else if n == 66 {
        15083
    } else if n == 67 {
        29263
    } else if n == 68 {
        15211
    } else if n == 69 {
        29647
    } else if n == 70 {
        5071
    } else if n == 71 {
        31567
    } else if n == 72 {
        23533
    } else if n == 73 {
        29847
    } else if n == 74 {
        31524
    } else if n == 75 {
        23277
    } else if n == 76 {
        29257
    } else if n == 77 {
        23549
    } else if n == 78 {
        24573
    } else if n == 79 {
        31599
    } else if n == 80 {
        5103
    } else if n == 81 {
        20335
    } else if n == 82 {
        23275
    } else if n == 83 {
        31183
    } else if n == 84 {
        9367
    } else if n == 85 {
        31597
    } else if n == 86 {
        11117
    } else if n == 87 {
        24557
    } else if n == 88 {
        23213
    } else if n == 89 {
        9389
    } else if n == 90 {
        29351
    } else {
        0
    }
}

/// Whether the caption pixel at (cx, cy) is set, with cy relative to the top
/// of the caption strip and cx an absolute column of the canvas. The caption
/// starts under the left edge of the symbol and is clipped at the right edge
/// of the canvas.
pub open spec fn caption_dark(t: Seq<u8>, cx: int, cy: int) -> bool {
    let xoff = cx - (QUIET_ZONE * MODULE_PX) as int;
    let gy = (cy - CAPTION_TOP_PX as int) / CAPTION_SCALE as int;
    if cy < CAPTION_TOP_PX as int || gy >= 5 || xoff < 0 {
        false
    } else {
        let k = xoff / CAPTION_CELL_PX as int;
        let gx = (xoff % CAPTION_CELL_PX as int) / CAPTION_SCALE as int;
        k < t.len() && gx < 3 && glyph_on(t[k], gx, gy)
    }
}

fn caption_dark_at(t: &Vec<u8>, cx: usize, cy: usize) -> (r: bool)
    ensures
        r == caption_dark(t@, cx as int, cy as int),
{
    if cy < CAPTION_TOP_PX {
        false
    } else {
        let gy = (cy - CAPTION_TOP_PX) / CAPTION_SCALE;
        if gy >= 5 {
            false
        } else if cx < QUIET_ZONE * MODULE_PX {
            false
        } else {
            let xoff = cx - QUIET_ZONE * MODULE_PX;
            let k = xoff / CAPTION_CELL_PX;
            if k >= t.len() {
                false
            } else {
                let gx = (xoff % CAPTION_CELL_PX) / CAPTION_SCALE;
                if gx >= 3 {
                    false
                } else {
                    let sh: u16 = (gy * 3 + gx) as u16;
                    (glyph_bits(t[k]) >> sh) & 1 == 1
                }
            }
        }
    }
}

/// The view of an optional caption argument.
pub open spec fn spec_caption(caption: Option<&Vec<u8>>) -> Option<Seq<u8>> {
    match caption {
        Some(t) => Some(t@),
        None => None,
    }
}

/// The color of pixel (x, y) of the rendering of the row-major `grid` of the
/// given side with dark modules in `color`: the configured color exactly on
/// dark module cells and on set caption pixels, the background everywhere
/// else (light cells, the quiet zone, and the blank parts of the caption
/// strip).
pub open spec fn spec_pixel(
    side: int,
    grid: Seq<bool>,
    color: RenderColor,
    caption: Option<Seq<u8>>,
    x: int,
    y: int,
) -> RenderColor {
    if y < raster_width(side) {
        let mx = x / MODULE_PX as int;
        let my = y / MODULE_PX as int;
        if QUIET_ZONE as int <= mx && mx < QUIET_ZONE as int + side && QUIET_ZONE as int <= my
            && my < QUIET_ZONE as int + side {
            if grid[(my - QUIET_ZONE as int) * side + (mx - QUIET_ZONE as int)] {
                color
            } else {
                RenderColor::spec_background()
            }
        } else {
            RenderColor::spec_background()
        }
    } else {
        match caption {
            Some(t) => if caption_dark(t, x, y - raster_width(side)) {
                color
            } else {
                RenderColor::spec_background()
            },
            None => RenderColor::spec_background(),
        }
    }
}

/// The whole pixel sequence of the rendering, row-major.
pub open spec fn raster_pixels(
    side: int,
    grid: Seq<bool>,
    color: RenderColor,
    caption: Option<Seq<u8>>,
) -> Seq<RenderColor> {
    Seq::new(
        (raster_width(side) * raster_height(side, caption is Some)) as nat,
        |i: int|
            spec_pixel(side, grid, color, caption, i % raster_width(side), i / raster_width(side)),
    )
}

/// A fixed-resolution RGB image, stored row-major.
pub struct RasterImage {
    pub width: usize,
    pub height: usize,
    pub pixels: Vec<RenderColor>,
}

impl RasterImage {
    pub open spec fn wf(self) -> bool {
        self.pixels@.len() == self.width as int * self.height as int
    }

    /// The pixel at column x, row y.
    pub open spec fn pixel(self, x: int, y: int) -> RenderColor {
        self.pixels@[y * self.width as int + x]
    }

    pub fn get_pixel(&self, x: usize, y: usize) -> (r: RenderColor)
        requires
            self.wf(),
            x < self.width,
            y < self.height,
        ensures
            r == self.pixel(x as int, y as int),
    {
        let n = self.pixels.len();
        proof {
            vstd::arithmetic::mul::lemma_mul_inequality(
                y as int + 1,
                self.height as int,
                self.width as int,
            );
            vstd::arithmetic::mul::lemma_mul_is_distributive_add_other_way(
                self.width as int,
                y as int,
                1,
            );
            assert((y as int + 1) * self.width as int == y as int * self.width as int
                + self.width as int);
            assert(self.height as int * self.width as int == self.width as int
                * self.height as int);
        }
        self.pixels[y * self.width + x]
    }
}

/// Renders a matrix into a pixel buffer: a `raster_width` square symbol area,
/// extended below by a caption strip when a caption is given. Every pixel is
/// exactly `spec_pixel`.
pub fn render_raster(m: &ModuleMatrix, color: RenderColor, caption: Option<&Vec<u8>>) -> (img:
    RasterImage)
    requires
        m.wf(),
        1 <= m.spec_side() <= MAX_SIDE as int,
    ensures
        img.wf(),
        img.width as int == raster_width(m.spec_side()),
        img.height as int == raster_height(m.spec_side(), caption is Some),
        img.pixels@ == raster_pixels(m.spec_side(), m.grid(), color, spec_caption(caption)),
        forall|x: int, y: int|
            0 <= x < img.width as int && 0 <= y < img.height as int ==> img.pixel(x, y)
                == spec_pixel(m.spec_side(), m.grid(), color, spec_caption(caption), x, y),
{
    let side = m.side();
    let w = (side + 2 * QUIET_ZONE) * MODULE_PX;
    let h = if caption.is_some() {
        w + CAPTION_STRIP_PX
    } else {
        w
    };
    let ghost cap = spec_caption(caption);
    let mut pixels: Vec<RenderColor> = Vec::new();
    let mut y: usize = 0;
    while y < h
        invariant
            m.wf(),
            1 <= m.spec_side() <= MAX_SIDE as int,
            side as int == m.spec_side(),
            w as int == raster_width(m.spec_side()),
            h as int == raster_height(m.spec_side(), caption is Some),
            cap == spec_caption(caption),
            y <= h,
            pixels@.len() == y as int * w as int,
            forall|i: int|
                0 <= i < pixels@.len() ==> pixels@[i] == spec_pixel(
                    m.spec_side(),
                    m.grid(),
                    color,
                    cap,
                    i % (w as int),
                    i / (w as int),
                ),
        decreases h - y,
    {
        let mut x: usize = 0;
        while x < w
            invariant
                m.wf(),
                1 <= m.spec_side() <= MAX_SIDE as int,
                side as int == m.spec_side(),
                w as int == raster_width(m.spec_side()),
                h as int == raster_height(m.spec_side(), caption is Some),
                cap == spec_caption(caption),
                y < h,
                x <= w,
                pixels@.len() == y as int * w as int + x as int,
                forall|i: int|
                    0 <= i < pixels@.len() ==> pixels@[i] == spec_pixel(
                        m.spec_side(),
                        m.grid(),
                        color,
                        cap,
                        i % (w as int),
                        i / (w as int),
                    ),
            decreases w - x,
        {
            let px: RenderColor;
            if y < w {
                let mx = x / MODULE_PX;
                let my = y / MODULE_PX;
                if QUIET_ZONE <= mx && mx < QUIET_ZONE + side && QUIET_ZONE <= my && my
                    < QUIET_ZONE + side {
                    if m.get(my - QUIET_ZONE, mx - QUIET_ZONE) {
                        px = color;
                    } else {
                        px = RenderColor::background();
                    }
                } else {
                    px = RenderColor::background();
                }
            } else {
                match caption {
                    Some(t) => {
                        if caption_dark_at(t, x, y - w) {
                            px = color;
                        } else {
                            px = RenderColor::background();
                        }
                    },
                    None => {
                        px = RenderColor::background();
                    },
                }
            }
            proof {
                assert(px == spec_pixel(m.spec_side(), m.grid(), color, cap, x as int, y as int));
                vstd::arithmetic::div_mod::lemma_fundamental_div_mod_converse(
                    y as int * w as int + x as int,
                    w as int,
                    y as int,
                    x as int,
                );
            }
            pixels.push(px);
            x = x + 1;
        }
        proof {
            vstd::arithmetic::mul::lemma_mul_is_distributive_add_other_way(w as int, y as int, 1);
        }
        y = y + 1;
    }
    let img = RasterImage { width: w, height: h, pixels };
    proof {
        assert forall|x: int, yy: int|
            0 <= x < img.width as int && 0 <= yy < img.height as int implies img.pixel(x, yy)
            == spec_pixel(m.spec_side(), m.grid(), color, spec_caption(caption), x, yy) by {
            vstd::arithmetic::mul::lemma_mul_inequality(
                yy + 1,
                img.height as int,
                img.width as int,
            );
            vstd::arithmetic::mul::lemma_mul_is_distributive_add_other_way(
                img.width as int,
                yy,
                1,
            );
            assert((yy + 1) * img.width as int == yy * img.width as int + img.width as int);
            assert(img.height as int * img.width as int == img.width as int * img.height as int);
            vstd::arithmetic::div_mod::lemma_fundamental_div_mod_converse(
                yy * img.width as int + x,
                img.width as int,
                yy,
                x,
            );
        }
        assert(img.pixels@ =~= raster_pixels(m.spec_side(), m.grid(), color, spec_caption(caption)));
    }
    img
}

/// Color-fidelity law, dark cells: within the pixel block of a dark module
/// cell, every rendered pixel carries exactly the configured module color,
/// whatever the caption setting.
pub proof fn lemma_dark_cell_pixels(
    side: int,
    grid: Seq<bool>,
    color: RenderColor,
    cap: Option<Seq<u8>>,
    r: int,
    c: int,
    dx: int,
    dy: int,
)
    requires
        grid.len() == side * side,
        1 <= side <= MAX_SIDE as int,
        0 <= r < side,
        0 <= c < side,
        grid[r * side + c],
        0 <= dx < MODULE_PX as int,
        0 <= dy < MODULE_PX as int,
    ensures
        spec_pixel(
            side,
            grid,
            color,
            cap,
            (QUIET_ZONE as int + c) * MODULE_PX as int + dx,
            (QUIET_ZONE as int + r) * MODULE_PX as int + dy,
        ) == color,
{
    let x = (QUIET_ZONE as int + c) * MODULE_PX as int + dx;
    let y = (QUIET_ZONE as int + r) * MODULE_PX as int + dy;
    vstd::arithmetic::div_mod::lemma_fundamental_div_mod_converse(
        x,
        MODULE_PX as int,
        QUIET_ZONE as int + c,
        dx,
    );
    vstd::arithmetic::div_mod::lemma_fundamental_div_mod_converse(
        y,
        MODULE_PX as int,
        QUIET_ZONE as int + r,
        dy,
    );
}

/// Color-fidelity law, light cells: within the pixel block of a light module
/// cell, every rendered pixel carries exactly the background color.
pub proof fn lemma_light_cell_pixels(
    side: int,
    grid: Seq<bool>,
    color: RenderColor,
    cap: Option<Seq<u8>>,
    r: int,
    c: int,
    dx: int,
    dy: int,
)
    requires
        grid.len() == side * side,
        1 <= side <= MAX_SIDE as int,
        0 <= r < side,
        0 <= c < side,
        !grid[r * side + c],
        0 <= dx < MODULE_PX as int,
        0 <= dy < MODULE_PX as int,
    ensures
        spec_pixel(
            side,
            grid,
            color,
            cap,
            (QUIET_ZONE as int + c) * MODULE_PX as int + dx,
            (QUIET_ZONE as int + r) * MODULE_PX as int + dy,
        ) == RenderColor::spec_background(),
{
    let x = (QUIET_ZONE as int + c) * MODULE_PX as int + dx;
    let y = (QUIET_ZONE as int + r) * MODULE_PX as int + dy;
    vstd::arithmetic::div_mod::lemma_fundamental_div_mod_converse(
        x,
        MODULE_PX as int,
        QUIET_ZONE as int + c,
        dx,
    );
    vstd::arithmetic::div_mod::lemma_fundamental_div_mod_converse(
        y,
        MODULE_PX as int,
        QUIET_ZONE as int + r,
        dy,
    );
}

/// Quiet-zone law: every pixel of the symbol area that lies outside the
/// matrix block — the margin of QUIET_ZONE modules around the symbol — is the
/// background color, regardless of the configured color and caption.
pub proof fn lemma_quiet_zone_pixels(
    side: int,
    grid: Seq<bool>,
    color: RenderColor,
    cap: Option<Seq<u8>>,
    x: int,
    y: int,
)
    requires
        grid.len() == side * side,
        1 <= side <= MAX_SIDE as int,
        0 <= x < raster_width(side),
        0 <= y < raster_width(side),
        x < (QUIET_ZONE * MODULE_PX) as int || x >= (QUIET_ZONE as int + side) * MODULE_PX as int
            || y < (QUIET_ZONE * MODULE_PX) as int || y >= (QUIET_ZONE as int + side)
            * MODULE_PX as int,
    ensures
        spec_pixel(side, grid, color, cap, x, y) == RenderColor::spec_background(),
{
    if x < (QUIET_ZONE * MODULE_PX) as int {
        vstd::arithmetic::div_mod::lemma_div_is_ordered(
            x,
            (QUIET_ZONE * MODULE_PX) as int - 1,
            MODULE_PX as int,
        );
    } else if x >= (QUIET_ZONE as int + side) * MODULE_PX as int {
        vstd::arithmetic::div_mod::lemma_div_is_ordered(
            (QUIET_ZONE as int + side) * MODULE_PX as int,
            x,
            MODULE_PX as int,
        );
        vstd::arithmetic::div_mod::lemma_fundamental_div_mod_converse(
            (QUIET_ZONE as int + side) * MODULE_PX as int,
            MODULE_PX as int,
            QUIET_ZONE as int + side,
            0,
        );
    } else if y < (QUIET_ZONE * MODULE_PX) as int {
        vstd::arithmetic::div_mod::lemma_div_is_ordered(
            y,
            (QUIET_ZONE * MODULE_PX) as int - 1,
            MODULE_PX as int,
        );
    } else {
        vstd::arithmetic::div_mod::lemma_div_is_ordered(
            (QUIET_ZONE as int + side) * MODULE_PX as int,
            y,
            MODULE_PX as int,
        );
        vstd::arithmetic::div_mod::lemma_fundamental_div_mod_converse(
            (QUIET_ZONE as int + side) * MODULE_PX as int,
            MODULE_PX as int,
            QUIET_ZONE as int + side,
            0,
        );
    }
}

/// Embed non-overlap law, first half: the caption changes no pixel of the
/// symbol area — a rendering with a caption agrees there, pixel for pixel,
/// with the captionless rendering.
pub proof fn lemma_caption_leaves_symbol_area(
    side: int,
    grid: Seq<bool>,
    color: RenderColor,
    t: Seq<u8>,
    x: int,
    y: int,
)
    requires
        0 <= y < raster_width(side),
    ensures
        spec_pixel(side, grid, color, Some(t), x, y) == spec_pixel(side, grid, color, None, x, y),
{
}

/// Embed non-overlap law, second half: every pixel of every module cell's
/// block lies in the symbol area, above the caption strip, so no caption
/// pixel shares a coordinate with a module cell.
pub proof fn lemma_module_block_in_symbol_area(side: int, r: int, c: int, dx: int, dy: int)
    requires
        1 <= side <= MAX_SIDE as int,
        0 <= r < side,
        0 <= c < side,
        0 <= dx < MODULE_PX as int,
        0 <= dy < MODULE_PX as int,
    ensures
        (QUIET_ZONE as int + r) * MODULE_PX as int + dy < raster_width(side),
        (QUIET_ZONE as int + c) * MODULE_PX as int + dx < raster_width(side),
{
}

/// The raw RGB byte stream of a pixel sequence: three bytes per pixel,
/// row-major.
pub open spec fn rgb_bytes(px: Seq<RenderColor>) -> Seq<u8>
    decreases px.len(),
{
    if px.len() == 0 {
        Seq::empty()
    } else {
        rgb_bytes(px.drop_last()) + seq![px.last().red, px.last().green, px.last().blue]
    }
}

pub proof fn lemma_rgb_bytes_len(px: Seq<RenderColor>)
    ensures
        rgb_bytes(px).len() == 3 * px.len(),
    decreases px.len(),
{
    if px.len() > 0 {
        lemma_rgb_bytes_len(px.drop_last());
    }
}

/// Flattens the image into its raw RGB byte stream.
pub fn to_rgb_bytes(img: &RasterImage) -> (r: Vec<u8>)
    ensures
        r@ == rgb_bytes(img.pixels@),
{
    let mut out: Vec<u8> = Vec::new();
    let mut i: usize = 0;
    let n = img.pixels.len();
    while i < n
        invariant
            n == img.pixels@.len(),
            i <= n,
            out@ == rgb_bytes(img.pixels@.take(i as int)),
        decreases n - i,
    {
        let p = img.pixels[i];
        out.push(p.red);
        out.push(p.green);
        out.push(p.blue);
        proof {
            let taken = img.pixels@.take(i as int + 1);
            assert(taken.drop_last() =~= img.pixels@.take(i as int));
            assert(taken.last() == img.pixels@[i as int]);
            assert(out@ =~= rgb_bytes(taken));
        }
        i = i + 1;
    }
    proof {
        assert(img.pixels@.take(n as int) =~= img.pixels@);
    }
    out
}

} // verus!
