//! The vector renderer: builds a scalable document with one rectangle per
//! dark module on a uniform grid with a quiet-zone margin, and an optional
//! caption element below the symbol; and serializes it to SVG bytes.

use vstd::prelude::*;

use crate::matrix::ModuleMatrix;
use crate::options::RenderColor;
use crate::raster::{MAX_SIDE, QUIET_ZONE};

verus! {

use vstd::string::StringSliceAdditionalSpecFns;

/// Side of one module cell, in document units.
pub const CELL_UNITS: usize = 8;

/// Height of the caption band appended below the symbol when text is
/// embedded.
pub const CAPTION_UNITS: usize = 16;

/// Baseline of the caption text within the caption band.
pub const CAPTION_BASELINE_UNITS: usize = 12;

/// Width (and symbol-area height) of the vector document, in units.
pub open spec fn vector_extent(side: int) -> int {
    (side + 2 * QUIET_ZONE as int) * CELL_UNITS as int
}

/// Total height of the vector document.
pub open spec fn vector_height(side: int, embed: bool) -> int {
    vector_extent(side) + if embed {
        CAPTION_UNITS as int
    } else {
        0
    }
}

/// An axis-aligned rectangle of the document.
#[derive(Clone, Copy, Debug, PartialEq, Eq, Structural)]
pub struct VectorRect {
    pub x: usize,
    pub y: usize,
    pub w: usize,
    pub h: usize,
}

/// The caption element: a text run anchored at (x, y).
pub struct VectorCaption {
    pub x: usize,
    pub y: usize,
    pub text: Vec<u8>,
}

/// A scalable vector document: background is implicit (white), dark modules
/// are rectangles in `color`.
pub struct VectorDocument {
    pub width: usize,
    pub height: usize,
    pub color: RenderColor,
    pub rects: Vec<VectorRect>,
    pub caption: Option<VectorCaption>,
}

/// The rectangle of the module cell at row r, column c.
pub open spec fn rect_for(r: int, c: int) -> VectorRect {
    VectorRect {
        x: ((QUIET_ZONE as int + c) * CELL_UNITS as int) as usize,
        y: ((QUIET_ZONE as int + r) * CELL_UNITS as int) as usize,
        w: CELL_UNITS,
        h: CELL_UNITS,
    }
}

/// The rectangles of the dark cells among the first n cells of the grid, in
/// row-major order.
pub open spec fn spec_rects(side: int, grid: Seq<bool>, n: int) -> Seq<VectorRect>
    decreases n,
{
    if n <= 0 || side <= 0 {
        Seq::empty()
    } else {
        let i = n - 1;
        spec_rects(side, grid, i) + if grid[i] {
            seq![rect_for(i / side, i % side)]
        } else {
            Seq::empty()
        }
    }
}

/// What it means for a document to be the vector rendering of a grid: the
/// canvas dimensions, the module color, the dark-cell rectangles, and the
/// caption element are all pinned.
pub open spec fn is_vector_render(
    doc: VectorDocument,
    side: int,
    grid: Seq<bool>,
    color: RenderColor,
    cap: Option<Seq<u8>>,
) -> bool {
    &&& doc.width as int == vector_extent(side)
    &&& doc.height as int == vector_height(side, cap is Some)
    &&& doc.color == color
    &&& doc.rects@ == spec_rects(side, grid, side * side)
    &&& (doc.caption is Some <==> cap is Some)
    &&& (doc.caption matches Some(cp) ==> (cap matches Some(t) && cp.text@ == t && cp.x as int
        == (QUIET_ZONE * CELL_UNITS) as int && cp.y as int == vector_extent(side)
        + CAPTION_BASELINE_UNITS as int))
}

/// Builds the vector document of a matrix: one rectangle per dark cell on a
/// uniform grid with a QUIET_ZONE-module margin, and, when a caption is
/// given, a text element anchored below the symbol area.
pub fn build_vector(m: &ModuleMatrix, color: RenderColor, caption: Option<&Vec<u8>>) -> (doc:
    VectorDocument)
    requires
        m.wf(),
        1 <= m.spec_side() <= MAX_SIDE as int,
    ensures
        is_vector_render(
            doc,
            m.spec_side(),
            m.grid(),
            color,
            crate::raster::spec_caption(caption),
        ),
        doc.width as int == vector_extent(m.spec_side()),
        doc.height as int == vector_height(m.spec_side(), caption is Some),
        doc.color == color,
        doc.rects@ == spec_rects(m.spec_side(), m.grid(), m.spec_side() * m.spec_side()),
        doc.caption is Some <==> caption is Some,
        doc.caption matches Some(cp) ==> caption matches Some(t) && cp.text@ == t@ && cp.x as int
            == (QUIET_ZONE * CELL_UNITS) as int && cp.y as int == vector_extent(m.spec_side())
            + CAPTION_BASELINE_UNITS as int,
{
    let side = m.side();
    let extent = (side + 2 * QUIET_ZONE) * CELL_UNITS;
    let height = if caption.is_some() {
        extent + CAPTION_UNITS
    } else {
        extent
    };
    let mut rects: Vec<VectorRect> = Vec::new();
    let mut r: usize = 0;
    while r < side
        invariant
            m.wf(),
            1 <= m.spec_side() <= MAX_SIDE as int,
            side as int == m.spec_side(),
            r <= side,
            rects@ == spec_rects(m.spec_side(), m.grid(), r as int * side as int),
        decreases side - r,
    {
        let mut c: usize = 0;
        proof {
            vstd::arithmetic::mul::lemma_mul_inequality(
                r as int + 1,
                side as int,
                side as int,
            );
            vstd::arithmetic::mul::lemma_mul_is_distributive_add_other_way(
                side as int,
                r as int,
                1,
            );
        }
        while c < side
            invariant
                m.wf(),
                1 <= m.spec_side() <= MAX_SIDE as int,
                side as int == m.spec_side(),
                r < side,
                c <= side,
                r as int * side as int + side as int <= side as int * side as int,
                rects@ == spec_rects(m.spec_side(), m.grid(), r as int * side as int + c as int),
            decreases side - c,
        {
            let dark = m.get(r, c);
            proof {
                vstd::arithmetic::div_mod::lemma_fundamental_div_mod_converse(
                    r as int * side as int + c as int,
                    side as int,
                    r as int,
                    c as int,
                );
            }
            if dark {
                rects.push(
                    VectorRect {
                        x: (QUIET_ZONE + c) * CELL_UNITS,
                        y: (QUIET_ZONE + r) * CELL_UNITS,
                        w: CELL_UNITS,
                        h: CELL_UNITS,
                    },
                );
                proof {
                    assert(rects@ =~= spec_rects(
                        m.spec_side(),
                        m.grid(),
                        r as int * side as int + c as int + 1,
                    ));
                }
            } else {
                proof {
                    assert(rects@ =~= spec_rects(
                        m.spec_side(),
                        m.grid(),
                        r as int * side as int + c as int + 1,
                    ));
                }
            }
            c = c + 1;
        }
        proof {
            vstd::arithmetic::mul::lemma_mul_is_distributive_add_other_way(
                side as int,
                r as int,
                1,
            );
        }
        r = r + 1;
    }
    let cap = match caption {
        Some(t) => {
            let mut text: Vec<u8> = Vec::new();
            let mut i: usize = 0;
            while i < t.len()
                invariant
                    i <= t@.len(),
                    text@ == t@.take(i as int),
                decreases t@.len() - i,
            {
                text.push(t[i]);
                proof {
                    assert(text@ =~= t@.take(i as int + 1));
                }
                i = i + 1;
            }
            proof {
                assert(t@.take(t@.len() as int) =~= t@);
            }
            Some(VectorCaption { x: QUIET_ZONE * CELL_UNITS, y: extent + CAPTION_BASELINE_UNITS, text })
        },
        None => None,
    };
    VectorDocument { width: extent, height, color, rects, caption: cap }
}

/// Quiet-zone law (vector): every rectangle of the document lies inside the
/// symbol block — at least QUIET_ZONE modules away from every document edge —
/// and corresponds to a dark cell of the grid.
pub proof fn lemma_rects_within_symbol(side: int, grid: Seq<bool>, n: int, k: int)
    requires
        grid.len() == side * side,
        1 <= side <= MAX_SIDE as int,
        0 <= n <= side * side,
        0 <= k < spec_rects(side, grid, n).len(),
    ensures
        (QUIET_ZONE * CELL_UNITS) as int <= spec_rects(side, grid, n)[k].x,
        spec_rects(side, grid, n)[k].x + spec_rects(side, grid, n)[k].w <= (QUIET_ZONE as int
            + side) * CELL_UNITS as int,
        (QUIET_ZONE * CELL_UNITS) as int <= spec_rects(side, grid, n)[k].y,
        spec_rects(side, grid, n)[k].y + spec_rects(side, grid, n)[k].h <= (QUIET_ZONE as int
            + side) * CELL_UNITS as int,
        spec_rects(side, grid, n)[k].y + spec_rects(side, grid, n)[k].h < vector_extent(side),
    decreases n,
{
    let rs = spec_rects(side, grid, n);
    let prev = spec_rects(side, grid, n - 1);
    if k < prev.len() {
        lemma_rects_within_symbol(side, grid, n - 1, k);
        assert(rs[k] == prev[k]);
    } else {
        let i = n - 1;
        let r = i / side;
        let c = i % side;
        vstd::arithmetic::div_mod::lemma_mod_bound(i, side);
        vstd::arithmetic::div_mod::lemma_div_is_ordered(i, side * side - 1, side);
        vstd::arithmetic::mul::lemma_mul_is_distributive_add_other_way(side, side - 1, 1);
        vstd::arithmetic::div_mod::lemma_fundamental_div_mod_converse(
            side * side - 1,
            side,
            side - 1,
            side - 1,
        );
        assert(rs[k] == rect_for(r, c));
        vstd::arithmetic::mul::lemma_mul_inequality(QUIET_ZONE as int + c + 1, QUIET_ZONE as int
            + side, CELL_UNITS as int);
        vstd::arithmetic::mul::lemma_mul_inequality(QUIET_ZONE as int + r + 1, QUIET_ZONE as int
            + side, CELL_UNITS as int);
        vstd::arithmetic::mul::lemma_mul_inequality(QUIET_ZONE as int + side, side + 2
            * QUIET_ZONE as int, CELL_UNITS as int);
    }
}

/// Embed non-overlap law (vector): the caption element of a built document is
/// anchored strictly below every module rectangle.
pub proof fn lemma_caption_below_rects(side: int, grid: Seq<bool>, n: int, k: int, cap_y: int)
    requires
        grid.len() == side * side,
        1 <= side <= MAX_SIDE as int,
        0 <= n <= side * side,
        0 <= k < spec_rects(side, grid, n).len(),
        cap_y >= vector_extent(side),
    ensures
        spec_rects(side, grid, n)[k].y + spec_rects(side, grid, n)[k].h < cap_y,
{
    lemma_rects_within_symbol(side, grid, n, k);
}

/// Decimal digits of n, most significant first.
pub open spec fn dec_bytes(n: nat) -> Seq<u8>
    decreases n,
{
    if n < 10 {
        seq![(48 + n) as u8]
    } else {
        dec_bytes(n / 10) + seq![(48 + n % 10) as u8]
    }
}

/// Appends the decimal form of n.
pub fn push_dec(out: &mut Vec<u8>, n: usize)
    ensures
        final(out)@ == old(out)@ + dec_bytes(n as nat),
    decreases n,
{
    if n < 10 {
        out.push(48 + n as u8);
        proof {
            assert(out@ =~= old(out)@ + dec_bytes(n as nat));
        }
    } else {
        push_dec(out, n / 10);
        out.push(48 + (n % 10) as u8);
        proof {
            assert((n / 10) as nat == n as nat / 10);
            assert((n % 10) as nat == n as nat % 10);
            assert(out@ =~= old(out)@ + dec_bytes(n as nat));
        }
    }
}

/// Appends the bytes of an ASCII literal.
pub fn push_lit(out: &mut Vec<u8>, s: &str)
    ensures
        final(out)@ == old(out)@ + s.spec_bytes(),
{
    let b = s.as_bytes();
    let n = b.len();
    let mut i: usize = 0;
    while i < n
        invariant
            n == b@.len(),
            b@ == s.spec_bytes(),
            i <= n,
            out@ == old(out)@ + b@.take(i as int),
        decreases n - i,
    {
        out.push(b[i]);
        proof {
            assert(out@ =~= old(out)@ + b@.take(i as int + 1));
        }
        i = i + 1;
    }
    proof {
        assert(b@.take(n as int) =~= b@);
    }
}

/// Appends the bytes of another vector.
pub fn push_bytes(out: &mut Vec<u8>, b: &Vec<u8>)
    ensures
        final(out)@ == old(out)@ + b@,
{
    let n = b.len();
    let mut i: usize = 0;
    while i < n
        invariant
            n == b@.len(),
            i <= n,
            out@ == old(out)@ + b@.take(i as int),
        decreases n - i,
    {
        out.push(b[i]);
        proof {
            assert(out@ =~= old(out)@ + b@.take(i as int + 1));
        }
        i = i + 1;
    }
    proof {
        assert(b@.take(n as int) =~= b@);
    }
}

/// The XML escape of one byte: the five markup bytes become entities, every
/// other byte stands for itself.
pub open spec fn esc_byte(b: u8) -> Seq<u8> {
    if b == 38 {
        "&amp;".spec_bytes()
    } else if b == 60 {
        "&lt;".spec_bytes()
    } else if b == 62 {
        "&gt;".spec_bytes()
    } else if b == 34 {
        "&quot;".spec_bytes()
    } else {
        seq![b]
    }
}

/// The XML escape of a byte sequence.
pub open spec fn escaped(s: Seq<u8>) -> Seq<u8>
    decreases s.len(),
{
    if s.len() == 0 {
        Seq::empty()
    } else {
        escaped(s.drop_last()) + esc_byte(s.last())
    }
}

/// Appends the XML escape of the caption bytes.
pub fn push_escaped(out: &mut Vec<u8>, t: &Vec<u8>)
    ensures
        final(out)@ == old(out)@ + escaped(t@),
{
    let n = t.len();
    let mut i: usize = 0;
    while i < n
        invariant
            n == t@.len(),
            i <= n,
            out@ == old(out)@ + escaped(t@.take(i as int)),
        decreases n - i,
    {
        let b = t[i];
        if b == 38 {
            push_lit(out, "&amp;");
        } else if b == 60 {
            push_lit(out, "&lt;");
        } else if b == 62 {
            push_lit(out, "&gt;");
        } else if b == 34 {
            push_lit(out, "&quot;");
        } else {
            out.push(b);
        }
        proof {
            let taken = t@.take(i as int + 1);
            assert(taken.drop_last() =~= t@.take(i as int));
            assert(taken.last() == t@[i as int]);
            assert(out@ =~= old(out)@ + escaped(taken));
        }
        i = i + 1;
    }
    proof {
        assert(t@.take(n as int) =~= t@);
    }
}

/// The lowercase hexadecimal digit of a value below 16.
pub open spec fn hex_digit(n: int) -> u8 {
    if n < 10 {
        (48 + n) as u8
    } else {
        (87 + n) as u8
    }
}

/// Lowercase hexadecimal of a byte sequence, two digits per byte, in order.
pub open spec fn hex_bytes(s: Seq<u8>) -> Seq<u8>
    decreases s.len(),
{
    if s.len() == 0 {
        Seq::empty()
    } else {
        hex_bytes(s.drop_last()) + seq![
            hex_digit(s.last() as int / 16),
            hex_digit(s.last() as int % 16),
        ]
    }
}

/// Relies on `hex::encode`: lowercase hexadecimal, two digits per byte, in
/// input order.
#[verifier::external_body]
fn hex_lower(b: &Vec<u8>) -> (r: Vec<u8>)
    ensures
        r@ == hex_bytes(b@),
{
    hex::encode(b).into_bytes()
}

/// The hex form of a module color, as used in fill attributes.
pub open spec fn color_hex(c: RenderColor) -> Seq<u8> {
    hex_bytes(seq![c.red, c.green, c.blue])
}

/// The SVG opening: root element and white background rectangle.
pub open spec fn svg_header(w: nat, h: nat) -> Seq<u8> {
    "<svg xmlns=\"http://www.w3.org/2000/svg\" width=\"".spec_bytes() + dec_bytes(w)
        + "\" height=\"".spec_bytes() + dec_bytes(h) + "\"><rect width=\"".spec_bytes()
        + dec_bytes(w) + "\" height=\"".spec_bytes() + dec_bytes(h)
        + "\" fill=\"#ffffff\"/>".spec_bytes()
}

/// The SVG form of one module rectangle.
pub open spec fn rect_bytes(rc: VectorRect, fill: Seq<u8>) -> Seq<u8> {
    "<rect x=\"".spec_bytes() + dec_bytes(rc.x as nat) + "\" y=\"".spec_bytes() + dec_bytes(
        rc.y as nat,
    ) + "\" width=\"".spec_bytes() + dec_bytes(rc.w as nat) + "\" height=\"".spec_bytes()
        + dec_bytes(rc.h as nat) + "\" fill=\"#".spec_bytes() + fill + "\"/>".spec_bytes()
}

/// The SVG form of a rectangle sequence, in order.
pub open spec fn rects_bytes(rs: Seq<VectorRect>, fill: Seq<u8>) -> Seq<u8>
    decreases rs.len(),
{
    if rs.len() == 0 {
        Seq::empty()
    } else {
        rects_bytes(rs.drop_last(), fill) + rect_bytes(rs.last(), fill)
    }
}

/// The SVG form of the caption element, if any.
pub open spec fn caption_bytes(x: nat, y: nat, text: Seq<u8>) -> Seq<u8> {
    "<text x=\"".spec_bytes() + dec_bytes(x) + "\" y=\"".spec_bytes() + dec_bytes(y)
        + "\" font-size=\"10\" font-family=\"monospace\">".spec_bytes() + escaped(text)
        + "</text>".spec_bytes()
}

/// The full SVG byte stream of a document.
pub open spec fn svg_bytes(doc: VectorDocument) -> Seq<u8> {
    svg_header(doc.width as nat, doc.height as nat) + rects_bytes(doc.rects@, color_hex(doc.color))
        + (match doc.caption {
        Some(cp) => caption_bytes(cp.x as nat, cp.y as nat, cp.text@),
        None => Seq::empty(),
    }) + "</svg>".spec_bytes()
}

/// Appends the SVG opening: root element and white background rectangle.
fn push_header(out: &mut Vec<u8>, w: usize, h: usize)
    ensures
        final(out)@ == old(out)@ + svg_header(w as nat, h as nat),
{
    push_lit(out, "<svg xmlns=\"http://www.w3.org/2000/svg\" width=\"");
    push_dec(out, w);
    push_lit(out, "\" height=\"");
    push_dec(out, h);
    push_lit(out, "\"><rect width=\"");
    push_dec(out, w);
    push_lit(out, "\" height=\"");
    push_dec(out, h);
    push_lit(out, "\" fill=\"#ffffff\"/>");
    proof {
        assert(out@ =~= old(out)@ + svg_header(w as nat, h as nat));
    }
}

/// Appends the SVG form of one module rectangle.
fn push_rect(out: &mut Vec<u8>, rc: &VectorRect, fill: &Vec<u8>)
    ensures
        final(out)@ == old(out)@ + rect_bytes(*rc, fill@),
{
    push_lit(out, "<rect x=\"");
    push_dec(out, rc.x);
    push_lit(out, "\" y=\"");
    push_dec(out, rc.y);
    push_lit(out, "\" width=\"");
    push_dec(out, rc.w);
    push_lit(out, "\" height=\"");
    push_dec(out, rc.h);
    push_lit(out, "\" fill=\"#");
    push_bytes(out, fill);
    push_lit(out, "\"/>");
    proof {
        assert(out@ =~= old(out)@ + rect_bytes(*rc, fill@));
    }
}

/// Appends the SVG form of the caption element.
fn push_caption(out: &mut Vec<u8>, cp: &VectorCaption)
    ensures
        final(out)@ == old(out)@ + caption_bytes(cp.x as nat, cp.y as nat, cp.text@),
{
    push_lit(out, "<text x=\"");
    push_dec(out, cp.x);
    push_lit(out, "\" y=\"");
    push_dec(out, cp.y);
    push_lit(out, "\" font-size=\"10\" font-family=\"monospace\">");
    push_escaped(out, &cp.text);
    push_lit(out, "</text>");
    proof {
        assert(out@ =~= old(out)@ + caption_bytes(cp.x as nat, cp.y as nat, cp.text@));
    }
}

/// Serializes a vector document to its SVG byte stream.
pub fn serialize_vector(doc: &VectorDocument) -> (r: Vec<u8>)
    ensures
        r@ == svg_bytes(*doc),
{
    let mut out: Vec<u8> = Vec::new();
    push_header(&mut out, doc.width, doc.height);
    proof {
        assert(out@ =~= svg_header(doc.width as nat, doc.height as nat));
    }
    let mut rgb: Vec<u8> = Vec::new();
    rgb.push(doc.color.red);
    rgb.push(doc.color.green);
    rgb.push(doc.color.blue);
    proof {
        assert(rgb@ =~= seq![doc.color.red, doc.color.green, doc.color.blue]);
    }
    let fill = hex_lower(&rgb);
    let ghost header = svg_header(doc.width as nat, doc.height as nat);
    let n = doc.rects.len();
    let mut i: usize = 0;
    while i < n
        invariant
            n == doc.rects@.len(),
            i <= n,
            fill@ == color_hex(doc.color),
            out@ == header + rects_bytes(doc.rects@.take(i as int), fill@),
        decreases n - i,
    {
        let rc = doc.rects[i];
        push_rect(&mut out, &rc, &fill);
        proof {
            let taken = doc.rects@.take(i as int + 1);
            assert(taken.drop_last() =~= doc.rects@.take(i as int));
            assert(taken.last() == doc.rects@[i as int]);
            assert(out@ =~= header + rects_bytes(taken, fill@));
        }
        i = i + 1;
    }
    proof {
        assert(doc.rects@.take(n as int) =~= doc.rects@);
    }
    match &doc.caption {
        Some(cp) => {
            push_caption(&mut out, cp);
        },
        None => {},
    }
    push_lit(&mut out, "</svg>");
    proof {
        assert(out@ =~= svg_bytes(*doc));
    }
    out
}

} // verus!
