//! The output dispatcher: resolves the output format from the destination
//! path's extension, drives the renderer, and serializes the rendered
//! artifact to bytes (SVG text for the vector form, a PNG stream for the
//! raster form). Writing the bytes to disk is left to the caller.

use vstd::prelude::*;

use crate::engine::{
    engine_grid, engine_ok, engine_side, spec_failure, EncodingFailure, QRCode,
};
use crate::matrix::ModuleMatrix;
use crate::options::{QRCodeOptions, RenderColor};
use crate::raster::{
    lemma_rgb_bytes_len, raster_height, raster_pixels, raster_width, render_raster, rgb_bytes,
    spec_caption, to_rgb_bytes, RasterImage, MAX_SIDE, QUIET_ZONE,
};
use crate::vector::{
    build_vector, caption_bytes, color_hex, is_vector_render, rects_bytes, serialize_vector,
    spec_rects, svg_bytes, svg_header, vector_extent, vector_height, VectorDocument,
    CAPTION_BASELINE_UNITS, CELL_UNITS,
};

verus! {

use vstd::string::StringSliceAdditionalSpecFns;

/// The two artifact forms the renderer can produce.
#[derive(Clone, Copy, Debug, PartialEq, Eq, Structural)]
pub enum OutputFormat {
    Vector,
    Raster,
}

/// ASCII lowercase of one byte.
pub open spec fn ascii_lower(b: u8) -> u8 {
    if 65 <= b && b <= 90 {
        (b + 32) as u8
    } else {
        b
    }
}

/// Format selection: a path ending in ".svg" (ASCII case-insensitive) selects
/// the vector renderer; every other path selects the raster renderer.
pub open spec fn spec_format_for_path(p: Seq<u8>) -> OutputFormat {
    if p.len() >= 4 && p[p.len() - 4] == 46 && ascii_lower(p[p.len() - 3]) == 115 && ascii_lower(
        p[p.len() - 2],
    ) == 118 && ascii_lower(p[p.len() - 1]) == 103 {
        OutputFormat::Vector
    } else {
        OutputFormat::Raster
    }
}

fn lower_byte(b: u8) -> (r: u8)
    ensures
        r == ascii_lower(b),
{
    if 65 <= b && b <= 90 {
        b + 32
    } else {
        b
    }
}

/// Resolves the output format from the destination path, before rendering
/// begins. An unrecognized extension is not a failure: it selects the raster
/// form.
pub fn format_for_path(path: &str) -> (f: OutputFormat)
    ensures
        f == spec_format_for_path(path.spec_bytes()),
{
    let b = path.as_bytes();
    let n = b.len();
    if n >= 4 && b[n - 4] == 46 && lower_byte(b[n - 3]) == 115 && lower_byte(b[n - 2]) == 118
        && lower_byte(b[n - 1]) == 103 {
        OutputFormat::Vector
    } else {
        OutputFormat::Raster
    }
}

/// A rendered artifact: a scalable vector document or a raster image.
pub enum RenderedArtifact {
    Vector(VectorDocument),
    Raster(RasterImage),
}

/// How the output layer can fail.
#[derive(Clone, Copy, Debug, PartialEq, Eq, Structural)]
pub enum IOFailure {
    /// The destination cannot be written (reported by the I/O layer).
    PathUnwritable,
    /// The artifact could not be encoded to the target byte format.
    SerializationFailure,
}

/// What the PNG encoder produces for the given raw RGB bytes and dimensions.
pub uninterp spec fn png_bytes(raw: Seq<u8>, width: int, height: int) -> Seq<u8>;

/// Relies on `image::codecs::png::PngEncoder` through
/// `image::ImageEncoder::write_image` with `ExtendedColorType::Rgb8`: the
/// encoded stream is a function of the raw bytes and the dimensions alone
/// (fixed default compression, no time or randomness). `write_image` panics
/// when `buf.len() != width * height * 3`; the `requires` excludes that. A
/// write error surfaces as `None`.
#[verifier::external_body]
fn png_encode_rgb(raw: &Vec<u8>, width: u32, height: u32) -> (r: Option<Vec<u8>>)
    requires
        raw@.len() == width as int * height as int * 3,
    ensures
        r matches Some(b) ==> b@ == png_bytes(raw@, width as int, height as int),
{
    let mut out: Vec<u8> = Vec::new();
    let enc = image::codecs::png::PngEncoder::new(&mut out);
    match image::ImageEncoder::write_image(
        enc,
        raw.as_slice(),
        width,
        height,
        image::ExtendedColorType::Rgb8,
    ) {
        Ok(()) => Some(out),
        Err(_) => None,
    }
}

/// Renders a matrix into the artifact of the chosen format; the format
/// decision is made before this call and is simply followed here.
pub fn render(
    m: &ModuleMatrix,
    color: RenderColor,
    caption: Option<&Vec<u8>>,
    format: OutputFormat,
) -> (a: RenderedArtifact)
    requires
        m.wf(),
        1 <= m.spec_side() <= MAX_SIDE as int,
    ensures
        a is Vector <==> format == OutputFormat::Vector,
        a matches RenderedArtifact::Vector(doc) ==> is_vector_render(
            doc,
            m.spec_side(),
            m.grid(),
            color,
            spec_caption(caption),
        ),
        a matches RenderedArtifact::Raster(img) ==> img.wf() && img.width as int == raster_width(
            m.spec_side(),
        ) && img.height as int == raster_height(m.spec_side(), caption is Some) && img.pixels@
            == raster_pixels(m.spec_side(), m.grid(), color, spec_caption(caption)),
{
    match format {
        OutputFormat::Vector => RenderedArtifact::Vector(build_vector(m, color, caption)),
        OutputFormat::Raster => RenderedArtifact::Raster(render_raster(m, color, caption)),
    }
}

/// Well-formedness of an artifact handed to serialization: raster dimensions
/// must be consistent and small enough for the PNG encoder's u32 interface.
pub open spec fn artifact_wf(a: RenderedArtifact) -> bool {
    match a {
        RenderedArtifact::Vector(_) => true,
        RenderedArtifact::Raster(img) => img.wf() && img.width as int <= 0xFFFF_FFFF
            && img.height as int <= 0xFFFF_FFFF && img.width as int * img.height as int * 3
            <= usize::MAX as int,
    }
}

/// Serializes a rendered artifact to its byte form: SVG text for the vector
/// form, a PNG stream for the raster form. Only the PNG encoder can refuse,
/// and that surfaces as `SerializationFailure`.
pub fn serialize_artifact(a: &RenderedArtifact) -> (r: Result<Vec<u8>, IOFailure>)
    requires
        artifact_wf(*a),
    ensures
        *a matches RenderedArtifact::Vector(doc) ==> r matches Ok(b) && b@ == svg_bytes(doc),
        *a matches RenderedArtifact::Raster(img) ==> ((r matches Ok(b) ==> b@ == png_bytes(
            rgb_bytes(img.pixels@),
            img.width as int,
            img.height as int,
        )) && (r matches Err(e) ==> e == IOFailure::SerializationFailure)),
{
    match a {
        RenderedArtifact::Vector(doc) => Ok(serialize_vector(doc)),
        RenderedArtifact::Raster(img) => {
            let raw = to_rgb_bytes(img);
            proof {
                lemma_rgb_bytes_len(img.pixels@);
            }
            match png_encode_rgb(&raw, img.width as u32, img.height as u32) {
                Some(b) => Ok(b),
                None => Err(IOFailure::SerializationFailure),
            }
        },
    }
}

/// How the encode-render-serialize pipeline can fail.
#[derive(Clone, Copy, Debug, PartialEq, Eq, Structural)]
pub enum PipelineFailure {
    /// The engine rejected the payload at the configured level.
    Encoding(EncodingFailure),
    /// The artifact could not be encoded to the target byte format.
    Serialization,
}

/// The SVG byte stream of the vector rendering of a grid.
pub open spec fn svg_for(
    side: int,
    grid: Seq<bool>,
    color: RenderColor,
    cap: Option<Seq<u8>>,
) -> Seq<u8> {
    svg_header(vector_extent(side) as nat, vector_height(side, cap is Some) as nat) + rects_bytes(
        spec_rects(side, grid, side * side),
        color_hex(color),
    ) + (match cap {
        Some(t) => caption_bytes(
            (QUIET_ZONE * CELL_UNITS) as nat,
            (vector_extent(side) + CAPTION_BASELINE_UNITS as int) as nat,
            t,
        ),
        None => Seq::empty(),
    }) + "</svg>".spec_bytes()
}

/// The SVG stream of a document is determined by what the document renders:
/// a document that is the vector rendering of a grid serializes to exactly
/// the SVG stream of that grid.
pub proof fn lemma_svg_of_render(
    doc: VectorDocument,
    side: int,
    grid: Seq<bool>,
    color: RenderColor,
    cap: Option<Seq<u8>>,
)
    requires
        is_vector_render(doc, side, grid, color, cap),
    ensures
        svg_bytes(doc) == svg_for(side, grid, color, cap),
{
    assert(doc.width as nat == vector_extent(side) as nat);
    assert(doc.height as nat == vector_height(side, cap is Some) as nat);
    match doc.caption {
        Some(cp) => {
            assert(cp.x as nat == (QUIET_ZONE * CELL_UNITS) as nat);
            assert(cp.y as nat == (vector_extent(side) + CAPTION_BASELINE_UNITS as int) as nat);
            assert(cp.text@ == cap->0);
        },
        None => {
            assert(cap is None);
        },
    }
}

/// Runs the pipeline on one payload: encode at the configured level, render
/// with the configured color (the payload doubles as the caption when
/// `embed` is set), and serialize for the chosen format. The outcome is a
/// function of the configuration, the payload, and the format alone.
#[verifier::rlimit(100)]
pub fn produce(opts: &QRCodeOptions, data: &[u8], format: OutputFormat) -> (r: Result<
    Vec<u8>,
    PipelineFailure,
>)
    ensures
        ({
            let rk = opts.ec_level.rank();
            let cap: Option<Seq<u8>> = if opts.embed {
                Some(data@)
            } else {
                None
            };
            let side = engine_side(data@, rk);
            let grid = engine_grid(data@, rk);
            &&& (!engine_ok(data@, rk) ==> r == Err::<Vec<u8>, PipelineFailure>(
                PipelineFailure::Encoding(spec_failure(data@, rk)),
            ))
            &&& (engine_ok(data@, rk) && format == OutputFormat::Vector ==> (r matches Ok(b) && b@
                == svg_for(side, grid, opts.color, cap)))
            &&& (engine_ok(data@, rk) && format == OutputFormat::Raster ==> ((r matches Ok(b)
                ==> b@ == png_bytes(
                rgb_bytes(raster_pixels(side, grid, opts.color, cap)),
                raster_width(side),
                raster_height(side, cap is Some),
            )) && (r matches Err(e) ==> e == PipelineFailure::Serialization)))
        }),
{
    let qr = QRCode::new(opts);
    match qr.encode(data) {
        Err(f) => Err(PipelineFailure::Encoding(f)),
        Ok(m) => {
            let cap_vec: Option<Vec<u8>> = if opts.embed {
                Some(vstd::slice::slice_to_vec(data))
            } else {
                None
            };
            let caption: Option<&Vec<u8>> = match &cap_vec {
                Some(v) => Some(v),
                None => None,
            };
            let artifact = render(&m, opts.color, caption, format);
            proof {
                if artifact is Vector {
                    let doc = artifact->Vector_0;
                    lemma_svg_of_render(
                        doc,
                        m.spec_side(),
                        m.grid(),
                        opts.color,
                        spec_caption(caption),
                    );
                } else {
                    let img = artifact->Raster_0;
                    assert(img.width as int <= 1480);
                    assert(img.height as int <= 1496);
                    vstd::arithmetic::mul::lemma_mul_inequality(
                        img.width as int,
                        1480,
                        img.height as int,
                    );
                    vstd::arithmetic::mul::lemma_mul_inequality(img.height as int, 1496, 1480);
                    assert(img.width as int * img.height as int <= 1480 * 1496);
                }
            }
            match serialize_artifact(&artifact) {
                Ok(b) => Ok(b),
                Err(_) => Err(PipelineFailure::Serialization),
            }
        },
    }
}

} // verus!
