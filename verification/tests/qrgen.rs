use qrgen::dispatch::{
    format_for_path, produce, serialize_artifact, OutputFormat, PipelineFailure, RenderedArtifact,
};
use qrgen::engine::{
    encode_deterministic, encode_level_monotone, EncodingFailure, QRCode,
};
use qrgen::matrix::{Module, ModuleMatrix};
use qrgen::options::{parse_color, ECLevel, ParseError, QRCodeOptions, RenderColor};
use qrgen::raster::render_raster;
use qrgen::vector::{build_vector, serialize_vector, VectorRect};

fn black() -> RenderColor {
    RenderColor { red: 0, green: 0, blue: 0 }
}

fn options_at(level: ECLevel) -> QRCodeOptions {
    QRCodeOptions { ec_level: level, color: black(), embed: false }
}

#[test]
fn test_default_options() {
    let default_options = QRCode::default_options();
    assert_eq!(
        default_options,
        QRCodeOptions { ec_level: ECLevel::M, color: black(), embed: false }
    );
}

#[test]
fn test_default_ctor() {
    let code = QRCode::default();
    assert_eq!(code.opts, QRCode::default_options());
}

fn compact_form(qr: &QRCode, message: &str) -> String {
    let encoded = qr.try_encode_to_vec(message.as_bytes()).unwrap();
    encoded.iter().fold(String::new(), |acc, x| {
        let v = match x {
            Module::Dark => "0",
            Module::Light => "1",
        };
        acc + v
    })
}

#[test]
fn test_encode_to_vec_0() {
    let qr = QRCode::new(&options_at(ECLevel::L));
    assert_eq!(
        compact_form(&qr, "test"),
        "000000011011010000000011111010110110111110010001011011110100010010001010110110100010010001011100010100010011111010001010111110000000010101010000000111111111100011111111000001000011001010101011000101101011010010111001010000101100001100101110011111000011100101011000101100101111111110000000111000000000010011010010101011111011010000110011010001010101011010101010001010101011010011010001010100101101011011111010101111001011000000010100101101001"
    );
}

#[test]
fn test_encode_to_vec_1() {
    let qr = QRCode::new(&options_at(ECLevel::M));
    assert_eq!(
        compact_form(&qr, "test2"),
        "000000011010110000000011111011010010111110010001010010110100010010001010000110100010010001010111010100010011111010000110111110000000010101010000000111111110111111111111010000011100110000011000101111010000110010010010010001010010001101100100010000110011111001000011011010101111111110001011011000000000011000101100101011111010101111000001010001010100101100101010001010000000010011010001010111010011011011111011100000001011000000010011011010101"
    );
}

#[test]
fn test_encode_to_vec_3() {
    let qr = QRCode::new(&options_at(ECLevel::Q));
    assert_eq!(
        compact_form(&qr, "test3"),
        "000000010101010000000011111010100110111110010001010001010100010010001010000110100010010001010101010100010011111011110110111110000000010101010000000111111110000011111111100101001011010100000111001110110110111100101110001110011100000000000110001110111101101010011110010100100111111110011101010110000000010000100010100011111011011001001111010001010110000010100010001011101110011101010001010101011101010011111010001110100101000000011101010100100"
    );
}

#[test]
fn test_encode_to_vec_4() {
    let qr = QRCode::new(&options_at(ECLevel::H));
    assert_eq!(
        compact_form(&qr, "test4"),
        "000000011010010000000011111011011110111110010001010110010100010010001010110010100010010001011001110100010011111011101110111110000000010101010000000111111111110011111111111001001010111110011011001111100001000011011001010111100011000101111100001111001011101100010110111001110111111110001100111011000000010100100110111011111011001011110000010001010110110101100010001010001000101011010001011010110000000011111011001111111000000000011110001100111"
    );
}

#[test]
fn encode_is_deterministic() {
    let qr = QRCode::default();
    let (first, second) = encode_deterministic(&qr, "test".as_bytes());
    let a = first.unwrap();
    let b = second.unwrap();
    assert_eq!(a.side(), b.side());
    assert_eq!(a.to_cells(), b.to_cells());
}

#[test]
fn encode_level_is_monotone() {
    let data = vec![65u8; 2000];
    let (at_lo, at_hi) = encode_level_monotone(&data, ECLevel::L, ECLevel::H);
    assert!(at_lo.is_ok());
    assert!(at_hi.is_err());
    let levels = [ECLevel::L, ECLevel::M, ECLevel::Q, ECLevel::H];
    for i in 0..levels.len() {
        for j in i..levels.len() {
            let (lo, hi) = encode_level_monotone(&data, levels[i], levels[j]);
            if hi.is_ok() {
                assert!(lo.is_ok());
            }
        }
    }
}

#[test]
fn payload_too_large_at_high_level() {
    let data = vec![65u8; 2000];
    let lo = QRCode::new(&options_at(ECLevel::L));
    assert!(lo.encode(&data).is_ok());
    let hi = QRCode::new(&options_at(ECLevel::H));
    assert_eq!(hi.encode(&data).unwrap_err(), EncodingFailure::PayloadTooLarge);
}

#[test]
fn empty_payload_encodes_to_minimum_matrix() {
    for level in [ECLevel::L, ECLevel::M, ECLevel::Q, ECLevel::H] {
        let qr = QRCode::new(&options_at(level));
        let m = qr.encode(&[]).unwrap();
        assert_eq!(m.side(), 21);
    }
}

#[test]
fn parse_level_accepts_canonical_tokens() {
    assert_eq!(ECLevel::from_token("L"), Ok(ECLevel::L));
    assert_eq!(ECLevel::from_token("M"), Ok(ECLevel::M));
    assert_eq!(ECLevel::from_token("Q"), Ok(ECLevel::Q));
    assert_eq!(ECLevel::from_token("H"), Ok(ECLevel::H));
}

#[test]
fn parse_level_rejects_other_tokens() {
    assert_eq!(ECLevel::from_token("X"), Err(ParseError::InvalidLevel));
    assert_eq!(ECLevel::from_token("l"), Err(ParseError::InvalidLevel));
    assert_eq!(ECLevel::from_token("LM"), Err(ParseError::InvalidLevel));
    assert_eq!(ECLevel::from_token(""), Err(ParseError::InvalidLevel));
}

#[test]
fn level_tokens_round_trip() {
    for level in [ECLevel::L, ECLevel::M, ECLevel::Q, ECLevel::H] {
        let token = level.token();
        assert_eq!(ECLevel::from_token(&token), Ok(level));
    }
}

#[test]
fn parse_color_accepts_keywords_and_hex() {
    assert_eq!(parse_color("red"), Ok(RenderColor { red: 255, green: 0, blue: 0 }));
    assert_eq!(parse_color("#ff0000"), Ok(RenderColor { red: 255, green: 0, blue: 0 }));
    assert_eq!(parse_color("#0a141e"), Ok(RenderColor { red: 10, green: 20, blue: 30 }));
}

#[test]
fn parse_color_rejects_unknown_tokens() {
    assert_eq!(parse_color("not-a-color"), Err(ParseError::InvalidColor));
}

#[test]
fn format_follows_extension() {
    assert_eq!(format_for_path("out.svg"), OutputFormat::Vector);
    assert_eq!(format_for_path("OUT.SVG"), OutputFormat::Vector);
    assert_eq!(format_for_path("qr.png"), OutputFormat::Raster);
    assert_eq!(format_for_path("noext"), OutputFormat::Raster);
    assert_eq!(format_for_path(""), OutputFormat::Raster);
}

#[test]
fn matrix_rejects_wrong_cell_count() {
    assert!(ModuleMatrix::new(2, vec![Module::Dark; 3]).is_none());
    assert!(ModuleMatrix::new(2, vec![Module::Dark; 4]).is_some());
}

fn stub_matrix() -> ModuleMatrix {
    // 2x2: dark at (0,0) and (1,1)
    ModuleMatrix::new(
        2,
        vec![Module::Dark, Module::Light, Module::Light, Module::Dark],
    )
    .unwrap()
}

#[test]
fn raster_paints_modules_and_quiet_zone() {
    let m = stub_matrix();
    let color = RenderColor { red: 10, green: 20, blue: 30 };
    let bg = RenderColor { red: 255, green: 255, blue: 255 };
    let img = render_raster(&m, color, None);
    assert_eq!(img.width, 80);
    assert_eq!(img.height, 80);
    // dark cell (0,0) occupies pixels [32,40) x [32,40)
    assert_eq!(img.get_pixel(32, 32), color);
    assert_eq!(img.get_pixel(39, 39), color);
    // light cell (0,1)
    assert_eq!(img.get_pixel(40, 32), bg);
    // dark cell (1,1)
    assert_eq!(img.get_pixel(40, 40), color);
    // quiet zone corners and edges
    assert_eq!(img.get_pixel(0, 0), bg);
    assert_eq!(img.get_pixel(79, 79), bg);
    assert_eq!(img.get_pixel(31, 32), bg);
    assert_eq!(img.get_pixel(48, 32), bg);
}

#[test]
fn raster_caption_grows_canvas_without_touching_symbol() {
    let m = stub_matrix();
    let color = RenderColor { red: 200, green: 0, blue: 100 };
    let bg = RenderColor { red: 255, green: 255, blue: 255 };
    let plain = render_raster(&m, color, None);
    let caption: Vec<u8> = b"AB".to_vec();
    let with_caption = render_raster(&m, color, Some(&caption));
    assert_eq!(with_caption.width, 80);
    assert_eq!(with_caption.height, 80 + 16);
    for y in 0..80usize {
        for x in 0..80usize {
            assert_eq!(with_caption.get_pixel(x, y), plain.get_pixel(x, y));
        }
    }
    // glyph 'A' has its top-left pixel set: strip starts at y = 80 with 3
    // blank rows, so (32, 83) is foreground and (32, 80) is background
    assert_eq!(with_caption.get_pixel(32, 83), color);
    assert_eq!(with_caption.get_pixel(32, 80), bg);
}

#[test]
fn vector_document_has_one_rect_per_dark_cell() {
    let m = stub_matrix();
    let color = RenderColor { red: 10, green: 20, blue: 30 };
    let doc = build_vector(&m, color, None);
    assert_eq!(doc.width, 80);
    assert_eq!(doc.height, 80);
    assert_eq!(doc.rects.len(), 2);
    assert_eq!(doc.rects[0], VectorRect { x: 32, y: 32, w: 8, h: 8 });
    assert_eq!(doc.rects[1], VectorRect { x: 40, y: 40, w: 8, h: 8 });
    assert!(doc.caption.is_none());
}

#[test]
fn vector_serialization_is_exact_svg() {
    let m = stub_matrix();
    let color = RenderColor { red: 10, green: 20, blue: 30 };
    let doc = build_vector(&m, color, None);
    let text = String::from_utf8(serialize_vector(&doc)).unwrap();
    assert!(text.starts_with(
        "<svg xmlns=\"http://www.w3.org/2000/svg\" width=\"80\" height=\"80\"><rect width=\"80\" height=\"80\" fill=\"#ffffff\"/>"
    ));
    assert!(text.contains("<rect x=\"32\" y=\"32\" width=\"8\" height=\"8\" fill=\"#0a141e\"/>"));
    assert!(text.ends_with("</svg>"));
}

#[test]
fn vector_caption_is_escaped_and_below_symbol() {
    let m = stub_matrix();
    let caption: Vec<u8> = b"a<b&c".to_vec();
    let doc = build_vector(&m, black(), Some(&caption));
    assert_eq!(doc.height, 80 + 16);
    let cp = doc.caption.as_ref().unwrap();
    assert_eq!(cp.x, 32);
    assert_eq!(cp.y, 92);
    let text = String::from_utf8(serialize_vector(&doc)).unwrap();
    assert!(text.contains("<text x=\"32\" y=\"92\" font-size=\"10\" font-family=\"monospace\">a&lt;b&amp;c</text>"));
}

#[test]
fn raster_serializes_to_png() {
    let m = stub_matrix();
    let img = render_raster(&m, black(), None);
    let artifact = RenderedArtifact::Raster(img);
    let bytes = serialize_artifact(&artifact).unwrap();
    assert_eq!(&bytes[0..8], &[137u8, 80, 78, 71, 13, 10, 26, 10]);
}

#[test]
fn produce_runs_the_whole_pipeline() {
    let opts = QRCode::default_options();
    let svg = produce(&opts, "test".as_bytes(), OutputFormat::Vector).unwrap();
    let text = String::from_utf8(svg).unwrap();
    assert!(text.starts_with("<svg "));
    assert!(text.ends_with("</svg>"));
    let png = produce(&opts, "test".as_bytes(), OutputFormat::Raster).unwrap();
    assert_eq!(&png[0..8], &[137u8, 80, 78, 71, 13, 10, 26, 10]);
}

#[test]
fn produce_surfaces_encoding_failure() {
    let opts = options_at(ECLevel::H);
    let data = vec![65u8; 2000];
    let r = produce(&opts, &data, OutputFormat::Raster);
    assert_eq!(
        r.unwrap_err(),
        PipelineFailure::Encoding(EncodingFailure::PayloadTooLarge)
    );
}

#[test]
fn produce_embeds_caption_when_configured() {
    let opts = QRCodeOptions { ec_level: ECLevel::M, color: black(), embed: true };
    let svg = produce(&opts, "test".as_bytes(), OutputFormat::Vector).unwrap();
    let text = String::from_utf8(svg).unwrap();
    assert!(text.contains(">test</text>"));
}
