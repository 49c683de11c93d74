//! Round-trip regression: encoding "test" at each error-correction level
//! must reproduce the fixed reference module sequences, row-major, with a
//! dark module written as "0" and a light one as "1".

use qrgen::engine::QRCode;
use qrgen::matrix::Module;
use qrgen::options::{ECLevel, QRCodeOptions, RenderColor};

fn compact(level: ECLevel) -> String {
    let opts = QRCodeOptions {
        ec_level: level,
        color: RenderColor { red: 0, green: 0, blue: 0 },
        embed: false,
    };
    let qr = QRCode::new(&opts);
    qr.try_encode_to_vec("test".as_bytes())
        .unwrap()
        .iter()
        .map(|m| match m {
            Module::Dark => "0",
            Module::Light => "1",
        })
        .collect()
}

#[test]
fn round_trip_test_at_level_l() {
    assert_eq!(
        compact(ECLevel::L),
        "000000011011010000000011111010110110111110010001011011110100010010001010110110100010010001011100010100010011111010001010111110000000010101010000000111111111100011111111000001000011001010101011000101101011010010111001010000101100001100101110011111000011100101011000101100101111111110000000111000000000010011010010101011111011010000110011010001010101011010101010001010101011010011010001010100101101011011111010101111001011000000010100101101001"
    );
}

#[test]
fn round_trip_test_at_level_m() {
    assert_eq!(
        compact(ECLevel::M),
        "000000011101110000000011111010101010111110010001011110110100010010001011001110100010010001010010010100010011111011010110111110000000010101010000000111111111001111111111010101011101011101101110000101100101011100010111000000100010000111000110000001001101010101011000100010100111111110111110110110000000011011011100100011111011101110111101010001010001010100100010001011100101011101010001010000100011010011111011100001000101000000010000100011000"
    );
}

#[test]
fn round_trip_test_at_level_q() {
    assert_eq!(
        compact(ECLevel::Q),
        "000000010011010000000011111011111110111110010001011001110100010010001011000010100010010001010011110100010011111010010010111110000000010101010000000111111111000111111111100000001010111001110000100101010011010010010101011111001100001010101111010111000011110001000110001100101111111110000100111000000000010010010010101011111010100100110011010001010011111010101010001010111011010011010001010010101101011011111010101111001011000000011110101101001"
    );
}

#[test]
fn round_trip_test_at_level_h() {
    assert_eq!(
        compact(ECLevel::H),
        "000000010001010000000011111010011110111110010001011100110100010010001010110010100010010001010110110100010011111010011110111110000000010101010000000111111111001011111111111011011010111000100111001100111010011100010011000101010000010001011111011010000100001110010001111010100111111110110001100100000000011000110101101011111011001010111101010001011110100110110010001010010111010100010001011111001011010011111011010110010111000000011100101010001"
    );
}
