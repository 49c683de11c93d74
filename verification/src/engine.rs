//! The symbol encoder: wraps the external construction engine (the `qrcode`
//! crate) behind a narrow trusted interface and exposes a verified `encode`
//! step, together with the determinism and level-monotonicity laws.

use vstd::prelude::*;

use crate::matrix::{Module, ModuleMatrix};
use crate::options::{ECLevel, QRCodeOptions};

verus! {

#[verifier::external_type_specification]
#[verifier::external_body]
pub struct ExQrCode(qrcode::QrCode);

#[verifier::external_type_specification]
#[verifier::external_body]
pub struct ExQrError(qrcode::types::QrError);

/// The row-major dark/light grid held by a constructed `qrcode::QrCode`.
pub uninterp spec fn qr_grid(c: qrcode::QrCode) -> Seq<bool>;

/// The number of modules per side of a constructed `qrcode::QrCode`.
pub uninterp spec fn qr_side(c: qrcode::QrCode) -> int;

/// Whether a `qrcode::types::QrError` is the capacity failure (`DataTooLong`).
pub uninterp spec fn qr_err_too_long(e: qrcode::types::QrError) -> bool;

/// Whether the engine can encode the given bytes at the level of the given
/// rank (0 = L .. 3 = H).
pub uninterp spec fn engine_ok(data: Seq<u8>, rank: int) -> bool;

/// The grid the engine constructs for the given bytes and level rank.
pub uninterp spec fn engine_grid(data: Seq<u8>, rank: int) -> Seq<bool>;

/// The side length of the grid the engine constructs.
pub uninterp spec fn engine_side(data: Seq<u8>, rank: int) -> int;

/// Whether the engine's failure on the given input is the capacity failure.
pub uninterp spec fn engine_too_long(data: Seq<u8>, rank: int) -> bool;

/// Relies on `qrcode::QrCode::with_error_correction_level`: the construction
/// is a pure function of the payload bytes and the level (no randomness or
/// ambient state), and it fails on data the smallest fitting version cannot
/// hold. Its capacity table (ISO/IEC 18004 Table 7) is non-increasing from
/// level L to level H within every version, and the bit length of the encoded
/// segments does not depend on the level, so data that encodes at some level
/// also encodes at every lower-ranked level; the last `ensures` clause states
/// exactly that.
#[verifier::external_body]
fn engine_build(data: &[u8], level: ECLevel) -> (r: Result<qrcode::QrCode, qrcode::types::QrError>)
    ensures
        r is Ok <==> engine_ok(data@, level.rank()),
        r matches Ok(c) ==> qr_grid(c) == engine_grid(data@, level.rank()) && qr_side(c)
            == engine_side(data@, level.rank()),
        r matches Err(e) ==> (qr_err_too_long(e) <==> engine_too_long(data@, level.rank())),
        r is Ok ==> forall|l: int| 0 <= l <= level.rank() ==> engine_ok(data@, l),
{
    let ec = match level {
        ECLevel::L => qrcode::EcLevel::L,
        ECLevel::M => qrcode::EcLevel::M,
        ECLevel::Q => qrcode::EcLevel::Q,
        ECLevel::H => qrcode::EcLevel::H,
    };
    qrcode::QrCode::with_error_correction_level(data, ec)
}

/// Relies on `qrcode::QrCode::width`: the number of modules per side; every
/// constructible code has a valid version, whose width is between 11 (Micro 1)
/// and 177 (version 40).
#[verifier::external_body]
fn engine_width(c: &qrcode::QrCode) -> (r: usize)
    ensures
        r as int == qr_side(*c),
        1 <= r <= 177,
{
    c.width()
}

/// Relies on `qrcode::QrCode::to_colors`: it returns the full module grid,
/// row-major, one entry per module, width * width entries in all; the body
/// converts the crate's `Color` to this library's `Module`, variant for
/// variant.
#[verifier::external_body]
fn engine_modules(c: &qrcode::QrCode) -> (r: Vec<Module>)
    ensures
        r@.len() == qr_grid(*c).len(),
        r@.len() == qr_side(*c) * qr_side(*c),
        forall|i: int| 0 <= i < r@.len() ==> ((r@[i] is Dark) <==> qr_grid(*c)[i]),
{
    c.to_colors()
        .into_iter()
        .map(|col| match col {
            qrcode::Color::Dark => Module::Dark,
            qrcode::Color::Light => Module::Light,
        })
        .collect()
}

/// Relies on the variants of `qrcode::types::QrError`: tells the capacity
/// failure (`DataTooLong`) apart from the character-set failures.
#[verifier::external_body]
fn engine_err_is_too_long(e: &qrcode::types::QrError) -> (r: bool)
    ensures
        r == qr_err_too_long(*e),
{
    matches!(e, qrcode::types::QrError::DataTooLong)
}

/// How encoding a payload can fail, surfaced unchanged from the engine.
#[derive(Clone, Copy, Debug, PartialEq, Eq, Structural)]
pub enum EncodingFailure {
    /// The payload exceeds the capacity of the largest version at the
    /// requested level.
    PayloadTooLarge,
    /// The payload holds bytes the chosen encoding mode cannot represent.
    UnsupportedCharacters,
}

/// The failure `encode` reports for the given bytes and level rank.
pub open spec fn spec_failure(data: Seq<u8>, rank: int) -> EncodingFailure {
    if engine_too_long(data, rank) {
        EncodingFailure::PayloadTooLarge
    } else {
        EncodingFailure::UnsupportedCharacters
    }
}

/// A symbol encoder fixed to one configuration.
pub struct QRCode {
    pub opts: QRCodeOptions,
}

impl QRCode {
    pub fn new(opts: &QRCodeOptions) -> (r: Self)
        ensures
            r.opts == *opts,
    {
        QRCode { opts: *opts }
    }

    pub fn default() -> (r: Self)
        ensures
            r.opts == QRCodeOptions::spec_default(),
    {
        QRCode { opts: Self::default_options() }
    }

    pub fn default_options() -> (r: QRCodeOptions)
        ensures
            r == QRCodeOptions::spec_default(),
    {
        QRCodeOptions {
            ec_level: ECLevel::M,
            color: crate::options::RenderColor::black(),
            embed: false,
        }
    }

    /// Encodes the payload at the configured level. Succeeds exactly when the
    /// engine can encode it, and then returns the engine's grid unchanged;
    /// otherwise surfaces the engine's failure kind.
    pub fn encode(&self, data: &[u8]) -> (r: Result<ModuleMatrix, EncodingFailure>)
        ensures
            r is Ok <==> engine_ok(data@, self.opts.ec_level.rank()),
            r matches Ok(m) ==> m.wf() && 1 <= m.spec_side() <= 177 && m.spec_side()
                == engine_side(data@, self.opts.ec_level.rank()) && m.grid()
                == engine_grid(data@, self.opts.ec_level.rank()),
            r matches Err(f) ==> f == spec_failure(data@, self.opts.ec_level.rank()),
            r is Ok ==> forall|l: int| 0 <= l <= self.opts.ec_level.rank() ==> engine_ok(data@, l),
    {
        match engine_build(data, self.opts.ec_level) {
            Ok(code) => {
                let side = engine_width(&code);
                let cells = engine_modules(&code);
                proof {
                    assert(cells@.map_values(|m: Module| m.spec_is_dark()) =~= qr_grid(code));
                }
                let m = ModuleMatrix::new(side, cells);
                match m {
                    Some(m) => Ok(m),
                    None => vstd::pervasive::unreached(),
                }
            },
            Err(e) => {
                if engine_err_is_too_long(&e) {
                    Err(EncodingFailure::PayloadTooLarge)
                } else {
                    Err(EncodingFailure::UnsupportedCharacters)
                }
            },
        }
    }

    /// Returns the encoded grid as a flat row-major cell vector. The payload
    /// must be encodable at the configured level; `try_encode_to_vec` checks
    /// that first.
    pub fn encode_to_vec(&self, data: &[u8]) -> (r: Vec<Module>)
        requires
            engine_ok(data@, self.opts.ec_level.rank()),
        ensures
            r@.map_values(|m: Module| m.spec_is_dark()) == engine_grid(
                data@,
                self.opts.ec_level.rank(),
            ),
    {
        match self.encode(data) {
            Ok(m) => m.to_cells(),
            Err(_) => vstd::pervasive::unreached(),
        }
    }

    /// Checks that the payload is encodable and only then hands out the flat
    /// cell vector; returns `None` exactly on payloads the engine rejects.
    pub fn try_encode_to_vec(&self, data: &[u8]) -> (r: Option<Vec<Module>>)
        ensures
            r is Some <==> engine_ok(data@, self.opts.ec_level.rank()),
            r matches Some(v) ==> v@.map_values(|m: Module| m.spec_is_dark()) == engine_grid(
                data@,
                self.opts.ec_level.rank(),
            ),
    {
        match self.encode(data) {
            Ok(_) => Some(self.encode_to_vec(data)),
            Err(_) => None,
        }
    }
}

/// Determinism law: encoding the same payload twice under the same
/// configuration gives the same outcome, grid for grid, failure for failure.
pub fn encode_deterministic(qr: &QRCode, data: &[u8]) -> (r: (
    Result<ModuleMatrix, EncodingFailure>,
    Result<ModuleMatrix, EncodingFailure>,
))
    ensures
        r.0 is Ok <==> r.1 is Ok,
        r.0 matches Ok(a) ==> (r.1 matches Ok(b) ==> a.grid() == b.grid() && a.spec_side()
            == b.spec_side()),
        r.0 matches Err(e0) ==> (r.1 matches Err(e1) ==> e0 == e1),
{
    (qr.encode(data), qr.encode(data))
}

/// Level-monotonicity law: for a fixed payload, if encoding succeeds at some
/// level, it also succeeds at every lower-ranked level; so the capacity
/// threshold at which `PayloadTooLarge` triggers never increases with the
/// level.
pub fn encode_level_monotone(data: &[u8], lo: ECLevel, hi: ECLevel) -> (r: (
    Result<ModuleMatrix, EncodingFailure>,
    Result<ModuleMatrix, EncodingFailure>,
))
    requires
        lo.rank() <= hi.rank(),
    ensures
        r.1 is Ok ==> r.0 is Ok,
{
    let base = QRCode::default_options();
    let at_lo = QRCode::new(&QRCodeOptions { ec_level: lo, ..base }).encode(data);
    let at_hi = QRCode::new(&QRCodeOptions { ec_level: hi, ..base }).encode(data);
    (at_lo, at_hi)
}

} // verus!
