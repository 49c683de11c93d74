//! The options model: error-correction levels, module colors, and the
//! aggregate encoding configuration with its fixed default.

use vstd::prelude::*;

verus! {

broadcast use vstd::string::axiom_spec_iter, vstd::string::next_postcondition;

/// Why a user-supplied configuration token was rejected.
#[derive(Clone, Copy, Debug, PartialEq, Eq, Structural)]
pub enum ParseError {
    /// The token is not one of the four canonical level letters.
    InvalidLevel,
    /// The token is not a recognized color literal or keyword.
    InvalidColor,
}

/// Error-correction level of a QR symbol, ordered by increasing redundancy
/// (and decreasing data capacity): L < M < Q < H.
#[derive(Clone, Copy, Debug, PartialEq, Eq, Structural)]
pub enum ECLevel {
    L,
    M,
    Q,
    H,
}

impl ECLevel {
    /// Position of the level in the L < M < Q < H order.
    pub open spec fn rank(self) -> int {
        match self {
            ECLevel::L => 0,
            ECLevel::M => 1,
            ECLevel::Q => 2,
            ECLevel::H => 3,
        }
    }

    /// The canonical single-letter token of the level.
    pub open spec fn spec_token(self) -> Seq<char> {
        match self {
            ECLevel::L => seq!['L'],
            ECLevel::M => seq!['M'],
            ECLevel::Q => seq!['Q'],
            ECLevel::H => seq!['H'],
        }
    }

    /// Which level (if any) a token denotes: exactly the four canonical
    /// case-sensitive single-letter tokens are accepted.
    pub open spec fn spec_parse(s: Seq<char>) -> Result<ECLevel, ParseError> {
        if s.len() == 1 {
            if s[0] == 'L' {
                Ok(ECLevel::L)
            } else if s[0] == 'M' {
                Ok(ECLevel::M)
            } else if s[0] == 'Q' {
                Ok(ECLevel::Q)
            } else if s[0] == 'H' {
                Ok(ECLevel::H)
            } else {
                Err(ParseError::InvalidLevel)
            }
        } else {
            Err(ParseError::InvalidLevel)
        }
    }

    /// Canonical display form of the level.
    pub fn token(self) -> (r: String)
        ensures
            r@ == self.spec_token(),
    {
        proof {
            reveal_strlit("L");
            reveal_strlit("M");
            reveal_strlit("Q");
            reveal_strlit("H");
        }
        match self {
            ECLevel::L => "L".to_owned(),
            ECLevel::M => "M".to_owned(),
            ECLevel::Q => "Q".to_owned(),
            ECLevel::H => "H".to_owned(),
        }
    }

    /// Parses the canonical single-letter token of a level; any other input
    /// is rejected with `ParseError::InvalidLevel`.
    pub fn from_token(token: &str) -> (r: Result<ECLevel, ParseError>)
        ensures
            r == ECLevel::spec_parse(token@),
    {
        let mut it = token.chars();
        let first = it.next();
        let second = it.next();
        match (first, second) {
            (Some(c), None) => {
                if c == 'L' {
                    Ok(ECLevel::L)
                } else if c == 'M' {
                    Ok(ECLevel::M)
                } else if c == 'Q' {
                    Ok(ECLevel::Q)
                } else if c == 'H' {
                    Ok(ECLevel::H)
                } else {
                    Err(ParseError::InvalidLevel)
                }
            },
            _ => Err(ParseError::InvalidLevel),
        }
    }
}

/// An RGB triple used for the dark modules of the rendered symbol.
#[derive(Clone, Copy, Debug, PartialEq, Eq, Structural)]
pub struct RenderColor {
    pub red: u8,
    pub green: u8,
    pub blue: u8,
}

impl RenderColor {
    /// The default module color: black.
    pub open spec fn spec_black() -> RenderColor {
        RenderColor { red: 0, green: 0, blue: 0 }
    }

    /// The fixed background color of every rendering: white.
    pub open spec fn spec_background() -> RenderColor {
        RenderColor { red: 255, green: 255, blue: 255 }
    }

    pub fn black() -> (r: RenderColor)
        ensures
            r == RenderColor::spec_black(),
    {
        RenderColor { red: 0, green: 0, blue: 0 }
    }

    pub fn background() -> (r: RenderColor)
        ensures
            r == RenderColor::spec_background(),
    {
        RenderColor { red: 255, green: 255, blue: 255 }
    }
}

/// What the color-parsing collaborator resolves a token to, if anything.
pub uninterp spec fn color_of(token: Seq<char>) -> Option<(u8, u8, u8)>;

/// Relies on `svgdom::Color::from_str` (svgdom re-exports `svgtypes::Color`):
/// it resolves "#rgb"/"#rrggbb" hex literals, "rgb(..)" forms and the SVG
/// color keywords to an RGB triple, and the outcome is a function of the
/// token alone.
#[verifier::external_body]
fn parse_color_token(token: &str) -> (r: Option<(u8, u8, u8)>)
    ensures
        r == color_of(token@),
{
    match <svgdom::Color as core::str::FromStr>::from_str(token) {
        Ok(c) => Some((c.red, c.green, c.blue)),
        Err(_) => None,
    }
}

/// Parses a color token through the color-parsing collaborator; any token it
/// does not recognize is rejected with `ParseError::InvalidColor`.
pub fn parse_color(token: &str) -> (r: Result<RenderColor, ParseError>)
    ensures
        r is Ok <==> color_of(token@) is Some,
        r matches Ok(c) ==> color_of(token@) == Some((c.red, c.green, c.blue)),
        r matches Err(e) ==> e == ParseError::InvalidColor,
{
    match parse_color_token(token) {
        Some(t) => Ok(RenderColor { red: t.0, green: t.1, blue: t.2 }),
        None => Err(ParseError::InvalidColor),
    }
}

/// The aggregate encoding configuration: error-correction level, module
/// color, and whether the payload text is embedded under the symbol.
#[derive(Clone, Copy, Debug, PartialEq, Eq, Structural)]
pub struct QRCodeOptions {
    pub ec_level: ECLevel,
    pub color: RenderColor,
    pub embed: bool,
}

impl QRCodeOptions {
    /// The fixed default configuration: level M, black modules, no caption.
    pub open spec fn spec_default() -> QRCodeOptions {
        QRCodeOptions {
            ec_level: ECLevel::M,
            color: RenderColor::spec_black(),
            embed: false,
        }
    }
}

impl Default for QRCodeOptions {
    fn default() -> (r: Self)
        ensures
            r == QRCodeOptions::spec_default(),
    {
        QRCodeOptions { ec_level: ECLevel::M, color: RenderColor::black(), embed: false }
    }
}

/// A fully validated command-line invocation: the configuration, the payload
/// bytes, and the destination path.
pub struct CLIOptions {
    pub opts: QRCodeOptions,
    pub data: Vec<u8>,
    pub output_path: String,
}

} // verus!
