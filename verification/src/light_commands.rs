use vstd::prelude::*;

use crate::errors::UiError;
use crate::move_input::UserMove;
use crate::select_input::{
    decimal_chars, lemma_encode_decimal_chars, lemma_parse_i32_of_decimal, parse_value,
    spec_parse_i32,
};
use vstd::utf8::encode_utf8;

verus! {

/// The three channels of a light's color as the user typed them.
#[derive(Debug, Clone)]
pub struct LightColorInput {
    pub r: String,
    pub g: String,
    pub b: String,
}

/// An RGB color.
#[derive(Debug, Clone, PartialEq, Eq, Structural)]
pub struct LightColor {
    pub r: u8,
    pub g: u8,
    pub b: u8,
}

impl LightColor {
    pub fn new(r: u8, g: u8, b: u8) -> (c: LightColor)
        ensures
            c == (LightColor { r, g, b }),
    {
        LightColor { r, g, b }
    }
}

/// What the user typed to change a light.
#[derive(Debug, Clone)]
pub struct LightProperties {
    pub light_intensity: String,
    pub backlight_intensity: String,
    pub background_const: String,
    pub light_color: LightColorInput,
    pub light_translation: UserMove,
}

impl Default for LightColorInput {
    /// The three channels are empty.
    fn default() -> (r: Self)
        ensures
            r.r@ == Seq::<char>::empty(),
            r.g@ == Seq::<char>::empty(),
            r.b@ == Seq::<char>::empty(),
    {
        LightColorInput { r: String::new(), g: String::new(), b: String::new() }
    }
}

impl Default for LightProperties {
    /// Intensities, constant and color are empty; the displacement reads `0`.
    fn default() -> (r: Self)
        ensures
            r.light_intensity@ == Seq::<char>::empty(),
            r.backlight_intensity@ == Seq::<char>::empty(),
            r.background_const@ == Seq::<char>::empty(),
            r.light_color.r@ == Seq::<char>::empty(),
            r.light_color.g@ == Seq::<char>::empty(),
            r.light_color.b@ == Seq::<char>::empty(),
            r.light_translation.dx@ == "0"@,
            r.light_translation.dy@ == "0"@,
            r.light_translation.dz@ == "0"@,
    {
        LightProperties {
            light_intensity: String::new(),
            backlight_intensity: String::new(),
            background_const: String::new(),
            light_color: LightColorInput::default(),
            light_translation: UserMove::default(),
        }
    }
}

/// What one typed color channel reads as: a whole number from 0 to 255.
pub open spec fn spec_parse_channel(text: Seq<char>) -> Result<u8, UiError> {
    match spec_parse_i32(encode_utf8(text)) {
        Some(n) => if 0 <= n <= 255 {
            Ok(n as u8)
        } else {
            Err(UiError::ColorError)
        },
        None => Err(UiError::ColorError),
    }
}

/// What `parse_color` answers for the three typed channels.
pub open spec fn spec_parse_color(r: Seq<char>, g: Seq<char>, b: Seq<char>) -> Result<
    LightColor,
    UiError,
> {
    match (spec_parse_channel(r), spec_parse_channel(g), spec_parse_channel(b)) {
        (Ok(r), Ok(g), Ok(b)) => Ok(LightColor { r, g, b }),
        _ => Err(UiError::ColorError),
    }
}

fn parse_channel(text: &String) -> (r: Result<u8, UiError>)
    ensures
        r == spec_parse_channel(text@),
{
    let in_range = |n: i32| -> (ok: bool)
        ensures
            ok == (n >= 0 && n <= 255),
        { n >= 0 && n <= 255 };
    match parse_value(text.as_str(), UiError::ColorError, in_range) {
        Ok(n) => Ok(n as u8),
        Err(e) => Err(e),
    }
}

impl LightProperties {
    /// Reads the typed color: each channel must be a whole number from 0 to 255,
    /// else the color is refused with `ColorError`.
    pub fn parse_color(&self) -> (r: Result<LightColor, UiError>)
        ensures
            r == spec_parse_color(self.light_color.r@, self.light_color.g@, self.light_color.b@),
    {
        let r = parse_channel(&self.light_color.r)?;
        let g = parse_channel(&self.light_color.g)?;
        let b = parse_channel(&self.light_color.b)?;
        Ok(LightColor::new(r, g, b))
    }
}

/// A typed color is accepted exactly when each channel's text is a whole number from
/// 0 to 255 (0 and 255 included), and then it is that color; otherwise it is refused
/// with `ColorError`.
pub proof fn lemma_parse_color_reads_channels(r: Seq<char>, g: Seq<char>, b: Seq<char>)
    ensures
        ({
            let pr = spec_parse_i32(encode_utf8(r));
            let pg = spec_parse_i32(encode_utf8(g));
            let pb = spec_parse_i32(encode_utf8(b));
            let ok = pr is Some && 0 <= pr->0 <= 255 && pg is Some && 0 <= pg->0 <= 255 && pb is Some
                && 0 <= pb->0 <= 255;
            &&& ok ==> spec_parse_color(r, g, b) == Ok::<LightColor, UiError>(
                LightColor { r: pr->0 as u8, g: pg->0 as u8, b: pb->0 as u8 },
            )
            &&& !ok ==> spec_parse_color(r, g, b) == Err::<LightColor, UiError>(UiError::ColorError)
        }),
{
}

/// Every color can be typed: the decimal spellings of any three channel values read
/// as that color.
pub proof fn lemma_parse_color_of_decimal(x: u8, y: u8, z: u8)
    ensures
        spec_parse_color(decimal_chars(x as nat), decimal_chars(y as nat), decimal_chars(z as nat))
            == Ok::<LightColor, UiError>(LightColor { r: x, g: y, b: z }),
{
    lemma_encode_decimal_chars(x as nat);
    lemma_encode_decimal_chars(y as nat);
    lemma_encode_decimal_chars(z as nat);
    lemma_parse_i32_of_decimal(x as nat);
    lemma_parse_i32_of_decimal(y as nat);
    lemma_parse_i32_of_decimal(z as nat);
}

} // verus!
