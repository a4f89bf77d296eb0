//! Coloured text, as the `colored` crate represents it.

use colored::ColoredString;
use colored::Colorize;
use colored::CustomColor;
use vstd::prelude::*;

verus! {

/// `colored::ColoredString`: a text together with the colours and style it
/// is to be shown in. The library only carries such values and compares them.
#[verifier::external_type_specification]
#[verifier::external_body]
pub struct ExColoredString(ColoredString);

/// A colour by its red, green and blue parts.
#[derive(Debug, Copy, Clone, PartialEq, Eq, Structural)]
pub struct Rgb {
    pub r: u8,
    pub g: u8,
    pub b: u8,
}

impl Rgb {
    pub fn new(r: u8, g: u8, b: u8) -> (c: Self)
        ensures
            c.r == r,
            c.g == g,
            c.b == b,
    {
        Self { r, g, b }
    }
}

/// The coloured string that `colored` makes of `text` with the foreground
/// colour `(r, g, b)`, no background and no style.
pub uninterp spec fn tinted(text: Seq<char>, r: u8, g: u8, b: u8) -> ColoredString;

/// Calls `Colorize::custom_color` of `colored` on `text`. Trusted: the result
/// is a function of the text and the three colour parts alone.
#[verifier::external_body]
pub(crate) fn tint(text: &str, color: Rgb) -> (icon: ColoredString)
    ensures
        icon == tinted(text@, color.r, color.g, color.b),
{
    text.custom_color(CustomColor::new(color.r, color.g, color.b))
}

/// `ColoredString::clone`. Trusted: the copy equals what was copied.
pub assume_specification[ <ColoredString as Clone>::clone ](icon: &ColoredString) -> (copy:
    ColoredString)
    ensures
        copy == *icon,
;

} // verus!
