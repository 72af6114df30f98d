//! A 24-bit RGB color, built from three byte channels or from a packed
//! `0xRRGGBB` integer, with methods that style text for terminal output.

use vstd::prelude::*;

verus! {

/// A 24-bit color: one byte per channel.
#[derive(Clone, Copy, Debug, PartialEq, Eq, Structural)]
pub struct Color {
    pub r: u8,
    pub g: u8,
    pub b: u8,
}

/// The channels a packed `0xRRGGBB` integer splits into: bits 16 to 23 are
/// the red channel, 8 to 15 the green one, 0 to 7 the blue one.
pub open spec fn color_of_packed(c: usize) -> Color {
    Color { r: ((c >> 16) & 0xff) as u8, g: ((c >> 8) & 0xff) as u8, b: (c & 0xff) as u8 }
}

impl From<[u8; 3]> for Color {
    fn from(channels: [u8; 3]) -> Self {
        Color { r: channels[0], g: channels[1], b: channels[2] }
    }
}

impl vstd::std_specs::convert::FromSpecImpl<[u8; 3]> for Color {
    open spec fn obeys_from_spec() -> bool {
        true
    }

    open spec fn from_spec(channels: [u8; 3]) -> Color {
        Color { r: channels[0], g: channels[1], b: channels[2] }
    }
}

impl From<usize> for Color {
    fn from(packed: usize) -> Self {
        Color {
            r: ((packed >> 16) & 0xff) as u8,
            g: ((packed >> 8) & 0xff) as u8,
            b: (packed & 0xff) as u8,
        }
    }
}

impl vstd::std_specs::convert::FromSpecImpl<usize> for Color {
    open spec fn obeys_from_spec() -> bool {
        true
    }

    open spec fn from_spec(packed: usize) -> Color {
        color_of_packed(packed)
    }
}

impl Color {
    /// Relies on colored's `Colorize::truecolor` for `&str` and the
    /// `Display` of its `ColoredString`: with coloring enabled (which the
    /// environment decides) the output is an escape prefix, the input, and
    /// a reset suffix; with it disabled, the input unchanged. An input free
    /// of the escape character is never rewritten inside.
    #[verifier::external_body]
    pub fn color(&self, t: &str) -> (r: String)
        ensures
            r@.len() >= t@.len(),
            (forall|i: int| 0 <= i < t@.len() ==> t@[i] != '\x1b') ==> (exists|
                pre: Seq<char>,
                suf: Seq<char>,
            |
                r@ == pre + t@ + suf),
    {
        colored::Colorize::truecolor(t, self.r, self.g, self.b).to_string()
    }

    /// Relies on colored's `Colorize::on_truecolor` for `&str` and the
    /// `Display` of its `ColoredString`, exactly as `color` does, with the
    /// channels applied to the background instead of the foreground.
    #[verifier::external_body]
    pub fn on_color(&self, t: &str) -> (r: String)
        ensures
            r@.len() >= t@.len(),
            (forall|i: int| 0 <= i < t@.len() ==> t@[i] != '\x1b') ==> (exists|
                pre: Seq<char>,
                suf: Seq<char>,
            |
                r@ == pre + t@ + suf),
    {
        colored::Colorize::on_truecolor(t, self.r, self.g, self.b).to_string()
    }
}

impl Default for Color {
    fn default() -> (c: Color)
        ensures
            c == (Color { r: 0, g: 0, b: 0 }),
    {
        Color { r: 0, g: 0, b: 0 }
    }
}

} // verus!
