use vstd::prelude::*;

verus! {

/// A color by its 8-bit red, green and blue channels (fully opaque).
#[derive(Clone, Copy, Debug, PartialEq, Eq, Structural)]
pub struct Rgb8 {
    pub r: u8,
    pub g: u8,
    pub b: u8,
}

/// The bar's color scheme.
#[derive(Clone, Copy, Debug, PartialEq, Eq, Structural)]
pub struct Colors {
    pub background: Rgb8,
    pub background2: Rgb8,
    pub foreground: Rgb8,
    pub color1: Rgb8,
    pub color2: Rgb8,
    pub color3: Rgb8,
    pub color4: Rgb8,
    pub color5: Rgb8,
    pub accent: Rgb8,
}

/// The spec of a color given by its channels.
pub open spec fn rgb(r: u8, g: u8, b: u8) -> Rgb8 {
    Rgb8 { r, g, b }
}

/// The default scheme.
pub open spec fn default_colors() -> Colors {
    Colors {
        background: rgb(0x24, 0x27, 0x3a),
        background2: rgb(0x36, 0x3a, 0x4f),
        foreground: rgb(0xca, 0xd3, 0xf5),
        accent: rgb(0xc6, 0xa0, 0xf6),
        color1: rgb(0x8b, 0xd5, 0xca),
        color2: rgb(0xee, 0xd4, 0x9f),
        color3: rgb(0xa6, 0xda, 0x95),
        color4: rgb(0xed, 0x87, 0x96),
        color5: rgb(0x7d, 0xc4, 0xe4),
    }
}

impl Default for Colors {
    fn default() -> (res: Self)
        ensures
            res == default_colors(),
    {
        Colors {
            background: Rgb8 { r: 0x24, g: 0x27, b: 0x3a },
            background2: Rgb8 { r: 0x36, g: 0x3a, b: 0x4f },
            foreground: Rgb8 { r: 0xca, g: 0xd3, b: 0xf5 },
            accent: Rgb8 { r: 0xc6, g: 0xa0, b: 0xf6 },
            color1: Rgb8 { r: 0x8b, g: 0xd5, b: 0xca },
            color2: Rgb8 { r: 0xee, g: 0xd4, b: 0x9f },
            color3: Rgb8 { r: 0xa6, g: 0xda, b: 0x95 },
            color4: Rgb8 { r: 0xed, g: 0x87, b: 0x96 },
            color5: Rgb8 { r: 0x7d, g: 0xc4, b: 0xe4 },
        }
    }
}

/// The lowercase hexadecimal digit of a value below 16.
pub open spec fn hex_digit(n: int) -> char {
    seq!['0', '1', '2', '3', '4', '5', '6', '7', '8', '9', 'a', 'b', 'c', 'd', 'e', 'f'][n]
}

/// A byte as two lowercase hexadecimal digits, as `{:02x}` writes it.
pub open spec fn hex_byte(b: u8) -> Seq<char> {
    seq![hex_digit(b as int / 16), hex_digit(b as int % 16)]
}

/// The text a color is written as: `#` and the hex of red, green and blue.
pub open spec fn color_text(c: Rgb8) -> Seq<char> {
    seq!['#'] + hex_byte(c.r) + hex_byte(c.g) + hex_byte(c.b)
}

/// Formats `iced::Color::from_rgb8(r, g, b)` with its `Display` impl. iced's
/// source shows what that writes for an opaque color (alpha exactly 1.0, as
/// `from_rgb8` sets it): `#` and `{:02x}` of each channel of `into_rgba8()`.
/// `into_rgba8` takes each channel `x / 255.0` back by `* 255.0` and `round`;
/// for every `u8` the float error is far below one half, so it gives back the
/// byte itself. The contract states the resulting text.
#[verifier::external_body]
fn rgb8_to_string(r: u8, g: u8, b: u8) -> (res: String)
    ensures
        res@ == seq!['#'] + hex_byte(r) + hex_byte(g) + hex_byte(b),
{
    iced::Color::from_rgb8(r, g, b).to_string()
}

impl Rgb8 {
    /// The color written as iced writes it: `#rrggbb`.
    pub fn to_hex_string(&self) -> (res: String)
        ensures
            res@ == color_text(*self),
            res@.len() == 7,
    {
        rgb8_to_string(self.r, self.g, self.b)
    }
}

} // verus!
