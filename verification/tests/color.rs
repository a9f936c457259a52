use bar::color::{Colors, Rgb8};
use bar::terminal::TerminalPalette;

#[test]
fn default_scheme() {
    let c = Colors::default();
    assert_eq!(c.background, Rgb8 { r: 0x24, g: 0x27, b: 0x3a });
    assert_eq!(c.background2, Rgb8 { r: 0x36, g: 0x3a, b: 0x4f });
    assert_eq!(c.foreground, Rgb8 { r: 0xca, g: 0xd3, b: 0xf5 });
    assert_eq!(c.accent, Rgb8 { r: 0xc6, g: 0xa0, b: 0xf6 });
    assert_eq!(c.color1, Rgb8 { r: 0x8b, g: 0xd5, b: 0xca });
    assert_eq!(c.color2, Rgb8 { r: 0xee, g: 0xd4, b: 0x9f });
    assert_eq!(c.color3, Rgb8 { r: 0xa6, g: 0xda, b: 0x95 });
    assert_eq!(c.color4, Rgb8 { r: 0xed, g: 0x87, b: 0x96 });
    assert_eq!(c.color5, Rgb8 { r: 0x7d, g: 0xc4, b: 0xe4 });
}

#[test]
fn hex_text_of_colors() {
    assert_eq!(Rgb8 { r: 0x24, g: 0x27, b: 0x3a }.to_hex_string(), "#24273a");
    assert_eq!(Rgb8 { r: 0, g: 0, b: 0 }.to_hex_string(), "#000000");
    assert_eq!(Rgb8 { r: 255, g: 1, b: 128 }.to_hex_string(), "#ff0180");
}

#[test]
fn palette_of_default_scheme() {
    let p = TerminalPalette::from_colors(&Colors::default());
    assert_eq!(p.foreground, "#cad3f5");
    assert_eq!(p.background, "#24273a");
    assert_eq!(p.black, "#24273a");
    assert_eq!(p.red, "#ed8796");
    assert_eq!(p.bright_red, "#ed8796");
    assert_eq!(p.dim_red, "#ed8796");
    assert_eq!(p.green, "#a6da95");
    assert_eq!(p.yellow, "#eed49f");
    assert_eq!(p.blue, "#7dc4e4");
    assert_eq!(p.magenta, "#c6a0f6");
    assert_eq!(p.cyan, "#8bd5ca");
    assert_eq!(p.white, "#cad3f5");
    assert_eq!(p.dim_foreground, "#cad3f5");
    assert_eq!(p.bright_foreground, None);
}

#[test]
fn hex_text_of_every_channel_value() {
    for v in 0..=255u8 {
        assert_eq!(Rgb8 { r: v, g: 0, b: 0 }.to_hex_string(), format!("#{:02x}0000", v));
        assert_eq!(Rgb8 { r: 0, g: v, b: 0 }.to_hex_string(), format!("#00{:02x}00", v));
        assert_eq!(Rgb8 { r: 0, g: 0, b: v }.to_hex_string(), format!("#0000{:02x}", v));
    }
}
