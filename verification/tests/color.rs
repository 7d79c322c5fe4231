use light_control::color::{color_value, pack_rgba8};

#[test]
fn packs_red_green_blue_into_24_bits() {
    assert_eq!(pack_rgba8([255, 0, 128, 255]), 0xFF0080);
    assert_eq!(pack_rgba8([0x12, 0x34, 0x56, 0]), 0x123456);
    assert_eq!(pack_rgba8([0, 0, 0, 0]), 0);
    assert_eq!(pack_rgba8([255, 255, 255, 255]), 0xFFFFFF);
}

#[test]
fn packing_ignores_alpha() {
    assert_eq!(pack_rgba8([10, 20, 30, 0]), pack_rgba8([10, 20, 30, 255]));
    assert_eq!(pack_rgba8([10, 20, 30, 7]), (10 << 16) | (20 << 8) | 30);
}

#[test]
fn colour_value_comes_from_the_parsed_colour() {
    let colour = csscolorparser::Color::from_rgba8(255, 0, 128, 255);
    assert_eq!(color_value(&colour), 0xFF0080);
    let translucent = csscolorparser::Color::from_rgba8(255, 0, 128, 3);
    assert_eq!(color_value(&translucent), 0xFF0080);
    let parsed: csscolorparser::Color = "#102030".parse().unwrap();
    assert_eq!(color_value(&parsed), 0x102030);
}
