use ironpress::format::Format;
use ironpress::util::map_to_color;

#[test]
fn table_gives_color_channels_8_bit_rgb() {
    assert_eq!(map_to_color("basecolor"), Format::Rgb8);
    assert_eq!(map_to_color("diffuse"), Format::Rgb8);
}

#[test]
fn table_gives_basecolor_with_alpha_8_bit_rgba() {
    assert_eq!(map_to_color("basecoloralpha"), Format::Rgba8);
}

#[test]
fn table_gives_normal_maps_16_bit_rgb() {
    assert_eq!(map_to_color("normal"), Format::Rgb16);
}

#[test]
fn table_gives_single_channel_maps_8_bit_luminance() {
    for name in [
        "ao",
        "occlusion",
        "roughness",
        "metallic",
        "metalness",
        "mask",
        "opacity",
        "alpha",
    ] {
        assert_eq!(map_to_color(name), Format::L8, "{}", name);
    }
}

#[test]
fn table_defaults_to_8_bit_rgb() {
    assert_eq!(map_to_color("arm"), Format::Rgb8);
    assert_eq!(map_to_color(""), Format::Rgb8);
    assert_eq!(map_to_color("Normal"), Format::Rgb8);
    assert_eq!(map_to_color("mas"), Format::Rgb8);
    assert_eq!(map_to_color("Mask"), Format::Rgb8);
    assert_eq!(map_to_color("a_mask"), Format::Rgb8);
    assert_eq!(map_to_color("opacit"), Format::Rgb8);
    assert_eq!(map_to_color("Opacity"), Format::Rgb8);
    assert_eq!(map_to_color("normal2"), Format::Rgb8);
    assert_eq!(map_to_color("alpha2"), Format::Rgb8);
    assert_eq!(map_to_color("emissive"), Format::Rgb8);
}

#[test]
fn formats_count_channels_and_bytes() {
    let expected = [
        (Format::L8, 1, 1),
        (Format::La8, 2, 2),
        (Format::Rgb8, 3, 3),
        (Format::Rgba8, 4, 4),
        (Format::L16, 1, 2),
        (Format::La16, 2, 4),
        (Format::Rgb16, 3, 6),
        (Format::Rgba16, 4, 8),
        (Format::Rgb32F, 3, 12),
        (Format::Rgba32F, 4, 16),
    ];
    for (format, channels, bytes) in expected {
        assert_eq!(format.channels(), channels, "{:?}", format);
        assert_eq!(format.bytes_per_pixel(), bytes, "{:?}", format);
    }
}

#[test]
fn table_gives_the_mask_and_opacity_families_8_bit_luminance() {
    for name in [
        "mask",
        "mask2",
        "mask_detail",
        "masks",
        "maské",
        "opacity",
        "opacity2",
        "opacity_cutout",
        "opacitymask",
    ] {
        assert_eq!(map_to_color(name), map_to_color("mask"), "{}", name);
        assert_eq!(map_to_color(name), Format::L8, "{}", name);
    }
}
