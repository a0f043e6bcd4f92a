use raytracer::color::{channel_level, pack_rgb, to_color, COLOR_RANGE};

#[test]
fn levels_within_range_are_kept() {
    assert_eq!(channel_level(0), 0);
    assert_eq!(channel_level(127), 127);
    assert_eq!(channel_level(255), 255);
}

#[test]
fn brighter_than_white_is_white() {
    assert_eq!(channel_level(256), 255);
    assert_eq!(channel_level(1000), 255);
    assert_eq!(channel_level(u32::MAX), 255);
}

#[test]
fn red_is_the_low_byte() {
    assert_eq!(pack_rgb(0x12, 0x34, 0x56), 0x0056_3412);
    assert_eq!(pack_rgb(255, 0, 0), 0xFF);
    assert_eq!(pack_rgb(0, 255, 0), 0xFF00);
    assert_eq!(pack_rgb(0, 0, 255), 0xFF_0000);
}

#[test]
fn white_is_the_largest_colour() {
    assert_eq!(pack_rgb(255, 255, 255), COLOR_RANGE - 1);
    assert_eq!(pack_rgb(0, 0, 0), 0);
}

#[test]
fn sky_colour_of_an_upward_ray() {
    // (0.5, 0.85, 1.0) scaled by 255.99 and rounded down
    assert_eq!(to_color(127, 217, 255), 127 + 217 * 256 + 255 * 65536);
}

#[test]
fn overbright_channels_are_clamped_before_packing() {
    assert_eq!(to_color(300, 128, 0), 255 + 128 * 256);
    assert_eq!(to_color(u32::MAX, u32::MAX, u32::MAX), 0xFF_FFFF);
}

#[test]
fn channels_come_back_from_a_packed_colour() {
    let w = pack_rgb(10, 70, 200);
    assert_eq!(w & 0xFF, 10);
    assert_eq!((w >> 8) & 0xFF, 70);
    assert_eq!(w >> 16, 200);
}
