use raytracer::color::{TranslatedColor, MAX_CHANNEL};
use raytracer::ppm::{ppm_header, PpmColor};

#[test]
fn pixel_line_has_three_space_separated_channels() {
    let c = TranslatedColor { r: 255, g: 0, b: 7 };
    assert_eq!(PpmColor(&c).to_string(), "255 0 7");
}

#[test]
fn pixel_line_of_black() {
    let c = TranslatedColor::default();
    assert_eq!(c, TranslatedColor { r: 0, g: 0, b: 0 });
    assert_eq!(PpmColor(&c).to_string(), "0 0 0");
}

#[test]
fn pixel_line_of_mixed_widths() {
    let c = TranslatedColor { r: 10, g: 200, b: 99 };
    assert_eq!(PpmColor(&c).to_string(), "10 200 99");
}

#[test]
fn pixel_line_of_largest_channel_values() {
    let c = TranslatedColor { r: MAX_CHANNEL, g: MAX_CHANNEL, b: MAX_CHANNEL };
    assert_eq!(PpmColor(&c).to_string(), "255 255 255");
    let wide = TranslatedColor { r: u32::MAX, g: 1000, b: 9 };
    assert_eq!(PpmColor(&wide).to_string(), "4294967295 1000 9");
}

#[test]
fn header_names_size_and_maximum() {
    assert_eq!(ppm_header(400, 225), "P3\n400 225\n255\n");
}

#[test]
fn header_of_tiny_image() {
    assert_eq!(ppm_header(2, 2), "P3\n2 2\n255\n");
    assert_eq!(ppm_header(0, 10), "P3\n0 10\n255\n");
}
