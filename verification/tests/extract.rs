use rrss_cli_rs::colors::Rgb;
use rrss_cli_rs::extract::{accent_index, choose_accent, extract_from_image, suggest_accent};
use rrss_cli_rs::generator::PerceptualScheme;
use rrss_cli_rs::images::{Ceiling, ImageError, Raster};

fn rgb(x: u32) -> Rgb {
    Rgb::from_u32(x)
}

fn raster(width: u32, pixels: Vec<u8>) -> Raster {
    let height = (pixels.len() / 4) as u32 / width.max(1);
    Raster { file_size: pixels.len() as u64, width, height, pixels }
}

fn uniform(color: [u8; 4], pixels: usize) -> Raster {
    let mut data = Vec::new();
    for _ in 0..pixels {
        data.extend_from_slice(&color);
    }
    raster(4, data)
}

fn stripes(a: [u8; 4], b: [u8; 4], cycle: usize, pixels: usize) -> Raster {
    let mut data = Vec::new();
    for i in 0..pixels {
        data.extend_from_slice(if (i / 40) % cycle != 0 { &a } else { &b });
    }
    raster(40, data)
}

fn scheme() -> PerceptualScheme {
    PerceptualScheme {
        base: rgb(0x101112),
        base_high: rgb(0x202122),
        muted: rgb(0x303132),
        text: rgb(0x404142),
        fg_accents: [rgb(0x505152), rgb(0x606162), rgb(0x707172), rgb(0x808182)],
    }
}

#[test]
fn dominant_colour_of_one_colour() {
    let data = uniform([200, 40, 40, 255], 256);
    let colors = extract_from_image(&data, 8).unwrap();
    assert!(!colors.is_empty() && colors.len() <= 8);
    assert_eq!(colors[0], Rgb { r: 204, g: 44, b: 44 });
}

#[test]
fn dominant_colours_of_two_colours() {
    let data = stripes([220, 30, 30, 255], [20, 40, 200, 255], 3, 1600);
    let colors = extract_from_image(&data, 8).unwrap();
    assert!(colors.len() >= 2 && colors.len() <= 8);
    assert_eq!(colors[0], Rgb { r: 20, g: 44, b: 204 });
    assert_eq!(colors[1], Rgb { r: 220, g: 28, b: 28 });
}

#[test]
fn at_most_as_many_colours_as_asked_for() {
    let data = stripes([220, 30, 30, 255], [20, 40, 200, 255], 3, 1600);
    for count in [0u8, 1, 2, 3, 5, 12, 255] {
        let colors = extract_from_image(&data, count).unwrap();
        assert!(colors.len() <= count as usize, "count {}", count);
    }
    assert_eq!(extract_from_image(&data, 0).unwrap(), vec![]);
    assert_eq!(extract_from_image(&data, 1).unwrap(), vec![Rgb { r: 20, g: 44, b: 204 }]);
}

#[test]
fn the_first_colours_do_not_depend_on_the_count_of_one() {
    let data = uniform([200, 40, 40, 255], 256);
    let two = extract_from_image(&data, 2).unwrap();
    let one = extract_from_image(&data, 1).unwrap();
    assert_eq!(one.len(), 1);
    assert_eq!(one[0], two[0]);
}

#[test]
fn no_pixels_give_white() {
    let empty = Raster { file_size: 10, width: 0, height: 0, pixels: vec![] };
    assert_eq!(extract_from_image(&empty, 8).unwrap(), vec![Rgb { r: 255, g: 255, b: 255 }]);
    let clear = uniform([9, 9, 9, 0], 100);
    assert_eq!(extract_from_image(&clear, 8).unwrap(), vec![Rgb { r: 255, g: 255, b: 255 }]);
}

#[test]
fn image_over_a_ceiling_gives_no_colours() {
    let mut image = uniform([200, 40, 40, 255], 256);
    image.file_size = 256 * 1024 * 1024 + 1;
    assert_eq!(
        extract_from_image(&image, 8),
        Err(ImageError::ResourceLimitExceeded(Ceiling::FileSize))
    );
    let wide = Raster { file_size: 10, width: 4097, height: 1, pixels: vec![0; 4 * 4097] };
    assert_eq!(
        extract_from_image(&wide, 8),
        Err(ImageError::ResourceLimitExceeded(Ceiling::Dimension))
    );
    let high = Raster { file_size: 10, width: 1, height: 4097, pixels: vec![] };
    assert_eq!(
        extract_from_image(&high, 8),
        Err(ImageError::ResourceLimitExceeded(Ceiling::Dimension))
    );
}

#[test]
fn image_with_the_wrong_amount_of_data_gives_no_colours() {
    let image = Raster { file_size: 10, width: 2, height: 2, pixels: vec![0; 15] };
    assert_eq!(extract_from_image(&image, 8), Err(ImageError::ImageDecodeError));
}

#[test]
fn accent_is_the_highest_score() {
    let colors = vec![rgb(0x533483), rgb(0x0f3460), rgb(0xe94560), rgb(0xffd369)];
    assert_eq!(accent_index(&colors), Some(3));
    assert_eq!(choose_accent(None, Some(&colors)), rgb(0xffd369));
    let colors = vec![rgb(0x533483), rgb(0xcc0000), rgb(0x660000)];
    assert_eq!(accent_index(&colors), Some(1));
}

#[test]
fn accent_skips_near_black_white_and_grey() {
    let colors = vec![rgb(0xfafafa), rgb(0x050505), rgb(0x808080), rgb(0x0f3460)];
    assert_eq!(accent_index(&colors), Some(3));
    assert_eq!(choose_accent(None, Some(&colors)), rgb(0x0f3460));
}

#[test]
fn first_of_equal_scores_wins() {
    let colors = vec![rgb(0x050505), rgb(0x2850a0), rgb(0xa05028)];
    assert_eq!(accent_index(&colors), Some(1));
    let colors = vec![rgb(0xa05028), rgb(0x2850a0)];
    assert_eq!(accent_index(&colors), Some(0));
}

#[test]
fn without_candidates_the_first_colour_is_the_accent() {
    let colors = vec![rgb(0xfafafa), rgb(0x050505), rgb(0x808080)];
    assert_eq!(accent_index(&colors), None);
    assert_eq!(choose_accent(None, Some(&colors)), rgb(0xfafafa));
}

#[test]
fn limits_of_what_qualifies() {
    // lightness 40/510 is below 0.08 and 41/510 is not
    assert_eq!(accent_index(&vec![Rgb { r: 40, g: 0, b: 0 }]), None);
    assert_eq!(accent_index(&vec![Rgb { r: 41, g: 0, b: 0 }]), Some(0));
    // lightness 470/510 is above 0.92 and 469/510 is not
    assert_eq!(accent_index(&vec![Rgb { r: 255, g: 215, b: 255 }]), None);
    assert_eq!(accent_index(&vec![Rgb { r: 255, g: 214, b: 255 }]), Some(0));
    // saturation 10/200 qualifies and 4/100 does not
    assert_eq!(accent_index(&vec![Rgb { r: 105, g: 100, b: 95 }]), Some(0));
    assert_eq!(accent_index(&vec![Rgb { r: 52, g: 52, b: 48 }]), None);
}

#[test]
fn perceptual_accent_comes_first() {
    let colors = vec![rgb(0xffd369)];
    assert_eq!(choose_accent(Some(scheme()), Some(&colors)), rgb(0x505152));
    assert_eq!(choose_accent(Some(scheme()), None), rgb(0x505152));
    let data = uniform([200, 40, 40, 255], 256);
    assert_eq!(suggest_accent(Some(scheme()), Some(&data)), "#505152");
}

#[test]
fn default_accent_where_nothing_is_found() {
    assert_eq!(choose_accent(None, None), rgb(0x4a3f6b));
    assert_eq!(choose_accent(None, Some(&vec![])), rgb(0x4a3f6b));
    assert_eq!(suggest_accent(None, None), "#4a3f6b");
    let wide = Raster { file_size: 10, width: 4097, height: 1, pixels: vec![0; 4 * 4097] };
    assert_eq!(suggest_accent(None, Some(&wide)), "#4a3f6b");
    let broken = Raster { file_size: 10, width: 2, height: 2, pixels: vec![0; 15] };
    assert_eq!(suggest_accent(None, Some(&broken)), "#4a3f6b");
}

#[test]
fn accent_of_pixel_data() {
    let data = stripes([220, 30, 30, 255], [20, 40, 200, 255], 3, 1600);
    let colors = extract_from_image(&data, 12).unwrap();
    let expected = choose_accent(None, Some(&colors));
    assert_eq!(suggest_accent(None, Some(&data)), expected.to_hex());
    let data = uniform([9, 9, 9, 0], 100);
    assert_eq!(suggest_accent(None, Some(&data)), "#ffffff");
}
