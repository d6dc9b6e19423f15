use rrss_cli_rs::colors::Rgb;
use rrss_cli_rs::images::{
    check_dimensions, check_file_size, check_image, contour_output_name, default_output_name, drop_alpha,
    duotone_colors, generate_contours, generate_noise_contours, is_jpeg_extension, parse_color, recolor_image,
    recolor_pixels, Ceiling, ImageError, Raster, MAX_IMAGE_DIMENSION, MAX_IMAGE_SIZE_MB,
};
use rrss_cli_rs::strmap::StrMap;
use rrss_cli_rs::themes::{Role, Theme};

const NORD_BG: Rgb = Rgb { r: 0x2e, g: 0x34, b: 0x40 };
const NORD_PRIMARY: Rgb = Rgb { r: 0xbf, g: 0x61, b: 0x6a };
const BLACK: Rgb = Rgb { r: 0, g: 0, b: 0 };
const WHITE: Rgb = Rgb { r: 255, g: 255, b: 255 };

fn theme(entries: &[(&str, &str)]) -> Theme {
    let mut t: Theme = StrMap::new();
    for (k, v) in entries {
        t.insert(k.to_string(), v.to_string());
    }
    t
}

fn nord() -> Theme {
    theme(&[("bg", "#2e3440"), ("primary", "#bf616a")])
}

fn sample() -> Vec<u8> {
    vec![
        128, 128, 128, 255, //
        255, 0, 0, 200, //
        10, 200, 30, 1, //
        0, 0, 0, 255, //
        255, 255, 255, 255, //
        12, 34, 56, 0,
    ]
}

#[test]
fn file_size_ceiling() {
    let limit = MAX_IMAGE_SIZE_MB * 1024 * 1024;
    assert_eq!(limit, 268_435_456);
    assert_eq!(check_file_size(0), Ok(()));
    assert_eq!(check_file_size(limit), Ok(()));
    assert_eq!(
        check_file_size(limit + 1),
        Err(ImageError::ResourceLimitExceeded(Ceiling::FileSize))
    );
    assert_eq!(
        check_file_size(u64::MAX),
        Err(ImageError::ResourceLimitExceeded(Ceiling::FileSize))
    );
}

#[test]
fn dimension_ceiling() {
    assert_eq!(MAX_IMAGE_DIMENSION, 4096);
    assert_eq!(check_dimensions(0, 0), Ok(()));
    assert_eq!(check_dimensions(4096, 4096), Ok(()));
    assert_eq!(
        check_dimensions(4097, 1),
        Err(ImageError::ResourceLimitExceeded(Ceiling::Dimension))
    );
    assert_eq!(
        check_dimensions(1, 4097),
        Err(ImageError::ResourceLimitExceeded(Ceiling::Dimension))
    );
}

#[test]
fn recolouring_at_seven_tenths() {
    let out = recolor_pixels(&sample(), NORD_BG, NORD_PRIMARY, 700_000, true);
    assert_eq!(
        out,
        vec![
            111, 90, 95, 255, //
            168, 54, 63, 200, //
            112, 130, 73, 1, //
            38, 43, 53, 255, //
            213, 166, 170, 255, //
            0, 0, 0, 0,
        ]
    );
}

#[test]
fn recolouring_without_alpha_recolours_transparent_pixels() {
    let out = recolor_pixels(&sample(), NORD_BG, NORD_PRIMARY, 700_000, false);
    assert_eq!(&out[..20], &recolor_pixels(&sample(), NORD_BG, NORD_PRIMARY, 700_000, true)[..20]);
    assert_eq!(&out[20..], &[44, 48, 62, 0]);
}

#[test]
fn full_intensity_is_the_duotone() {
    let out = recolor_pixels(&sample(), NORD_BG, NORD_PRIMARY, 1_000_000, true);
    assert_eq!(
        out,
        vec![
            102, 65, 76, 255, //
            102, 65, 75, 200, //
            132, 75, 85, 1, //
            46, 52, 64, 255, //
            191, 97, 106, 255, //
            0, 0, 0, 0,
        ]
    );
}

#[test]
fn intensity_above_one_counts_as_one() {
    assert_eq!(
        recolor_pixels(&sample(), NORD_BG, NORD_PRIMARY, 1_000_001, true),
        recolor_pixels(&sample(), NORD_BG, NORD_PRIMARY, 1_000_000, true)
    );
    assert_eq!(
        recolor_pixels(&sample(), NORD_BG, NORD_PRIMARY, u32::MAX, false),
        recolor_pixels(&sample(), NORD_BG, NORD_PRIMARY, 1_000_000, false)
    );
}

#[test]
fn zero_intensity_keeps_the_image() {
    let out = recolor_pixels(&sample(), NORD_BG, NORD_PRIMARY, 0, false);
    assert_eq!(out, sample());
    let kept = recolor_pixels(&sample(), NORD_BG, NORD_PRIMARY, 0, true);
    assert_eq!(&kept[..20], &sample()[..20]);
    assert_eq!(&kept[20..], &[0, 0, 0, 0]);
}

#[test]
fn zero_intensity_keeps_every_colour() {
    let mut data = Vec::new();
    for v in 0..=255u8 {
        data.extend_from_slice(&[v, 255 - v, v.wrapping_mul(7), 255]);
    }
    assert_eq!(recolor_pixels(&data, WHITE, BLACK, 0, true), data);
}

#[test]
fn black_to_white_keeps_a_grey_image() {
    let mut data = Vec::new();
    for v in 0..=255u8 {
        data.extend_from_slice(&[v, v, v, 255]);
    }
    assert_eq!(recolor_pixels(&data, BLACK, WHITE, 1_000_000, true), data);
    let mid = vec![128u8, 128, 128, 255].repeat(16);
    assert_eq!(recolor_pixels(&mid, BLACK, WHITE, 1_000_000, true), mid);
}

#[test]
fn black_to_white_gives_the_luminance() {
    let out = recolor_pixels(&sample(), BLACK, WHITE, 1_000_000, false);
    assert_eq!(
        out,
        vec![
            128, 128, 128, 255, //
            127, 127, 127, 200, //
            172, 172, 172, 1, //
            0, 0, 0, 255, //
            255, 255, 255, 255, //
            33, 33, 33, 0,
        ]
    );
}

#[test]
fn transparent_pixels_stay_transparent() {
    let data = vec![1, 2, 3, 0, 200, 100, 50, 0, 9, 9, 9, 255];
    for intensity in [0u32, 1, 500_000, 1_000_000] {
        let out = recolor_pixels(&data, NORD_BG, NORD_PRIMARY, intensity, true);
        assert_eq!(&out[..8], &[0, 0, 0, 0, 0, 0, 0, 0]);
        assert_eq!(out[11], 255);
    }
}

#[test]
fn empty_image_stays_empty() {
    assert_eq!(recolor_pixels(&vec![], NORD_BG, NORD_PRIMARY, 700_000, true), vec![]);
    assert_eq!(drop_alpha(&vec![]), vec![]);
}

#[test]
fn alpha_is_dropped() {
    assert_eq!(drop_alpha(&vec![1, 2, 3, 4, 5, 6, 7, 8]), vec![1, 2, 3, 5, 6, 7]);
}

#[test]
fn strict_colours() {
    assert_eq!(parse_color("#2e3440"), Some(NORD_BG));
    assert_eq!(parse_color("BF616A"), Some(NORD_PRIMARY));
    assert_eq!(parse_color("#abc"), Some(Rgb { r: 0xaa, g: 0xbb, b: 0xcc }));
    assert_eq!(parse_color("f0F"), Some(Rgb { r: 255, g: 0, b: 255 }));
    assert_eq!(parse_color("+1+2+3"), Some(Rgb { r: 1, g: 2, b: 3 }));
    assert_eq!(parse_color("#+a0b+c"), Some(Rgb { r: 10, g: 11, b: 12 }));
}

#[test]
fn texts_that_are_no_colours() {
    for text in [
        "", "#", "#12", "#1234", "#12345", "#1234567", "tomato", "#gggggg", "#12345g", "#-10000",
        "#+00000+", "##abc", "#ab+", "+ab", "#a b", " abc", "abc ", "é0ff0", "#éé", "aéb",
        "ééé", "#ｆｆｆ",
    ] {
        assert_eq!(parse_color(text), None, "text {:?}", text);
    }
}

#[test]
fn duotone_of_a_theme() {
    assert_eq!(duotone_colors(&nord()), Ok((NORD_BG, NORD_PRIMARY)));
    assert_eq!(
        duotone_colors(&theme(&[("primary", "#fff"), ("bg", "000"), ("text", "nothing")])),
        Ok((BLACK, WHITE))
    );
}

#[test]
fn missing_roles_are_told_before_bad_colours() {
    assert_eq!(
        duotone_colors(&theme(&[])),
        Err(ImageError::ThemeMissingRole(Role::Bg))
    );
    assert_eq!(
        duotone_colors(&theme(&[("primary", "#ffffff")])),
        Err(ImageError::ThemeMissingRole(Role::Bg))
    );
    assert_eq!(
        duotone_colors(&theme(&[("bg", "nothing")])),
        Err(ImageError::ThemeMissingRole(Role::Primary))
    );
}

#[test]
fn bad_colours_are_told_bg_first() {
    assert_eq!(
        duotone_colors(&theme(&[("bg", "nothing"), ("primary", "neither")])),
        Err(ImageError::InvalidColorValue(Role::Bg))
    );
    assert_eq!(
        duotone_colors(&theme(&[("bg", "#000000"), ("primary", "neither")])),
        Err(ImageError::InvalidColorValue(Role::Primary))
    );
    assert_eq!(
        duotone_colors(&theme(&[("bg", "#00000é"), ("primary", "#ffffff")])),
        Err(ImageError::InvalidColorValue(Role::Bg))
    );
}

#[test]
fn image_is_recoloured_with_alpha() {
    let image = Raster { file_size: 1000, width: 3, height: 2, pixels: sample() };
    let out = recolor_image(&image, &nord(), 700_000, false).unwrap();
    assert_eq!((out.width, out.height, out.has_alpha), (3, 2, true));
    assert_eq!(out.data, recolor_pixels(&sample(), NORD_BG, NORD_PRIMARY, 700_000, true));
}

#[test]
fn image_is_flattened_for_jpeg() {
    let image = Raster { file_size: 1000, width: 2, height: 3, pixels: sample() };
    let out = recolor_image(&image, &nord(), 700_000, true).unwrap();
    assert_eq!((out.width, out.height, out.has_alpha), (2, 3, false));
    assert_eq!(
        out.data,
        vec![
            111, 90, 95, //
            168, 54, 63, //
            112, 130, 73, //
            38, 43, 53, //
            213, 166, 170, //
            44, 48, 62,
        ]
    );
}

#[test]
fn image_over_a_ceiling_is_refused_first() {
    let mut image = Raster { file_size: 300 * 1024 * 1024, width: 5000, height: 1, pixels: vec![] };
    let no_theme = theme(&[]);
    assert!(matches!(
        recolor_image(&image, &no_theme, 0, false),
        Err(ImageError::ResourceLimitExceeded(Ceiling::FileSize))
    ));
    image.file_size = 10;
    assert!(matches!(
        recolor_image(&image, &no_theme, 0, false),
        Err(ImageError::ResourceLimitExceeded(Ceiling::Dimension))
    ));
}

#[test]
fn image_with_the_wrong_amount_of_data_is_refused() {
    let image = Raster { file_size: 1000, width: 3, height: 3, pixels: sample() };
    assert!(matches!(
        recolor_image(&image, &theme(&[]), 0, false),
        Err(ImageError::ImageDecodeError)
    ));
}

#[test]
fn image_with_a_bad_theme_is_refused() {
    let image = Raster { file_size: 1000, width: 3, height: 2, pixels: sample() };
    assert!(matches!(
        recolor_image(&image, &theme(&[("bg", "#000")]), 0, false),
        Err(ImageError::ThemeMissingRole(Role::Primary))
    ));
    assert!(matches!(
        recolor_image(&image, &theme(&[("bg", "#000"), ("primary", "red")]), 0, false),
        Err(ImageError::InvalidColorValue(Role::Primary))
    ));
}

#[test]
fn jpeg_extensions() {
    for e in ["jpg", "jpeg", "JPG", "JPEG", "Jpg", "jPeG"] {
        assert!(is_jpeg_extension(e), "extension {}", e);
    }
    for e in ["", "png", "jpe", "jpegg", "jpg ", ".jpg", "jpx", "webp", "ｊpg", "jpég"] {
        assert!(!is_jpeg_extension(e), "extension {}", e);
    }
}

#[test]
fn default_output_names() {
    assert_eq!(default_output_name("photo", "nord", Some("jpg")), "photo_nord.jpg");
    assert_eq!(default_output_name("photo", "nord", None), "photo_nord.png");
    assert_eq!(default_output_name("a.b", "gruvbox-dark", Some("PNG")), "a.b_gruvbox-dark.PNG");
    assert_eq!(default_output_name("", "", Some("")), "_.");
}

#[test]
fn contour_output_names() {
    assert_eq!(contour_output_name("photo"), "photo_contour.png");
    assert_eq!(contour_output_name(""), "_contour.png");
}

#[test]
fn noise_contours_do_not_exist() {
    assert_eq!(generate_noise_contours("/tmp"), Err(ImageError::NotImplemented));
    assert_eq!(generate_noise_contours(""), Err(ImageError::NotImplemented));
}

#[test]
fn contour_is_the_grey_image() {
    let data = vec![
        255, 255, 255, 255, //
        255, 0, 0, 200, //
        0, 255, 0, 100, //
        0, 0, 255, 0, //
        10, 200, 30, 7, //
        0, 0, 0, 255,
    ];
    let image = Raster { file_size: 24, width: 2, height: 3, pixels: data };
    assert_eq!(
        generate_contours(&image),
        vec![255, 255, 54, 200, 182, 100, 18, 0, 147, 7, 0, 255]
    );
    let empty = Raster { file_size: 0, width: 0, height: 0, pixels: vec![] };
    assert_eq!(generate_contours(&empty), vec![]);
}

#[test]
fn contour_of_grey_is_the_grey() {
    for v in 0..=255u8 {
        let image = Raster { file_size: 4, width: 1, height: 1, pixels: vec![v, v, v, 9] };
        assert_eq!(generate_contours(&image), vec![v, 9]);
    }
}

#[test]
fn image_within_the_ceilings_passes() {
    let image = Raster { file_size: 1000, width: 3, height: 2, pixels: sample() };
    assert_eq!(check_image(&image), Ok(()));
    let empty = Raster { file_size: 0, width: 0, height: 7, pixels: vec![] };
    assert_eq!(check_image(&empty), Ok(()));
    let short = Raster { file_size: 1000, width: 3, height: 2, pixels: vec![0; 23] };
    assert_eq!(check_image(&short), Err(ImageError::ImageDecodeError));
}

#[test]
fn contour_cuts_the_fraction_off() {
    // 0.2126 * 255 is 54.2, 0.7152 * 255 is 182.4, and their sum is 236.6
    let image = Raster { file_size: 8, width: 2, height: 1, pixels: vec![255, 255, 0, 1, 1, 1, 0, 2] };
    assert_eq!(generate_contours(&image), vec![236, 1, 0, 2]);
}
