use rrss_cli_rs::cli::GenerateParams;
use rrss_cli_rs::colors::Rgb;
use rrss_cli_rs::config::Config;
use rrss_cli_rs::generate::{
    auto_seed, dark_theme, final_accent, resolve, resolve_auto_theme, resolve_matugen_theme,
    resolve_theme, tonal_palette, tonal_scheme, wants_suggested_accent, ImageFindings,
    Resolution, TonalScheme,
};
use rrss_cli_rs::generator::{fallback_palette, PerceptualScheme};
use rrss_cli_rs::images::Raster;
use rrss_cli_rs::strmap::StrMap;
use rrss_cli_rs::themes::{Theme, ThemeCatalog};

fn rgb(x: u32) -> Rgb {
    Rgb::from_u32(x)
}

fn params(theme: &str, image: Option<&str>) -> GenerateParams {
    GenerateParams {
        brand: String::new(),
        title: String::new(),
        quote: String::new(),
        image: image.map(|s| s.to_string()),
        logo: None,
        overlay: None,
        accent: "theme".to_string(),
        auto_accent: false,
        url: String::new(),
        platform: "instagram-post".to_string(),
        layout: "article".to_string(),
        theme: theme.to_string(),
        author: String::new(),
        source: None,
        tag: None,
        slides: None,
        contour: false,
        font_heading: None,
        font_body: None,
        font_mono: None,
    }
}

fn theme(entries: &[(&str, &str)]) -> Theme {
    let mut t: Theme = StrMap::new();
    for (k, v) in entries {
        t.insert(k.to_string(), v.to_string());
    }
    t
}

fn config(themes: &[(&str, Theme)]) -> Config {
    let mut catalog: ThemeCatalog = StrMap::new();
    for (name, t) in themes {
        catalog.insert(name.to_string(), t.duplicate());
    }
    Config { themes: Some(catalog) }
}

fn resolved(r: Resolution) -> Theme {
    match r {
        Resolution::Theme(t) => t,
        _ => panic!("no theme"),
    }
}

fn same(a: &Theme, b: &Theme) -> bool {
    a.len() == b.len() && (0..a.len()).all(|i| b.get(a.key_at(i)) == Some(a.value_at(i)))
}

#[test]
fn nord_is_resolved_to_the_nord_theme() {
    let t = resolved(resolve_theme(&params("nord", None), None));
    assert_eq!(t.len(), 8);
    assert_eq!(t.get("bg").unwrap(), "#2e3440");
    assert_eq!(t.get("primary").unwrap(), "#bf616a");
    assert_eq!(t.get("accent").unwrap(), "#88c0d0");
    assert_eq!(t.get("secondary").unwrap(), "#b48ead");
    assert_eq!(t.get("surface").unwrap(), "#3b4252");
    assert_eq!(t.get("muted").unwrap(), "#4c566a");
    assert_eq!(t.get("text").unwrap(), "#e5e9f0");
    assert_eq!(t.get("highlight").unwrap(), "#d08770");
}

#[test]
fn unknown_theme_is_resolved_to_dark() {
    let t = resolved(resolve_theme(&params("unknown-theme", None), None));
    assert_eq!(t.len(), 8);
    assert_eq!(t.get("bg").unwrap(), "#0f0f0f");
    assert_eq!(t.get("primary").unwrap(), "#e94560");
    assert_eq!(t.get("surface").unwrap(), "#1a1a2e");
    assert_eq!(t.get("secondary").unwrap(), "#533483");
    assert_eq!(t.get("accent").unwrap(), "#0f3460");
    assert_eq!(t.get("text").unwrap(), "#f5f5f5");
    assert_eq!(t.get("muted").unwrap(), "#a0a0a0");
    assert_eq!(t.get("highlight").unwrap(), "#ffd369");
    assert!(same(&t, &dark_theme()));
}

#[test]
fn unknown_theme_with_an_image_is_resolved_to_dark() {
    let t = resolved(resolve_theme(&params("", Some("a.png")), None));
    assert!(same(&t, &dark_theme()));
    let t = resolved(resolve_theme(&params("Nord", Some("a.png")), None));
    assert!(same(&t, &dark_theme()));
}

#[test]
fn theme_of_the_user_comes_first() {
    let mine = theme(&[("bg", "#010203"), ("primary", "tomato"), ("extra", "x")]);
    let cfg = config(&[("nord", mine.duplicate()), ("mine", theme(&[]))]);
    let t = resolved(resolve_theme(&params("nord", None), Some(&cfg)));
    assert!(same(&t, &mine));
    let t = resolved(resolve_theme(&params("mine", Some("a.png")), Some(&cfg)));
    assert_eq!(t.len(), 0);
}

#[test]
fn built_in_themes_stay_behind_those_of_the_user() {
    let cfg = config(&[("mine", theme(&[("bg", "#010203")]))]);
    let t = resolved(resolve_theme(&params("dracula", None), Some(&cfg)));
    assert_eq!(t.get("bg").unwrap(), "#282a36");
    let t = resolved(resolve_theme(&params("other", None), Some(&cfg)));
    assert!(same(&t, &dark_theme()));
    let none = Config { themes: None };
    let t = resolved(resolve_theme(&params("light", None), Some(&none)));
    assert_eq!(t.get("bg").unwrap(), "#fafafa");
}

#[test]
fn auto_asks_for_the_image() {
    assert!(matches!(
        resolve_theme(&params("auto", Some("a.png")), None),
        Resolution::FromDominantColors
    ));
    assert!(matches!(
        resolve_theme(&params("auto-matugen", Some("a.png")), None),
        Resolution::FromSourceColor
    ));
}

#[test]
fn auto_without_an_image_is_dark() {
    let t = resolved(resolve_theme(&params("auto", None), None));
    assert!(same(&t, &dark_theme()));
    let t = resolved(resolve_theme(&params("auto-matugen", None), None));
    assert!(same(&t, &dark_theme()));
}

#[test]
fn a_theme_of_the_user_may_be_called_auto() {
    let cfg = config(&[("auto", theme(&[("bg", "#010203")]))]);
    let t = resolved(resolve_theme(&params("auto", Some("a.png")), Some(&cfg)));
    assert_eq!(t.get("bg").unwrap(), "#010203");
}

#[test]
fn seed_is_the_most_dominant_colour() {
    let mut data = Vec::new();
    for _ in 0..256 {
        data.extend_from_slice(&[200, 40, 40, 255]);
    }
    let image = Raster { file_size: 1024, width: 16, height: 16, pixels: data };
    assert_eq!(auto_seed(Some(&image)), Some(Rgb { r: 204, g: 44, b: 44 }));
    assert_eq!(auto_seed(None), None);
    let broken = Raster { file_size: 1024, width: 16, height: 17, pixels: image.pixels };
    assert_eq!(auto_seed(Some(&broken)), None);
}

#[test]
fn auto_theme_is_the_palette_of_the_seed() {
    let t = resolve_auto_theme(Some(rgb(0xe94560)), None);
    assert!(same(&t, &fallback_palette(rgb(0xe94560)).to_theme()));
    assert_eq!(t.get("secondary").unwrap(), "#814425");
    let scheme = PerceptualScheme {
        base: rgb(1),
        base_high: rgb(2),
        muted: rgb(3),
        text: rgb(4),
        fg_accents: [rgb(5), rgb(6), rgb(7), rgb(8)],
    };
    let t = resolve_auto_theme(Some(rgb(0xe94560)), Some(scheme));
    assert_eq!(t.get("bg").unwrap(), "#000001");
    assert_eq!(t.get("secondary").unwrap(), "#000008");
}

#[test]
fn auto_theme_without_a_seed_is_dark() {
    assert!(same(&resolve_auto_theme(None, None), &dark_theme()));
}

#[test]
fn tonal_scheme_is_laid_out_over_the_roles() {
    let scheme = TonalScheme {
        background: rgb(1),
        surface: rgb(2),
        primary: rgb(3),
        secondary: rgb(4),
        tertiary: rgb(5),
        on_background: rgb(6),
        outline: rgb(7),
        primary_container: rgb(8),
    };
    let p = tonal_palette(&scheme);
    assert_eq!(p.bg, rgb(1));
    assert_eq!(p.surface, rgb(2));
    assert_eq!(p.primary, rgb(3));
    assert_eq!(p.secondary, rgb(4));
    assert_eq!(p.accent, rgb(5));
    assert_eq!(p.text, rgb(6));
    assert_eq!(p.muted, rgb(7));
    assert_eq!(p.highlight, rgb(8));
}

fn numbered_scheme() -> TonalScheme {
    TonalScheme {
        background: rgb(1),
        surface: rgb(2),
        primary: rgb(3),
        secondary: rgb(4),
        tertiary: rgb(5),
        on_background: rgb(6),
        outline: rgb(7),
        primary_container: rgb(8),
    }
}

#[test]
fn tonal_theme_without_a_scheme_is_dark() {
    assert!(same(&resolve_matugen_theme(None), &dark_theme()));
}

#[test]
fn tonal_theme_is_the_scheme_over_the_roles() {
    let t = resolve_matugen_theme(Some(numbered_scheme()));
    assert_eq!(t.len(), 8);
    assert_eq!(t.get("bg").unwrap(), "#000001");
    assert_eq!(t.get("surface").unwrap(), "#000002");
    assert_eq!(t.get("primary").unwrap(), "#000003");
    assert_eq!(t.get("secondary").unwrap(), "#000004");
    assert_eq!(t.get("accent").unwrap(), "#000005");
    assert_eq!(t.get("text").unwrap(), "#000006");
    assert_eq!(t.get("muted").unwrap(), "#000007");
    assert_eq!(t.get("highlight").unwrap(), "#000008");
}

#[test]
fn no_source_colour_gives_no_scheme() {
    assert_eq!(tonal_scheme(None), None);
    assert!(tonal_scheme(Some(rgb(0x000000))).is_some());
    assert!(tonal_scheme(Some(rgb(0xffffff))).is_some());
    assert!(tonal_scheme(Some(rgb(0x808080))).is_some());
}

#[test]
fn tonal_scheme_is_dark_with_light_text() {
    let s = tonal_scheme(Some(rgb(0x4285f4))).unwrap();
    let sum = |c: Rgb| c.r as u32 + c.g as u32 + c.b as u32;
    assert!(sum(s.background) < 120);
    assert!(sum(s.surface) < 120);
    assert!(sum(s.on_background) > 600);
    assert!(sum(s.primary) > sum(s.primary_container));
    assert_ne!(s.background, s.primary);
    assert_ne!(s.primary, rgb(0x4285f4));
}

#[test]
fn whole_resolution() {
    let nothing = ImageFindings { seed: None, perceptual: None, scheme: None };
    let found = ImageFindings {
        seed: Some(rgb(0xe94560)),
        perceptual: None,
        scheme: Some(numbered_scheme()),
    };
    let t = resolve(&params("nord", None), None, &nothing);
    assert_eq!(t.get("bg").unwrap(), "#2e3440");
    let t = resolve(&params("unknown-theme", None), None, &found);
    assert!(same(&t, &dark_theme()));
    let t = resolve(&params("auto", Some("a.png")), None, &found);
    assert!(same(&t, &fallback_palette(rgb(0xe94560)).to_theme()));
    let t = resolve(&params("auto", Some("a.png")), None, &nothing);
    assert!(same(&t, &dark_theme()));
    let t = resolve(&params("auto", None), None, &found);
    assert!(same(&t, &dark_theme()));
    let t = resolve(&params("auto-matugen", Some("a.png")), None, &found);
    assert!(same(&t, &resolve_matugen_theme(Some(numbered_scheme()))));
    assert_eq!(t.get("accent").unwrap(), "#000005");
    let t = resolve(&params("auto-matugen", Some("a.png")), None, &nothing);
    assert!(same(&t, &dark_theme()));
    let t = resolve(&params("auto-matugen", None), None, &found);
    assert!(same(&t, &dark_theme()));
    let cfg = config(&[("auto", theme(&[("bg", "#010203")]))]);
    let t = resolve(&params("auto", Some("a.png")), Some(&cfg), &found);
    assert_eq!(t.get("bg").unwrap(), "#010203");
}

#[test]
fn accent_of_a_post() {
    let mut p = params("dark", Some("a.png"));
    p.accent = "#123456".to_string();
    assert!(!wants_suggested_accent(&p));
    assert_eq!(final_accent(&p, None), "#123456");
    assert_eq!(final_accent(&p, Some("#abcdef")), "#123456");
    p.auto_accent = true;
    assert!(wants_suggested_accent(&p));
    assert_eq!(final_accent(&p, Some("#abcdef")), "#abcdef");
    assert_eq!(final_accent(&p, None), "#123456");
    p.image = None;
    assert!(!wants_suggested_accent(&p));
    assert_eq!(final_accent(&p, Some("#abcdef")), "#123456");
}

#[test]
fn tonal_scheme_of_every_grey_and_of_a_grid_of_colours() {
    for v in 0..=255u8 {
        assert!(tonal_scheme(Some(Rgb { r: v, g: v, b: v })).is_some());
    }
    for r in (0..=255u8).step_by(17) {
        for g in (0..=255u8).step_by(17) {
            for b in (0..=255u8).step_by(17) {
                let s = tonal_scheme(Some(Rgb { r, g, b })).unwrap();
                let t = resolve_matugen_theme(Some(s));
                assert_eq!(t.len(), 8);
                assert_eq!(t.get("bg").unwrap(), &s.background.to_hex());
                assert_eq!(t.get("highlight").unwrap(), &s.primary_container.to_hex());
            }
        }
    }
}
