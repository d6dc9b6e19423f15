use rrss_cli_rs::colors::Rgb;
use rrss_cli_rs::config::Config;
use rrss_cli_rs::constants;
use rrss_cli_rs::strmap::StrMap;
use rrss_cli_rs::themes::predefined::{builtin_catalog, get_theme_palettes, NORD};
use rrss_cli_rs::themes::{map_base16, Palette, Role, Theme, ThemeCatalog};

fn theme(entries: &[(&str, &str)]) -> Theme {
    let mut t: Theme = StrMap::new();
    for (k, v) in entries {
        t.insert(k.to_string(), v.to_string());
    }
    t
}

fn expect(t: &Theme, entries: &[(&str, &str)]) {
    assert_eq!(t.len(), entries.len());
    for (k, v) in entries {
        assert_eq!(t.get(k).map(|s| s.as_str()), Some(*v), "role {}", k);
    }
}

#[test]
fn role_names_are_the_eight() {
    let names: Vec<&str> = [
        Role::Bg,
        Role::Surface,
        Role::Primary,
        Role::Secondary,
        Role::Accent,
        Role::Text,
        Role::Muted,
        Role::Highlight,
    ]
    .iter()
    .map(|r| r.as_str())
    .collect();
    assert_eq!(
        names,
        vec!["bg", "surface", "primary", "secondary", "accent", "text", "muted", "highlight"]
    );
}

#[test]
fn base16_slots_go_to_their_roles() {
    let mut slots = [0u32; 16];
    for (i, s) in slots.iter_mut().enumerate() {
        *s = i as u32;
    }
    let p = map_base16(&slots);
    assert_eq!(p.bg, Rgb::from_u32(0));
    assert_eq!(p.surface, Rgb::from_u32(1));
    assert_eq!(p.muted, Rgb::from_u32(3));
    assert_eq!(p.text, Rgb::from_u32(5));
    assert_eq!(p.primary, Rgb::from_u32(8));
    assert_eq!(p.highlight, Rgb::from_u32(9));
    assert_eq!(p.accent, Rgb::from_u32(12));
    assert_eq!(p.secondary, Rgb::from_u32(14));
}

#[test]
fn palette_becomes_a_theme_in_role_order() {
    let t = map_base16(&NORD).to_theme();
    let keys: Vec<String> = (0..t.len()).map(|i| t.key_at(i).clone()).collect();
    assert_eq!(
        keys,
        vec!["bg", "surface", "primary", "secondary", "accent", "text", "muted", "highlight"]
    );
    assert_eq!(t.value_at(0), "#2e3440");
    assert_eq!(t.value_at(7), "#d08770");
}

#[test]
fn palette_from_roles() {
    let p = Palette::from_roles(&[1, 2, 3, 4, 5, 6, 7, 8]);
    assert_eq!(p.bg, Rgb::from_u32(1));
    assert_eq!(p.surface, Rgb::from_u32(2));
    assert_eq!(p.primary, Rgb::from_u32(3));
    assert_eq!(p.secondary, Rgb::from_u32(4));
    assert_eq!(p.accent, Rgb::from_u32(5));
    assert_eq!(p.text, Rgb::from_u32(6));
    assert_eq!(p.muted, Rgb::from_u32(7));
    assert_eq!(p.highlight, Rgb::from_u32(8));
}

#[test]
fn sixteen_built_in_themes() {
    let catalog = builtin_catalog();
    assert_eq!(catalog.len(), 16);
    for name in [
        "dark",
        "light",
        "ocean",
        "sunset",
        "forest",
        "nord",
        "gruvbox-dark",
        "catppuccin-mocha",
        "tokyo-night",
        "dracula",
        "one-dark",
        "rose-pine",
        "catppuccin-latte",
        "gruvbox-light",
        "solarized-dark",
        "solarized-light",
    ] {
        let t = catalog.get(name).unwrap();
        assert_eq!(t.len(), 8, "theme {}", name);
    }
    assert!(catalog.get("auto").is_none());
    assert!(!catalog.contains_key("Dark"));
}

#[test]
fn dark_theme() {
    expect(
        builtin_catalog().get("dark").unwrap(),
        &[
            ("bg", "#0f0f0f"),
            ("surface", "#1a1a2e"),
            ("primary", "#e94560"),
            ("secondary", "#533483"),
            ("accent", "#0f3460"),
            ("text", "#f5f5f5"),
            ("muted", "#a0a0a0"),
            ("highlight", "#ffd369"),
        ],
    );
}

#[test]
fn light_theme() {
    expect(
        builtin_catalog().get("light").unwrap(),
        &[
            ("bg", "#fafafa"),
            ("surface", "#ffffff"),
            ("primary", "#e94560"),
            ("secondary", "#6c5ce7"),
            ("accent", "#00b894"),
            ("text", "#1a1a2e"),
            ("muted", "#6b7280"),
            ("highlight", "#fdcb6e"),
        ],
    );
}

#[test]
fn ocean_sunset_and_forest() {
    let catalog = builtin_catalog();
    expect(
        catalog.get("ocean").unwrap(),
        &[
            ("bg", "#0a192f"),
            ("surface", "#112240"),
            ("primary", "#64ffda"),
            ("secondary", "#8892b0"),
            ("accent", "#233554"),
            ("text", "#ccd6f6"),
            ("muted", "#8892b0"),
            ("highlight", "#64ffda"),
        ],
    );
    expect(
        catalog.get("sunset").unwrap(),
        &[
            ("bg", "#1a1a2e"),
            ("surface", "#16213e"),
            ("primary", "#ff6b6b"),
            ("secondary", "#feca57"),
            ("accent", "#ff9ff3"),
            ("text", "#f5f5f5"),
            ("muted", "#a0a0a0"),
            ("highlight", "#feca57"),
        ],
    );
    expect(
        catalog.get("forest").unwrap(),
        &[
            ("bg", "#1b2d1b"),
            ("surface", "#2d4a2d"),
            ("primary", "#a8e6cf"),
            ("secondary", "#dcedc1"),
            ("accent", "#ffd3b6"),
            ("text", "#f0f0f0"),
            ("muted", "#98b898"),
            ("highlight", "#ffaaa5"),
        ],
    );
}

#[test]
fn nord_theme() {
    expect(
        builtin_catalog().get("nord").unwrap(),
        &[
            ("bg", "#2e3440"),
            ("surface", "#3b4252"),
            ("muted", "#4c566a"),
            ("text", "#e5e9f0"),
            ("primary", "#bf616a"),
            ("highlight", "#d08770"),
            ("accent", "#88c0d0"),
            ("secondary", "#b48ead"),
        ],
    );
}

#[test]
fn base16_family() {
    let catalog = builtin_catalog();
    expect(
        catalog.get("gruvbox-dark").unwrap(),
        &[
            ("bg", "#282828"),
            ("surface", "#3c3836"),
            ("muted", "#665c54"),
            ("text", "#d5c4a1"),
            ("primary", "#fb4934"),
            ("highlight", "#fe8019"),
            ("accent", "#8ec07c"),
            ("secondary", "#d3869b"),
        ],
    );
    expect(
        catalog.get("catppuccin-mocha").unwrap(),
        &[
            ("bg", "#1e1e2e"),
            ("surface", "#181825"),
            ("muted", "#45475a"),
            ("text", "#cdd6f4"),
            ("primary", "#f38ba8"),
            ("highlight", "#fab387"),
            ("accent", "#94e2d5"),
            ("secondary", "#cba6f7"),
        ],
    );
    expect(
        catalog.get("tokyo-night").unwrap(),
        &[
            ("bg", "#1a1b26"),
            ("surface", "#16161e"),
            ("muted", "#414868"),
            ("text", "#cfc9c2"),
            ("primary", "#f7768e"),
            ("highlight", "#ff9e64"),
            ("accent", "#73daca"),
            ("secondary", "#bb9af7"),
        ],
    );
    expect(
        catalog.get("dracula").unwrap(),
        &[
            ("bg", "#282a36"),
            ("surface", "#44475a"),
            ("muted", "#6272a4"),
            ("text", "#f8f8f2"),
            ("primary", "#ff5555"),
            ("highlight", "#ffb86c"),
            ("accent", "#8be9fd"),
            ("secondary", "#ff79c6"),
        ],
    );
    expect(
        catalog.get("one-dark").unwrap(),
        &[
            ("bg", "#282c34"),
            ("surface", "#353b45"),
            ("muted", "#545862"),
            ("text", "#abb2bf"),
            ("primary", "#e06c75"),
            ("highlight", "#d19a66"),
            ("accent", "#56b6c2"),
            ("secondary", "#c678dd"),
        ],
    );
    expect(
        catalog.get("rose-pine").unwrap(),
        &[
            ("bg", "#191724"),
            ("surface", "#1f1d2e"),
            ("muted", "#6e6a86"),
            ("text", "#e0def4"),
            ("primary", "#eb6f92"),
            ("highlight", "#f6c177"),
            ("accent", "#9ccfd8"),
            ("secondary", "#f6c177"),
        ],
    );
    expect(
        catalog.get("catppuccin-latte").unwrap(),
        &[
            ("bg", "#eff1f5"),
            ("surface", "#e6e9ef"),
            ("muted", "#bcc0cc"),
            ("text", "#4c4f69"),
            ("primary", "#d20f39"),
            ("highlight", "#fe640b"),
            ("accent", "#179299"),
            ("secondary", "#8839ef"),
        ],
    );
    expect(
        catalog.get("gruvbox-light").unwrap(),
        &[
            ("bg", "#fbf1c7"),
            ("surface", "#ebdbb2"),
            ("muted", "#bdae93"),
            ("text", "#3c3836"),
            ("primary", "#9d0006"),
            ("highlight", "#af3a03"),
            ("accent", "#427b58"),
            ("secondary", "#8f3f71"),
        ],
    );
    expect(
        catalog.get("solarized-dark").unwrap(),
        &[
            ("bg", "#002b36"),
            ("surface", "#073642"),
            ("muted", "#657b83"),
            ("text", "#93a1a1"),
            ("primary", "#dc322f"),
            ("highlight", "#cb4b16"),
            ("accent", "#2aa198"),
            ("secondary", "#6c71c4"),
        ],
    );
    expect(
        catalog.get("solarized-light").unwrap(),
        &[
            ("bg", "#fdf6e3"),
            ("surface", "#eee8d5"),
            ("muted", "#839496"),
            ("text", "#586e75"),
            ("primary", "#dc322f"),
            ("highlight", "#cb4b16"),
            ("accent", "#2aa198"),
            ("secondary", "#6c71c4"),
        ],
    );
}

#[test]
fn without_configuration_the_built_in_themes_are_used() {
    assert_eq!(get_theme_palettes(None).len(), 16);
    let empty = Config { themes: None };
    assert_eq!(get_theme_palettes(Some(&empty)).len(), 16);
}

#[test]
fn themes_of_the_user_are_laid_over_the_built_in_themes() {
    let mut themes: ThemeCatalog = StrMap::new();
    themes.insert("mine".to_string(), theme(&[("bg", "#010203"), ("primary", "tomato")]));
    themes.insert("nord".to_string(), theme(&[("bg", "#111111")]));
    let cfg = Config { themes: Some(themes) };
    let got = get_theme_palettes(Some(&cfg));
    assert_eq!(got.len(), 17);
    expect(got.get("mine").unwrap(), &[("bg", "#010203"), ("primary", "tomato")]);
    expect(got.get("nord").unwrap(), &[("bg", "#111111")]);
    let builtin = builtin_catalog();
    for name in [
        "dark",
        "light",
        "ocean",
        "sunset",
        "forest",
        "gruvbox-dark",
        "catppuccin-mocha",
        "tokyo-night",
        "dracula",
        "one-dark",
        "rose-pine",
        "catppuccin-latte",
        "gruvbox-light",
        "solarized-dark",
        "solarized-light",
    ] {
        let kept = got.get(name).unwrap();
        let own = builtin.get(name).unwrap();
        assert_eq!(kept.len(), 8, "theme {}", name);
        for i in 0..own.len() {
            assert_eq!(kept.get(own.key_at(i)), Some(own.value_at(i)), "theme {}", name);
        }
    }
    assert_eq!(got.get("dark").unwrap().get("bg").unwrap(), "#0f0f0f");
    assert!(got.get("other").is_none());
}

#[test]
fn no_themes_of_the_user_leave_the_built_in_themes() {
    let cfg = Config { themes: Some(StrMap::new()) };
    let got = get_theme_palettes(Some(&cfg));
    assert_eq!(got.len(), 16);
    assert_eq!(got.get("nord").unwrap().get("bg").unwrap(), "#2e3440");
}

#[test]
fn basic_themes_are_dark_and_light() {
    let got = constants::get_theme_palettes(None);
    assert_eq!(got.len(), 2);
    assert_eq!(got.get("dark").unwrap().get("bg").unwrap(), "#0f0f0f");
    assert_eq!(got.get("dark").unwrap().get("highlight").unwrap(), "#ffd369");
    assert_eq!(got.get("light").unwrap().get("bg").unwrap(), "#fafafa");
    assert_eq!(got.get("light").unwrap().get("accent").unwrap(), "#00b894");
    assert!(got.get("nord").is_none());
}

#[test]
fn themes_of_the_user_are_laid_over_the_basic_themes() {
    let mut themes: ThemeCatalog = StrMap::new();
    themes.insert("dark".to_string(), theme(&[("bg", "#111111")]));
    themes.insert("mine".to_string(), theme(&[("bg", "#010203")]));
    let cfg = Config { themes: Some(themes) };
    let got = constants::get_theme_palettes(Some(&cfg));
    assert_eq!(got.len(), 3);
    expect(got.get("dark").unwrap(), &[("bg", "#111111")]);
    expect(got.get("mine").unwrap(), &[("bg", "#010203")]);
    assert_eq!(got.get("light").unwrap().len(), 8);
    assert_eq!(got.get("light").unwrap().get("bg").unwrap(), "#fafafa");
    assert!(got.get("nord").is_none());
}

#[test]
fn platforms_and_their_sizes() {
    let p = constants::get_platforms();
    assert_eq!(p.len(), 7);
    assert_eq!(p.get("instagram-post"), Some(&(1080, 1080)));
    assert_eq!(p.get("instagram-carousel"), Some(&(1080, 1350)));
    assert_eq!(p.get("instagram-story"), Some(&(1080, 1920)));
    assert_eq!(p.get("facebook-post"), Some(&(1200, 630)));
    assert_eq!(p.get("twitter-post"), Some(&(1600, 900)));
    assert_eq!(p.get("linkedin-post"), Some(&(1200, 627)));
    assert_eq!(p.get("og-image"), Some(&(1200, 630)));
    assert_eq!(p.get("tiktok"), None);
}
