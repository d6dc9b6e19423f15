//! The built-in themes.
//!
//! Five themes give their eight colours directly; the others are base16
//! schemes, of whose sixteen slots eight are used.

use crate::config::Config;
use crate::strmap::StrMap;
use crate::themes::{
    map_base16, palette_of_base16, palette_of_roles, theme_of, Palette, ThemeCatalog,
};
use vstd::prelude::*;
use vstd::string::*;

verus! {

/// The dark theme, which is also the default. Colours in the order bg,
/// surface, primary, secondary, accent, text, muted, highlight.
pub const DARK: [u32; 8] = [
    0x0f0f0f, 0x1a1a2e, 0xe94560, 0x533483,
    0x0f3460, 0xf5f5f5, 0xa0a0a0, 0xffd369,
];

/// The light theme. Colours in the order bg, surface, primary, secondary,
/// accent, text, muted, highlight.
pub const LIGHT: [u32; 8] = [
    0xfafafa, 0xffffff, 0xe94560, 0x6c5ce7,
    0x00b894, 0x1a1a2e, 0x6b7280, 0xfdcb6e,
];

/// The ocean theme. Colours in the order bg, surface, primary, secondary,
/// accent, text, muted, highlight.
pub const OCEAN: [u32; 8] = [
    0x0a192f, 0x112240, 0x64ffda, 0x8892b0,
    0x233554, 0xccd6f6, 0x8892b0, 0x64ffda,
];

/// The sunset theme. Colours in the order bg, surface, primary, secondary,
/// accent, text, muted, highlight.
pub const SUNSET: [u32; 8] = [
    0x1a1a2e, 0x16213e, 0xff6b6b, 0xfeca57,
    0xff9ff3, 0xf5f5f5, 0xa0a0a0, 0xfeca57,
];

/// The forest theme. Colours in the order bg, surface, primary, secondary,
/// accent, text, muted, highlight.
pub const FOREST: [u32; 8] = [
    0x1b2d1b, 0x2d4a2d, 0xa8e6cf, 0xdcedc1,
    0xffd3b6, 0xf0f0f0, 0x98b898, 0xffaaa5,
];

/// The base16 scheme nord.
pub const NORD: [u32; 16] = [
    0x2e3440, 0x3b4252, 0x434c5e, 0x4c566a, 0xd8dee9, 0xe5e9f0, 0xeceff4, 0x8fbcbb,
    0xbf616a, 0xd08770, 0xebcb8b, 0xa3be8c, 0x88c0d0, 0x81a1c1, 0xb48ead, 0x5e81ac,
];

/// The base16 scheme gruvbox-dark.
pub const GRUVBOX_DARK: [u32; 16] = [
    0x282828, 0x3c3836, 0x504945, 0x665c54, 0xbdae93, 0xd5c4a1, 0xebdbb2, 0xfbf1c7,
    0xfb4934, 0xfe8019, 0xfabd2f, 0xb8bb26, 0x8ec07c, 0x83a598, 0xd3869b, 0xfe8019,
];

/// The base16 scheme catppuccin-mocha.
pub const CATPPUCCIN_MOCHA: [u32; 16] = [
    0x1e1e2e, 0x181825, 0x313244, 0x45475a, 0x585b70, 0xcdd6f4, 0xf5e0dc, 0xb4befe,
    0xf38ba8, 0xfab387, 0xf9e2af, 0xa6e3a1, 0x94e2d5, 0x89b4fa, 0xcba6f7, 0xf2cdcd,
];

/// The base16 scheme tokyo-night.
pub const TOKYO_NIGHT: [u32; 16] = [
    0x1a1b26, 0x16161e, 0x24283b, 0x414868, 0x565f89, 0xcfc9c2, 0xa9b1d6, 0xc0caf5,
    0xf7768e, 0xff9e64, 0xe0af68, 0x9ece6a, 0x73daca, 0x7aa2f7, 0xbb9af7, 0x2ac3de,
];

/// The base16 scheme dracula.
pub const DRACULA: [u32; 16] = [
    0x282a36, 0x44475a, 0x44475a, 0x6272a4, 0x6272a4, 0xf8f8f2, 0xf8f8f2, 0xffffff,
    0xff5555, 0xffb86c, 0xf1fa8c, 0x50fa7b, 0x8be9fd, 0xbd93f9, 0xff79c6, 0xbd93f9,
];

/// The base16 scheme one-dark.
pub const ONE_DARK: [u32; 16] = [
    0x282c34, 0x353b45, 0x3e4451, 0x545862, 0x565c64, 0xabb2bf, 0xb6bdca, 0xc8ccd4,
    0xe06c75, 0xd19a66, 0xe5c07b, 0x98c379, 0x56b6c2, 0x61afef, 0xc678dd, 0xbe5046,
];

/// The base16 scheme rose-pine.
pub const ROSE_PINE: [u32; 16] = [
    0x191724, 0x1f1d2e, 0x26233a, 0x6e6a86, 0x908caa, 0xe0def4, 0xe0def4, 0x524f67,
    0xeb6f92, 0xf6c177, 0xebbcba, 0x31748f, 0x9ccfd8, 0xc4a7e7, 0xf6c177, 0x524f67,
];

/// The base16 scheme catppuccin-latte.
pub const CATPPUCCIN_LATTE: [u32; 16] = [
    0xeff1f5, 0xe6e9ef, 0xccd0da, 0xbcc0cc, 0xacb0be, 0x4c4f69, 0x5c5f77, 0x6c6f85,
    0xd20f39, 0xfe640b, 0xdf8e1d, 0x40a02b, 0x179299, 0x1e66f5, 0x8839ef, 0xea76cb,
];

/// The base16 scheme gruvbox-light.
pub const GRUVBOX_LIGHT: [u32; 16] = [
    0xfbf1c7, 0xebdbb2, 0xd5c4a1, 0xbdae93, 0x665c54, 0x3c3836, 0x282828, 0x1d2021,
    0x9d0006, 0xaf3a03, 0xb57614, 0x79740e, 0x427b58, 0x076678, 0x8f3f71, 0xaf3a03,
];

/// The base16 scheme solarized-dark.
pub const SOLARIZED_DARK: [u32; 16] = [
    0x002b36, 0x073642, 0x586e75, 0x657b83, 0x839496, 0x93a1a1, 0xeee8d5, 0xfdf6e3,
    0xdc322f, 0xcb4b16, 0xb58900, 0x859900, 0x2aa198, 0x268bd2, 0x6c71c4, 0xd33682,
];

/// The base16 scheme solarized-light.
pub const SOLARIZED_LIGHT: [u32; 16] = [
    0xfdf6e3, 0xeee8d5, 0x93a1a1, 0x839496, 0x657b83, 0x586e75, 0x073642, 0x002b36,
    0xdc322f, 0xcb4b16, 0xb58900, 0x859900, 0x2aa198, 0x268bd2, 0x6c71c4, 0xd33682,
];

/// The built-in themes by name.
#[verifier::opaque]
pub open spec fn builtin_themes() -> Map<Seq<char>, Map<Seq<char>, Seq<char>>> {
    map![
        "dark"@ => theme_of(palette_of_roles(DARK)),
        "light"@ => theme_of(palette_of_roles(LIGHT)),
        "ocean"@ => theme_of(palette_of_roles(OCEAN)),
        "sunset"@ => theme_of(palette_of_roles(SUNSET)),
        "forest"@ => theme_of(palette_of_roles(FOREST)),
        "nord"@ => theme_of(palette_of_base16(NORD)),
        "gruvbox-dark"@ => theme_of(palette_of_base16(GRUVBOX_DARK)),
        "catppuccin-mocha"@ => theme_of(palette_of_base16(CATPPUCCIN_MOCHA)),
        "tokyo-night"@ => theme_of(palette_of_base16(TOKYO_NIGHT)),
        "dracula"@ => theme_of(palette_of_base16(DRACULA)),
        "one-dark"@ => theme_of(palette_of_base16(ONE_DARK)),
        "rose-pine"@ => theme_of(palette_of_base16(ROSE_PINE)),
        "catppuccin-latte"@ => theme_of(palette_of_base16(CATPPUCCIN_LATTE)),
        "gruvbox-light"@ => theme_of(palette_of_base16(GRUVBOX_LIGHT)),
        "solarized-dark"@ => theme_of(palette_of_base16(SOLARIZED_DARK)),
        "solarized-light"@ => theme_of(palette_of_base16(SOLARIZED_LIGHT)),
    ]
}

/// Whether a text is the name of a built-in theme.
pub open spec fn is_builtin_name(name: Seq<char>) -> bool {
    ||| name == "dark"@
    ||| name == "light"@
    ||| name == "ocean"@
    ||| name == "sunset"@
    ||| name == "forest"@
    ||| name == "nord"@
    ||| name == "gruvbox-dark"@
    ||| name == "catppuccin-mocha"@
    ||| name == "tokyo-night"@
    ||| name == "dracula"@
    ||| name == "one-dark"@
    ||| name == "rose-pine"@
    ||| name == "catppuccin-latte"@
    ||| name == "gruvbox-light"@
    ||| name == "solarized-dark"@
    ||| name == "solarized-light"@
}

/// The names of the built-in themes are the sixteen that are listed.
pub proof fn lemma_builtin_names()
    ensures
        forall|name: Seq<char>| builtin_themes().contains_key(name) <==> is_builtin_name(name),
{
    reveal(builtin_themes);
}

/// Each built-in theme is the theme of its own palette.
pub proof fn lemma_builtin_themes()
    ensures
        builtin_themes()["dark"@] == theme_of(palette_of_roles(DARK)),
        builtin_themes()["light"@] == theme_of(palette_of_roles(LIGHT)),
        builtin_themes()["ocean"@] == theme_of(palette_of_roles(OCEAN)),
        builtin_themes()["sunset"@] == theme_of(palette_of_roles(SUNSET)),
        builtin_themes()["forest"@] == theme_of(palette_of_roles(FOREST)),
        builtin_themes()["nord"@] == theme_of(palette_of_base16(NORD)),
        builtin_themes()["gruvbox-dark"@] == theme_of(palette_of_base16(GRUVBOX_DARK)),
        builtin_themes()["catppuccin-mocha"@] == theme_of(palette_of_base16(CATPPUCCIN_MOCHA)),
        builtin_themes()["tokyo-night"@] == theme_of(palette_of_base16(TOKYO_NIGHT)),
        builtin_themes()["dracula"@] == theme_of(palette_of_base16(DRACULA)),
        builtin_themes()["one-dark"@] == theme_of(palette_of_base16(ONE_DARK)),
        builtin_themes()["rose-pine"@] == theme_of(palette_of_base16(ROSE_PINE)),
        builtin_themes()["catppuccin-latte"@] == theme_of(palette_of_base16(CATPPUCCIN_LATTE)),
        builtin_themes()["gruvbox-light"@] == theme_of(palette_of_base16(GRUVBOX_LIGHT)),
        builtin_themes()["solarized-dark"@] == theme_of(palette_of_base16(SOLARIZED_DARK)),
        builtin_themes()["solarized-light"@] == theme_of(palette_of_base16(SOLARIZED_LIGHT)),
{
    reveal(builtin_themes);
    reveal_strlit("dark");
    reveal_strlit("light");
    reveal_strlit("ocean");
    reveal_strlit("sunset");
    reveal_strlit("forest");
    reveal_strlit("nord");
    reveal_strlit("gruvbox-dark");
    reveal_strlit("catppuccin-mocha");
    reveal_strlit("tokyo-night");
    reveal_strlit("dracula");
    reveal_strlit("one-dark");
    reveal_strlit("rose-pine");
    reveal_strlit("catppuccin-latte");
    reveal_strlit("gruvbox-light");
    reveal_strlit("solarized-dark");
    reveal_strlit("solarized-light");
    assert("dark"@.len() == 4);
    assert("light"@.len() == 5);
    assert("ocean"@.len() == 5);
    assert("sunset"@.len() == 6);
    assert("forest"@.len() == 6);
    assert("nord"@.len() == 4);
    assert("gruvbox-dark"@.len() == 12);
    assert("catppuccin-mocha"@.len() == 16);
    assert("tokyo-night"@.len() == 11);
    assert("dracula"@.len() == 7);
    assert("one-dark"@.len() == 8);
    assert("rose-pine"@.len() == 9);
    assert("catppuccin-latte"@.len() == 16);
    assert("gruvbox-light"@.len() == 13);
    assert("solarized-dark"@.len() == 14);
    assert("solarized-light"@.len() == 15);
    assert("dark"@[0] != "nord"@[0]);
    assert("light"@[0] != "ocean"@[0]);
    assert("sunset"@[0] != "forest"@[0]);
    assert("catppuccin-mocha"@[11] != "catppuccin-latte"@[11]);
}

/// The name of each built-in theme, by its place in the catalog.
pub open spec fn builtin_name(i: int) -> Seq<char> {
    if i == 0 {
        "dark"@
    } else if i == 1 {
        "light"@
    } else if i == 2 {
        "ocean"@
    } else if i == 3 {
        "sunset"@
    } else if i == 4 {
        "forest"@
    } else if i == 5 {
        "nord"@
    } else if i == 6 {
        "gruvbox-dark"@
    } else if i == 7 {
        "catppuccin-mocha"@
    } else if i == 8 {
        "tokyo-night"@
    } else if i == 9 {
        "dracula"@
    } else if i == 10 {
        "one-dark"@
    } else if i == 11 {
        "rose-pine"@
    } else if i == 12 {
        "catppuccin-latte"@
    } else if i == 13 {
        "gruvbox-light"@
    } else if i == 14 {
        "solarized-dark"@
    } else {
        "solarized-light"@
    }
}

/// The palette of each built-in theme, by its place in the catalog.
pub open spec fn builtin_palette(i: int) -> Palette {
    if i == 0 {
        palette_of_roles(DARK)
    } else if i == 1 {
        palette_of_roles(LIGHT)
    } else if i == 2 {
        palette_of_roles(OCEAN)
    } else if i == 3 {
        palette_of_roles(SUNSET)
    } else if i == 4 {
        palette_of_roles(FOREST)
    } else if i == 5 {
        palette_of_base16(NORD)
    } else if i == 6 {
        palette_of_base16(GRUVBOX_DARK)
    } else if i == 7 {
        palette_of_base16(CATPPUCCIN_MOCHA)
    } else if i == 8 {
        palette_of_base16(TOKYO_NIGHT)
    } else if i == 9 {
        palette_of_base16(DRACULA)
    } else if i == 10 {
        palette_of_base16(ONE_DARK)
    } else if i == 11 {
        palette_of_base16(ROSE_PINE)
    } else if i == 12 {
        palette_of_base16(CATPPUCCIN_LATTE)
    } else if i == 13 {
        palette_of_base16(GRUVBOX_LIGHT)
    } else if i == 14 {
        palette_of_base16(SOLARIZED_DARK)
    } else {
        palette_of_base16(SOLARIZED_LIGHT)
    }
}

/// The built-in theme at each place of the catalog is the theme of the
/// palette at that place, under the name at that place.
pub proof fn lemma_builtin_theme(i: int)
    requires
        0 <= i < 16,
    ensures
        is_builtin_name(builtin_name(i)),
        builtin_themes().contains_key(builtin_name(i)),
        builtin_themes()[builtin_name(i)] == theme_of(builtin_palette(i)),
{
    lemma_builtin_name_is_a_key(i);
    lemma_builtin_value(i);
}

proof fn lemma_builtin_name_is_a_key(i: int)
    requires
        0 <= i < 16,
    ensures
        is_builtin_name(builtin_name(i)),
        builtin_themes().contains_key(builtin_name(i)),
{
    let name = builtin_name(i);
    assert(is_builtin_name(name));
    assert(builtin_themes().contains_key(name)) by {
        lemma_builtin_names();
    }
}

proof fn lemma_builtin_value(i: int)
    requires
        0 <= i < 16,
    ensures
        builtin_themes()[builtin_name(i)] == theme_of(builtin_palette(i)),
{
    lemma_builtin_themes();
}

/// Every built-in theme is the theme of a palette: it has the eight roles,
/// each with the text of a colour.
pub proof fn lemma_builtin_theme_is_a_palette(name: Seq<char>)
    requires
        is_builtin_name(name),
    ensures
        exists|p: Palette| builtin_themes()[name] == #[trigger] theme_of(p),
{
    lemma_builtin_themes();
    if name == "dark"@ {
        assert(builtin_themes()[name] == theme_of(palette_of_roles(DARK)));
    } else if name == "light"@ {
        assert(builtin_themes()[name] == theme_of(palette_of_roles(LIGHT)));
    } else if name == "ocean"@ {
        assert(builtin_themes()[name] == theme_of(palette_of_roles(OCEAN)));
    } else if name == "sunset"@ {
        assert(builtin_themes()[name] == theme_of(palette_of_roles(SUNSET)));
    } else if name == "forest"@ {
        assert(builtin_themes()[name] == theme_of(palette_of_roles(FOREST)));
    } else if name == "nord"@ {
        assert(builtin_themes()[name] == theme_of(palette_of_base16(NORD)));
    } else if name == "gruvbox-dark"@ {
        assert(builtin_themes()[name] == theme_of(palette_of_base16(GRUVBOX_DARK)));
    } else if name == "catppuccin-mocha"@ {
        assert(builtin_themes()[name] == theme_of(palette_of_base16(CATPPUCCIN_MOCHA)));
    } else if name == "tokyo-night"@ {
        assert(builtin_themes()[name] == theme_of(palette_of_base16(TOKYO_NIGHT)));
    } else if name == "dracula"@ {
        assert(builtin_themes()[name] == theme_of(palette_of_base16(DRACULA)));
    } else if name == "one-dark"@ {
        assert(builtin_themes()[name] == theme_of(palette_of_base16(ONE_DARK)));
    } else if name == "rose-pine"@ {
        assert(builtin_themes()[name] == theme_of(palette_of_base16(ROSE_PINE)));
    } else if name == "catppuccin-latte"@ {
        assert(builtin_themes()[name] == theme_of(palette_of_base16(CATPPUCCIN_LATTE)));
    } else if name == "gruvbox-light"@ {
        assert(builtin_themes()[name] == theme_of(palette_of_base16(GRUVBOX_LIGHT)));
    } else if name == "solarized-dark"@ {
        assert(builtin_themes()[name] == theme_of(palette_of_base16(SOLARIZED_DARK)));
    } else {
        assert(builtin_themes()[name] == theme_of(palette_of_base16(SOLARIZED_LIGHT)));
    }
}

/// The names `auto` and `auto-matugen` are no built-in theme's.
pub proof fn lemma_auto_names_are_free()
    ensures
        !is_builtin_name("auto"@),
        !is_builtin_name("auto-matugen"@),
{
    reveal_strlit("dark");
    reveal_strlit("light");
    reveal_strlit("ocean");
    reveal_strlit("sunset");
    reveal_strlit("forest");
    reveal_strlit("nord");
    reveal_strlit("gruvbox-dark");
    reveal_strlit("catppuccin-mocha");
    reveal_strlit("tokyo-night");
    reveal_strlit("dracula");
    reveal_strlit("one-dark");
    reveal_strlit("rose-pine");
    reveal_strlit("catppuccin-latte");
    reveal_strlit("gruvbox-light");
    reveal_strlit("solarized-dark");
    reveal_strlit("solarized-light");
    reveal_strlit("auto");
    reveal_strlit("auto-matugen");
    assert("dark"@.len() == 4);
    assert("light"@.len() == 5);
    assert("ocean"@.len() == 5);
    assert("sunset"@.len() == 6);
    assert("forest"@.len() == 6);
    assert("nord"@.len() == 4);
    assert("gruvbox-dark"@.len() == 12);
    assert("catppuccin-mocha"@.len() == 16);
    assert("tokyo-night"@.len() == 11);
    assert("dracula"@.len() == 7);
    assert("one-dark"@.len() == 8);
    assert("rose-pine"@.len() == 9);
    assert("catppuccin-latte"@.len() == 16);
    assert("gruvbox-light"@.len() == 13);
    assert("solarized-dark"@.len() == 14);
    assert("solarized-light"@.len() == 15);
    assert("auto"@.len() == 4);
    assert("auto-matugen"@.len() == 12);
    assert("auto"@[0] != "dark"@[0]);
    assert("auto"@[0] != "nord"@[0]);
    assert("auto-matugen"@[0] != "gruvbox-dark"@[0]);
}

/// The themes that there are by name: the built-in themes with the themes of
/// the user laid over them. A theme of the user stands in place of the
/// built-in theme of its name, and every other built-in theme stays.
pub open spec fn theme_palettes(config: Option<&Config>) -> Map<
    Seq<char>,
    Map<Seq<char>, Seq<char>>,
> {
    match config {
        Some(cfg) => match cfg.themes {
            Some(themes) => builtin_themes().union_prefer_right(themes@),
            None => builtin_themes(),
        },
        None => builtin_themes(),
    }
}

/// The built-in themes by name.
pub fn builtin_catalog() -> (m: ThemeCatalog)
    ensures
        m@ == builtin_themes(),
{
    proof {
        reveal(builtin_themes);
    }
    let mut m: ThemeCatalog = StrMap::new();
    m.insert(String::from_str("dark"), Palette::from_roles(&DARK).to_theme());
    m.insert(String::from_str("light"), Palette::from_roles(&LIGHT).to_theme());
    m.insert(String::from_str("ocean"), Palette::from_roles(&OCEAN).to_theme());
    m.insert(String::from_str("sunset"), Palette::from_roles(&SUNSET).to_theme());
    m.insert(String::from_str("forest"), Palette::from_roles(&FOREST).to_theme());
    m.insert(String::from_str("nord"), map_base16(&NORD).to_theme());
    m.insert(String::from_str("gruvbox-dark"), map_base16(&GRUVBOX_DARK).to_theme());
    m.insert(String::from_str("catppuccin-mocha"), map_base16(&CATPPUCCIN_MOCHA).to_theme());
    m.insert(String::from_str("tokyo-night"), map_base16(&TOKYO_NIGHT).to_theme());
    m.insert(String::from_str("dracula"), map_base16(&DRACULA).to_theme());
    m.insert(String::from_str("one-dark"), map_base16(&ONE_DARK).to_theme());
    m.insert(String::from_str("rose-pine"), map_base16(&ROSE_PINE).to_theme());
    m.insert(String::from_str("catppuccin-latte"), map_base16(&CATPPUCCIN_LATTE).to_theme());
    m.insert(String::from_str("gruvbox-light"), map_base16(&GRUVBOX_LIGHT).to_theme());
    m.insert(String::from_str("solarized-dark"), map_base16(&SOLARIZED_DARK).to_theme());
    m.insert(String::from_str("solarized-light"), map_base16(&SOLARIZED_LIGHT).to_theme());
    m
}

/// The themes that there are by name: the built-in themes, and over them a
/// copy of each theme that the configuration defines.
pub fn get_theme_palettes(config: Option<&Config>) -> (m: ThemeCatalog)
    ensures
        m@ == theme_palettes(config),
{
    let mut m = builtin_catalog();
    if let Some(cfg) = config {
        if let Some(themes) = &cfg.themes {
            m.overlay(themes);
        }
    }
    m
}

} // verus!
