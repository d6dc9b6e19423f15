//! The platforms with their pixel sizes, and the two basic themes.

use crate::config::Config;
use crate::strmap::StrMap;
use crate::themes::predefined::{DARK, LIGHT};
use crate::themes::{palette_of_roles, theme_of, Palette, ThemeCatalog};
use vstd::prelude::*;
use vstd::string::*;

verus! {

/// The width and height in pixels of each platform's image.
pub open spec fn platforms() -> Map<Seq<char>, (u32, u32)> {
    map![
        "instagram-post"@ => (1080u32, 1080u32),
        "instagram-carousel"@ => (1080u32, 1350u32),
        "instagram-story"@ => (1080u32, 1920u32),
        "facebook-post"@ => (1200u32, 630u32),
        "twitter-post"@ => (1600u32, 900u32),
        "linkedin-post"@ => (1200u32, 627u32),
        "og-image"@ => (1200u32, 630u32),
    ]
}

/// The width and height in pixels of each platform's image.
pub fn get_platforms() -> (m: StrMap<(u32, u32)>)
    ensures
        m@ == platforms(),
{
    let mut m: StrMap<(u32, u32)> = StrMap::new();
    m.insert(String::from_str("instagram-post"), (1080, 1080));
    m.insert(String::from_str("instagram-carousel"), (1080, 1350));
    m.insert(String::from_str("instagram-story"), (1080, 1920));
    m.insert(String::from_str("facebook-post"), (1200, 630));
    m.insert(String::from_str("twitter-post"), (1600, 900));
    m.insert(String::from_str("linkedin-post"), (1200, 627));
    m.insert(String::from_str("og-image"), (1200, 630));
    m
}

/// The two basic themes, dark and light.
pub open spec fn basic_themes() -> Map<Seq<char>, Map<Seq<char>, Seq<char>>> {
    map![
        "dark"@ => theme_of(palette_of_roles(DARK)),
        "light"@ => theme_of(palette_of_roles(LIGHT)),
    ]
}

/// The two basic themes with the themes of the user laid over them. A theme
/// of the user stands in place of the basic theme of its name, and the other
/// basic theme stays.
pub open spec fn basic_theme_palettes(config: Option<&Config>) -> Map<
    Seq<char>,
    Map<Seq<char>, Seq<char>>,
> {
    match config {
        Some(cfg) => match cfg.themes {
            Some(themes) => basic_themes().union_prefer_right(themes@),
            None => basic_themes(),
        },
        None => basic_themes(),
    }
}

/// The two basic themes, dark and light, and over them a copy of each theme
/// that the configuration defines.
pub fn get_theme_palettes(config: Option<&Config>) -> (m: ThemeCatalog)
    ensures
        m@ == basic_theme_palettes(config),
{
    let mut m: ThemeCatalog = StrMap::new();
    m.insert(String::from_str("dark"), Palette::from_roles(&DARK).to_theme());
    m.insert(String::from_str("light"), Palette::from_roles(&LIGHT).to_theme());
    if let Some(cfg) = config {
        if let Some(themes) = &cfg.themes {
            m.overlay(themes);
        }
    }
    m
}

} // verus!
