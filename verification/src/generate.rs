//! Resolving a theme name to a theme.
//!
//! A name is looked for among the user's themes, then among the built-in
//! ones. The names `auto` and `auto-matugen` ask for a theme made from the
//! post's image; making it needs the image, so the resolution stops there and
//! says what it needs. Every other name gives the dark theme.

use crate::cli::GenerateParams;
use crate::colors::Rgb;
use crate::config::Config;
use crate::extract::{dominant_colors, extract_from_image, extraction_refusal};
use crate::generator::{palette_of_seed, seed_palette, PerceptualScheme};
use crate::images::Raster;
use crate::themes::predefined::{
    builtin_catalog, builtin_themes, is_builtin_name, lemma_auto_names_are_free,
    lemma_builtin_names, theme_palettes, DARK,
};
use crate::text::same_text;
use crate::themes::{palette_of_roles, role_names, theme_of, Palette, Theme};
use crate::typst::{is_sorted_keys, post_source, render_post};
use vstd::prelude::*;
use vstd::string::*;

verus! {

/// The number of dominant colours that are extracted for the `auto` theme.
pub const AUTO_COLORS: u8 = 8;

/// The step of the resolution at which a theme name is settled.
#[derive(Clone, Copy, Debug, PartialEq, Eq, Structural)]
pub enum Step {
    /// The name is that of a theme of the user's.
    User,
    /// The name is that of a built-in theme.
    Builtin,
    /// The name is `auto` and there is an image.
    Auto,
    /// The name is `auto-matugen` and there is an image.
    AutoMatugen,
    /// None of these: the dark theme.
    Default,
}

/// What the resolution of a theme name gives.
pub enum Resolution {
    /// The theme.
    Theme(Theme),
    /// The theme is to be made from the dominant colours of the image.
    FromDominantColors,
    /// The theme is to be made from the source colour of the image.
    FromSourceColor,
}

/// The themes of the user, where the configuration defines any.
pub open spec fn user_themes(cfg: Option<&Config>) -> Option<Map<Seq<char>, Map<Seq<char>, Seq<char>>>> {
    match cfg {
        Some(c) => match c.themes {
            Some(t) => Some(t@),
            None => None,
        },
        None => None,
    }
}

/// The step at which a theme name is settled: each step counts only where
/// those before it do not apply.
pub open spec fn step_of(
    theme: Seq<char>,
    user: Option<Map<Seq<char>, Map<Seq<char>, Seq<char>>>>,
    has_image: bool,
) -> Step {
    if user is Some && user->Some_0.contains_key(theme) {
        Step::User
    } else if builtin_themes().contains_key(theme) {
        Step::Builtin
    } else if theme == "auto"@ && has_image {
        Step::Auto
    } else if theme == "auto-matugen"@ && has_image {
        Step::AutoMatugen
    } else {
        Step::Default
    }
}

/// The dark theme, which stands in where nothing else is found.
pub open spec fn default_theme() -> Map<Seq<char>, Seq<char>> {
    theme_of(palette_of_roles(DARK))
}

/// The dark theme, which stands in where nothing else is found.
pub fn dark_theme() -> (t: Theme)
    ensures
        t@ == default_theme(),
        t.keys() == role_names(),
{
    Palette::from_roles(&DARK).to_theme()
}

/// Resolves the theme name of a post as far as that goes without its image.
pub fn resolve_theme(params: &GenerateParams, cfg: Option<&Config>) -> (res: Resolution)
    ensures
        match step_of(params.theme@, user_themes(cfg), params.image is Some) {
            Step::User => res matches Resolution::Theme(t) && t@ == user_themes(cfg)->Some_0[params.theme@],
            Step::Builtin => res matches Resolution::Theme(t) && t@ == builtin_themes()[params.theme@],
            Step::Auto => res is FromDominantColors,
            Step::AutoMatugen => res is FromSourceColor,
            Step::Default => res matches Resolution::Theme(t) && t@ == default_theme(),
        },
{
    let name = params.theme.as_str();
    if let Some(c) = cfg {
        if let Some(themes) = &c.themes {
            if let Some(theme) = themes.get(name) {
                return Resolution::Theme(theme.duplicate());
            }
        }
    }
    let builtin = builtin_catalog();
    if let Some(theme) = builtin.get(name) {
        return Resolution::Theme(theme.duplicate());
    }
    if same_text(name, "auto") && params.image.is_some() {
        Resolution::FromDominantColors
    } else if same_text(name, "auto-matugen") && params.image.is_some() {
        Resolution::FromSourceColor
    } else {
        Resolution::Theme(dark_theme())
    }
}

/// The seed of the `auto` theme: the most dominant of the colours extracted
/// from the image, where there is an image, the extraction succeeds and it
/// finds a colour.
pub open spec fn auto_seed_of(image: Option<&Raster>) -> Option<Rgb> {
    match image {
        Some(decoded) => if extraction_refusal(decoded, AUTO_COLORS) is None && dominant_colors(
            decoded.pixels@,
            AUTO_COLORS,
        )->Some_0.len() > 0 {
            Some(dominant_colors(decoded.pixels@, AUTO_COLORS)->Some_0[0])
        } else {
            None
        },
        None => None,
    }
}

/// The seed of the `auto` theme. `image` is the image of the post where it
/// could be decoded.
pub fn auto_seed(image: Option<&Raster>) -> (seed: Option<Rgb>)
    ensures
        seed == auto_seed_of(image),
{
    match image {
        Some(decoded) => match extract_from_image(decoded, AUTO_COLORS) {
            Ok(colors) => if colors.len() > 0 { Some(colors[0]) } else { None },
            Err(_) => None,
        },
        None => None,
    }
}

/// The `auto` theme: the theme of the seed's palette where there is a seed,
/// and the dark theme otherwise.
pub open spec fn auto_theme_of(seed: Option<Rgb>, perceptual: Option<PerceptualScheme>) -> Map<
    Seq<char>,
    Seq<char>,
> {
    match seed {
        Some(c) => theme_of(palette_of_seed(c, perceptual)),
        None => default_theme(),
    }
}

/// Makes the `auto` theme. `seed` is what `auto_seed` found in the image, and
/// `perceptual` the outcome of the perceptual strategy on that seed.
pub fn resolve_auto_theme(seed: Option<Rgb>, perceptual: Option<PerceptualScheme>) -> (t: Theme)
    ensures
        t@ == auto_theme_of(seed, perceptual),
        t.keys() == role_names(),
{
    match seed {
        Some(c) => seed_palette(c, perceptual).to_theme(),
        None => dark_theme(),
    }
}

/// The colours of a tonal scheme that the roles are taken from.
#[derive(Clone, Copy, Debug, PartialEq, Eq, Structural)]
pub struct TonalScheme {
    pub background: Rgb,
    pub surface: Rgb,
    pub primary: Rgb,
    pub secondary: Rgb,
    pub tertiary: Rgb,
    pub on_background: Rgb,
    pub outline: Rgb,
    pub primary_container: Rgb,
}

/// The palette of a tonal scheme: bg is its background, surface its surface,
/// primary and secondary its primary and secondary, accent its tertiary, text
/// its colour on the background, muted its outline and highlight its primary
/// container.
pub open spec fn tonal_palette_of(scheme: TonalScheme) -> Palette {
    Palette {
        bg: scheme.background,
        surface: scheme.surface,
        primary: scheme.primary,
        secondary: scheme.secondary,
        accent: scheme.tertiary,
        text: scheme.on_background,
        muted: scheme.outline,
        highlight: scheme.primary_container,
    }
}

/// Lays a tonal scheme out over the eight roles.
pub fn tonal_palette(scheme: &TonalScheme) -> (p: Palette)
    ensures
        p == tonal_palette_of(*scheme),
{
    Palette {
        bg: scheme.background,
        surface: scheme.surface,
        primary: scheme.primary,
        secondary: scheme.secondary,
        accent: scheme.tertiary,
        text: scheme.on_background,
        muted: scheme.outline,
        highlight: scheme.primary_container,
    }
}

/// The dark scheme of the theme that `material_colors`' `ThemeBuilder` builds
/// from a source colour, with every setting at its default.
///
/// Nothing is promised of the colours: they come out of floating-point
/// arithmetic whose last digit the platform decides. The call is taken to
/// return: the crate asserts of every hue that it computes that it lies below
/// 360 degrees.
#[verifier::external_body]
fn dark_tonal_scheme(source: Rgb) -> (scheme: TonalScheme) {
    let argb = material_colors::color::Argb::new(255, source.r, source.g, source.b);
    let dark = material_colors::theme::ThemeBuilder::with_source(argb).build().schemes.dark;
    let rgb = |c: material_colors::color::Argb| Rgb { r: c.red, g: c.green, b: c.blue };
    TonalScheme {
        background: rgb(dark.background),
        surface: rgb(dark.surface),
        primary: rgb(dark.primary),
        secondary: rgb(dark.secondary),
        tertiary: rgb(dark.tertiary),
        on_background: rgb(dark.on_background),
        outline: rgb(dark.outline),
        primary_container: rgb(dark.primary_container),
    }
}

/// The dark tonal scheme of the source colour of an image, where the image
/// gave a source colour. Which colours the scheme has is not said here: they
/// are whatever the tonal system makes of the source colour.
pub fn tonal_scheme(source: Option<Rgb>) -> (scheme: Option<TonalScheme>)
    ensures
        scheme is Some <==> source is Some,
{
    match source {
        Some(c) => Some(dark_tonal_scheme(c)),
        None => None,
    }
}

/// The `auto-matugen` theme: the theme of the palette of the tonal scheme
/// where there is one, and the dark theme otherwise.
pub open spec fn matugen_theme_of(scheme: Option<TonalScheme>) -> Map<Seq<char>, Seq<char>> {
    match scheme {
        Some(s) => theme_of(tonal_palette_of(s)),
        None => default_theme(),
    }
}

/// Makes the `auto-matugen` theme. `scheme` is what `tonal_scheme` made of
/// the source colour of the image.
pub fn resolve_matugen_theme(scheme: Option<TonalScheme>) -> (t: Theme)
    ensures
        t@ == matugen_theme_of(scheme),
        t.keys() == role_names(),
{
    match scheme {
        Some(s) => tonal_palette(&s).to_theme(),
        None => dark_theme(),
    }
}

/// What was found in the image of a post, as far as a theme is made from it.
#[derive(Clone, Copy, Debug)]
pub struct ImageFindings {
    /// What `auto_seed` found.
    pub seed: Option<Rgb>,
    /// The outcome of the perceptual strategy on the seed.
    pub perceptual: Option<PerceptualScheme>,
    /// What `tonal_scheme` made of the source colour of the image.
    pub scheme: Option<TonalScheme>,
}

/// The theme that a theme name resolves to with what was found in the image:
/// the user's theme of that name, else the built-in theme of that name, else
/// for `auto` and `auto-matugen` with an image the theme made from it, else
/// the dark theme.
pub open spec fn resolved_theme(
    theme: Seq<char>,
    user: Option<Map<Seq<char>, Map<Seq<char>, Seq<char>>>>,
    has_image: bool,
    findings: ImageFindings,
) -> Map<Seq<char>, Seq<char>> {
    match step_of(theme, user, has_image) {
        Step::User => user->Some_0[theme],
        Step::Builtin => builtin_themes()[theme],
        Step::Auto => auto_theme_of(findings.seed, findings.perceptual),
        Step::AutoMatugen => matugen_theme_of(findings.scheme),
        Step::Default => default_theme(),
    }
}

/// Resolves the theme name of a post with what was found in its image.
pub fn resolve(params: &GenerateParams, cfg: Option<&Config>, findings: &ImageFindings) -> (t: Theme)
    ensures
        t@ == resolved_theme(params.theme@, user_themes(cfg), params.image is Some, *findings),
{
    match resolve_theme(params, cfg) {
        Resolution::Theme(theme) => theme,
        Resolution::FromDominantColors => resolve_auto_theme(findings.seed, findings.perceptual),
        Resolution::FromSourceColor => resolve_matugen_theme(findings.scheme),
    }
}

/// A name is among the themes that there are exactly where the resolution
/// settles it as a theme of the user or as a built-in theme, and the theme
/// under the name is the one that the resolution gives.
pub proof fn lemma_lookup_is_resolution(theme: Seq<char>, cfg: Option<&Config>, has_image: bool)
    ensures
        theme_palettes(cfg).contains_key(theme) <==> step_of(theme, user_themes(cfg), has_image)
            is User || step_of(theme, user_themes(cfg), has_image) is Builtin,
        step_of(theme, user_themes(cfg), has_image) is User ==> theme_palettes(cfg)[theme]
            == user_themes(cfg)->Some_0[theme],
        step_of(theme, user_themes(cfg), has_image) is Builtin ==> theme_palettes(cfg)[theme]
            == builtin_themes()[theme],
{
}

/// Without themes of the user, a name that is no built-in theme's and does
/// not ask for a theme from an image resolves to the dark theme.
pub proof fn lemma_unknown_name_is_default(theme: Seq<char>, has_image: bool, findings: ImageFindings)
    requires
        !is_builtin_name(theme),
        !has_image || (theme != "auto"@ && theme != "auto-matugen"@),
    ensures
        step_of(theme, None, has_image) == Step::Default,
        resolved_theme(theme, None, has_image, findings) == default_theme(),
{
    lemma_builtin_names();
}

/// Without themes of the user and without an image, `auto` and `auto-matugen`
/// resolve to the dark theme.
pub proof fn lemma_auto_without_image_is_default(findings: ImageFindings)
    ensures
        resolved_theme("auto"@, None, false, findings) == default_theme(),
        resolved_theme("auto-matugen"@, None, false, findings) == default_theme(),
{
    lemma_auto_names_are_free();
    lemma_unknown_name_is_default("auto"@, false, findings);
    lemma_unknown_name_is_default("auto-matugen"@, false, findings);
}

/// Whether a post asks for the accent that is suggested for its image: it says
/// so and it has an image.
pub open spec fn asks_for_suggestion(params: &GenerateParams) -> bool {
    params.auto_accent && params.image is Some
}

/// Whether a post asks for the accent that is suggested for its image.
pub fn wants_suggested_accent(params: &GenerateParams) -> (b: bool)
    ensures
        b == asks_for_suggestion(params),
{
    params.auto_accent && params.image.is_some()
}

/// The accent of a post: the suggested accent where the post asks for it and
/// there is one, and the accent that the post names otherwise.
pub open spec fn final_accent_of(params: &GenerateParams, suggested: Option<Seq<char>>) -> Seq<char> {
    if asks_for_suggestion(params) && suggested is Some {
        suggested->Some_0
    } else {
        params.accent@
    }
}

/// The accent of a post. `suggested` is the accent that was suggested for the
/// image of the post, where one was asked for.
pub fn final_accent(params: &GenerateParams, suggested: Option<&str>) -> (accent: String)
    ensures
        accent@ == final_accent_of(
            params,
            match suggested {
                Some(s) => Some(s@),
                None => None,
            },
        ),
{
    match suggested {
        Some(s) => if wants_suggested_accent(params) {
            String::from_str(s)
        } else {
            params.accent.clone()
        },
        None => params.accent.clone(),
    }
}

/// Generates the Typst source of a post. `theme` is the resolved theme of the
/// post and `final_accent` its accent: the one that the post names, or the one
/// suggested for its image where the post asks for that.
pub fn do_generate(params: &GenerateParams, theme: &Theme, final_accent: &str) -> (out: String)
    ensures
        exists|keys: Seq<Seq<char>>| #[trigger]
            is_sorted_keys(keys, theme@) && out@ == post_source(
                params,
                keys,
                theme@,
                final_accent@,
            ),
{
    render_post(params, theme, final_accent)
}

} // verus!
