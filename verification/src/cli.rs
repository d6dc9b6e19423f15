//! The parameters of one generated post and the formats that a caller can ask
//! for.

use vstd::prelude::*;

verus! {

/// How a palette is written out.
#[derive(Clone, Copy, Debug, PartialEq, Eq, Structural)]
pub enum OutputFormat {
    Table,
    Json,
    Typst,
}

/// How extracted colours are written out.
#[derive(Clone, Copy, Debug, PartialEq, Eq, Structural)]
pub enum ExtractFormat {
    Table,
    Json,
    Palette,
}

/// The format of a rendered image.
#[derive(Clone, Copy, Debug, PartialEq, Eq, Structural)]
pub enum ImageFormat {
    Png,
    Webp,
}

/// What one post is generated from.
pub struct GenerateParams {
    pub brand: String,
    pub title: String,
    pub quote: String,
    pub image: Option<String>,
    pub logo: Option<String>,
    pub overlay: Option<String>,
    pub accent: String,
    pub auto_accent: bool,
    pub url: String,
    pub platform: String,
    pub layout: String,
    pub theme: String,
    pub author: String,
    pub source: Option<String>,
    pub tag: Option<String>,
    pub slides: Option<String>,
    pub contour: bool,
    pub font_heading: Option<String>,
    pub font_body: Option<String>,
    pub font_mono: Option<String>,
}

} // verus!
