//! Palette and colour-transform engine.
//!
//! From one seed colour or from the pixels of an image the engine makes a
//! palette of eight roles, resolves a theme name against the user's themes and
//! the built-in ones, and recolours an image with the duotone of a theme. All
//! arithmetic on colours is exact: hue, saturation and lightness are
//! fractions, linear light is counted in millionths.
//!
//! Files are read and written by the caller, who hands in decoded pixels and
//! takes pixels and text back.

pub mod cli;
pub mod colors;
pub mod config;
pub mod constants;
pub mod extract;
pub mod generate;
pub mod generator;
pub mod hsl;
pub mod images;
pub mod strmap;
pub mod templates;
pub mod text;
pub mod themes;
pub mod transfer;
pub mod typst;
