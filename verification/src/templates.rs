//! The Typst sources that the layouts are filled into. Each has places in
//! braces that stand for fields of the post.

use vstd::prelude::*;

verus! {

/// The source of a carousel.
pub const MAIN_TEMPLATE_CAROUSEL: &'static str = r##"
// Auto-generado por rrss-cli-rs
#import "lib.typ": *
#import "templates/{platform}.typ": {platform}

#let t = {theme}
#let slides = {slides_content}

#{platform}(theme: t)[
  #carousel-layout(
    t,
    slides: slides,
    title: "{title}",
    bg-image: {bg_image_line},
  )
]
"##;

/// The source of an article.
pub const MAIN_TEMPLATE_ARTICLE: &'static str = r##"
// Auto-generado por rrss-cli-rs
#import "lib.typ": *
#import "templates/{platform}.typ": {platform}

#let t = {theme}

#{platform}(theme: t)[
  #article-layout(
    t,
    brand: "{brand}",
    {logo_line}
    title: "{title}",
    quote-text: "{quote}",
    {bg_image_line}
    {overlay_line}
    accent: rgb("{accent}"),
    url: "{url}",
  )
]
"##;

/// The source of a quote.
pub const MAIN_TEMPLATE_QUOTE: &'static str = r##"
// Auto-generado por rrss-cli-rs
#import "lib.typ": *
#import "templates/{platform}.typ": {platform}

#let t = {theme}

#{platform}(theme: t)[
  #quote-layout(
    t,
    quote-text: "{quote}",
    author: "{author}",
  )
  #watermark(t, "{brand}")
]
"##;

/// The source of a hero image.
pub const MAIN_TEMPLATE_HERO: &'static str = r##"
// Auto-generado por rrss-cli-rs
#import "lib.typ": *
#import "templates/{platform}.typ": {platform}

#let t = {theme}

#{platform}(theme: t)[
  #hero-layout(
    t,
    title: "{title}",
    subtitle: "{quote}",
    {tag_line}
  )
  #watermark(t, "{brand}")
]
"##;

} // verus!
