//! What the engine reads of a configuration.

use crate::themes::ThemeCatalog;
use vstd::prelude::*;

verus! {

/// The part of a configuration that the engine reads: the themes that the
/// user defined, if any.
pub struct Config {
    pub themes: Option<ThemeCatalog>,
}

} // verus!
