//! A light PDF viewer's core: page navigation, the rendered-page cache and
//! its window, reading-position metadata, path rules and the viewer's
//! decisions, with their contracts proved by Verus.

pub mod ascii;
pub mod paths;
pub mod metadata;
pub mod render;
pub mod document;
pub mod viewer;
pub mod browser;
pub mod locate;
