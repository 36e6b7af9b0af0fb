//! Markdown documents rendered as self-contained HTML pages with pluggable
//! themes.
//!
//! A [`themes::Themes`] registry finds a [`themes::Theme`] by name, and a
//! theme resolves to minified CSS. A [`document::Document`] yields its title
//! and, under [`document::RenderOptions`], the page that holds the compiled
//! markdown, the theme's CSS and the optional highlighter and math regions.
//!
//! The library reads no file. Where a theme's CSS lies in a file, the caller
//! reads the file that [`themes::Theme::file_request`] names and hands over
//! what came of it; the highlighter's assets and the built-in stylesheets are
//! handed in likewise.
//!
//! Markdown is parsed and compiled by the `markdown` crate and CSS is minified
//! by the `minifier` crate. What is assumed of them is stated in [`engine`]
//! and [`css`]; everything else is proved.

pub mod css;
pub mod document;
pub mod engine;
pub mod error;
pub mod model;
pub mod page;
pub mod themes;
pub mod tree;
