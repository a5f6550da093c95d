//! Verified core of the babelmap automapper front-end: map glyph sets,
//! the slash-command registry and parser, and the style-document model.

pub mod text;
pub mod strmap;
pub mod config;
pub mod symbols;
pub mod slash;
pub mod colors;
pub mod style;
pub mod frontend;
pub mod style_file;
pub mod tiles;
pub mod export_symbols;
pub mod export_frames;
pub mod style_codec;
pub mod style_laws;
pub mod export_written;
pub mod written_doc;
pub mod calendar;
pub mod slash_laws;
pub mod symbol_laws;
