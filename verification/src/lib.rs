//! Glyph atlas cache for GPU text rendering: a shelf bin packer over a
//! fixed-size texture, a content-addressed glyph cache, a deferred upload
//! queue, and a quad mesh builder, with the packing and caching invariants
//! stated and proved.

pub mod atlas;
pub mod cache;
pub mod error;
pub mod ext;
pub mod font;
pub mod mesh;

pub use cache::GlyphCache;
pub use error::TextError;
pub use font::{FontId, FontRegistry};
