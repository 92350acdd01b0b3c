//! Failures surfaced to the caller at the font-loading boundary.
//!
//! Glyphs that cannot be rasterized or placed are skipped silently and never
//! surface here; only loading font data reports an explicit failure value.

use vstd::prelude::*;

verus! {

/// Failure reported synchronously by a font load operation.
#[derive(Debug)]
pub enum TextError {
    /// Font data was found but could not be registered; carries a description.
    FontLoading(String),
    /// Reading the font data failed; carries the I/O error's description.
    Io(String),
}

impl TextError {
    /// The description carried by the error.
    pub fn message(&self) -> (m: &String)
        ensures
            m@ == match self {
                TextError::FontLoading(s) => s@,
                TextError::Io(s) => s@,
            },
    {
        match self {
            TextError::FontLoading(s) => s,
            TextError::Io(s) => s,
        }
    }
}

} // verus!
