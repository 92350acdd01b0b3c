//! Declarations of the shaping collaborator's types that flow through the
//! library opaquely: the font system, the rasterization cache, and the glyph
//! identity key it mints. The library never reads inside a value of these.

use vstd::prelude::*;

verus! {

#[verifier::external_type_specification]
#[verifier::external_body]
pub struct ExCosmicFontSystem(cosmic_text::FontSystem);

#[verifier::external_type_specification]
#[verifier::external_body]
pub struct ExSwashCache(cosmic_text::SwashCache);

#[verifier::external_type_specification]
#[verifier::external_body]
pub struct ExCacheKey(cosmic_text::CacheKey);

#[verifier::external_type_specification]
#[verifier::external_body]
pub struct ExPhysicalGlyph(cosmic_text::PhysicalGlyph);

} // verus!
