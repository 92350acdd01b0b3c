//! Content-addressed glyph cache over the atlas packer, with a deferred
//! upload queue.
//!
//! A glyph is identified by a key the layout collaborator produces; the cache
//! maps it to an immutable entry holding the bitmap metadata and the atlas
//! region reserved for it. A miss rasterizes the glyph, reserves atlas space,
//! and queues the bitmap bytes for a later batched transfer to the texture;
//! entries are never evicted, and every cached entry keeps a region of its
//! own: two distinct entries never share atlas texels.

use vstd::prelude::*;

use crate::atlas::{AtlasPacker, PADDING, Rect, rect_in_bounds, rects_disjoint};
use crate::atlas::lemma_placements_disjoint;
use crate::font::FontRegistry;
use std::collections::HashMap;

verus! {

broadcast use vstd::std_specs::hash::group_hash_axioms;

/// What a rasterized bitmap holds per texel, mirroring the rasterizer's
/// report; the cache accepts only single-channel coverage masks.
#[derive(Clone, Copy, PartialEq, Eq, Structural, Debug)]
pub enum ContentKind {
    Mask,
    SubpixelMask,
    Color,
}

/// A rasterized glyph bitmap: content kind, size, bearings, and the raw
/// bytes, row-major with one byte per texel when the content is a mask.
pub struct Bitmap {
    pub content: ContentKind,
    pub width: u32,
    pub height: u32,
    pub left: i32,
    pub top: i32,
    pub data: Vec<u8>,
}

/// A supported bitmap: a single-channel coverage mask whose byte count
/// matches its dimensions.
pub open spec fn is_mask(b: Bitmap) -> bool {
    &&& b.content == ContentKind::Mask
    &&& b.data@.len() == b.width * b.height
}

/// Identity of one rendered glyph variant. `id` is the plain value the cache
/// keys on; `raw` is the rasterizer's own key, carried through opaquely. The
/// layout collaborator must hand out one `id` per distinct `raw`.
pub struct GlyphKey {
    pub id: u64,
    pub raw: cosmic_text::CacheKey,
}

/// A cached glyph: bitmap metadata and the atlas region reserved for it.
/// The normalized UV rectangle is `(atlas_x, atlas_y, width, height)` scaled
/// by `1 / ATLAS_SIZE`. Immutable once created.
#[derive(Clone, Copy, PartialEq, Eq, Structural, Debug)]
pub struct GlyphEntry {
    pub width: u32,
    pub height: u32,
    pub left: i32,
    pub top: i32,
    pub atlas_x: u32,
    pub atlas_y: u32,
}

/// The atlas region a cached entry owns.
pub open spec fn entry_rect(e: GlyphEntry) -> Rect {
    Rect { x: e.atlas_x, y: e.atlas_y, w: e.width, h: e.height }
}

/// A bitmap waiting to be written into the atlas texture at its reserved
/// origin. Created at packing time, consumed exactly once at flush time.
pub struct PendingUpload {
    pub id: u64,
    pub x: u32,
    pub y: u32,
    pub width: u32,
    pub height: u32,
    pub data: Vec<u8>,
}

/// The upload's bytes match its dimensions and its region lies in the atlas.
pub open spec fn upload_wf(u: PendingUpload) -> bool {
    &&& u.data@.len() == u.width * u.height
    &&& rect_in_bounds(Rect { x: u.x, y: u.y, w: u.width, h: u.height })
}

/// What a flush hands out: the queued uploads in enqueue order, with
/// empty bitmaps dropped (a zero-sized region write is meaningless).
pub open spec fn drained(s: Seq<PendingUpload>) -> Seq<PendingUpload>
    decreases s.len(),
{
    if s.len() == 0 {
        Seq::empty()
    } else {
        let rest = drained(s.drop_first());
        if s.first().width > 0 && s.first().height > 0 {
            seq![s.first()] + rest
        } else {
            rest
        }
    }
}

/// Accumulates bitmaps awaiting transfer to the atlas texture; drained once
/// per frame, before any draw that samples the texture.
pub struct UploadQueue {
    pub items: Vec<PendingUpload>,
}

impl UploadQueue {
    pub open spec fn wf(self) -> bool {
        forall|i: int| 0 <= i < self.items@.len() ==> upload_wf(#[trigger] self.items@[i])
    }

    pub fn new() -> (q: UploadQueue)
        ensures
            q.wf(),
            q.items@.len() == 0,
    {
        UploadQueue { items: Vec::new() }
    }

    fn enqueue(&mut self, u: PendingUpload)
        requires
            old(self).wf(),
            upload_wf(u),
        ensures
            final(self).wf(),
            final(self).items@ == old(self).items@.push(u),
    {
        self.items.push(u);
    }

    /// Drain every pending upload, in enqueue order, dropping empty bitmaps.
    /// The queue is empty afterwards, so a second flush with no intervening
    /// placements hands out nothing.
    pub fn flush(&mut self) -> (out: Vec<PendingUpload>)
        requires
            old(self).wf(),
        ensures
            final(self).wf(),
            final(self).items@.len() == 0,
            out@ == drained(old(self).items@),
            forall|i: int| 0 <= i < out@.len() ==> upload_wf(#[trigger] out@[i]),
    {
        let mut out: Vec<PendingUpload> = Vec::new();
        proof {
            assert(drained(old(self).items@) =~= out@ + drained(self.items@));
        }
        while self.items.len() > 0
            invariant
                self.wf(),
                forall|i: int| 0 <= i < out@.len() ==> upload_wf(#[trigger] out@[i]),
                drained(old(self).items@) =~= out@ + drained(self.items@),
            decreases self.items@.len(),
        {
            let u = self.items.remove(0);
            if u.width > 0 && u.height > 0 {
                out.push(u);
            }
            proof {
                assert(drained(old(self).items@) =~= out@ + drained(self.items@));
            }
        }
        proof {
            assert(out@ + drained(self.items@) =~= out@);
        }
        out
    }
}

/// Relies on cosmic_text::SwashCache::new: creates an empty rasterization
/// cache (no font is touched until a glyph is requested).
#[verifier::external_body]
fn new_swash_cache() -> cosmic_text::SwashCache {
    cosmic_text::SwashCache::new()
}

/// Relies on cosmic_text::SwashCache::get_image: rasterizes the glyph named
/// by `key` against the fonts in `sys`, returning no image when the font or
/// glyph cannot be resolved. The result is converted field by field into a
/// plain `Bitmap`; nothing is assumed about its contents.
#[verifier::external_body]
fn rasterize_glyph(
    swash: &mut cosmic_text::SwashCache,
    sys: &mut cosmic_text::FontSystem,
    key: cosmic_text::CacheKey,
) -> Option<Bitmap> {
    match swash.get_image(sys, key) {
        Some(img) => Some(Bitmap {
            content: match img.content {
                cosmic_text::SwashContent::Mask => ContentKind::Mask,
                cosmic_text::SwashContent::SubpixelMask => ContentKind::SubpixelMask,
                cosmic_text::SwashContent::Color => ContentKind::Color,
            },
            width: img.placement.width,
            height: img.placement.height,
            left: img.placement.left,
            top: img.placement.top,
            data: img.data.clone(),
        }),
        None => None,
    }
}

/// Relies on cosmic_text::PhysicalGlyph: picks the rasterization cache key
/// out of one laid-out glyph.
#[verifier::external_body]
pub fn get_cache_key(glyph: &cosmic_text::PhysicalGlyph) -> cosmic_text::CacheKey {
    glyph.cache_key
}

/// The glyph cache: owns the packer, the upload queue, the rasterization
/// cache, and the map from glyph identity to cached entry. Entries are only
/// ever added, and each owns the atlas region reserved for it.
pub struct GlyphCache {
    pub swash: cosmic_text::SwashCache,
    pub packer: AtlasPacker,
    pub entries: HashMap<u64, GlyphEntry>,
    pub queue: UploadQueue,
    pub slot: Ghost<Map<u64, int>>,
}

impl GlyphCache {
    /// Every cached entry's region is one the packer reserved, distinct
    /// entries hold distinct reservations, and the queue's uploads are sound.
    pub open spec fn wf(self) -> bool {
        &&& self.packer.wf()
        &&& self.queue.wf()
        &&& forall|k: u64|
            #[trigger] self.entries@.contains_key(k) ==> {
                &&& self.slot@.contains_key(k)
                &&& 0 <= self.slot@[k] < self.packer.placed@.len()
                &&& self.packer.placed@[self.slot@[k]] == entry_rect(self.entries@[k])
            }
        &&& forall|k1: u64, k2: u64|
            #[trigger] self.entries@.contains_key(k1) && #[trigger] self.entries@.contains_key(k2)
                && k1 != k2 ==> self.slot@[k1] != self.slot@[k2]
    }

    /// An empty cache over a fresh atlas.
    pub fn new() -> (c: GlyphCache)
        ensures
            c.wf(),
            c.entries@ == Map::<u64, GlyphEntry>::empty(),
            c.queue.items@.len() == 0,
            c.packer.placed@.len() == 0,
            c.packer.next_x == PADDING,
            c.packer.next_y == PADDING,
            c.packer.row_height == 0,
    {
        GlyphCache {
            swash: new_swash_cache(),
            packer: AtlasPacker::new(),
            entries: HashMap::new(),
            queue: UploadQueue::new(),
            slot: Ghost(Map::empty()),
        }
    }

    /// Reserve atlas space for a rasterized bitmap, queue its bytes for
    /// upload, and cache the entry under `id`.
    ///
    /// Returns `None`, leaving the entry map and queue unchanged, exactly
    /// when the bitmap is not a supported coverage mask or the atlas has no
    /// room left for its size; the glyph is then skipped, never an error.
    pub fn place_glyph(&mut self, id: u64, bitmap: Bitmap) -> (r: Option<GlyphEntry>)
        requires
            old(self).wf(),
        ensures
            final(self).wf(),
            r is Some <==> is_mask(bitmap) && old(self).packer.can_place(
                bitmap.width,
                bitmap.height,
            ),
            r matches Some(e) ==> {
                &&& e.width == bitmap.width
                &&& e.height == bitmap.height
                &&& e.left == bitmap.left
                &&& e.top == bitmap.top
                &&& e.atlas_x == old(self).packer.eff_x(bitmap.width)
                &&& e.atlas_y == old(self).packer.eff_y(bitmap.width)
                &&& rect_in_bounds(entry_rect(e))
                &&& final(self).entries@ == old(self).entries@.insert(id, e)
                &&& final(self).queue.items@ == old(self).queue.items@.push(
                    (PendingUpload {
                        id,
                        x: e.atlas_x,
                        y: e.atlas_y,
                        width: bitmap.width,
                        height: bitmap.height,
                        data: bitmap.data,
                    }),
                )
            },
            r is None ==> {
                &&& final(self).entries@ == old(self).entries@
                &&& final(self).queue.items@ == old(self).queue.items@
                &&& final(self).packer.placed@ == old(self).packer.placed@
            },
            r is None && is_mask(bitmap) ==> !final(self).packer.can_place(
                bitmap.width,
                bitmap.height,
            ),
    {
        if !(bitmap.content == ContentKind::Mask) {
            return None;
        }
        let w = bitmap.width;
        let h = bitmap.height;
        proof {
            assert((w as u64) * (h as u64) <= 0xffff_ffffu64 * 0xffff_ffffu64)
                by (nonlinear_arith)
                requires
                    w <= 0xffff_ffffu64,
                    h <= 0xffff_ffffu64,
            ;
        }
        if (bitmap.data.len() as u64) != (w as u64) * (h as u64) {
            return None;
        }
        match self.packer.place(w, h) {
            None => None,
            Some((x, y)) => {
                let e = GlyphEntry {
                    width: w,
                    height: h,
                    left: bitmap.left,
                    top: bitmap.top,
                    atlas_x: x,
                    atlas_y: y,
                };
                self.queue.enqueue(
                    PendingUpload { id, x, y, width: w, height: h, data: bitmap.data },
                );
                self.entries.insert(id, e);
                proof {
                    self.slot@ = self.slot@.insert(id, old(self).packer.placed@.len() as int);
                }
                Some(e)
            },
        }
    }

    /// Drain every upload queued since the last drain, in enqueue order,
    /// dropping empty bitmaps; the cache's entries and packing state stand
    /// untouched. Must be consumed into the atlas texture once per frame,
    /// before any draw that samples it: placements made earlier in the frame
    /// are not visible in texture memory until then.
    pub fn upload_pending(&mut self) -> (out: Vec<PendingUpload>)
        requires
            old(self).wf(),
        ensures
            final(self).wf(),
            final(self).queue.items@.len() == 0,
            out@ == drained(old(self).queue.items@),
            final(self).entries@ == old(self).entries@,
            final(self).packer == old(self).packer,
            forall|i: int| 0 <= i < out@.len() ==> upload_wf(#[trigger] out@[i]),
    {
        self.queue.flush()
    }

    /// Look the glyph up, rasterizing and placing it on a miss.
    ///
    /// A hit returns the stored entry at once and changes nothing: no second
    /// atlas reservation, no second upload. A miss asks the rasterizer for a
    /// bitmap; if it reports none, or one that is not a coverage mask, or the
    /// atlas is out of room, the glyph is skipped with `None`. Only the
    /// rasterizer's own state inside `font_system` may change; the font
    /// registry does not.
    pub fn get_glyph(&mut self, key: &GlyphKey, font_system: &mut FontRegistry) -> (r: Option<
        GlyphEntry,
    >)
        requires
            old(self).wf(),
        ensures
            final(self).wf(),
            old(self).entries@.contains_key(key.id) ==> {
                &&& r == Some(old(self).entries@[key.id])
                &&& final(self).entries@ == old(self).entries@
                &&& final(self).queue == old(self).queue
                &&& final(self).packer == old(self).packer
            },
            r matches Some(e) ==> final(self).entries@.contains_key(key.id)
                && final(self).entries@[key.id] == e && rect_in_bounds(entry_rect(e)),
            forall|k: u64|
                old(self).entries@.contains_key(k) ==> #[trigger] final(self).entries@.contains_key(k) && final(self).entries@[k] == old(self).entries@[k],
            final(font_system).next_id == old(font_system).next_id,
            final(font_system).families@ == old(font_system).families@,
    {
        if let Some(e) = self.entries.get(&key.id) {
            return Some(*e);
        }
        match rasterize_glyph(&mut self.swash, &mut font_system.sys, key.raw) {
            None => None,
            Some(bitmap) => self.place_glyph(key.id, bitmap),
        }
    }
}

/// Every cached entry's region lies inside the atlas, clear of the borders.
pub proof fn lemma_entry_in_bounds(c: GlyphCache, k: u64)
    requires
        c.wf(),
        c.entries@.contains_key(k),
    ensures
        rect_in_bounds(entry_rect(c.entries@[k])),
{
}

/// Two distinct cached entries never overlap in atlas space, padding
/// included: each region was reserved exclusively and never reused.
pub proof fn lemma_entries_disjoint(c: GlyphCache, k1: u64, k2: u64)
    requires
        c.wf(),
        c.entries@.contains_key(k1),
        c.entries@.contains_key(k2),
        k1 != k2,
    ensures
        rects_disjoint(entry_rect(c.entries@[k1]), entry_rect(c.entries@[k2])),
{
    lemma_placements_disjoint(c.packer, c.slot@[k1], c.slot@[k2]);
}

/// A drained queue yields nothing: flushing twice in a row performs no work
/// the second time.
pub proof fn lemma_flush_clears(q: UploadQueue)
    requires
        q.items@.len() == 0,
    ensures
        drained(q.items@) =~= Seq::<PendingUpload>::empty(),
{
}

} // verus!
