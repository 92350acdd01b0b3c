use textware::cache::{Bitmap, ContentKind, GlyphCache, GlyphKey};
use textware::font::FontRegistry;

fn mask(w: u32, h: u32) -> Bitmap {
    Bitmap {
        content: ContentKind::Mask,
        width: w,
        height: h,
        left: 2,
        top: 3,
        data: vec![0xffu8; (w * h) as usize],
    }
}

fn dummy_key(id: u64) -> GlyphKey {
    let (raw, _, _) = cosmic_text::CacheKey::new(
        cosmic_text::fontdb::ID::dummy(),
        id as u16,
        14.0,
        (0.0, 0.0),
        cosmic_text::Weight::NORMAL,
        cosmic_text::CacheKeyFlags::empty(),
    );
    GlyphKey { id, raw }
}

fn empty_registry() -> FontRegistry {
    let sys = cosmic_text::FontSystem::new_with_locale_and_db(
        "en-US".to_string(),
        cosmic_text::fontdb::Database::new(),
    );
    FontRegistry::new(sys)
}

#[test]
fn place_glyph_reserves_and_queues() {
    let mut c = GlyphCache::new();
    let e = c.place_glyph(1, mask(10, 10)).expect("mask bitmap must place in empty atlas");
    assert_eq!((e.atlas_x, e.atlas_y), (1, 1));
    assert_eq!((e.width, e.height), (10, 10));
    assert_eq!((e.left, e.top), (2, 3));
    let ups = c.upload_pending();
    assert_eq!(ups.len(), 1);
    assert_eq!((ups[0].x, ups[0].y), (1, 1));
    assert_eq!((ups[0].width, ups[0].height), (10, 10));
    assert_eq!(ups[0].data.len(), 100);
    assert_eq!(ups[0].id, 1);
}

#[test]
fn color_bitmap_is_skipped() {
    let mut c = GlyphCache::new();
    let mut b = mask(8, 8);
    b.content = ContentKind::Color;
    assert!(c.place_glyph(1, b).is_none());
    assert_eq!(c.upload_pending().len(), 0);
}

#[test]
fn short_bitmap_data_is_skipped() {
    let mut c = GlyphCache::new();
    let mut b = mask(8, 8);
    b.data.pop();
    assert!(c.place_glyph(1, b).is_none());
    assert_eq!(c.upload_pending().len(), 0);
}

#[test]
fn atlas_exhaustion_skips_glyph() {
    let mut c = GlyphCache::new();
    assert!(c.place_glyph(1, mask(2046, 2046)).is_some());
    assert!(c.place_glyph(2, mask(2046, 2046)).is_none());
    assert!(c.place_glyph(3, mask(2046, 2046)).is_none());
}

#[test]
fn zero_sized_mask_places_but_never_uploads() {
    let mut c = GlyphCache::new();
    assert!(c.place_glyph(1, mask(0, 0)).is_some());
    assert_eq!(c.upload_pending().len(), 0);
}

#[test]
fn flush_clears_queue() {
    let mut c = GlyphCache::new();
    c.place_glyph(1, mask(4, 4)).unwrap();
    c.place_glyph(2, mask(6, 6)).unwrap();
    let first = c.upload_pending();
    assert_eq!(first.len(), 2);
    assert_eq!(first[0].id, 1);
    assert_eq!(first[1].id, 2);
    let second = c.upload_pending();
    assert_eq!(second.len(), 0);
}

#[test]
fn lookup_is_idempotent() {
    let mut c = GlyphCache::new();
    let mut fonts = empty_registry();
    let key = dummy_key(7);
    let e1 = c.place_glyph(7, mask(12, 9)).unwrap();
    // first lookup: a hit, bit-identical to the stored entry
    let e2 = c.get_glyph(&key, &mut fonts).expect("cached key must resolve");
    // second lookup: same entry again
    let e3 = c.get_glyph(&key, &mut fonts).expect("cached key must resolve again");
    assert_eq!(e1, e2);
    assert_eq!(e2, e3);
    // no second allocation or upload was made for the hits
    let ups = c.upload_pending();
    assert_eq!(ups.len(), 1);
    // a fresh placement continues right after the first reservation
    let e4 = c.place_glyph(8, mask(5, 5)).unwrap();
    assert_eq!((e4.atlas_x, e4.atlas_y), (1 + 12 + 1, 1));
}

#[test]
fn unresolvable_glyph_is_skipped() {
    let mut c = GlyphCache::new();
    let mut fonts = empty_registry();
    // no fonts are loaded, so rasterization reports no bitmap
    assert!(c.get_glyph(&dummy_key(5), &mut fonts).is_none());
    assert_eq!(c.upload_pending().len(), 0);
}
