use textware::cache::{Bitmap, ContentKind, GlyphCache, GlyphKey};
use textware::font::FontRegistry;
use textware::mesh::{GlyphRun, RunGlyph, build_mesh};

fn mask(w: u32, h: u32, left: i32, top: i32) -> Bitmap {
    Bitmap {
        content: ContentKind::Mask,
        width: w,
        height: h,
        left,
        top,
        data: vec![0x80u8; (w * h) as usize],
    }
}

fn dummy_key(id: u64) -> GlyphKey {
    let (raw, _, _) = cosmic_text::CacheKey::new(
        cosmic_text::fontdb::ID::dummy(),
        id as u16,
        14.0,
        (0.0, 0.0),
        cosmic_text::Weight::NORMAL,
        cosmic_text::CacheKeyFlags::empty(),
    );
    GlyphKey { id, raw }
}

fn empty_registry() -> FontRegistry {
    let sys = cosmic_text::FontSystem::new_with_locale_and_db(
        "en-US".to_string(),
        cosmic_text::fontdb::Database::new(),
    );
    FontRegistry::new(sys)
}

#[test]
fn mesh_cardinality_counts_resolved_glyphs() {
    let mut cache = GlyphCache::new();
    let mut fonts = empty_registry();
    cache.place_glyph(1, mask(10, 10, 0, 0)).unwrap();
    cache.place_glyph(2, mask(6, 8, 1, 2)).unwrap();
    // three entries, of which two resolve; id 99 was never rasterized and
    // no font is loaded, so it is skipped
    let runs = vec![GlyphRun {
        baseline_bits: 0,
        glyphs: vec![
            RunGlyph { x: 0, y: 0, key: dummy_key(1) },
            RunGlyph { x: 20, y: 0, key: dummy_key(99) },
            RunGlyph { x: 40, y: 0, key: dummy_key(2) },
        ],
    }];
    let out = build_mesh(&mut cache, &mut fonts, &runs);
    assert_eq!(out.len(), 1);
    let mesh = &out[0];
    assert_eq!(mesh.vertices.len(), 4 * 2);
    assert_eq!(mesh.indices.len(), 6 * 2);
    for &i in mesh.indices.iter() {
        assert!((i as usize) < mesh.vertices.len());
    }
}

#[test]
fn quad_corners_carry_bearings_and_uv() {
    let mut cache = GlyphCache::new();
    let mut fonts = empty_registry();
    let e = cache.place_glyph(7, mask(12, 9, 2, 3)).unwrap();
    assert_eq!((e.atlas_x, e.atlas_y), (1, 1));
    let runs = vec![GlyphRun {
        baseline_bits: 42,
        glyphs: vec![RunGlyph { x: 5, y: 7, key: dummy_key(7) }],
    }];
    let out = build_mesh(&mut cache, &mut fonts, &runs);
    assert_eq!(out.len(), 1);
    let m = &out[0];
    assert_eq!(m.vertices.len(), 4);
    assert_eq!(m.indices.len(), 6);
    // top-left corner: position adjusted by the bearings
    let qx = 5 + 2;
    let qy = 7 - 3;
    assert_eq!((m.vertices[0].x, m.vertices[0].y), (qx, qy));
    assert_eq!((m.vertices[1].x, m.vertices[1].y), (qx, qy + 9));
    assert_eq!((m.vertices[2].x, m.vertices[2].y), (qx + 12, qy + 9));
    assert_eq!((m.vertices[3].x, m.vertices[3].y), (qx + 12, qy));
    // texel coordinates of the corners of the reserved atlas rectangle
    assert_eq!((m.vertices[0].u, m.vertices[0].v), (1, 1));
    assert_eq!((m.vertices[1].u, m.vertices[1].v), (1, 1 + 9));
    assert_eq!((m.vertices[2].u, m.vertices[2].v), (1 + 12, 1 + 9));
    assert_eq!((m.vertices[3].u, m.vertices[3].v), (1 + 12, 1));
    for v in m.vertices.iter() {
        assert_eq!(v.baseline_bits, 42);
    }
    // two triangles over the quad
    assert_eq!(&m.indices[..], &[0, 1, 2, 0, 2, 3]);
}

#[test]
fn empty_runs_build_one_empty_batch() {
    let mut cache = GlyphCache::new();
    let mut fonts = empty_registry();
    let runs: Vec<GlyphRun> = Vec::new();
    let out = build_mesh(&mut cache, &mut fonts, &runs);
    assert_eq!(out.len(), 1);
    assert_eq!(out[0].vertices.len(), 0);
    assert_eq!(out[0].indices.len(), 0);
}

#[test]
fn build_does_not_disturb_cached_entries() {
    let mut cache = GlyphCache::new();
    let mut fonts = empty_registry();
    let e1 = cache.place_glyph(1, mask(10, 10, 0, 0)).unwrap();
    let runs = vec![GlyphRun {
        baseline_bits: 0,
        glyphs: vec![RunGlyph { x: 0, y: 0, key: dummy_key(1) }],
    }];
    build_mesh(&mut cache, &mut fonts, &runs);
    build_mesh(&mut cache, &mut fonts, &runs);
    // lookups during the builds were hits: only the first placement uploaded
    let ups = cache.upload_pending();
    assert_eq!(ups.len(), 1);
    let e2 = cache.get_glyph(&dummy_key(1), &mut fonts).unwrap();
    assert_eq!(e1, e2);
}

#[test]
fn mesh_splits_into_batches_at_index_range() {
    let mut cache = GlyphCache::new();
    let mut fonts = empty_registry();
    // 16384 quads fill a 16-bit index batch exactly; one more must open a
    // second batch instead of letting the running vertex count wrap
    let n: u64 = 16385;
    let mut glyphs: Vec<RunGlyph> = Vec::new();
    for id in 0..n {
        cache.place_glyph(id, mask(1, 1, 0, 0)).expect("tiny mask must place");
        glyphs.push(RunGlyph { x: 0, y: 0, key: dummy_key(id) });
    }
    let out = build_mesh(&mut cache, &mut fonts, &vec![GlyphRun { baseline_bits: 0, glyphs }]);
    assert_eq!(out.len(), 2);
    assert_eq!(out[0].vertices.len(), 65536);
    assert_eq!(out[0].indices.len(), 98304);
    assert_eq!(out[1].vertices.len(), 4);
    assert_eq!(out[1].indices.len(), 6);
    let total_v: usize = out.iter().map(|m| m.vertices.len()).sum();
    let total_i: usize = out.iter().map(|m| m.indices.len()).sum();
    assert_eq!(total_v as u64, 4 * n);
    assert_eq!(total_i as u64, 6 * n);
    for m in out.iter() {
        for &i in m.indices.iter() {
            assert!((i as usize) < m.vertices.len());
        }
    }
}
