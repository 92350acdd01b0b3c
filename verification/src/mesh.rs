//! Quad mesh assembly from laid-out glyph runs.
//!
//! For every glyph that resolves through the cache, four vertices and six
//! indices (two triangles) are emitted; glyphs that cannot be resolved are
//! skipped and the rest of the run is unaffected. Indices are 16-bit and
//! local to their batch: when a batch's vertex count would outgrow the index
//! range, the mesh is split into a further batch rather than letting the
//! running count wrap.
//!
//! Positions are kept in integer form: a vertex's `x` and `y` are relative to
//! the run baseline, whose vertical position travels alongside, untouched, in
//! `baseline_bits`. Texture coordinates are atlas texel coordinates; dividing
//! by `ATLAS_SIZE` yields the normalized UV rectangle.

use vstd::prelude::*;

use crate::atlas::rect_in_bounds;
use crate::cache::{GlyphCache, GlyphEntry, GlyphKey, entry_rect};
use crate::font::FontRegistry;

verus! {

/// The largest vertex count one batch of 16-bit indices can address.
pub const MAX_BATCH_VERTICES: usize = 65536;

/// One glyph of a laid-out run: its physical position relative to the run
/// baseline, and its identity.
pub struct RunGlyph {
    pub x: i32,
    pub y: i32,
    pub key: GlyphKey,
}

/// One laid-out run: its glyphs and the bit pattern of the run's baseline
/// y coordinate, carried through the mesh untouched.
pub struct GlyphRun {
    pub baseline_bits: u32,
    pub glyphs: Vec<RunGlyph>,
}

/// A mesh vertex: quad corner position (baseline-relative), the run's
/// baseline bit pattern, and the corner's atlas texel coordinates.
#[derive(Clone, Copy, PartialEq, Eq, Structural, Debug)]
pub struct MeshVertex {
    pub x: i64,
    pub y: i64,
    pub baseline_bits: u32,
    pub u: u32,
    pub v: u32,
}

/// One draw batch: textured quads as a vertex buffer and a 16-bit index
/// buffer addressing it.
pub struct TextMesh {
    pub vertices: Vec<MeshVertex>,
    pub indices: Vec<u16>,
}

/// A sound batch: whole quads, six indices per four vertices, every index
/// inside the vertex buffer, and the vertex count inside the index range.
pub open spec fn mesh_wf(m: TextMesh) -> bool {
    &&& m.vertices@.len() % 4 == 0
    &&& m.vertices@.len() <= MAX_BATCH_VERTICES
    &&& m.indices@.len() * 2 == m.vertices@.len() * 3
    &&& forall|i: int|
        0 <= i < m.indices@.len() ==> (#[trigger] m.indices@[i]) < m.vertices@.len()
}

/// The four corners of the quad for glyph `(gx, gy)` drawn with entry `e`:
/// top-left first, then counter-clockwise, each corner carrying its corner of
/// the entry's atlas rectangle. The quad's top-left corner is the glyph
/// position adjusted by the bitmap's bearings.
pub open spec fn is_quad_of(
    vs: Seq<MeshVertex>,
    gx: i32,
    gy: i32,
    bl: u32,
    e: GlyphEntry,
) -> bool {
    let qx = gx + e.left;
    let qy = gy - e.top;
    &&& vs.len() == 4
    &&& vs[0].x == qx && vs[0].y == qy && vs[0].u == e.atlas_x && vs[0].v == e.atlas_y
    &&& vs[1].x == qx && vs[1].y == qy + e.height && vs[1].u == e.atlas_x && vs[1].v == e.atlas_y
        + e.height
    &&& vs[2].x == qx + e.width && vs[2].y == qy + e.height && vs[2].u == e.atlas_x + e.width
        && vs[2].v == e.atlas_y + e.height
    &&& vs[3].x == qx + e.width && vs[3].y == qy && vs[3].u == e.atlas_x + e.width && vs[3].v
        == e.atlas_y
    &&& forall|i: int| 0 <= i < 4 ==> (#[trigger] vs[i]).baseline_bits == bl
}

/// Append one glyph quad to a batch: four vertices and the six indices of
/// its two triangles, offset by the running vertex count.
pub fn push_quad(mesh: &mut TextMesh, gx: i32, gy: i32, bl: u32, e: GlyphEntry)
    requires
        mesh_wf(*old(mesh)),
        old(mesh).vertices@.len() + 4 <= MAX_BATCH_VERTICES,
        rect_in_bounds(entry_rect(e)),
    ensures
        mesh_wf(*final(mesh)),
        final(mesh).vertices@.len() == old(mesh).vertices@.len() + 4,
        final(mesh).indices@.len() == old(mesh).indices@.len() + 6,
        forall|i: int|
            0 <= i < old(mesh).vertices@.len() ==> #[trigger] final(mesh).vertices@[i] == old(
                mesh,
            ).vertices@[i],
        forall|i: int|
            0 <= i < old(mesh).indices@.len() ==> #[trigger] final(mesh).indices@[i] == old(
                mesh,
            ).indices@[i],
        is_quad_of(
            final(mesh).vertices@.subrange(
                old(mesh).vertices@.len() as int,
                old(mesh).vertices@.len() as int + 4,
            ),
            gx,
            gy,
            bl,
            e,
        ),
        ({
            let c = old(mesh).vertices@.len() as int;
            let b = old(mesh).indices@.len() as int;
            &&& final(mesh).indices@[b] == c
            &&& final(mesh).indices@[b + 1] == c + 1
            &&& final(mesh).indices@[b + 2] == c + 2
            &&& final(mesh).indices@[b + 3] == c
            &&& final(mesh).indices@[b + 4] == c + 2
            &&& final(mesh).indices@[b + 5] == c + 3
        }),
    {
        let qx: i64 = gx as i64 + e.left as i64;
        let qy: i64 = gy as i64 - e.top as i64;
        let w: i64 = e.width as i64;
        let h: i64 = e.height as i64;
        let u0 = e.atlas_x;
        let v0 = e.atlas_y;
        let u1 = e.atlas_x + e.width;
        let v1 = e.atlas_y + e.height;
        let c: u16 = mesh.vertices.len() as u16;
        mesh.vertices.push(MeshVertex { x: qx, y: qy, baseline_bits: bl, u: u0, v: v0 });
        mesh.vertices.push(MeshVertex { x: qx, y: qy + h, baseline_bits: bl, u: u0, v: v1 });
        mesh.vertices.push(MeshVertex { x: qx + w, y: qy + h, baseline_bits: bl, u: u1, v: v1 });
        mesh.vertices.push(MeshVertex { x: qx + w, y: qy, baseline_bits: bl, u: u1, v: v0 });
        mesh.indices.push(c);
        mesh.indices.push(c + 1);
        mesh.indices.push(c + 2);
        mesh.indices.push(c);
        mesh.indices.push(c + 2);
        mesh.indices.push(c + 3);
    }

/// The vertices over all batches.
pub open spec fn total_vertices(s: Seq<TextMesh>) -> int
    decreases s.len(),
{
    if s.len() == 0 {
        0
    } else {
        total_vertices(s.drop_last()) + s.last().vertices@.len()
    }
}

/// The indices over all batches.
pub open spec fn total_indices(s: Seq<TextMesh>) -> int
    decreases s.len(),
{
    if s.len() == 0 {
        0
    } else {
        total_indices(s.drop_last()) + s.last().indices@.len()
    }
}

/// The glyphs over all runs.
pub open spec fn glyph_count(runs: Seq<GlyphRun>) -> int
    decreases runs.len(),
{
    if runs.len() == 0 {
        0
    } else {
        glyph_count(runs.drop_last()) + runs.last().glyphs@.len()
    }
}

/// Every glyph named by the runs is already cached under its identity.
pub open spec fn all_cached(entries: Map<u64, GlyphEntry>, runs: Seq<GlyphRun>) -> bool {
    forall|i: int, j: int|
        0 <= i < runs.len() && 0 <= j < runs[i].glyphs@.len() ==> entries.contains_key(
            (#[trigger] runs[i].glyphs@[j]).key.id,
        )
}

/// Build the mesh for one text object from its laid-out runs.
///
/// Each glyph that resolves through the cache contributes exactly four
/// vertices and six indices to some batch; glyphs that do not resolve are
/// skipped without disturbing the rest. Every batch is sound on its own, and
/// a further batch is opened whenever four more vertices would outgrow the
/// 16-bit index range. Resolving may grow the cache and its upload queue but
/// never disturbs entries already cached.
#[verifier::loop_isolation(false)]
pub fn build_mesh(cache: &mut GlyphCache, fonts: &mut FontRegistry, runs: &Vec<GlyphRun>) -> (out:
    Vec<TextMesh>)
    requires
        old(cache).wf(),
    ensures
        final(cache).wf(),
        forall|b: int| 0 <= b < out@.len() ==> mesh_wf(#[trigger] out@[b]),
        out@.len() >= 1,
        total_vertices(out@) % 4 == 0,
        total_indices(out@) * 2 == total_vertices(out@) * 3,
        all_cached(old(cache).entries@, runs@) ==> total_vertices(out@) == 4 * glyph_count(runs@)
            && total_indices(out@) == 6 * glyph_count(runs@),
        forall|k: u64|
            old(cache).entries@.contains_key(k) ==> #[trigger] final(cache).entries@.contains_key(
                k,
            ) && final(cache).entries@[k] == old(cache).entries@[k],
        final(fonts).next_id == old(fonts).next_id,
        final(fonts).families@ == old(fonts).families@,
{
    let ghost orig_entries = cache.entries@;
    let ghost orig_next_id = fonts.next_id;
    let ghost orig_families = fonts.families@;
    let mut out: Vec<TextMesh> = Vec::new();
    let mut cur = TextMesh { vertices: Vec::new(), indices: Vec::new() };
    let ghost mut quads: int = 0;
    let mut i: usize = 0;
    while i < runs.len()
        invariant
            i <= runs@.len(),
            cache.wf(),
            mesh_wf(cur),
            forall|b: int| 0 <= b < out@.len() ==> mesh_wf(#[trigger] out@[b]),
            0 <= quads,
            total_vertices(out@) + cur.vertices@.len() == 4 * quads,
            total_indices(out@) + cur.indices@.len() == 6 * quads,
            all_cached(orig_entries, runs@) ==> quads == glyph_count(runs@.take(i as int)),
            forall|k: u64|
                orig_entries.contains_key(k) ==> #[trigger] cache.entries@.contains_key(k)
                    && cache.entries@[k] == orig_entries[k],
            fonts.next_id == orig_next_id,
            fonts.families@ == orig_families,
        decreases runs@.len() - i,
    {
        let run = &runs[i];
        let mut j: usize = 0;
        while j < run.glyphs.len()
            invariant
                i < runs@.len(),
                j <= run.glyphs@.len(),
                cache.wf(),
                mesh_wf(cur),
                forall|b: int| 0 <= b < out@.len() ==> mesh_wf(#[trigger] out@[b]),
                0 <= quads,
                total_vertices(out@) + cur.vertices@.len() == 4 * quads,
                total_indices(out@) + cur.indices@.len() == 6 * quads,
                all_cached(orig_entries, runs@) ==> quads == glyph_count(runs@.take(i as int))
                    + j,
                forall|k: u64|
                    orig_entries.contains_key(k) ==> #[trigger] cache.entries@.contains_key(
                        k,
                    ) && cache.entries@[k] == orig_entries[k],
                fonts.next_id == orig_next_id,
                fonts.families@ == orig_families,
            decreases run.glyphs@.len() - j,
        {
            let g = &run.glyphs[j];
            if let Some(e) = cache.get_glyph(&g.key, fonts) {
                if cur.vertices.len() + 4 > MAX_BATCH_VERTICES {
                    let ghost prev = out@;
                    out.push(cur);
                    cur = TextMesh { vertices: Vec::new(), indices: Vec::new() };
                    proof {
                        assert(out@.drop_last() =~= prev);
                    }
                }
                push_quad(&mut cur, g.x, g.y, run.baseline_bits, e);
                proof {
                    quads = quads + 1;
                }
            }
            j = j + 1;
        }
        proof {
            assert(runs@.take(i as int + 1).drop_last() =~= runs@.take(i as int));
        }
        i = i + 1;
    }
    proof {
        assert(runs@.take(runs@.len() as int) =~= runs@);
    }
    let ghost prev = out@;
    out.push(cur);
    proof {
        assert(out@.drop_last() =~= prev);
    }
    out
}

} // verus!
