//! Shelf bin packer for the glyph atlas.
//!
//! The packer hands out origins for rectangular bitmaps inside a fixed
//! 2048 x 2048 surface, filling rows ("shelves") left to right and opening a
//! new row when the current one cannot take the next width. Space is never
//! returned: the cursor only moves forward, and every region handed out stays
//! reserved (with its padding) for the lifetime of the packer.

use vstd::prelude::*;

verus! {

/// Side length of the square atlas surface, in texels.
pub const ATLAS_SIZE: u32 = 2048;

/// Reserved gap kept to the right of and below every placed bitmap, so that
/// linear sampling of one glyph never bleeds into a neighbour.
pub const PADDING: u32 = 1;

/// A region of the atlas reserved for one bitmap: origin and size in texels.
#[derive(Clone, Copy, PartialEq, Eq, Structural, Debug)]
pub struct Rect {
    pub x: u32,
    pub y: u32,
    pub w: u32,
    pub h: u32,
}

/// The region, together with its trailing padding, lies inside the atlas and
/// clear of the leading padding border.
pub open spec fn rect_in_bounds(r: Rect) -> bool {
    &&& PADDING <= r.x
    &&& PADDING <= r.y
    &&& r.x + r.w + PADDING <= ATLAS_SIZE
    &&& r.y + r.h + PADDING <= ATLAS_SIZE
}

/// The two regions, each extended by its trailing padding, do not intersect.
pub open spec fn rects_disjoint(a: Rect, b: Rect) -> bool {
    ||| a.x + a.w + PADDING <= b.x
    ||| b.x + b.w + PADDING <= a.x
    ||| a.y + a.h + PADDING <= b.y
    ||| b.y + b.h + PADDING <= a.y
}

/// Shelf packer state: the cursor of the next free position, the height of
/// the row being filled, and (in ghost state) every region handed out so far.
pub struct AtlasPacker {
    pub next_x: u32,
    pub next_y: u32,
    pub row_height: u32,
    pub placed: Ghost<Seq<Rect>>,
}

impl AtlasPacker {
    /// The region lies wholly above the open row, or sits in the open row
    /// left of the cursor and within the row's height.
    pub open spec fn in_shelves(self, r: Rect) -> bool {
        ||| r.y + r.h + PADDING <= self.next_y
        ||| (r.y == self.next_y && r.x + r.w + PADDING <= self.next_x && r.h <= self.row_height)
    }

    pub open spec fn wf(self) -> bool {
        &&& PADDING <= self.next_x && self.next_x <= ATLAS_SIZE
        &&& PADDING <= self.next_y && self.next_y <= ATLAS_SIZE + PADDING
        &&& self.row_height <= ATLAS_SIZE
        &&& forall|i: int|
            0 <= i < self.placed@.len() ==> rect_in_bounds(#[trigger] self.placed@[i])
        &&& forall|i: int|
            0 <= i < self.placed@.len() ==> self.in_shelves(#[trigger] self.placed@[i])
        &&& forall|i: int, j: int|
            0 <= i < j < self.placed@.len() ==> #[trigger] rects_disjoint(
                self.placed@[i],
                self.placed@[j],
            )
    }

    /// Whether the width `w` still fits in the open row.
    pub open spec fn fits_row(self, w: u32) -> bool {
        self.next_x + w + PADDING <= ATLAS_SIZE
    }

    /// The cursor y after closing the open row, held at one row past the
    /// bottom border once the surface is used up.
    pub open spec fn wrapped_y(self) -> int {
        if self.next_y + self.row_height + PADDING <= ATLAS_SIZE + PADDING {
            self.next_y + self.row_height + PADDING
        } else {
            ATLAS_SIZE + PADDING
        }
    }

    /// The x origin a request of width `w` would be given.
    pub open spec fn eff_x(self, w: u32) -> int {
        if self.fits_row(w) {
            self.next_x as int
        } else {
            PADDING as int
        }
    }

    /// The y origin a request of width `w` would be given.
    pub open spec fn eff_y(self, w: u32) -> int {
        if self.fits_row(w) {
            self.next_y as int
        } else {
            self.wrapped_y()
        }
    }

    /// The row height left standing when a request of width `w` arrives.
    pub open spec fn eff_row_height(self, w: u32) -> int {
        if self.fits_row(w) {
            self.row_height as int
        } else {
            0
        }
    }

    /// Whether a `w` x `h` bitmap still has room: after the row wrap that its
    /// width would force, both its width and its height must fit.
    pub open spec fn can_place(self, w: u32, h: u32) -> bool {
        &&& self.eff_x(w) + w + PADDING <= ATLAS_SIZE
        &&& self.eff_y(w) + h + PADDING <= ATLAS_SIZE
    }

    /// A fresh packer: the cursor rests at the padding border and nothing is
    /// reserved.
    pub fn new() -> (p: AtlasPacker)
        ensures
            p.wf(),
            p.next_x == PADDING,
            p.next_y == PADDING,
            p.row_height == 0,
            p.placed@ == Seq::<Rect>::empty(),
    {
        AtlasPacker { next_x: PADDING, next_y: PADDING, row_height: 0, placed: Ghost(Seq::empty()) }
    }

    /// Reserve room for a `w` x `h` bitmap and return its origin, or return
    /// `None` if the atlas has no room left for this size.
    ///
    /// Succeeds exactly when `can_place` holds; a successful origin respects
    /// the padding border on every side, and the reserved region is recorded
    /// and never handed out again. Once a size is refused, the same request
    /// keeps being refused: the cursor never moves back.
    pub fn place(&mut self, w: u32, h: u32) -> (r: Option<(u32, u32)>)
        requires
            old(self).wf(),
        ensures
            final(self).wf(),
            r is Some <==> old(self).can_place(w, h),
            r matches Some(p) ==> {
                &&& p.0 == old(self).eff_x(w)
                &&& p.1 == old(self).eff_y(w)
                &&& PADDING <= p.0
                &&& PADDING <= p.1
                &&& p.0 + w + PADDING <= ATLAS_SIZE
                &&& p.1 + h + PADDING <= ATLAS_SIZE
                &&& final(self).placed@ == old(self).placed@.push(
                    Rect { x: p.0, y: p.1, w, h },
                )
                &&& final(self).next_x == p.0 + w + PADDING
                &&& final(self).next_y == p.1
                &&& final(self).row_height == if old(self).eff_row_height(w) < h {
                    h as int
                } else {
                    old(self).eff_row_height(w)
                }
            },
            r is None ==> {
                &&& final(self).placed@ == old(self).placed@
                &&& !final(self).can_place(w, h)
                &&& final(self).next_x == if old(self).fits_row(w) {
                    old(self).next_x as int
                } else {
                    PADDING as int
                }
                &&& final(self).next_y == if old(self).fits_row(w) {
                    old(self).next_y as int
                } else {
                    old(self).wrapped_y()
                }
                &&& final(self).row_height == old(self).eff_row_height(w)
            },
            final(self).next_y >= old(self).next_y,
    {
        if (self.next_x as u64) + (w as u64) + (PADDING as u64) > ATLAS_SIZE as u64 {
            let ny: u64 = (self.next_y as u64) + (self.row_height as u64) + (PADDING as u64);
            self.next_x = PADDING;
            self.next_y = if ny > (ATLAS_SIZE + PADDING) as u64 {
                ATLAS_SIZE + PADDING
            } else {
                ny as u32
            };
            self.row_height = 0;
        }
        if (self.next_x as u64) + (w as u64) + (PADDING as u64) > ATLAS_SIZE as u64 {
            return None;
        }
        if (self.next_y as u64) + (h as u64) + (PADDING as u64) > ATLAS_SIZE as u64 {
            return None;
        }
        let x = self.next_x;
        let y = self.next_y;
        self.next_x = x + w + PADDING;
        self.row_height = if self.row_height < h {
            h
        } else {
            self.row_height
        };
        proof {
            self.placed@ = self.placed@.push(Rect { x, y, w, h });
        }
        Some((x, y))
    }
}

/// Every reserved region lies inside the atlas, clear of the borders.
pub proof fn lemma_placement_bounds(p: AtlasPacker, i: int)
    requires
        p.wf(),
        0 <= i < p.placed@.len(),
    ensures
        rect_in_bounds(p.placed@[i]),
{
}

/// No two distinct reserved regions intersect, padding included.
pub proof fn lemma_placements_disjoint(p: AtlasPacker, i: int, j: int)
    requires
        p.wf(),
        0 <= i < p.placed@.len(),
        0 <= j < p.placed@.len(),
        i != j,
    ensures
        rects_disjoint(p.placed@[i], p.placed@[j]),
{
    if i < j {
    } else {
        assert(rects_disjoint(p.placed@[j], p.placed@[i]));
    }
}

/// Refusal is final: a request that has just been refused is refused again
/// by the state the refusal left behind.
pub proof fn lemma_exhaustion_final(pre: AtlasPacker, post: AtlasPacker, w: u32, h: u32)
    requires
        pre.wf(),
        post.wf(),
        !pre.can_place(w, h),
        post.placed@ == pre.placed@,
        post.next_x == if pre.fits_row(w) { pre.next_x as int } else { PADDING as int },
        post.next_y == if pre.fits_row(w) { pre.next_y as int } else { pre.wrapped_y() },
        post.row_height == pre.eff_row_height(w),
    ensures
        !post.can_place(w, h),
{
}

} // verus!
