//! Screen region: an integer rectangle and the scanline walk over its pixels.
use vstd::arithmetic::div_mod::{lemma_fundamental_div_mod, lemma_fundamental_div_mod_converse};
use vstd::prelude::*;

use crate::ivec2::{abs_int, fits_i32, IVec2};

verus! {

/// Integer rectangle
#[derive(Debug, Clone, Copy, PartialEq, Eq, Hash, Structural)]
pub struct IRect {
    /// Horizontal start position
    pub x: i32,
    /// Vertical start position
    pub y: i32,
    /// Width
    pub w: i32,
    /// Height
    pub h: i32,
}

impl Default for IRect {
    fn default() -> (r: Self)
        ensures
            r == (IRect { x: 0, y: 0, w: 0, h: 0 }),
    {
        Self::new(0, 0, 0, 0)
    }
}

/// `|i32::MIN| * |i32::MIN|`, the largest area a rectangle can have.
pub const MAX_AREA: u64 = 0x4000_0000_0000_0000;

/// The number of pixels of a `w` by `h` rectangle.
pub open spec fn area_spec(w: i32, h: i32) -> int {
    abs_int(w as int) * abs_int(h as int)
}

/// Row `i / |w|` and column `i % |w|` of the `i`th pixel of a scanline walk whose rows are
/// `|w|` wide; a negative width walks the rows upwards.
pub open spec fn scanline_point(xmin: int, ymin: int, w: int, i: int) -> (int, int) {
    let row = i / abs_int(w);
    let col = i % abs_int(w);
    (xmin + col, if w < 0 {
        ymin - row
    } else {
        ymin + row
    })
}

/// The `i`th pixel of a scanline walk fits in an [`IVec2`].
pub open spec fn scanline_fits(xmin: int, ymin: int, w: int, i: int) -> bool {
    fits_i32(scanline_point(xmin, ymin, w, i).0) && fits_i32(scanline_point(xmin, ymin, w, i).1)
}

impl IRect {
    /// Construct an [`IRect`] from components
    pub fn new(x: i32, y: i32, w: i32, h: i32) -> (r: Self)
        ensures
            r == (IRect { x, y, w, h }),
    {
        Self { x, y, w, h }
    }

    /// The position (x,y) as a vector
    pub fn pos(&self) -> (p: IVec2)
        ensures
            p == (IVec2 { x: self.x, y: self.y }),
    {
        IVec2::new(self.x, self.y)
    }

    /// The size as a vector
    pub fn size(&self) -> (s: IVec2)
        ensures
            s == (IVec2 { x: self.w, y: self.h }),
    {
        IVec2::new(self.w, self.h)
    }

    /// The total number of pixels within the region.
    ///
    /// Result is guaranteed to be between 0 and [`MAX_AREA`] inclusively.
    pub fn area(&self) -> (a: u64)
        ensures
            a == area_spec(self.w, self.h),
            a <= MAX_AREA,
    {
        let w = unsigned_abs(self.w);
        let h = unsigned_abs(self.h);
        assert(w * h <= 0x8000_0000u64 * 0x8000_0000u64) by (nonlinear_arith)
            requires
                w <= 0x8000_0000u64,
                h <= 0x8000_0000u64,
        ;
        w * h
    }

    /// Every pixel of the region has a position that fits in an [`IVec2`].
    pub open spec fn points_fit(self) -> bool {
        forall|i: int|
            0 <= i < area_spec(self.w, self.h) ==> #[trigger] scanline_fits(
                self.x as int,
                self.y as int,
                self.w as int,
                i,
            )
    }

    /// Walk the pixels of the region row by row
    pub fn into_iter(self) -> (it: ScanlineIter)
        requires
            self.points_fit(),
        ensures
            it.wf(),
            it.front == 0,
            it.back == area_spec(self.w, self.h),
            it.xmin == self.x,
            it.ymin == self.y,
            it.w == self.w,
    {
        ScanlineIter::new(self)
    }
}

/// `v.unsigned_abs()` widened to `u64`
fn unsigned_abs(v: i32) -> (a: u64)
    ensures
        a == abs_int(v as int),
        a <= 0x8000_0000,
{
    if v < 0 {
        (-(v as i64)) as u64
    } else {
        v as u64
    }
}

/// An iterator over [`IVec2`] positions in an [`IRect`].
///
/// Iterates by row, then by column, starting at `ymin`; the pixels still to come are those
/// with index `front..back`.
#[derive(Debug, Clone, Copy)]
pub struct ScanlineIter {
    pub front: i64,
    pub back: i64,
    pub xmin: i32,
    pub ymin: i32,
    pub w: i32,
}

impl ScanlineIter {
    /// The remaining indices are in range and every one of them names a representable pixel.
    pub open spec fn wf(self) -> bool {
        &&& 0 <= self.front <= self.back
        &&& forall|i: int|
            self.front <= i < self.back ==> #[trigger] scanline_fits(
                self.xmin as int,
                self.ymin as int,
                self.w as int,
                i,
            )
    }

    /// The pixel with walk index `i`.
    pub open spec fn point(self, i: int) -> IVec2 {
        IVec2 {
            x: scanline_point(self.xmin as int, self.ymin as int, self.w as int, i).0 as i32,
            y: scanline_point(self.xmin as int, self.ymin as int, self.w as int, i).1 as i32,
        }
    }

    /// The pixels still to come, in order.
    pub open spec fn remaining(self) -> Seq<IVec2> {
        if self.w == 0 {
            Seq::empty()
        } else {
            Seq::new((self.back - self.front) as nat, |k: int| self.point(self.front + k))
        }
    }

    fn new(rect: IRect) -> (it: Self)
        requires
            rect.points_fit(),
        ensures
            it.wf(),
            it.front == 0,
            it.back == area_spec(rect.w, rect.h),
            it.xmin == rect.x,
            it.ymin == rect.y,
            it.w == rect.w,
    {
        let area = rect.area();
        Self { front: 0, back: area as i64, xmin: rect.x, ymin: rect.y, w: rect.w }
    }

    fn index_to_vec2(&self, i: i64) -> (p: IVec2)
        requires
            self.w != 0,
            0 <= i,
            scanline_fits(self.xmin as int, self.ymin as int, self.w as int, i as int),
        ensures
            p == self.point(i as int),
    {
        let w = unsigned_abs(self.w);
        let row = (i as u64) / w;
        let col = (i as u64) % w;
        assert(row <= i && col < w) by (nonlinear_arith)
            requires
                row == (i as u64) / w,
                col == (i as u64) % w,
                w >= 1,
                i >= 0,
        ;
        let x = (self.xmin as i64 + col as i64) as i32;
        let y = if self.w < 0 {
            (self.ymin as i64 - row as i64) as i32
        } else {
            (self.ymin as i64 + row as i64) as i32
        };
        IVec2::new(x, y)
    }

    /// The next pixel from the front, if any
    pub fn next(&mut self) -> (p: Option<IVec2>)
        requires
            old(self).wf(),
        ensures
            final(self).wf(),
            old(self).remaining().len() == 0 ==> p is None && *final(self) == *old(self),
            old(self).remaining().len() > 0 ==> p == Some(old(self).remaining()[0])
                && final(self).remaining() == old(self).remaining().drop_first()
                && final(self).front == old(self).front + 1,
            final(self).back == old(self).back,
            final(self).xmin == old(self).xmin && final(self).ymin == old(self).ymin
                && final(self).w == old(self).w,
    {
        if self.w == 0 {
            return None;
        }
        if self.front < self.back {
            let i = self.front;
            self.front = self.front + 1;
            let p = self.index_to_vec2(i);
            assert(self.remaining() =~= old(self).remaining().drop_first());
            Some(p)
        } else {
            None
        }
    }

    /// The next pixel from the back, if any
    pub fn next_back(&mut self) -> (p: Option<IVec2>)
        requires
            old(self).wf(),
        ensures
            final(self).wf(),
            old(self).remaining().len() == 0 ==> p is None && *final(self) == *old(self),
            old(self).remaining().len() > 0 ==> p == Some(old(self).remaining().last())
                && final(self).remaining() == old(self).remaining().drop_last()
                && final(self).back == old(self).back - 1,
            final(self).front == old(self).front,
            final(self).xmin == old(self).xmin && final(self).ymin == old(self).ymin
                && final(self).w == old(self).w,
    {
        if self.w == 0 {
            return None;
        }
        if self.front < self.back {
            self.back = self.back - 1;
            let i = self.back;
            let p = self.index_to_vec2(i);
            assert(self.remaining() =~= old(self).remaining().drop_last());
            Some(p)
        } else {
            None
        }
    }

    /// Bounds on the number of pixels still to come, as `Iterator::size_hint` reports them
    pub fn size_hint(&self) -> (h: (usize, Option<usize>))
        requires
            0 <= self.front <= self.back,
        ensures
            self.back - self.front <= usize::MAX ==> h == (
                (self.back - self.front) as usize,
                Some((self.back - self.front) as usize),
            ),
            self.back - self.front > usize::MAX ==> h == (usize::MAX, None::<usize>),
    {
        let n = (self.back - self.front) as u64;
        if n <= usize::MAX as u64 {
            (n as usize, Some(n as usize))
        } else {
            (usize::MAX, None)
        }
    }
}

/// The walk that [`IRect::into_iter`] starts for `r`.
pub open spec fn walk_start(r: IRect) -> ScanlineIter {
    ScanlineIter { front: 0, back: area_spec(r.w, r.h) as i64, xmin: r.x, ymin: r.y, w: r.w }
}

/// The position in a walk over `r` of the pixel `(x, y)`.
pub open spec fn walk_index(r: IRect, x: int, y: int) -> int {
    (y - r.y) * r.w + (x - r.x)
}

/// A full walk over a rectangle of non-negative size yields exactly its `w * h` pixels, row by
/// row (`y` increasing, then `x`), each once. Once nothing remains, `next` and `next_back`
/// return `None` and leave the walk as it is, so it yields `None` forever.
pub proof fn lemma_walk_visits_each_pixel_once(r: IRect)
    requires
        r.w >= 0,
        r.h >= 0,
        r.points_fit(),
    ensures
        walk_start(r).wf(),
        walk_start(r).remaining().len() == r.w * r.h,
        forall|k: int|
            0 <= k < r.w * r.h ==> #[trigger] walk_start(r).remaining()[k] == (IVec2 {
                x: (r.x + k % (r.w as int)) as i32,
                y: (r.y + k / (r.w as int)) as i32,
            }),
        forall|x: int, y: int|
            r.x <= x < r.x + r.w && r.y <= y < r.y + r.h ==> 0 <= #[trigger] walk_index(r, x, y)
                < r.w * r.h && walk_start(r).remaining()[walk_index(r, x, y)] == (IVec2 {
                x: x as i32,
                y: y as i32,
            }),
        forall|k: int, j: int|
            0 <= k < j < r.w * r.h ==> #[trigger] walk_start(r).remaining()[k]
                != #[trigger] walk_start(r).remaining()[j],
{
    let it = walk_start(r);
    let w = r.w as int;
    let h = r.h as int;
    assert(area_spec(r.w, r.h) == w * h);
    assert(0 <= w * h <= 0x8000_0000 * 0x8000_0000) by (nonlinear_arith)
        requires
            0 <= w <= 0x8000_0000,
            0 <= h <= 0x8000_0000,
    ;
    if w == 0 {
        assert(w * h == 0) by (nonlinear_arith)
            requires
                w == 0,
        ;
        return;
    }
    assert forall|k: int| 0 <= k < w * h implies #[trigger] it.remaining()[k] == (IVec2 {
        x: (r.x + k % w) as i32,
        y: (r.y + k / w) as i32,
    }) by {
        assert(scanline_fits(r.x as int, r.y as int, w, k));
    }
    assert forall|x: int, y: int| r.x <= x < r.x + r.w && r.y <= y < r.y + r.h implies 0
        <= #[trigger] walk_index(r, x, y) < w * h && it.remaining()[walk_index(r, x, y)] == (IVec2 {
        x: x as i32,
        y: y as i32,
    }) by {
        let k = (y - r.y) * w + (x - r.x);
        lemma_fundamental_div_mod_converse(k, w, y - r.y, x - r.x);
        assert(k < w * h) by (nonlinear_arith)
            requires
                k == (y - r.y) * w + (x - r.x),
                0 <= y - r.y < h,
                0 <= x - r.x < w,
        ;
        assert(0 <= k) by (nonlinear_arith)
            requires
                k == (y - r.y) * w + (x - r.x),
                0 <= y - r.y,
                0 <= x - r.x,
                w > 0,
        ;
        assert(it.remaining()[k] == (IVec2 { x: (r.x + k % w) as i32, y: (r.y + k / w) as i32 }));
    }
    assert forall|k: int, j: int| 0 <= k < j < w * h implies #[trigger] it.remaining()[k]
        != #[trigger] it.remaining()[j] by {
        assert(scanline_fits(r.x as int, r.y as int, w, k));
        assert(scanline_fits(r.x as int, r.y as int, w, j));
        lemma_fundamental_div_mod(k, w);
        lemma_fundamental_div_mod(j, w);
        if it.remaining()[k] == it.remaining()[j] {
            assert(k % w == j % w);
            assert(k / w == j / w);
            assert(k == j) by (nonlinear_arith)
                requires
                    k == w * (k / w) + k % w,
                    j == w * (j / w) + j % w,
                    k % w == j % w,
                    k / w == j / w,
            ;
        }
    }
}

} // verus!
