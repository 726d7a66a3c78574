//! Screen rectangles and the ways of cutting one into pieces.
use vstd::prelude::*;

verus! {

/// A rectangle in integer pixel units: origin `(x, y)`, extent `w` by `h`.
#[derive(Debug, Clone, Copy, PartialEq, Eq, Structural)]
pub struct Rect {
    pub x: u32,
    pub y: u32,
    pub w: u32,
    pub h: u32,
}

/// The split point asked for lies outside the extent being cut.
#[derive(Debug, Clone, Copy, PartialEq, Eq, Structural)]
pub struct InvalidSplit {
    pub offset: u32,
    pub extent: u32,
}

/// The `k`-th of `n` bands of extent `total`: every band gets `total / n`,
/// and the last one also gets what the division leaves over.
pub open spec fn band_size(total: u32, n: nat, k: int) -> u32 {
    if k == n - 1 {
        (total as int / n as int + total as int % n as int) as u32
    } else {
        (total as int / n as int) as u32
    }
}

/// Where the `k`-th of `n` bands of extent `total` starts, from `origin`.
pub open spec fn band_start(origin: u32, total: u32, n: nat, k: int) -> u32 {
    (origin + k * (total as int / n as int)) as u32
}

/// A band starts inside the extent being cut and ends inside it too; the
/// last band ends exactly at its far edge.
pub proof fn lemma_band_fits(total: u32, n: nat, k: int)
    requires
        n > 0,
        0 <= k < n,
    ensures
        0 <= k * (total as int / n as int),
        k * (total as int / n as int) + band_size(total, n, k) <= total,
        k == n - 1 ==> k * (total as int / n as int) + band_size(total, n, k) == total,
        total as int / n as int + total as int % n as int <= total,
{
    let t = total as int;
    let d = n as int;
    let q = t / d;
    let r = t % d;
    vstd::arithmetic::div_mod::lemma_fundamental_div_mod(t, d);
    assert(0 <= q && 0 <= r) by {
        vstd::arithmetic::div_mod::lemma_div_pos_is_pos(t, d);
        vstd::arithmetic::div_mod::lemma_mod_pos_bound(t, d);
    }
    assert(0 <= k * q && k * q + q <= d * q && (k == d - 1 ==> k * q + q == d * q) && q <= d * q)
        by (nonlinear_arith)
        requires
            0 <= k < d,
            0 <= q,
    ;
}

/// Consecutive bands meet edge to edge: the first starts at `origin` and the
/// last ends at `origin + total`, so together they cover the extent exactly
/// with no overlap.
pub proof fn lemma_bands_tile(origin: u32, total: u32, n: nat)
    requires
        n > 0,
        origin + total <= u32::MAX,
    ensures
        band_start(origin, total, n, 0) == origin,
        forall|k: int|
            0 <= k < n - 1 ==> band_start(origin, total, n, k) + band_size(total, n, k)
                == #[trigger] band_start(origin, total, n, k + 1),
        band_start(origin, total, n, n - 1) + band_size(total, n, n - 1) == origin + total,
{
    assert forall|k: int| 0 <= k < n - 1 implies band_start(origin, total, n, k) + band_size(
        total,
        n,
        k,
    ) == #[trigger] band_start(origin, total, n, k + 1) by {
        lemma_band_fits(total, n, k);
        lemma_band_fits(total, n, k + 1);
        let q = total as int / n as int;
        assert(k * q + q == (k + 1) * q) by (nonlinear_arith);
    }
    lemma_band_fits(total, n, n - 1);
}

/// The rows of a rectangle partition it: each spans its full width, and
/// they stack from its top edge to its bottom edge without gap or overlap.
pub proof fn lemma_rows_partition(r: Rect, n: nat)
    requires
        r.wf(),
        n > 0,
    ensures
        forall|k: int| 0 <= k < n ==> (#[trigger] r.rows(n)[k]).x == r.x && r.rows(n)[k].w == r.w,
        r.rows(n)[0].y == r.y,
        forall|k: int|
            0 <= k < n - 1 ==> r.rows(n)[k].y + r.rows(n)[k].h == (#[trigger] r.rows(n)[k + 1]).y,
        r.rows(n)[n - 1].y + r.rows(n)[n - 1].h == r.y + r.h,
{
    lemma_bands_tile(r.y, r.h, n);
    assert forall|k: int| 0 <= k < n - 1 implies r.rows(n)[k].y + r.rows(n)[k].h == (
    #[trigger] r.rows(n)[k + 1]).y by {
        assert(band_start(r.y, r.h, n, k) + band_size(r.h, n, k) == band_start(r.y, r.h, n, k + 1));
    }
}

/// The columns of a rectangle partition it: each spans its full height, and
/// they run from its left edge to its right edge without gap or overlap.
pub proof fn lemma_columns_partition(r: Rect, n: nat)
    requires
        r.wf(),
        n > 0,
    ensures
        forall|k: int|
            0 <= k < n ==> (#[trigger] r.columns(n)[k]).y == r.y && r.columns(n)[k].h == r.h,
        r.columns(n)[0].x == r.x,
        forall|k: int|
            0 <= k < n - 1 ==> r.columns(n)[k].x + r.columns(n)[k].w == (
            #[trigger] r.columns(n)[k + 1]).x,
        r.columns(n)[n - 1].x + r.columns(n)[n - 1].w == r.x + r.w,
{
    lemma_bands_tile(r.x, r.w, n);
    assert forall|k: int| 0 <= k < n - 1 implies r.columns(n)[k].x + r.columns(n)[k].w == (
    #[trigger] r.columns(n)[k + 1]).x by {
        assert(band_start(r.x, r.w, n, k) + band_size(r.w, n, k) == band_start(r.x, r.w, n, k + 1));
    }
}

impl Rect {
    /// The far edges of the rectangle can be named as `u32` coordinates.
    pub open spec fn wf(self) -> bool {
        self.x + self.w <= u32::MAX && self.y + self.h <= u32::MAX
    }

    /// The `n` rows of this rectangle, top to bottom, covering it exactly.
    pub open spec fn rows(self, n: nat) -> Seq<Rect> {
        Seq::new(
            n,
            |k: int|
                Rect {
                    x: self.x,
                    y: band_start(self.y, self.h, n, k),
                    w: self.w,
                    h: band_size(self.h, n, k),
                },
        )
    }

    /// The `n` columns of this rectangle, left to right, covering it exactly.
    pub open spec fn columns(self, n: nat) -> Seq<Rect> {
        Seq::new(
            n,
            |k: int|
                Rect {
                    x: band_start(self.x, self.w, n, k),
                    y: self.y,
                    w: band_size(self.w, n, k),
                    h: self.h,
                },
        )
    }

    /// The left part of width `offset` and the right part holding the rest.
    pub open spec fn width_parts(self, offset: u32) -> (Rect, Rect) {
        (
            Rect { x: self.x, y: self.y, w: offset, h: self.h },
            Rect { x: (self.x + offset) as u32, y: self.y, w: (self.w - offset) as u32, h: self.h },
        )
    }

    /// The top part of height `offset` and the bottom part holding the rest.
    pub open spec fn height_parts(self, offset: u32) -> (Rect, Rect) {
        (
            Rect { x: self.x, y: self.y, w: self.w, h: offset },
            Rect { x: self.x, y: (self.y + offset) as u32, w: self.w, h: (self.h - offset) as u32 },
        )
    }

    pub fn new(x: u32, y: u32, w: u32, h: u32) -> (r: Rect)
        ensures
            r == (Rect { x, y, w, h }),
    {
        Rect { x, y, w, h }
    }

    /// Cuts the rectangle in two at `offset` pixels from its left edge.
    pub fn split_at_width(&self, offset: u32) -> (res: Result<(Rect, Rect), InvalidSplit>)
        requires
            self.wf(),
        ensures
            offset <= self.w ==> res == Ok::<(Rect, Rect), InvalidSplit>(self.width_parts(offset)),
            offset > self.w ==> res == Err::<(Rect, Rect), InvalidSplit>(
                InvalidSplit { offset, extent: self.w },
            ),
    {
        if offset > self.w {
            Err(InvalidSplit { offset, extent: self.w })
        } else {
            Ok(
                (
                    Rect { x: self.x, y: self.y, w: offset, h: self.h },
                    Rect { x: self.x + offset, y: self.y, w: self.w - offset, h: self.h },
                ),
            )
        }
    }

    /// Cuts the rectangle in two at `offset` pixels from its top edge.
    pub fn split_at_height(&self, offset: u32) -> (res: Result<(Rect, Rect), InvalidSplit>)
        requires
            self.wf(),
        ensures
            offset <= self.h ==> res == Ok::<(Rect, Rect), InvalidSplit>(self.height_parts(offset)),
            offset > self.h ==> res == Err::<(Rect, Rect), InvalidSplit>(
                InvalidSplit { offset, extent: self.h },
            ),
    {
        if offset > self.h {
            Err(InvalidSplit { offset, extent: self.h })
        } else {
            Ok(
                (
                    Rect { x: self.x, y: self.y, w: self.w, h: offset },
                    Rect { x: self.x, y: self.y + offset, w: self.w, h: self.h - offset },
                ),
            )
        }
    }

    /// Cuts the rectangle into `n` rows of equal height, top to bottom; the
    /// last row also takes the pixels that do not divide evenly.
    pub fn as_rows(&self, n: u32) -> (rs: Vec<Rect>)
        requires
            self.wf(),
        ensures
            rs@ == self.rows(n as nat),
    {
        let mut rs: Vec<Rect> = Vec::new();
        if n == 0 {
            assert(rs@ =~= self.rows(0));
            return rs;
        }
        let q = self.h / n;
        let mut k: u32 = 0;
        while k < n
            invariant
                0 < n,
                q == self.h / n,
                k <= n,
                self.wf(),
                rs@.len() == k,
                forall|i: int| 0 <= i < k ==> rs@[i] == #[trigger] self.rows(n as nat)[i],
            decreases n - k,
        {
            proof {
                lemma_band_fits(self.h, n as nat, k as int);
            }
            let size = if k == n - 1 { q + self.h % n } else { q };
            rs.push(Rect { x: self.x, y: self.y + k * q, w: self.w, h: size });
            k = k + 1;
        }
        assert(rs@ =~= self.rows(n as nat));
        rs
    }

    /// Cuts the rectangle into `n` columns of equal width, left to right; the
    /// last column also takes the pixels that do not divide evenly.
    pub fn as_columns(&self, n: u32) -> (rs: Vec<Rect>)
        requires
            self.wf(),
        ensures
            rs@ == self.columns(n as nat),
    {
        let mut rs: Vec<Rect> = Vec::new();
        if n == 0 {
            assert(rs@ =~= self.columns(0));
            return rs;
        }
        let q = self.w / n;
        let mut k: u32 = 0;
        while k < n
            invariant
                0 < n,
                q == self.w / n,
                k <= n,
                self.wf(),
                rs@.len() == k,
                forall|i: int| 0 <= i < k ==> rs@[i] == #[trigger] self.columns(n as nat)[i],
            decreases n - k,
        {
            proof {
                lemma_band_fits(self.w, n as nat, k as int);
            }
            let size = if k == n - 1 { q + self.w % n } else { q };
            rs.push(Rect { x: self.x + k * q, y: self.y, w: size, h: self.h });
            k = k + 1;
        }
        assert(rs@ =~= self.columns(n as nat));
        rs
    }
}

} // verus!
