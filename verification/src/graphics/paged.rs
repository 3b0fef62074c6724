//! The page geometry of GxEPD2-style paged rendering: the panel is swept in horizontal bands of
//! `page_height` rows, each drawn into a small buffer, written to its window, and the panel is
//! refreshed once at the end.

use vstd::prelude::*;

verus! {

/// `a / b` rounded up.
pub open spec fn ceil_div(a: int, b: int) -> int {
    (a + b - 1) / b
}

/// The number of bands a `height`-row panel takes at `page_height` rows a band.
pub open spec fn page_count_of(height: u32, page_height: u32) -> int {
    ceil_div(height as int, page_height as int)
}

/// The first row of band `page`.
pub open spec fn page_start(page_height: u32, page: int) -> int {
    page * page_height
}

/// The last row of band `page`: a full band, or what is left of the panel.
pub open spec fn page_end(height: u32, page_height: u32, page: int) -> int {
    if (page + 1) * page_height < height {
        (page + 1) * page_height - 1
    } else {
        height - 1
    }
}

/// One band of a paged render.
#[derive(Debug, Clone, Copy, PartialEq, Eq, Structural)]
pub struct PageGeometry {
    /// First panel row of the band.
    pub y_start: u32,
    /// Last panel row of the band.
    pub y_end: u32,
    /// Rows in the band.
    pub rows: u32,
    /// Bytes the band's 1-bit buffer takes: whole bytes per row.
    pub required_bytes: usize,
}

/// Rounding a quotient up is the quotient plus one when there is a remainder.
pub proof fn lemma_ceil_div(a: int, b: int)
    requires
        a >= 0,
        b > 0,
    ensures
        ceil_div(a, b) == a / b + (if a % b != 0 { 1int } else { 0int }),
{
    let q = a / b;
    let r = a % b;
    vstd::arithmetic::div_mod::lemma_fundamental_div_mod(a, b);
    if r == 0 {
        vstd::arithmetic::div_mod::lemma_fundamental_div_mod_converse(a + b - 1, b, q, b - 1);
    } else {
        assert(a + b - 1 == (q + 1) * b + (r - 1)) by (nonlinear_arith)
            requires
                a == b * q + r,
        ;
        vstd::arithmetic::div_mod::lemma_fundamental_div_mod_converse(a + b - 1, b, q + 1, r - 1);
    }
}

/// The number of bands a `height`-row panel takes at `page_height` rows a band.
pub fn page_count(height: u32, page_height: u32) -> (r: u32)
    requires
        page_height > 0,
    ensures
        r == page_count_of(height, page_height),
{
    proof {
        lemma_ceil_div(height as int, page_height as int);
        if height % page_height != 0 {
            assert(page_height >= 2);
            assert(height / page_height <= height / 2) by (nonlinear_arith)
                requires
                    page_height >= 2,
            ;
        }
    }
    height / page_height + if height % page_height != 0 {
        1
    } else {
        0
    }
}

/// Whether band `page`'s rows and buffer size are computable: the row after a full band fits
/// in 32 bits, and the buffer size in a `usize`.
pub open spec fn page_fits(width: u32, height: u32, page_height: u32, page: int) -> bool {
    &&& page_start(page_height, page) + page_height <= u32::MAX
    &&& ceil_div(width as int, 8) * (page_end(height, page_height, page) - page_start(
        page_height,
        page,
    ) + 1) <= usize::MAX
}

/// The geometry of band `page` of a `width` x `height` panel.
pub fn page_geometry(width: u32, height: u32, page_height: u32, page: u32) -> (r: PageGeometry)
    requires
        page_height > 0,
        page < page_count_of(height, page_height),
        page_fits(width, height, page_height, page as int),
    ensures
        r.y_start == page_start(page_height, page as int),
        r.y_end == page_end(height, page_height, page as int),
        r.rows == r.y_end - r.y_start + 1,
        r.required_bytes == ceil_div(width as int, 8) * r.rows,
{
    proof {
        lemma_page_inside(height, page_height, page as int);
    }
    assert((page as int) * (page_height as int) <= u32::MAX);
    let y_start = page * page_height;
    let next = y_start + page_height;
    let y_end = if next < height {
        next
    } else {
        height
    } - 1;
    let rows = y_end - y_start + 1;
    let row_bytes = (width / 8) as usize + if width % 8 != 0 {
        1
    } else {
        0
    };
    assert(row_bytes == ceil_div(width as int, 8));
    let required_bytes = row_bytes * rows as usize;
    PageGeometry { y_start, y_end, rows, required_bytes }
}

/// Every band starts inside the panel and ends no earlier than it starts.
proof fn lemma_page_inside(height: u32, page_height: u32, page: int)
    requires
        page_height > 0,
        0 <= page < page_count_of(height, page_height),
    ensures
        0 <= page_start(page_height, page) < height,
        page_start(page_height, page) <= page_end(height, page_height, page) < height,
        (page + 1) * page_height == page * page_height + page_height,
{
    let h = height as int;
    let p = page_height as int;
    assert(page * p < h) by (nonlinear_arith)
        requires
            0 <= page < (h + p - 1) / p,
            p > 0,
    ;
    assert(page * p >= 0) by (nonlinear_arith)
        requires
            page >= 0,
            p > 0,
    ;
    assert((page + 1) * p == page * p + p) by (nonlinear_arith);
}

/// The bands tile the panel: the first starts at row 0, each starts the row after the previous
/// one ends, none is taller than `page_height`, and the last ends at the panel's last row.
pub proof fn lemma_pages_tile_the_panel(height: u32, page_height: u32, page: int)
    requires
        height > 0,
        page_height > 0,
        0 <= page < page_count_of(height, page_height),
    ensures
        page_start(page_height, 0) == 0,
        page_start(page_height, page) <= page_end(height, page_height, page) < height,
        page_end(height, page_height, page) - page_start(page_height, page) + 1 <= page_height,
        page + 1 < page_count_of(height, page_height) ==> page_start(page_height, page + 1)
            == page_end(height, page_height, page) + 1,
        page + 1 == page_count_of(height, page_height) ==> page_end(height, page_height, page)
            == height - 1,
{
    lemma_page_inside(height, page_height, page);
    let h = height as int;
    let p = page_height as int;
    let n = page_count_of(height, page_height);
    assert((page + 1) * p == page * p + p) by (nonlinear_arith);
    if page + 1 < n {
        assert((page + 1) * p < h) by (nonlinear_arith)
            requires
                0 <= page + 1 < (h + p - 1) / p,
                p > 0,
        ;
    }
    if page + 1 == n {
        assert((page + 1) * p >= h) by (nonlinear_arith)
            requires
                page + 1 == (h + p - 1) / p,
                p > 0,
        ;
    }
}


/// Whether every band of a sweep can be computed: the row after the last full band fits in
/// 32 bits, and the tallest band's buffer size in a `usize`.
pub open spec fn sweep_fits(width: u32, height: u32, page_height: u32) -> bool {
    &&& page_count_of(height, page_height) * page_height <= u32::MAX
    &&& ceil_div(width as int, 8) * (if page_height < height {
        page_height
    } else {
        height
    }) <= usize::MAX
}

/// The geometry of band `page` of a `width` x `height` panel swept `page_height` rows a band.
pub open spec fn band_geometry(width: u32, height: u32, page_height: u32, page: int) -> PageGeometry {
    let rows = page_end(height, page_height, page) - page_start(page_height, page) + 1;
    PageGeometry {
        y_start: page_start(page_height, page) as u32,
        y_end: page_end(height, page_height, page) as u32,
        rows: rows as u32,
        required_bytes: (ceil_div(width as int, 8) * rows) as usize,
    }
}

/// A sweep that fits has room for each of its bands.
proof fn lemma_sweep_fits_each_page(width: u32, height: u32, page_height: u32, page: int)
    requires
        page_height > 0,
        sweep_fits(width, height, page_height),
        0 <= page < page_count_of(height, page_height),
    ensures
        page_fits(width, height, page_height, page),
{
    lemma_page_inside(height, page_height, page);
    lemma_pages_tile_the_panel(height, page_height, page);
    let p = page_height as int;
    let n = page_count_of(height, page_height);
    let rows = page_end(height, page_height, page) - page_start(page_height, page) + 1;
    let tallest = if page_height < height {
        p
    } else {
        height as int
    };
    let row_bytes = ceil_div(width as int, 8);
    assert((page + 1) * p <= n * p) by (nonlinear_arith)
        requires
            page + 1 <= n,
            p > 0,
    ;
    assert((page + 1) * p == page * p + p) by (nonlinear_arith);
    assert(row_bytes >= 0);
    assert(rows <= tallest);
    assert(row_bytes * rows <= row_bytes * tallest) by (nonlinear_arith)
        requires
            row_bytes >= 0,
            rows <= tallest,
    ;
}

/// A sweep over the bands of a paged render, handing out each band's geometry in turn, top to
/// bottom.
pub struct PageSweep {
    width: u32,
    height: u32,
    page_height: u32,
    next: u32,
}

impl PageSweep {
    #[verifier::type_invariant]
    spec fn well_formed(self) -> bool {
        &&& self.page_height > 0
        &&& sweep_fits(self.width, self.height, self.page_height)
        &&& self.next <= page_count_of(self.height, self.page_height)
    }

    /// Panel width in pixels.
    pub closed spec fn width(self) -> u32 {
        self.width
    }

    /// Panel height in pixels.
    pub closed spec fn height(self) -> u32 {
        self.height
    }

    /// Rows a band.
    pub closed spec fn page_height(self) -> u32 {
        self.page_height
    }

    /// How many bands the sweep has handed out.
    pub closed spec fn handed_out(self) -> int {
        self.next as int
    }

    /// Starts a sweep of a `width` x `height` panel in bands of `page_height` rows; `None` where
    /// a band cannot hold a row or the bands' arithmetic would overflow.
    pub fn new(width: u32, height: u32, page_height: u32) -> (r: Option<Self>)
        ensures
            r is Some <==> page_height > 0 && sweep_fits(width, height, page_height),
            r matches Some(s) ==> {
                &&& s.width() == width
                &&& s.height() == height
                &&& s.page_height() == page_height
                &&& s.handed_out() == 0
            },
    {
        if page_height == 0 {
            return None;
        }
        let count = page_count(height, page_height);
        assert((count as int) * (page_height as int) <= u64::MAX) by (nonlinear_arith)
            requires
                count <= u32::MAX,
                page_height <= u32::MAX,
        ;
        let last_row_after = (count as u64) * (page_height as u64);
        if last_row_after > u32::MAX as u64 {
            return None;
        }
        let row_bytes = (width / 8) as usize + if width % 8 != 0 {
            1
        } else {
            0
        };
        assert(row_bytes == ceil_div(width as int, 8));
        let tallest = if page_height < height {
            page_height
        } else {
            height
        };
        match row_bytes.checked_mul(tallest as usize) {
            None => None,
            Some(_) => Some(PageSweep { width, height, page_height, next: 0 }),
        }
    }

    /// The next band of the sweep, or `None` once every band has been handed out.
    pub fn next_page(&mut self) -> (r: Option<PageGeometry>)
        ensures
            final(self).width() == old(self).width(),
            final(self).height() == old(self).height(),
            final(self).page_height() == old(self).page_height(),
            old(self).handed_out() < page_count_of(old(self).height(), old(self).page_height())
                ==> {
                &&& r == Some(
                    band_geometry(
                        old(self).width(),
                        old(self).height(),
                        old(self).page_height(),
                        old(self).handed_out(),
                    ),
                )
                &&& final(self).handed_out() == old(self).handed_out() + 1
            },
            old(self).handed_out() >= page_count_of(old(self).height(), old(self).page_height())
                ==> {
                &&& r is None
                &&& final(self).handed_out() == old(self).handed_out()
            },
    {
        proof {
            use_type_invariant(&*self);
        }
        let count = page_count(self.height, self.page_height);
        if self.next >= count {
            return None;
        }
        proof {
            lemma_sweep_fits_each_page(self.width, self.height, self.page_height, self.next as int);
            lemma_page_inside(self.height, self.page_height, self.next as int);
        }
        let geometry = page_geometry(self.width, self.height, self.page_height, self.next);
        self.next = self.next + 1;
        Some(geometry)
    }
}

} // verus!
