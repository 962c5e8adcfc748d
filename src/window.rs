//! Window sizing at start-up: the largest display, and a window a tenth
//! larger than the larger image, kept within the display.
use vstd::prelude::*;

verus! {

/// Smallest initial window width.
pub const MIN_WINDOW_WIDTH: u32 = 800;

/// Smallest initial window height.
pub const MIN_WINDOW_HEIGHT: u32 = 600;

pub open spec fn area(size: (u32, u32)) -> int {
    size.0 as int * size.1 as int
}

/// The first of the largest-area sizes of `bounds`, or a one-pixel size
/// when none has an area above one.
pub open spec fn largest(bounds: Seq<(u32, u32)>) -> (u32, u32)
    decreases bounds.len(),
{
    if bounds.len() == 0 {
        (1, 1)
    } else {
        let best = largest(bounds.drop_last());
        if area(bounds.last()) > area(best) {
            bounds.last()
        } else {
            best
        }
    }
}

/// An initial window extent for an image `extent` wide: a tenth more,
/// rounded down, kept within `[lo, hi]`.
pub open spec fn window_extent(extent: u32, lo: u32, hi: u32) -> u32 {
    let wanted = (extent as int * 11) / 10;
    if wanted < lo {
        lo
    } else if wanted > hi {
        hi
    } else {
        wanted as u32
    }
}

fn area_of(size: (u32, u32)) -> (r: u64)
    ensures
        r == area(size),
{
    assert(size.0 as int * size.1 as int <= 0xffff_ffff * 0xffff_ffff) by (nonlinear_arith)
        requires
            size.0 <= 0xffff_ffffu32,
            size.1 <= 0xffff_ffffu32,
    ;
    size.0 as u64 * size.1 as u64
}

/// The usable size of the display with the largest area.
pub fn largest_display(bounds: &Vec<(u32, u32)>) -> (r: (u32, u32))
    ensures
        r == largest(bounds@),
{
    let mut best: (u32, u32) = (1, 1);
    let mut i: usize = 0;
    while i < bounds.len()
        invariant
            i <= bounds@.len(),
            best == largest(bounds@.subrange(0, i as int)),
        decreases bounds@.len() - i,
    {
        let candidate = bounds[i];
        if area_of(candidate) > area_of(best) {
            best = candidate;
        }
        proof {
            let next = bounds@.subrange(0, i + 1);
            assert(next.drop_last() =~= bounds@.subrange(0, i as int));
            assert(next.last() == candidate);
        }
        i = i + 1;
    }
    proof {
        assert(bounds@.subrange(0, bounds@.len() as int) =~= bounds@);
    }
    best
}

fn fit_extent(extent: u32, lo: u32, hi: u32) -> (r: u32)
    requires
        lo <= hi,
    ensures
        r == window_extent(extent, lo, hi),
{
    let wanted: u64 = extent as u64 * 11 / 10;
    if wanted < lo as u64 {
        lo
    } else if wanted > hi as u64 {
        hi
    } else {
        wanted as u32
    }
}

/// The initial window size for two images of sizes `left` and `right` on a
/// display of usable size `display`.
pub fn initial_window_size(left: (u32, u32), right: (u32, u32), display: (u32, u32)) -> (r: (
    u32,
    u32,
))
    requires
        MIN_WINDOW_WIDTH <= display.0,
        MIN_WINDOW_HEIGHT <= display.1,
    ensures
        r.0 == window_extent(
            if left.0 >= right.0 { left.0 } else { right.0 },
            MIN_WINDOW_WIDTH,
            display.0,
        ),
        r.1 == window_extent(
            if left.1 >= right.1 { left.1 } else { right.1 },
            MIN_WINDOW_HEIGHT,
            display.1,
        ),
{
    let width = if left.0 >= right.0 { left.0 } else { right.0 };
    let height = if left.1 >= right.1 { left.1 } else { right.1 };
    (fit_extent(width, MIN_WINDOW_WIDTH, display.0), fit_extent(height, MIN_WINDOW_HEIGHT, display.1))
}

} // verus!
