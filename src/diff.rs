//! Two split panes over one shared boundary, drawn with a divider on top.
use vstd::prelude::*;

use crate::error::ViewError;
use crate::geometry::{anchor_for_center, centered_anchor, Blit, Color, Fill, Point, Rect};
use crate::split::{PixelBuffer, Side, SplitView};

verus! {

/// Width in pixels of the boundary marker.
pub const DIVIDER_WIDTH: u32 = 3;

pub open spec fn min_u32(a: u32, b: u32) -> u32 {
    if a <= b { a } else { b }
}

pub open spec fn max_u32(a: u32, b: u32) -> u32 {
    if a >= b { a } else { b }
}

/// The colour of the boundary marker.
pub open spec fn divider_color() -> Color {
    Color { r: 255, g: 0, b: 0 }
}

/// A boundary position relative to a width: the ratio `num / den`.
/// A zero denominator with a positive numerator stands for an unbounded
/// ratio; `0 / 0` stands for no ratio at all and designates column 0.
#[derive(Clone, Copy, Debug, PartialEq, Eq, Structural)]
pub struct Fraction {
    pub num: u32,
    pub den: u32,
}

/// The column that `f`, clamped to `[0, 1]`, designates on `width` columns,
/// rounded down.
pub open spec fn fraction_split(f: Fraction, width: u32) -> int {
    if f.num == 0 {
        0
    } else if f.num >= f.den {
        width as int
    } else {
        (f.num as int * width as int) / (f.den as int)
    }
}

/// What one draw of the view requests, in drawing order: the left part, the
/// right part, then the divider over both.
#[derive(Clone, Copy, Debug, PartialEq, Eq, Structural)]
pub struct DiffFrame {
    pub left: Blit,
    pub right: Blit,
    pub divider: Fill,
}

pub struct Diff<B> {
    pub left: SplitView<B>,
    pub right: SplitView<B>,
    pub position: Point,
    pub split: u32,
}

impl<B> Diff<B> {
    /// The view `new` builds over `left` and `right`.
    pub open spec fn built(left: PixelBuffer<B>, right: PixelBuffer<B>) -> Diff<B> {
        let s = min_u32(left.width, right.width) / 2;
        let origin = Point { x: 0, y: 0 };
        Diff {
            left: SplitView {
                buffer: left.pixels,
                width: left.width,
                height: left.height,
                side: Side::Left,
                position: origin,
                split: s,
            },
            right: SplitView {
                buffer: right.pixels,
                width: right.width,
                height: right.height,
                side: Side::Right,
                position: origin,
                split: s,
            },
            position: origin,
            split: s,
        }
    }

    /// Total width: the wider of the two images.
    pub open spec fn width(&self) -> u32 {
        max_u32(self.left.width, self.right.width)
    }

    /// Total height: the taller of the two images.
    pub open spec fn height(&self) -> u32 {
        max_u32(self.left.height, self.right.height)
    }

    /// The shared boundary lies within the total width, and each pane holds
    /// it as far as its own width allows.
    pub open spec fn wf(&self) -> bool {
        &&& self.left.side == Side::Left
        &&& self.right.side == Side::Right
        &&& self.split <= self.width()
        &&& self.left.split == min_u32(self.split, self.left.width)
        &&& self.right.split == min_u32(self.split, self.right.width)
        &&& self.left.position == self.position
        &&& self.right.position == self.position
    }

    /// This view with the boundary moved to `s` (taken to be within range).
    pub open spec fn with_split(&self, s: u32) -> Diff<B> {
        Diff {
            left: SplitView { split: min_u32(s, self.left.width), ..self.left },
            right: SplitView { split: min_u32(s, self.right.width), ..self.right },
            split: s,
            ..*self
        }
    }

    /// This view with every anchor moved to `p`.
    pub open spec fn placed_at(&self, p: Point) -> Diff<B> {
        Diff {
            left: SplitView { position: p, ..self.left },
            right: SplitView { position: p, ..self.right },
            position: p,
            ..*self
        }
    }

    /// `value` clamped to `[0, width]`.
    pub open spec fn clamp_split(&self, value: int) -> u32 {
        if value < 0 {
            0
        } else if value > self.width() {
            self.width()
        } else {
            value as u32
        }
    }

    /// The boundary under a pointer at viewport column `x`.
    pub open spec fn pointer_split(&self, x: i32) -> u32 {
        self.clamp_split(x - self.position.x)
    }

    pub open spec fn left_fraction(&self) -> Fraction {
        Fraction { num: self.split, den: self.width() }
    }

    /// Whether the boundary's viewport column can be represented.
    pub open spec fn draw_fits(&self) -> bool {
        self.split <= i32::MAX && self.position.x + self.split <= i32::MAX
    }

    pub open spec fn frame(&self) -> DiffFrame {
        DiffFrame {
            left: self.left.blit(),
            right: self.right.blit(),
            divider: Fill {
                rect: Rect::at(
                    self.position.x + self.split,
                    self.position.y as int,
                    DIVIDER_WIDTH as int,
                    self.height() as int,
                ),
                color: divider_color(),
            },
        }
    }

    /// The outcome of drawing this view.
    pub open spec fn draw_result(&self) -> Result<DiffFrame, ViewError> {
        if self.draw_fits() {
            Ok(self.frame())
        } else {
            Err(ViewError::GeometryOverflow)
        }
    }

    /// A view over two images, anchored at the origin, with the boundary in
    /// the middle of the narrower image.
    pub fn new(left: PixelBuffer<B>, right: PixelBuffer<B>) -> (r: Diff<B>)
        ensures
            r.wf(),
            r == Diff::built(left, right),
            r.split == min_u32(left.width, right.width) / 2,
    {
        let mut left = SplitView::new(left, Side::Left);
        let mut right = SplitView::new(right, Side::Right);
        let split = if left.width <= right.width { left.width } else { right.width } / 2;
        left.split(split);
        right.split(split);
        Diff { left, right, position: Point { x: 0, y: 0 }, split }
    }

    /// Moves the shared boundary to `split`, clamped to `[0, width]`, in both
    /// panes at once.
    pub fn update_split(&mut self, split: u32)
        requires
            old(self).wf(),
        ensures
            final(self).wf(),
            final(self).split <= final(self).width(),
            *final(self) == old(self).with_split(old(self).clamp_split(split as int)),
    {
        let width = if self.left.width >= self.right.width {
            self.left.width
        } else {
            self.right.width
        };
        let split = if split <= width { split } else { width };
        self.split = split;
        self.left.split(split);
        self.right.split(split);
    }

    /// While the left button is held, puts the boundary under the pointer's
    /// column `x`, clamped to the view; otherwise changes nothing.
    pub fn update(&mut self, left_pressed: bool, x: i32)
        requires
            old(self).wf(),
        ensures
            final(self).wf(),
            final(self).split <= final(self).width(),
            left_pressed ==> *final(self) == old(self).with_split(old(self).pointer_split(x)),
            !left_pressed ==> *final(self) == *old(self),
    {
        if left_pressed {
            let width = if self.left.width >= self.right.width {
                self.left.width
            } else {
                self.right.width
            };
            let offset: i64 = x as i64 - self.position.x as i64;
            let split: u32 = if offset < 0 {
                0
            } else if offset > width as i64 {
                width
            } else {
                offset as u32
            };
            self.update_split(split);
        }
    }

    /// Puts the boundary at `fraction` (clamped to `[0, 1]`) of the total
    /// width, rounded down.
    pub fn split_by_fraction(&mut self, fraction: Fraction)
        requires
            old(self).wf(),
        ensures
            final(self).wf(),
            final(self).split <= final(self).width(),
            *final(self) == old(self).with_split(
                fraction_split(fraction, old(self).width()) as u32,
            ),
    {
        let width = if self.left.width >= self.right.width {
            self.left.width
        } else {
            self.right.width
        };
        let split: u32 = if fraction.num == 0 {
            0
        } else if fraction.num >= fraction.den {
            width
        } else {
            assert(fraction.num as u64 * width as u64 <= 0xffff_ffffu64 * 0xffff_ffffu64)
                by (nonlinear_arith)
                requires
                    fraction.num <= 0xffff_ffffu32,
                    width <= 0xffff_ffffu32,
            ;
            let scaled: u64 = fraction.num as u64 * width as u64;
            proof {
                lemma_scaled_below(fraction.num as int, fraction.den as int, width as int);
            }
            (scaled / fraction.den as u64) as u32
        };
        self.update_split(split);
    }

    /// The boundary as a ratio of the total width.
    pub fn get_left_fraction(&self) -> (r: Fraction)
        ensures
            r == self.left_fraction(),
    {
        let width = if self.left.width >= self.right.width {
            self.left.width
        } else {
            self.right.width
        };
        Fraction { num: self.split, den: width }
    }

    /// The draw requests for both parts and the divider.
    pub fn draw(&self) -> (r: Result<DiffFrame, ViewError>)
        requires
            self.wf(),
        ensures
            r == self.draw_result(),
    {
        if self.split > i32::MAX as u32 {
            return Err(ViewError::GeometryOverflow);
        }
        let split_x = self.split as i32;
        if self.position.x as i64 + split_x as i64 > i32::MAX as i64 {
            return Err(ViewError::GeometryOverflow);
        }
        let left = match self.left.draw() {
            Ok(b) => b,
            Err(e) => return Err(e),
        };
        let right = match self.right.draw() {
            Ok(b) => b,
            Err(e) => return Err(e),
        };
        let height = if self.left.height >= self.right.height {
            self.left.height
        } else {
            self.right.height
        };
        let rect = Rect::new(self.position.x + split_x, self.position.y, DIVIDER_WIDTH, height);
        Ok(DiffFrame { left, right, divider: Fill { rect, color: Color { r: 255, g: 0, b: 0 } } })
    }

    pub fn size(&self) -> (r: (u32, u32))
        ensures
            r == (self.width(), self.height()),
    {
        let width = if self.left.width >= self.right.width {
            self.left.width
        } else {
            self.right.width
        };
        let height = if self.left.height >= self.right.height {
            self.left.height
        } else {
            self.right.height
        };
        (width, height)
    }

    /// Anchors both panes and the view at `position`.
    pub fn reposition(&mut self, position: Point)
        requires
            old(self).wf(),
        ensures
            final(self).wf(),
            *final(self) == old(self).placed_at(position),
    {
        self.left.reposition(position);
        self.right.reposition(position);
        self.position = position;
    }

    /// Anchors the view so that its centre lies on `center`.
    pub fn center_on(&mut self, center: Point)
        requires
            old(self).wf(),
        ensures
            final(self).wf(),
            *final(self) == old(self).placed_at(
                centered_anchor(center, (old(self).width(), old(self).height())),
            ),
    {
        let size = self.size();
        let anchor = anchor_for_center(center, size);
        self.reposition(anchor);
    }
}

/// Restoring the boundary from its own fraction of the total width puts it
/// back on the same column, so the view is left exactly as it was. This holds
/// for every width, zero included.
pub proof fn lemma_fraction_round_trip<B>(d: Diff<B>)
    requires
        d.wf(),
    ensures
        fraction_split(d.left_fraction(), d.width()) == d.split as int,
        d.with_split(fraction_split(d.left_fraction(), d.width()) as u32) == d,
{
    let f = d.left_fraction();
    if f.num != 0 && f.num < f.den {
        vstd::arithmetic::div_mod::lemma_div_by_multiple(d.split as int, d.width() as int);
        assert(d.split as int * d.width() as int == d.width() as int * d.split as int)
            by (nonlinear_arith);
    }
}

/// Rebuilding on images `k` times as wide and restoring the boundary's
/// fraction puts the boundary `k` times as far from the left edge.
pub proof fn lemma_fraction_scales<B>(d: Diff<B>, k: u32)
    requires
        d.wf(),
        d.width() > 0,
        k > 0,
        k * d.width() <= u32::MAX,
    ensures
        fraction_split(d.left_fraction(), (k * d.width()) as u32) == k * d.split,
{
    let f = d.left_fraction();
    let w = d.width() as int;
    let s = d.split as int;
    let kw = (k * d.width()) as u32;
    assert(kw as int == k * w);
    if f.num != 0 && f.num < f.den {
        assert(fraction_split(f, kw) == (s * (k * w)) / w);
        assert(s * (k * w) == (s * k) * w) by (nonlinear_arith);
        assert(s * k >= 0) by (nonlinear_arith)
            requires
                s >= 0,
                k >= 0,
        ;
        vstd::arithmetic::div_mod::lemma_div_by_multiple(s * k, w);
        assert(s * k == k * s) by (nonlinear_arith);
    } else if f.num != 0 {
        assert(s == w);
        assert(k * s == k * w);
    } else {
        assert(k * s == 0) by (nonlinear_arith)
            requires
                s == 0,
        ;
    }
}

/// Every boundary stays within `[0, width]` once a view has been built or its
/// boundary moved by any of the three ways of moving it.
pub proof fn lemma_split_clamped<B>(d: Diff<B>, value: u32, x: i32, f: Fraction)
    requires
        d.wf(),
    ensures
        d.split <= d.width(),
        d.with_split(d.clamp_split(value as int)).wf(),
        d.with_split(d.pointer_split(x)).wf(),
        d.with_split(fraction_split(f, d.width()) as u32).wf(),
        d.with_split(d.clamp_split(value as int)).split <= d.width(),
        d.with_split(d.pointer_split(x)).split <= d.width(),
        d.with_split(fraction_split(f, d.width()) as u32).split <= d.width(),
{
    if f.num != 0 && f.num < f.den {
        lemma_scaled_below(f.num as int, f.den as int, d.width() as int);
    }
}

/// Drawing depends on the view's state alone: two draws with no change of
/// state between them request identical frames.
pub proof fn lemma_draw_repeatable<B>(d: Diff<B>, e: Diff<B>)
    requires
        d == e,
    ensures
        d.draw_result() == e.draw_result(),
{
}

/// For every boundary, 0 and the full width included, the divider is
/// requested three pixels wide and neither part is ever requested zero
/// pixels wide; the draw succeeds wherever the view's width and its right
/// edge are representable columns.
pub proof fn lemma_divider_visible<B>(d: Diff<B>)
    requires
        d.wf(),
    ensures
        d.frame().divider.rect.width == DIVIDER_WIDTH,
        d.frame().left.src.width >= 1,
        d.frame().left.dst.width >= 1,
        d.frame().right.src.width >= 1,
        d.frame().right.dst.width >= 1,
        d.width() <= i32::MAX && d.position.x + d.width() <= i32::MAX ==> d.draw_result()
            == Ok::<DiffFrame, ViewError>(d.frame()),
{
}

proof fn lemma_scaled_below(num: int, den: int, width: int)
    requires
        0 < num < den,
        0 <= width,
    ensures
        (num * width) / den <= width,
        0 <= (num * width) / den,
{
    assert(num * width <= den * width) by (nonlinear_arith)
        requires
            0 < num < den,
            0 <= width,
    ;
    vstd::arithmetic::div_mod::lemma_div_is_ordered(num * width, den * width, den);
    vstd::arithmetic::div_mod::lemma_div_by_multiple(width, den);
    assert(den * width == width * den) by (nonlinear_arith);
    vstd::arithmetic::div_mod::lemma_div_pos_is_pos(num * width, den);
}

} // verus!
