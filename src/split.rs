//! One side of a split view: a pixel buffer of which only the part on its
//! side of a vertical boundary is shown.
use vstd::prelude::*;

use crate::error::ViewError;
use crate::geometry::{Blit, Point, Rect};

verus! {

/// A rasterized image: an opaque pixel store together with its dimensions.
pub struct PixelBuffer<B> {
    pub pixels: B,
    pub width: u32,
    pub height: u32,
}

/// Which side of the boundary a pane shows.
#[derive(Clone, Copy, Debug, PartialEq, Eq, Structural)]
pub enum Side {
    /// Columns `[0, split)`.
    Left,
    /// Columns `[split, width)`.
    Right,
}

pub struct SplitView<B> {
    pub buffer: B,
    pub width: u32,
    pub height: u32,
    pub side: Side,
    /// Top-left anchor in viewport coordinates.
    pub position: Point,
    /// Boundary column, in `[0, width]`.
    pub split: u32,
}

impl<B> SplitView<B> {
    pub open spec fn wf(&self) -> bool {
        self.split <= self.width
    }

    /// Whether the right-hand part's viewport column can be represented.
    pub open spec fn draw_fits(&self) -> bool {
        self.side == Side::Left || (self.split <= i32::MAX && self.position.x + self.split <= i32::MAX)
    }

    /// The copy that shows this pane's side of the boundary. A part of zero
    /// width is still requested one pixel wide.
    pub open spec fn blit(&self) -> Blit {
        match self.side {
            Side::Left => Blit {
                src: Rect::at(0, 0, self.split as int, self.height as int),
                dst: Rect::at(
                    self.position.x as int,
                    self.position.y as int,
                    self.split as int,
                    self.height as int,
                ),
            },
            Side::Right => Blit {
                src: Rect::at(
                    self.split as int,
                    0,
                    self.width - self.split,
                    self.height as int,
                ),
                dst: Rect::at(
                    self.position.x + self.split,
                    self.position.y as int,
                    self.width - self.split,
                    self.height as int,
                ),
            },
        }
    }

    /// A pane over `buffer`, anchored at the origin, with the boundary at 0.
    pub fn new(buffer: PixelBuffer<B>, side: Side) -> (r: SplitView<B>)
        ensures
            r.wf(),
            r.buffer == buffer.pixels,
            r.width == buffer.width,
            r.height == buffer.height,
            r.side == side,
            r.position == (Point { x: 0, y: 0 }),
            r.split == 0,
    {
        SplitView {
            buffer: buffer.pixels,
            width: buffer.width,
            height: buffer.height,
            side,
            position: Point { x: 0, y: 0 },
            split: 0,
        }
    }

    /// Moves the boundary to `split`, clamped to `[0, width]`.
    pub fn split(&mut self, split: u32)
        ensures
            final(self).wf(),
            final(self).split == if split <= old(self).width { split } else { old(self).width },
            final(self).buffer == old(self).buffer,
            final(self).width == old(self).width,
            final(self).height == old(self).height,
            final(self).side == old(self).side,
            final(self).position == old(self).position,
    {
        self.split = if split <= self.width { split } else { self.width };
    }

    /// The copy request for this pane; fails when the right part's column
    /// does not fit the coordinate type.
    pub fn draw(&self) -> (r: Result<Blit, ViewError>)
        requires
            self.wf(),
        ensures
            r is Ok <==> self.draw_fits(),
            r is Ok ==> r->Ok_0 == self.blit(),
            r is Err ==> r->Err_0 == ViewError::GeometryOverflow,
    {
        match self.side {
            Side::Left => {
                let src = Rect::new(0, 0, self.split, self.height);
                let dst = Rect::new(self.position.x, self.position.y, self.split, self.height);
                Ok(Blit { src, dst })
            },
            Side::Right => {
                if self.split > i32::MAX as u32 {
                    return Err(ViewError::GeometryOverflow);
                }
                let left_x = self.split as i32;
                if self.position.x as i64 + left_x as i64 > i32::MAX as i64 {
                    return Err(ViewError::GeometryOverflow);
                }
                let src = Rect::new(left_x, 0, self.width - self.split, self.height);
                let dst = Rect::new(
                    self.position.x + left_x,
                    self.position.y,
                    self.width - self.split,
                    self.height,
                );
                Ok(Blit { src, dst })
            },
        }
    }

    pub fn size(&self) -> (r: (u32, u32))
        ensures
            r == (self.width, self.height),
    {
        (self.width, self.height)
    }

    pub fn reposition(&mut self, position: Point)
        ensures
            *final(self) == (SplitView { position, ..*old(self) }),
    {
        self.position = position;
    }
}

} // verus!
