//! The status line: fixed labels, each followed by a numeric readout, laid
//! out left to right.
use vstd::prelude::*;

use crate::digits::{decimal_text, extent_offset, glyph_indices, saturate, DigitsDisplay};
use crate::error::ViewError;
use crate::geometry::{clamp_coord, Blit, Point, Rect};

verus! {

/// The position just right of an object at `p` that is `width` wide.
pub open spec fn right_of(p: Point, width: u32) -> Point {
    Point::at(p.x + clamp_coord(width as int), p.y + 0)
}

/// A fixed image, always drawn whole at its position.
pub struct SimpleCanvasEntity<B> {
    pub texture: B,
    pub width: u32,
    pub height: u32,
    pub position: Point,
}

impl<B> SimpleCanvasEntity<B> {
    pub fn new(texture: B, width: u32, height: u32) -> (r: SimpleCanvasEntity<B>)
        ensures
            r == (SimpleCanvasEntity { texture, width, height, position: Point { x: 0, y: 0 } }),
    {
        SimpleCanvasEntity { texture, width, height, position: Point { x: 0, y: 0 } }
    }

    /// The copy of the whole image to its position.
    pub open spec fn draw_spec(&self) -> Blit {
        Blit {
            src: Rect::at(0, 0, self.width as int, self.height as int),
            dst: Rect::at(
                self.position.x as int,
                self.position.y as int,
                self.width as int,
                self.height as int,
            ),
        }
    }

    pub fn draw(&self) -> (r: Blit)
        ensures
            r == self.draw_spec(),
    {
        Blit {
            src: Rect::new(0, 0, self.width, self.height),
            dst: Rect::new(self.position.x, self.position.y, self.width, self.height),
        }
    }

    pub fn size(&self) -> (r: (u32, u32))
        ensures
            r == (self.width, self.height),
    {
        (self.width, self.height)
    }

    pub fn reposition(&mut self, position: Point)
        ensures
            *final(self) == (SimpleCanvasEntity { position, ..*old(self) }),
    {
        self.position = position;
    }
}

/// The copies for one labelled readout: the label's, then the glyphs'.
pub struct LabeledFrame {
    pub label: Blit,
    pub digits: Vec<Blit>,
}

pub struct LabeledDigitsDisplay<B> {
    pub label: SimpleCanvasEntity<B>,
    pub digits: DigitsDisplay<B>,
}

impl<B> LabeledDigitsDisplay<B> {
    /// Label and readout side by side; saturated to the `u32` range.
    pub open spec fn width(&self) -> u32 {
        saturate(self.label.width + self.digits.width())
    }

    /// `other` shows the same label and the same glyphs, wherever it is.
    pub open spec fn same_content(&self, other: &LabeledDigitsDisplay<B>) -> bool {
        &&& other.label.texture == self.label.texture
        &&& other.label.width == self.label.width
        &&& other.label.height == self.label.height
        &&& other.digits.strip == self.digits.strip
        &&& other.digits.glyph_width == self.digits.glyph_width
        &&& other.digits.glyph_height == self.digits.glyph_height
        &&& other.digits.glyphs == self.digits.glyphs
    }

    /// `f` holds this readout's copies: the label's, then one per glyph.
    pub open spec fn frame_matches(&self, f: LabeledFrame) -> bool {
        &&& f.label == self.label.draw_spec()
        &&& f.digits@.len() == self.digits.glyphs@.len()
        &&& forall|m: int|
            0 <= m < self.digits.glyphs@.len() ==> #[trigger] f.digits@[m]
                == self.digits.glyph_blit(m)
    }

    /// The label is at `position` and the readout right after it.
    pub open spec fn placed_at(&self, position: Point) -> bool {
        self.label.position == position && self.digits.position == right_of(
            position,
            self.label.width,
        )
    }

    pub fn new(label: SimpleCanvasEntity<B>, digits: DigitsDisplay<B>) -> (r:
        LabeledDigitsDisplay<B>)
        ensures
            r == (LabeledDigitsDisplay { label, digits }),
    {
        LabeledDigitsDisplay { label, digits }
    }

    pub fn draw(&self) -> (r: Result<LabeledFrame, ViewError>)
        ensures
            r is Ok <==> self.digits.draw_fits(),
            r is Err ==> r->Err_0 == ViewError::GeometryOverflow,
            r is Ok ==> self.frame_matches(r->Ok_0),
    {
        let label = self.label.draw();
        match self.digits.draw() {
            Err(e) => Err(e),
            Ok(digits) => Ok(LabeledFrame { label, digits }),
        }
    }

    /// Places the label at `position` and the readout right after it.
    pub fn reposition(&mut self, position: Point)
        ensures
            final(self).placed_at(position),
            old(self).same_content(final(self)),
    {
        self.label.reposition(position);
        let offset = extent_offset(self.label.width);
        self.digits.reposition(position.plus(offset));
    }

    pub fn size(&self) -> (r: (u32, u32))
        ensures
            r == (self.width(), self.label.height),
    {
        let digits = self.digits.size();
        let total: u64 = self.label.width as u64 + digits.0 as u64;
        let width = if total > u32::MAX as u64 {
            u32::MAX
        } else {
            total as u32
        };
        (width, self.label.height)
    }
}

/// Pointer column and row, boundary column and scale, in that order.
pub struct StatusBar<B> {
    pub mouse_x_display: LabeledDigitsDisplay<B>,
    pub mouse_y_display: LabeledDigitsDisplay<B>,
    pub split_display: LabeledDigitsDisplay<B>,
    pub scale_display: LabeledDigitsDisplay<B>,
}

impl<B> StatusBar<B> {
    pub open spec fn width(&self) -> u32 {
        saturate(
            self.mouse_x_display.width() + self.mouse_y_display.width()
                + self.split_display.width() + self.scale_display.width(),
        )
    }

    pub fn new(
        mouse_x_display: LabeledDigitsDisplay<B>,
        mouse_y_display: LabeledDigitsDisplay<B>,
        split_display: LabeledDigitsDisplay<B>,
        scale_display: LabeledDigitsDisplay<B>,
    ) -> (r: StatusBar<B>)
        ensures
            r == (StatusBar { mouse_x_display, mouse_y_display, split_display, scale_display }),
    {
        StatusBar { mouse_x_display, mouse_y_display, split_display, scale_display }
    }

    /// Shows the pointer position and the boundary; the scale readout is
    /// written separately, from its own text.
    pub fn update(&mut self, x: i32, y: i32, split: i32)
        ensures
            final(self).mouse_x_display.digits.glyphs@ == glyph_indices(decimal_text(x as int)),
            final(self).mouse_y_display.digits.glyphs@ == glyph_indices(decimal_text(y as int)),
            final(self).split_display.digits.glyphs@ == glyph_indices(decimal_text(split as int)),
            final(self).mouse_x_display.label == old(self).mouse_x_display.label,
            final(self).mouse_y_display.label == old(self).mouse_y_display.label,
            final(self).split_display.label == old(self).split_display.label,
            final(self).mouse_x_display.digits.position == old(self).mouse_x_display.digits.position,
            final(self).mouse_y_display.digits.position == old(self).mouse_y_display.digits.position,
            final(self).split_display.digits.position == old(self).split_display.digits.position,
            final(self).scale_display == old(self).scale_display,
    {
        self.mouse_x_display.digits.with_i32(x);
        self.mouse_y_display.digits.with_i32(y);
        self.split_display.digits.with_i32(split);
    }

    /// The copies of the four readouts, left to right.
    pub fn draw(&self) -> (r: Result<Vec<LabeledFrame>, ViewError>)
        ensures
            r is Ok <==> self.mouse_x_display.digits.draw_fits()
                && self.mouse_y_display.digits.draw_fits()
                && self.split_display.digits.draw_fits()
                && self.scale_display.digits.draw_fits(),
            r is Err ==> r->Err_0 == ViewError::GeometryOverflow,
            r is Ok ==> r->Ok_0@.len() == 4,
            r is Ok ==> self.mouse_x_display.frame_matches(r->Ok_0@[0]),
            r is Ok ==> self.mouse_y_display.frame_matches(r->Ok_0@[1]),
            r is Ok ==> self.split_display.frame_matches(r->Ok_0@[2]),
            r is Ok ==> self.scale_display.frame_matches(r->Ok_0@[3]),
    {
        let mut frames: Vec<LabeledFrame> = Vec::new();
        match self.mouse_x_display.draw() {
            Err(e) => return Err(e),
            Ok(f) => frames.push(f),
        }
        match self.mouse_y_display.draw() {
            Err(e) => return Err(e),
            Ok(f) => frames.push(f),
        }
        match self.split_display.draw() {
            Err(e) => return Err(e),
            Ok(f) => frames.push(f),
        }
        match self.scale_display.draw() {
            Err(e) => return Err(e),
            Ok(f) => frames.push(f),
        }
        Ok(frames)
    }

    /// Lays the readouts out left to right from `position`.
    pub fn reposition(&mut self, position: Point)
        ensures
            old(self).mouse_x_display.same_content(&final(self).mouse_x_display),
            old(self).mouse_y_display.same_content(&final(self).mouse_y_display),
            old(self).split_display.same_content(&final(self).split_display),
            old(self).scale_display.same_content(&final(self).scale_display),
            final(self).mouse_x_display.placed_at(position),
            final(self).mouse_y_display.placed_at(
                right_of(position, old(self).mouse_x_display.width()),
            ),
            final(self).split_display.placed_at(
                right_of(
                    right_of(position, old(self).mouse_x_display.width()),
                    old(self).mouse_y_display.width(),
                ),
            ),
            final(self).scale_display.placed_at(
                right_of(
                    right_of(
                        right_of(position, old(self).mouse_x_display.width()),
                        old(self).mouse_y_display.width(),
                    ),
                    old(self).split_display.width(),
                ),
            ),
    {
        let mut p = position;
        self.mouse_x_display.reposition(p);
        p = p.plus(extent_offset(self.mouse_x_display.size().0));
        self.mouse_y_display.reposition(p);
        p = p.plus(extent_offset(self.mouse_y_display.size().0));
        self.split_display.reposition(p);
        p = p.plus(extent_offset(self.split_display.size().0));
        self.scale_display.reposition(p);
    }

    pub fn size(&self) -> (r: (u32, u32))
        ensures
            r == (self.width(), self.mouse_x_display.label.height),
    {
        let total: u64 = self.mouse_x_display.size().0 as u64 + self.mouse_y_display.size().0 as u64
            + self.split_display.size().0 as u64 + self.scale_display.size().0 as u64;
        let width = if total > u32::MAX as u64 {
            u32::MAX
        } else {
            total as u32
        };
        (width, self.mouse_x_display.label.height)
    }
}

} // verus!
