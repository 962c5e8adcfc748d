//! Panning by dragging with the secondary pointer button. The offset is
//! measured from an anchor taken when the button goes down, so a new drag
//! continues from where the previous one left the view.
use vstd::prelude::*;

use crate::geometry::Point;

verus! {

pub struct Drag {
    /// Whether the button was held at the previous update.
    pub active: bool,
    /// Pointer position minus the offset, taken when the button went down.
    pub drag_start: Point,
    /// The accumulated pan offset.
    pub drag: Point,
}

pub open spec fn origin() -> Point {
    Point { x: 0, y: 0 }
}

impl Drag {
    pub open spec fn initial() -> Drag {
        Drag { active: false, drag_start: origin(), drag: origin() }
    }

    /// The state after one update with the button `pressed` and the pointer
    /// at `(x, y)`.
    pub open spec fn next(&self, pressed: bool, x: i32, y: i32) -> Drag {
        let p = Point::at(x as int, y as int);
        if !pressed {
            Drag { active: false, ..*self }
        } else if !self.active {
            Drag {
                active: true,
                drag_start: Point::at(p.x - self.drag.x, p.y - self.drag.y),
                drag: self.drag,
            }
        } else {
            Drag {
                drag: Point::at(p.x - self.drag_start.x, p.y - self.drag_start.y),
                ..*self
            }
        }
    }

    pub fn new() -> (r: Drag)
        ensures
            r == Drag::initial(),
    {
        Drag { active: false, drag_start: Point::new(0, 0), drag: Point::new(0, 0) }
    }

    /// Drops the offset and any drag in progress.
    pub fn reset(&mut self)
        ensures
            *final(self) == Drag::initial(),
    {
        self.active = false;
        self.drag_start = Point::new(0, 0);
        self.drag = Point::new(0, 0);
    }

    /// One frame of pointer input: a press takes a new anchor, a held button
    /// moves the offset with the pointer, a release keeps the offset.
    pub fn update(&mut self, pressed: bool, x: i32, y: i32)
        ensures
            *final(self) == old(self).next(pressed, x, y),
    {
        if pressed {
            let position = Point::new(x, y);
            if !self.active {
                self.drag_start = position.minus(self.drag);
                self.active = true;
            } else {
                self.drag = position.minus(self.drag_start);
            }
        } else {
            self.active = false;
        }
    }

    pub fn get(&self) -> (r: Point)
        ensures
            r == self.drag,
    {
        self.drag
    }
}

pub open spec fn in_range(v: int) -> bool {
    crate::geometry::MIN_COORD <= v <= crate::geometry::MAX_COORD
}

/// A new drag continues from the offset the previous one left: pressing at
/// `(px, py)` and then holding at `(qx, qy)` moves the offset by exactly
/// `(qx - px, qy - py)`, as long as no coordinate meets the clamping bounds.
pub proof fn lemma_drag_resumes(d: Drag, px: i32, py: i32, qx: i32, qy: i32)
    requires
        !d.active,
        in_range(px as int),
        in_range(py as int),
        in_range(qx as int),
        in_range(qy as int),
        in_range(px - d.drag.x),
        in_range(py - d.drag.y),
        in_range(d.drag.x + qx - px),
        in_range(d.drag.y + qy - py),
    ensures
        d.next(true, px, py).next(true, qx, qy).drag == (Point {
            x: (d.drag.x + qx - px) as i32,
            y: (d.drag.y + qy - py) as i32,
        }),
        d.next(true, px, py).next(true, qx, qy).active,
{
}

} // verus!
