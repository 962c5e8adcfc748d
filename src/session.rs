//! The interaction controller: size policy, zoom with all-or-nothing
//! rebuilds, panning and the per-frame update of the view.
use vstd::prelude::*;

use crate::backdrop::CheckerBoard;
use crate::diff::{fraction_split, Diff};
use crate::drag::Drag;
use crate::error::{SizeBreach, ViewError};
use crate::geometry::{centered_anchor, Point};
use crate::split::PixelBuffer;

verus! {

/// Smallest accepted raster width: anything narrower is impractical to
/// compare with a sliding boundary.
pub const MIN_ACCEPTABLE_WIDTH: u32 = 100;

/// Smallest accepted raster height.
pub const MIN_ACCEPTABLE_HEIGHT: u32 = 100;

/// Largest accepted raster side when the renderer reports no texture limit of
/// its own.
pub const SOFTWARE_SIZE_LIMIT: u32 = 16384;

/// Bounds that every raster size must satisfy, side by side.
#[derive(Clone, Copy, Debug)]
pub struct SizePolicy {
    pub min: (u32, u32),
    pub max: (u32, u32),
}

impl SizePolicy {
    pub open spec fn exceeds(&self, size: (u32, u32)) -> bool {
        size.0 > self.max.0 || size.1 > self.max.1
    }

    pub open spec fn falls_short(&self, size: (u32, u32)) -> bool {
        size.0 < self.min.0 || size.1 < self.min.1
    }

    pub open spec fn admits(&self, size: (u32, u32)) -> bool {
        !self.exceeds(size) && !self.falls_short(size)
    }

    /// The verdict on a pair of sizes; an upper bound is reported before a
    /// lower one.
    pub open spec fn verdict(&self, left: (u32, u32), right: (u32, u32)) -> Result<(), ViewError> {
        if self.exceeds(left) || self.exceeds(right) {
            Err(ViewError::SizeOutOfPolicy(SizeBreach::AboveMaximum))
        } else if self.falls_short(left) || self.falls_short(right) {
            Err(ViewError::SizeOutOfPolicy(SizeBreach::BelowMinimum))
        } else {
            Ok(())
        }
    }

    pub open spec fn at_load() -> SizePolicy {
        SizePolicy { min: (MIN_ACCEPTABLE_WIDTH, MIN_ACCEPTABLE_HEIGHT), max: (u32::MAX, u32::MAX) }
    }

    /// The bounds known before any renderer exists: the minimum alone.
    pub fn load_time() -> (r: SizePolicy)
        ensures
            r == SizePolicy::at_load(),
    {
        SizePolicy { min: (MIN_ACCEPTABLE_WIDTH, MIN_ACCEPTABLE_HEIGHT), max: (u32::MAX, u32::MAX) }
    }

    /// The bounds for a renderer: its reported texture limit, or a fixed cap
    /// for a software renderer, which reports none.
    pub fn for_renderer(software: bool, texture_limit: (u32, u32)) -> (r: SizePolicy)
        ensures
            r.min == (MIN_ACCEPTABLE_WIDTH, MIN_ACCEPTABLE_HEIGHT),
            software ==> r.max == (SOFTWARE_SIZE_LIMIT, SOFTWARE_SIZE_LIMIT),
            !software ==> r.max == texture_limit,
    {
        let max = if software {
            (SOFTWARE_SIZE_LIMIT, SOFTWARE_SIZE_LIMIT)
        } else {
            texture_limit
        };
        SizePolicy { min: (MIN_ACCEPTABLE_WIDTH, MIN_ACCEPTABLE_HEIGHT), max }
    }

    pub fn check(&self, left: (u32, u32), right: (u32, u32)) -> (r: Result<(), ViewError>)
        ensures
            r == self.verdict(left, right),
    {
        if left.0 > self.max.0 || left.1 > self.max.1 || right.0 > self.max.0 || right.1
            > self.max.1 {
            Err(ViewError::SizeOutOfPolicy(SizeBreach::AboveMaximum))
        } else if left.0 < self.min.0 || left.1 < self.min.1 || right.0 < self.min.0 || right.1
            < self.min.1 {
            Err(ViewError::SizeOutOfPolicy(SizeBreach::BelowMinimum))
        } else {
            Ok(())
        }
    }
}

#[derive(Clone, Copy, Debug, PartialEq, Eq, Structural)]
pub enum ZoomDirection {
    /// Doubles the scale.
    In,
    /// Halves the scale.
    Out,
}

/// The pointer as one frame sees it.
#[derive(Clone, Copy, Debug, PartialEq, Eq, Structural)]
pub struct PointerInput {
    pub x: i32,
    pub y: i32,
    /// Primary button held: moves the boundary.
    pub primary: bool,
    /// Secondary button held: pans.
    pub secondary: bool,
}

pub open spec fn clamp_i32(v: int) -> int {
    if v > i32::MAX {
        i32::MAX as int
    } else if v < i32::MIN {
        i32::MIN as int
    } else {
        v
    }
}

fn saturate_i32(v: i64) -> (r: i32)
    ensures
        r == clamp_i32(v as int),
{
    if v > i32::MAX as i64 {
        i32::MAX
    } else if v < i32::MIN as i64 {
        i32::MIN
    } else {
        v as i32
    }
}

pub open spec fn size_of<B>(b: PixelBuffer<B>) -> (u32, u32) {
    (b.width, b.height)
}

pub struct Session<B> {
    pub diff: Diff<B>,
    pub backdrop: CheckerBoard<B>,
    pub drag: Drag,
    /// Scale as a power of two of the starting scale.
    pub zoom: i32,
    pub policy: SizePolicy,
}

impl<B> Session<B> {
    /// The view is consistent, the backdrop matches its size, and both images
    /// satisfy the policy.
    pub open spec fn wf(&self) -> bool {
        &&& self.diff.wf()
        &&& self.backdrop.width == self.diff.width()
        &&& self.backdrop.height == self.diff.height()
        &&& self.policy.admits((self.diff.left.width, self.diff.left.height))
        &&& self.policy.admits((self.diff.right.width, self.diff.right.height))
    }

    /// The zoom level one step in `dir`, if it is representable.
    pub open spec fn zoom_target(&self, dir: ZoomDirection) -> Option<i32> {
        match dir {
            ZoomDirection::In => if self.zoom < i32::MAX {
                Some((self.zoom + 1) as i32)
            } else {
                None
            },
            ZoomDirection::Out => if self.zoom > i32::MIN {
                Some((self.zoom - 1) as i32)
            } else {
                None
            },
        }
    }

    /// The decision on a zoom step given the sizes both sources report at
    /// the new scale: the new level, or why the step is refused.
    pub open spec fn zoom_review(
        &self,
        dir: ZoomDirection,
        left: Result<(u32, u32), ViewError>,
        right: Result<(u32, u32), ViewError>,
    ) -> Result<i32, ViewError> {
        match self.zoom_target(dir) {
            None => Err(
                ViewError::SizeOutOfPolicy(
                    if dir == ZoomDirection::In {
                        SizeBreach::AboveMaximum
                    } else {
                        SizeBreach::BelowMinimum
                    },
                ),
            ),
            Some(t) => match left {
                Err(e) => Err(e),
                Ok(l) => match right {
                    Err(e) => Err(e),
                    Ok(r) => match self.policy.verdict(l, r) {
                        Err(e) => Err(e),
                        Ok(_) => Ok(t),
                    },
                },
            },
        }
    }

    /// The session after a committed zoom to `level` over new images: the
    /// view rebuilt with the boundary at the same fraction of the width, the
    /// backdrop resized to match.
    pub open spec fn rescaled(
        &self,
        level: i32,
        left: PixelBuffer<B>,
        right: PixelBuffer<B>,
    ) -> Session<B> {
        let fresh = Diff::built(left, right);
        let diff = fresh.with_split(
            fraction_split(self.diff.left_fraction(), fresh.width()) as u32,
        );
        Session {
            diff,
            backdrop: CheckerBoard {
                width: diff.width(),
                height: diff.height(),
                ..self.backdrop
            },
            zoom: level,
            ..*self
        }
    }

    /// The session after one frame of pointer input with the viewport's
    /// centre at `center`.
    pub open spec fn after_frame(&self, input: PointerInput, center: Point) -> Session<B> {
        let drag = self.drag.next(input.secondary, input.x, input.y);
        let c = Point::at(center.x + drag.drag.x, center.y + drag.drag.y);
        let placed = self.diff.placed_at(
            centered_anchor(c, (self.diff.width(), self.diff.height())),
        );
        Session {
            drag,
            backdrop: CheckerBoard {
                position: centered_anchor(c, (self.backdrop.width, self.backdrop.height)),
                ..self.backdrop
            },
            diff: if input.primary {
                placed.with_split(placed.pointer_split(input.x))
            } else {
                placed
            },
            ..*self
        }
    }

    /// Starts a session over the first two images, refusing sizes outside
    /// `policy`.
    pub fn start(
        policy: SizePolicy,
        left: PixelBuffer<B>,
        right: PixelBuffer<B>,
        tile: B,
    ) -> (r: Result<Session<B>, ViewError>)
        ensures
            r is Ok <==> policy.verdict(size_of(left), size_of(right)) is Ok,
            r matches Err(e) ==> Err::<(), ViewError>(e) == policy.verdict(
                size_of(left),
                size_of(right),
            ),
            r matches Ok(s) ==> s.wf() && s.diff == Diff::built(left, right) && s.drag
                == Drag::initial() && s.zoom == 0 && s.policy == policy && s.backdrop == (
            CheckerBoard {
                tile,
                width: s.diff.width(),
                height: s.diff.height(),
                position: Point { x: 0, y: 0 },
            }),
    {
        match policy.check((left.width, left.height), (right.width, right.height)) {
            Err(e) => Err(e),
            Ok(()) => {
                let diff = Diff::new(left, right);
                let backdrop = CheckerBoard::new(tile, diff.size());
                Ok(Session { diff, backdrop, drag: Drag::new(), zoom: 0, policy })
            },
        }
    }

    fn step(&self, dir: ZoomDirection) -> (r: Option<i32>)
        ensures
            r == self.zoom_target(dir),
    {
        match dir {
            ZoomDirection::In => if self.zoom < i32::MAX {
                Some(self.zoom + 1)
            } else {
                None
            },
            ZoomDirection::Out => if self.zoom > i32::MIN {
                Some(self.zoom - 1)
            } else {
                None
            },
        }
    }

    /// Decides a zoom step from the sizes both sources would have at the new
    /// scale, before anything is rendered.
    pub fn review_zoom(
        &self,
        dir: ZoomDirection,
        left: Result<(u32, u32), ViewError>,
        right: Result<(u32, u32), ViewError>,
    ) -> (r: Result<i32, ViewError>)
        ensures
            r == self.zoom_review(dir, left, right),
    {
        match self.step(dir) {
            None => Err(
                ViewError::SizeOutOfPolicy(
                    match dir {
                        ZoomDirection::In => SizeBreach::AboveMaximum,
                        ZoomDirection::Out => SizeBreach::BelowMinimum,
                    },
                ),
            ),
            Some(t) => match left {
                Err(e) => Err(e),
                Ok(l) => match right {
                    Err(e) => Err(e),
                    Ok(r) => match self.policy.check(l, r) {
                        Err(e) => Err(e),
                        Ok(()) => Ok(t),
                    },
                },
            },
        }
    }

    /// Completes a zoom step with the images rendered at the new scale.
    /// Either the whole session moves to the new scale, or, on a render
    /// failure or a refused size, nothing changes.
    pub fn apply_zoom(
        &mut self,
        dir: ZoomDirection,
        rendered: Result<(PixelBuffer<B>, PixelBuffer<B>), ViewError>,
    ) -> (r: Result<(), ViewError>)
        requires
            old(self).wf(),
        ensures
            final(self).wf(),
            r is Err ==> *final(self) == *old(self),
            rendered matches Err(e) ==> r == Err::<(), ViewError>(e),
            rendered matches Ok(p) ==> match old(self).zoom_review(
                dir,
                Ok(size_of(p.0)),
                Ok(size_of(p.1)),
            ) {
                Err(e) => r == Err::<(), ViewError>(e),
                Ok(level) => r is Ok && *final(self) == old(self).rescaled(level, p.0, p.1),
            },
    {
        let (left, right) = match rendered {
            Err(e) => return Err(e),
            Ok(p) => p,
        };
        let level = match self.review_zoom(
            dir,
            Ok((left.width, left.height)),
            Ok((right.width, right.height)),
        ) {
            Err(e) => return Err(e),
            Ok(t) => t,
        };
        let fraction = self.diff.get_left_fraction();
        let mut diff = Diff::new(left, right);
        diff.split_by_fraction(fraction);
        let size = diff.size();
        self.backdrop.set_size(size);
        self.diff = diff;
        self.zoom = level;
        Ok(())
    }

    /// The numbers the status line shows for `input`: the pointer relative to
    /// the backdrop's corner, and the boundary column, each saturated to the
    /// `i32` range.
    pub fn readout(&self, input: PointerInput) -> (r: (i32, i32, i32))
        ensures
            r.0 == clamp_i32(input.x - self.backdrop.position.x),
            r.1 == clamp_i32(input.y - self.backdrop.position.y),
            r.2 == clamp_i32(self.diff.split as int),
    {
        (
            saturate_i32(input.x as i64 - self.backdrop.position.x as i64),
            saturate_i32(input.y as i64 - self.backdrop.position.y as i64),
            saturate_i32(self.diff.split as i64),
        )
    }

    /// Drops the pan offset and any drag in progress.
    pub fn reset(&mut self)
        ensures
            *final(self) == (Session { drag: Drag::initial(), ..*old(self) }),
    {
        self.drag.reset();
    }

    /// One frame: pans with the secondary button, centres the backdrop and
    /// the view on the panned viewport centre, then moves the boundary with
    /// the primary button.
    pub fn frame(&mut self, input: PointerInput, center: Point)
        requires
            old(self).wf(),
        ensures
            final(self).wf(),
            *final(self) == old(self).after_frame(input, center),
    {
        self.drag.update(input.secondary, input.x, input.y);
        let center = center.plus(self.drag.get());
        self.backdrop.center_on(center);
        self.diff.center_on(center);
        self.diff.update(input.primary, input.x);
    }
}

/// A zoom step to which either source answers with a size under the
/// policy's minimum is refused; `apply_zoom` then leaves the session, its
/// scale included, as it was.
pub proof fn lemma_zoom_refuses_small<B>(
    s: Session<B>,
    dir: ZoomDirection,
    left: (u32, u32),
    right: (u32, u32),
)
    requires
        s.policy.falls_short(left) || s.policy.falls_short(right),
    ensures
        s.zoom_review(dir, Ok(left), Ok(right)) is Err,
{
}

/// A source under 100 by 100 pixels at the starting scale is refused by the
/// check made before any window exists, as out of policy.
pub proof fn lemma_start_refuses_small(left: (u32, u32), right: (u32, u32))
    requires
        left.0 < MIN_ACCEPTABLE_WIDTH || left.1 < MIN_ACCEPTABLE_HEIGHT || right.0
            < MIN_ACCEPTABLE_WIDTH || right.1 < MIN_ACCEPTABLE_HEIGHT,
    ensures
        SizePolicy::at_load().verdict(left, right) == Err::<(), ViewError>(
            ViewError::SizeOutOfPolicy(SizeBreach::BelowMinimum),
        ),
{
}

} // verus!
