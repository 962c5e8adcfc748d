//! The checkered backdrop behind the view: one fixed tile texture, repeated
//! over the requested area, with the last row and column of tiles cut to
//! what remains.
use vstd::prelude::*;

use crate::error::ViewError;
use crate::geometry::{anchor_for_center, centered_anchor, Blit, Point, Rect};

verus! {

/// Side of one checker square, in pixels.
pub const SQUARE_SIZE: u32 = 8;

/// Side of the square tile texture, in pixels.
pub const TILE_SIZE: u32 = SQUARE_SIZE * 64;

/// Grey level of the squares whose column and row indices have an even sum.
pub const DARK_SHADE: u8 = 189;

/// Grey level of the other squares.
pub const LIGHT_SHADE: u8 = 209;

/// Byte `k` of the tile texture, stored row by row with four bytes per
/// pixel: three equal colour channels, then an opaque alpha channel.
pub open spec fn tile_byte(k: int) -> u8 {
    let p = k / 4;
    let x = p % 512;
    let y = p / 512;
    if k % 4 == 3 {
        255
    } else if (x / 8 + y / 8) % 2 == 0 {
        DARK_SHADE
    } else {
        LIGHT_SHADE
    }
}

/// Number of tiles needed to cover `extent` pixels.
pub open spec fn tile_count(extent: u32) -> int {
    (extent as int + 511) / 512
}

pub open spec fn min_int(a: int, b: int) -> int {
    if a <= b { a } else { b }
}

/// The pixels of the tile texture, built once and reused by every draw.
pub fn tile_pixels() -> (r: Vec<u8>)
    ensures
        r@.len() == 4 * 512 * 512,
        forall|k: int| 0 <= k < r@.len() ==> #[trigger] r@[k] == tile_byte(k),
{
    let mut pixels: Vec<u8> = Vec::new();
    let mut y: u32 = 0;
    while y < TILE_SIZE
        invariant
            y <= 512,
            pixels@.len() == 2048 * y,
            forall|k: int| 0 <= k < pixels@.len() ==> #[trigger] pixels@[k] == tile_byte(k),
        decreases 512 - y,
    {
        let mut x: u32 = 0;
        while x < TILE_SIZE
            invariant
                y < 512,
                x <= 512,
                pixels@.len() == 2048 * y + 4 * x,
                forall|k: int| 0 <= k < pixels@.len() ==> #[trigger] pixels@[k] == tile_byte(k),
            decreases 512 - x,
        {
            let shade = if (x / SQUARE_SIZE + y / SQUARE_SIZE) % 2 == 0 {
                DARK_SHADE
            } else {
                LIGHT_SHADE
            };
            let ghost base = pixels@.len() as int;
            pixels.push(shade);
            pixels.push(shade);
            pixels.push(shade);
            pixels.push(255);
            proof {
                assert(base / 4 == 512 * y + x && base % 4 == 0);
                assert((base + 1) / 4 == 512 * y + x && (base + 1) % 4 == 1);
                assert((base + 2) / 4 == 512 * y + x && (base + 2) % 4 == 2);
                assert((base + 3) / 4 == 512 * y + x && (base + 3) % 4 == 3);
                assert((512 * y + x) % 512 == x as int);
                assert((512 * y + x) / 512 == y as int);
                assert(tile_byte(base) == shade);
                assert(tile_byte(base + 1) == shade);
                assert(tile_byte(base + 2) == shade);
                assert(tile_byte(base + 3) == 255);
            }
            x = x + 1;
        }
        y = y + 1;
    }
    pixels
}

pub struct CheckerBoard<B> {
    /// The tile texture, made from `tile_pixels`.
    pub tile: B,
    pub width: u32,
    pub height: u32,
    pub position: Point,
}

impl<B> CheckerBoard<B> {
    /// Whether every tile's corner is a representable column and row.
    pub open spec fn draw_fits(&self) -> bool {
        tile_count(self.width) == 0 || tile_count(self.height) == 0 || (self.position.x + 512
            * (tile_count(self.width) - 1) <= i32::MAX && self.position.y + 512 * (tile_count(
            self.height,
        ) - 1) <= i32::MAX)
    }

    /// The copy for the tile in column `i` and row `j`, cut to the area.
    pub open spec fn tile_blit(&self, i: int, j: int) -> Blit {
        let w = min_int(512, self.width - 512 * i);
        let h = min_int(512, self.height - 512 * j);
        Blit {
            src: Rect::at(0, 0, w, h),
            dst: Rect::at(self.position.x + 512 * i, self.position.y + 512 * j, w, h),
        }
    }

    /// A backdrop of `size` over the tile texture `tile`, at the origin.
    pub fn new(tile: B, size: (u32, u32)) -> (r: CheckerBoard<B>)
        ensures
            r.tile == tile,
            r.width == size.0,
            r.height == size.1,
            r.position == (Point { x: 0, y: 0 }),
    {
        CheckerBoard { tile, width: size.0, height: size.1, position: Point { x: 0, y: 0 } }
    }

    pub fn set_size(&mut self, size: (u32, u32))
        ensures
            *final(self) == (CheckerBoard { width: size.0, height: size.1, ..*old(self) }),
    {
        self.width = size.0;
        self.height = size.1;
    }

    /// The tile copies covering the area, column by column from the left,
    /// each column from the top.
    pub fn draw(&self) -> (r: Result<Vec<Vec<Blit>>, ViewError>)
        ensures
            r is Ok <==> self.draw_fits(),
            r is Err ==> r->Err_0 == ViewError::GeometryOverflow,
            r is Ok ==> r->Ok_0@.len() == tile_count(self.width),
            r is Ok ==> forall|i: int|
                0 <= i < tile_count(self.width) ==> (#[trigger] r->Ok_0@[i])@.len()
                    == tile_count(self.height),
            r is Ok ==> forall|i: int, j: int|
                0 <= i < tile_count(self.width) && 0 <= j < tile_count(self.height)
                    ==> (#[trigger] r->Ok_0@[i]@[j]) == self.tile_blit(i, j),
    {
        let cols: u64 = (self.width as u64 + 511) / 512;
        let rows: u64 = (self.height as u64 + 511) / 512;
        if cols > 0 && rows > 0 {
            if self.position.x as i64 + 512 * (cols as i64 - 1) > i32::MAX as i64
                || self.position.y as i64 + 512 * (rows as i64 - 1) > i32::MAX as i64 {
                return Err(ViewError::GeometryOverflow);
            }
        }
        let mut columns: Vec<Vec<Blit>> = Vec::new();
        let mut ox: u64 = 0;
        while ox < self.width as u64
            invariant
                cols == tile_count(self.width),
                rows == tile_count(self.height),
                self.draw_fits(),
                ox == 512 * columns@.len(),
                columns@.len() <= cols,
                forall|i: int| 0 <= i < columns@.len() ==> (#[trigger] columns@[i])@.len() == rows,
                forall|i: int, j: int|
                    0 <= i < columns@.len() && 0 <= j < rows ==> (#[trigger] columns@[i]@[j])
                        == self.tile_blit(i, j),
            decreases cols - columns@.len(),
        {
            let w: u32 = if self.width as u64 - ox < 512 {
                (self.width as u64 - ox) as u32
            } else {
                512
            };
            assert(columns@.len() < cols);
            let mut column: Vec<Blit> = Vec::new();
            let mut oy: u64 = 0;
            while oy < self.height as u64
                invariant
                    cols == tile_count(self.width),
                    rows == tile_count(self.height),
                    self.draw_fits(),
                    ox == 512 * columns@.len(),
                    ox < self.width,
                    w == min_int(512, self.width - ox),
                    ox <= 512 * (cols - 1),
                    oy == 512 * column@.len(),
                    column@.len() <= rows,
                    forall|j: int|
                        0 <= j < column@.len() ==> (#[trigger] column@[j]) == self.tile_blit(
                            columns@.len() as int,
                            j,
                        ),
                decreases rows - column@.len(),
            {
                let h: u32 = if self.height as u64 - oy < 512 {
                    (self.height as u64 - oy) as u32
                } else {
                    512
                };
                assert(column@.len() < rows);
                assert(oy <= 512 * (rows - 1));
                let x: i32 = (self.position.x as i64 + ox as i64) as i32;
                let y: i32 = (self.position.y as i64 + oy as i64) as i32;
                let dst = Rect::new(x, y, w, h);
                let src = Rect::new(0, 0, dst.width, dst.height);
                column.push(Blit { src, dst });
                oy = oy + 512;
            }
            columns.push(column);
            ox = ox + 512;
        }
        Ok(columns)
    }

    pub fn size(&self) -> (r: (u32, u32))
        ensures
            r == (self.width, self.height),
    {
        (self.width, self.height)
    }

    pub fn reposition(&mut self, position: Point)
        ensures
            *final(self) == (CheckerBoard { position, ..*old(self) }),
    {
        self.position = position;
    }

    /// Anchors the backdrop so that its centre lies on `center`.
    pub fn center_on(&mut self, center: Point)
        ensures
            *final(self) == (CheckerBoard {
                position: centered_anchor(center, (old(self).width, old(self).height)),
                ..*old(self)
            }),
    {
        let anchor = anchor_for_center(center, (self.width, self.height));
        self.position = anchor;
    }
}

} // verus!
