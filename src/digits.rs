//! Numeric readouts drawn from a strip of glyph images, and the status line
//! built from labelled readouts.
use vstd::prelude::*;

use crate::error::ViewError;
use crate::geometry::{clamp_coord, Blit, Point, Rect, MAX_COORD};

verus! {

/// Number of glyphs in the strip: `-./0123456789`, so that a glyph's index
/// is its character code minus that of `-`.
pub const GLYPH_COUNT: u32 = 13;

/// Character code of the strip's first glyph, `-`.
pub const FIRST_GLYPH: u8 = 45;

/// Decimal digits of `n`, most significant first, as character codes.
pub open spec fn digits_of(n: nat) -> Seq<u8>
    decreases n,
{
    if n < 10 {
        seq![(n + 48) as u8]
    } else {
        digits_of(n / 10).push((n % 10 + 48) as u8)
    }
}

/// The decimal text of `v`, with a leading `-` when negative.
pub open spec fn decimal_text(v: int) -> Seq<u8> {
    if v < 0 {
        seq![FIRST_GLYPH] + digits_of((-v) as nat)
    } else {
        digits_of(v as nat)
    }
}

/// Strip indices of the characters of `text`.
pub open spec fn glyph_indices(text: Seq<u8>) -> Seq<u8> {
    text.map_values(|c: u8| (c - FIRST_GLYPH) as u8)
}

pub open spec fn saturate(v: int) -> u32 {
    if v > u32::MAX {
        u32::MAX
    } else {
        v as u32
    }
}

fn decimal_text_of(value: i32) -> (r: Vec<u8>)
    ensures
        r@ == decimal_text(value as int),
{
    let mut n: u64 = if value < 0 {
        (-(value as i64)) as u64
    } else {
        value as u64
    };
    let ghost whole = n as nat;
    let mut out: Vec<u8> = Vec::new();
    while n >= 10
        invariant
            digits_of(whole) == digits_of(n as nat) + out@,
        decreases n,
    {
        let d: u8 = (n % 10) as u8 + 48;
        let ghost before = out@;
        proof {
            let rest = digits_of((n / 10) as nat);
            assert(digits_of(n as nat) == rest.push(d));
            assert(rest.push(d) + before =~= rest + (seq![d] + before));
        }
        out.insert(0, d);
        assert(out@ =~= seq![d] + before);
        n = n / 10;
    }
    let d: u8 = n as u8 + 48;
    let ghost tail = out@;
    out.insert(0, d);
    assert(out@ =~= digits_of(n as nat) + tail);
    if value < 0 {
        let ghost digits = out@;
        out.insert(0, FIRST_GLYPH);
        assert(out@ =~= seq![FIRST_GLYPH] + digits);
    }
    out
}

fn glyphs_of(text: &[u8]) -> (r: Vec<u8>)
    requires
        forall|i: int| 0 <= i < text@.len() ==> #[trigger] text@[i] >= FIRST_GLYPH,
    ensures
        r@ == glyph_indices(text@),
{
    let mut glyphs: Vec<u8> = Vec::new();
    let mut i: usize = 0;
    while i < text.len()
        invariant
            i <= text@.len(),
            forall|k: int| 0 <= k < text@.len() ==> #[trigger] text@[k] >= FIRST_GLYPH,
            glyphs@ =~= glyph_indices(text@.subrange(0, i as int)),
        decreases text@.len() - i,
    {
        glyphs.push(text[i] - FIRST_GLYPH);
        assert(glyph_indices(text@.subrange(0, i + 1)) =~= glyph_indices(
            text@.subrange(0, i as int),
        ).push((text@[i as int] - FIRST_GLYPH) as u8));
        i = i + 1;
    }
    assert(text@.subrange(0, text@.len() as int) =~= text@);
    glyphs
}

/// The offset `Point::new(extent, 0)` takes for an extent: clamped into the
/// coordinate range.
pub(crate) fn extent_offset(extent: u32) -> (r: Point)
    ensures
        r == Point::at(clamp_coord(extent as int), 0),
{
    Point::new(
        if extent > MAX_COORD as u32 {
            MAX_COORD
        } else {
            extent as i32
        },
        0,
    )
}

/// A line of glyphs cut from one strip image, drawn side by side.
pub struct DigitsDisplay<B> {
    /// The glyph strip, `GLYPH_COUNT` glyphs of equal width side by side.
    pub strip: B,
    pub glyph_width: u32,
    pub glyph_height: u32,
    pub position: Point,
    /// Strip indices of the characters shown.
    pub glyphs: Vec<u8>,
}

impl<B> DigitsDisplay<B> {
    /// Whether glyph `m`'s strip column and viewport column are
    /// representable.
    pub open spec fn glyph_fits(&self, m: int) -> bool {
        &&& self.glyph_width * self.glyphs@[m] <= i32::MAX
        &&& self.position.x + self.glyph_width * m <= i32::MAX
    }

    pub open spec fn draw_fits(&self) -> bool {
        forall|m: int| 0 <= m < self.glyphs@.len() ==> #[trigger] self.glyph_fits(m)
    }

    /// The copy of the `m`-th glyph shown.
    pub open spec fn glyph_blit(&self, m: int) -> Blit {
        Blit {
            src: Rect::at(
                self.glyph_width * self.glyphs@[m],
                0,
                self.glyph_width as int,
                self.glyph_height as int,
            ),
            dst: Rect::at(
                self.position.x + self.glyph_width * m,
                self.position.y as int,
                self.glyph_width as int,
                self.glyph_height as int,
            ),
        }
    }

    /// Width of the text shown, saturated to the `u32` range.
    pub open spec fn width(&self) -> u32 {
        saturate(self.glyph_width * self.glyphs@.len())
    }

    /// A display over a glyph strip of `strip_width` by `strip_height`
    /// pixels, showing nothing yet.
    pub fn new(strip: B, strip_width: u32, strip_height: u32) -> (r: DigitsDisplay<B>)
        ensures
            r.strip == strip,
            r.glyph_width == strip_width / GLYPH_COUNT,
            r.glyph_height == strip_height,
            r.position == (Point { x: 0, y: 0 }),
            r.glyphs@.len() == 0,
    {
        DigitsDisplay {
            strip,
            glyph_width: strip_width / GLYPH_COUNT,
            glyph_height: strip_height,
            position: Point { x: 0, y: 0 },
            glyphs: Vec::new(),
        }
    }

    /// Shows `value` in decimal.
    pub fn with_i32(&mut self, value: i32)
        ensures
            final(self).glyphs@ == glyph_indices(decimal_text(value as int)),
            final(self).strip == old(self).strip,
            final(self).glyph_width == old(self).glyph_width,
            final(self).glyph_height == old(self).glyph_height,
            final(self).position == old(self).position,
    {
        let text = decimal_text_of(value);
        proof {
            assert forall|i: int| 0 <= i < text@.len() implies #[trigger] text@[i] >= FIRST_GLYPH by {
                lemma_decimal_text_in_strip(value as int, i);
            }
        }
        self.glyphs = glyphs_of(text.as_slice());
    }

    /// Shows `text`, whose characters all come at or after `-` in character
    /// order.
    pub fn with_text(&mut self, text: &[u8])
        requires
            forall|i: int| 0 <= i < text@.len() ==> #[trigger] text@[i] >= FIRST_GLYPH,
        ensures
            final(self).glyphs@ == glyph_indices(text@),
            final(self).strip == old(self).strip,
            final(self).glyph_width == old(self).glyph_width,
            final(self).glyph_height == old(self).glyph_height,
            final(self).position == old(self).position,
    {
        self.glyphs = glyphs_of(text);
    }

    /// One copy per glyph shown, left to right.
    pub fn draw(&self) -> (r: Result<Vec<Blit>, ViewError>)
        ensures
            r is Ok <==> self.draw_fits(),
            r is Err ==> r->Err_0 == ViewError::GeometryOverflow,
            r is Ok ==> r->Ok_0@.len() == self.glyphs@.len(),
            r is Ok ==> forall|m: int|
                0 <= m < self.glyphs@.len() ==> #[trigger] r->Ok_0@[m] == self.glyph_blit(m),
    {
        let mut out: Vec<Blit> = Vec::new();
        let gw = self.glyph_width;
        let mut m: usize = 0;
        while m < self.glyphs.len()
            invariant
                gw == self.glyph_width,
                m <= self.glyphs@.len(),
                out@.len() == m,
                forall|k: int| 0 <= k < m ==> #[trigger] self.glyph_fits(k),
                forall|k: int| 0 <= k < m ==> #[trigger] out@[k] == self.glyph_blit(k),
            decreases self.glyphs@.len() - m,
        {
            let index = self.glyphs[m];
            assert(gw as int * index as int <= 0xffff_ffff * 255) by (nonlinear_arith)
                requires
                    gw <= 0xffff_ffffu32,
                    index <= 255u8,
            ;
            assert(gw as int * m as int <= 0xffff_ffff * (usize::MAX as int)) by (nonlinear_arith)
                requires
                    gw <= 0xffff_ffffu32,
                    m as int <= usize::MAX as int,
            ;
            let src_x: u64 = gw as u64 * index as u64;
            let dst_x: i128 = self.position.x as i128 + gw as i128 * m as i128;
            if src_x > i32::MAX as u64 || dst_x > i32::MAX as i128 {
                assert(!self.glyph_fits(m as int));
                return Err(ViewError::GeometryOverflow);
            }
            let src = Rect::new(src_x as i32, 0, gw, self.glyph_height);
            let dst = Rect::new(dst_x as i32, self.position.y, gw, self.glyph_height);
            out.push(Blit { src, dst });
            m = m + 1;
        }
        Ok(out)
    }

    pub fn size(&self) -> (r: (u32, u32))
        ensures
            r == (self.width(), self.glyph_height),
    {
        let len = self.glyphs.len();
        let width: u32 = if len > u32::MAX as usize {
            if self.glyph_width == 0 {
                0
            } else {
                assert(self.glyph_width * self.glyphs@.len() >= self.glyphs@.len()) by (nonlinear_arith)
                    requires
                        self.glyph_width >= 1,
                ;
                assert(self.glyph_width * self.glyphs@.len() > u32::MAX);
                u32::MAX
            }
        } else {
            assert(self.glyph_width as int * len as int <= 0xffff_ffff * 0xffff_ffff) by (nonlinear_arith)
                requires
                    self.glyph_width <= 0xffff_ffffu32,
                    len <= 0xffff_ffffusize,
            ;
            let w: u64 = self.glyph_width as u64 * len as u64;
            assert(w == self.glyph_width * self.glyphs@.len());
            if w > u32::MAX as u64 {
                u32::MAX
            } else {
                w as u32
            }
        };
        (width, self.glyph_height)
    }

    pub fn reposition(&mut self, position: Point)
        ensures
            final(self).position == position,
            final(self).strip == old(self).strip,
            final(self).glyph_width == old(self).glyph_width,
            final(self).glyph_height == old(self).glyph_height,
            final(self).glyphs == old(self).glyphs,
    {
        self.position = position;
    }
}

proof fn lemma_digits_are_digits(n: nat, i: int)
    requires
        0 <= i < digits_of(n).len(),
    ensures
        48 <= digits_of(n)[i] <= 57,
    decreases n,
{
    if n >= 10 {
        let rest = digits_of(n / 10);
        if i < rest.len() {
            lemma_digits_are_digits(n / 10, i);
        }
    }
}

proof fn lemma_decimal_text_in_strip(v: int, i: int)
    requires
        i32::MIN <= v <= i32::MAX,
        0 <= i < decimal_text(v).len(),
    ensures
        decimal_text(v)[i] >= FIRST_GLYPH,
{
    if v < 0 {
        if i > 0 {
            lemma_digits_are_digits((-v) as nat, i - 1);
        }
    } else {
        lemma_digits_are_digits(v as nat, i);
    }
}

} // verus!
