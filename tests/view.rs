use lukaj::backdrop::{tile_pixels, CheckerBoard, DARK_SHADE, LIGHT_SHADE};
use lukaj::diff::{Diff, Fraction};
use lukaj::error::ViewError;
use lukaj::geometry::{anchor_for_center, Point, Rect, MAX_COORD, MIN_COORD};
use lukaj::split::{PixelBuffer, Side, SplitView};

fn buffer(width: u32, height: u32) -> PixelBuffer<u32> {
    PixelBuffer { pixels: width * 1000 + height, width, height }
}

#[test]
fn initial_split_is_half_the_narrower_width() {
    let d = Diff::new(buffer(200, 100), buffer(300, 120));
    assert_eq!(d.split, 100);
    assert_eq!(d.left.split, 100);
    assert_eq!(d.right.split, 100);
    assert_eq!(d.size(), (300, 120));
    assert_eq!(d.left.buffer, 200100);
    assert_eq!(d.right.buffer, 300120);
}

#[test]
fn drag_moves_split_under_pointer() {
    let mut d = Diff::new(buffer(200, 100), buffer(300, 100));
    d.update(true, 150);
    assert_eq!(d.split, 150);
    assert_eq!(d.left.split, 150);
    assert_eq!(d.right.split, 150);
}

#[test]
fn drag_without_button_changes_nothing() {
    let mut d = Diff::new(buffer(200, 100), buffer(300, 100));
    d.update(false, 150);
    assert_eq!(d.split, 100);
}

#[test]
fn drag_clamps_to_view() {
    let mut d = Diff::new(buffer(200, 100), buffer(300, 100));
    d.reposition(Point::new(50, 0));
    d.update(true, 20);
    assert_eq!(d.split, 0);
    d.update(true, 1000);
    assert_eq!(d.split, 300);
    assert_eq!(d.left.split, 200);
    assert_eq!(d.right.split, 300);
}

#[test]
fn update_split_clamps_to_width() {
    let mut d = Diff::new(buffer(200, 100), buffer(300, 100));
    d.update_split(5000);
    assert_eq!(d.split, 300);
    d.update_split(250);
    assert_eq!(d.split, 250);
    assert_eq!(d.left.split, 200);
    assert_eq!(d.right.split, 250);
}

#[test]
fn fraction_round_trip_keeps_split() {
    let mut d = Diff::new(buffer(201, 100), buffer(333, 100));
    for s in [0u32, 1, 77, 166, 332, 333] {
        d.update_split(s);
        let f = d.get_left_fraction();
        d.split_by_fraction(f);
        assert_eq!(d.split, s);
    }
}

#[test]
fn rescale_preserves_relative_position() {
    let old = Diff::new(buffer(200, 200), buffer(200, 200));
    assert_eq!(old.split, 100);
    let f = old.get_left_fraction();
    assert_eq!(f, Fraction { num: 100, den: 200 });
    let mut d = Diff::new(buffer(400, 400), buffer(400, 400));
    d.split_by_fraction(f);
    assert_eq!(d.split, 200);
}

#[test]
fn fraction_is_clamped() {
    let mut d = Diff::new(buffer(200, 100), buffer(200, 100));
    d.split_by_fraction(Fraction { num: 3, den: 2 });
    assert_eq!(d.split, 200);
    d.split_by_fraction(Fraction { num: 0, den: 0 });
    assert_eq!(d.split, 0);
    d.split_by_fraction(Fraction { num: 1, den: 0 });
    assert_eq!(d.split, 200);
    d.split_by_fraction(Fraction { num: 1, den: 3 });
    assert_eq!(d.split, 66);
}

#[test]
fn draw_frame_in_middle() {
    let mut d = Diff::new(buffer(200, 100), buffer(300, 120));
    d.reposition(Point::new(10, 20));
    let f = d.draw().unwrap();
    assert_eq!(f.left.src, Rect { x: 0, y: 0, width: 100, height: 100 });
    assert_eq!(f.left.dst, Rect { x: 10, y: 20, width: 100, height: 100 });
    assert_eq!(f.right.src, Rect { x: 100, y: 0, width: 200, height: 120 });
    assert_eq!(f.right.dst, Rect { x: 110, y: 20, width: 200, height: 120 });
    assert_eq!(f.divider.rect, Rect { x: 110, y: 20, width: 3, height: 120 });
    assert_eq!((f.divider.color.r, f.divider.color.g, f.divider.color.b), (255, 0, 0));
}

#[test]
fn draw_is_repeatable() {
    let mut d = Diff::new(buffer(200, 100), buffer(300, 120));
    d.update_split(42);
    assert_eq!(d.draw(), d.draw());
}

#[test]
fn divider_visible_at_both_ends() {
    let mut d = Diff::new(buffer(200, 100), buffer(200, 100));
    d.update_split(0);
    let f = d.draw().unwrap();
    assert_eq!(f.divider.rect.width, 3);
    assert_eq!(f.left.src.width, 1);
    assert_eq!(f.right.src, Rect { x: 0, y: 0, width: 200, height: 100 });
    d.update_split(200);
    let f = d.draw().unwrap();
    assert_eq!(f.divider.rect.width, 3);
    assert_eq!(f.divider.rect.x, 200);
    assert_eq!(f.left.src.width, 200);
    // the right part at the far edge is still requested one pixel wide
    assert_eq!(f.right.src, Rect { x: 200, y: 0, width: 1, height: 100 });
}

#[test]
fn draw_fails_when_divider_column_overflows() {
    let mut d = Diff::new(buffer(200, 100), buffer(200, 100));
    d.reposition(Point { x: i32::MAX - 50, y: 0 });
    assert_eq!(d.draw(), Err(ViewError::GeometryOverflow));
}

#[test]
fn pane_draw_sides() {
    let mut pane = SplitView::new(buffer(50, 40), Side::Right);
    pane.split(80);
    assert_eq!(pane.split, 50);
    pane.split(20);
    let b = pane.draw().unwrap();
    assert_eq!(b.src, Rect { x: 20, y: 0, width: 30, height: 40 });
    pane.reposition(Point::new(i32::MAX, 0));
    assert_eq!(pane.position.x, MAX_COORD);
    assert_eq!(pane.size(), (50, 40));
}

#[test]
fn center_on_places_view() {
    let mut d = Diff::new(buffer(200, 100), buffer(300, 120));
    d.center_on(Point::new(400, 300));
    assert_eq!(d.position, Point::new(250, 240));
    assert_eq!(d.left.position, Point::new(250, 240));
    assert_eq!(d.right.position, Point::new(250, 240));
    assert_eq!(anchor_for_center(Point::new(0, 0), (u32::MAX, 2)), Point::new(-MAX_COORD, -1));
}

#[test]
fn rect_never_empty() {
    let r = Rect::new(-2_000_000_000, 5, 0, u32::MAX);
    assert_eq!(r, Rect { x: MIN_COORD, y: 5, width: 1, height: MAX_COORD as u32 });
}

#[test]
fn point_arithmetic_clamps() {
    let a = Point::new(MAX_COORD, 3);
    assert_eq!(a.plus(Point::new(10, 4)), Point::new(MAX_COORD, 7));
    assert_eq!(Point::new(MIN_COORD, 0).minus(Point::new(1, -1)), Point::new(MIN_COORD, 1));
}

#[test]
fn tile_pixels_pattern() {
    let px = tile_pixels();
    assert_eq!(px.len(), 512 * 512 * 4);
    assert_eq!(&px[0..4], &[DARK_SHADE, DARK_SHADE, DARK_SHADE, 255]);
    let at = |x: usize, y: usize| px[(y * 512 + x) * 4];
    assert_eq!(at(7, 0), DARK_SHADE);
    assert_eq!(at(8, 0), LIGHT_SHADE);
    assert_eq!(at(0, 8), LIGHT_SHADE);
    assert_eq!(at(8, 8), DARK_SHADE);
    assert_eq!(at(511, 511), DARK_SHADE);
    assert_eq!(px[(3 * 512 + 9) * 4 + 3], 255);
}

#[test]
fn backdrop_tiles_cut_at_edges() {
    let mut b = CheckerBoard::new(7u8, (1000, 600));
    b.reposition(Point::new(-10, 5));
    let cols = b.draw().unwrap();
    assert_eq!(cols.len(), 2);
    assert_eq!(cols[0].len(), 2);
    assert_eq!(cols[0][0].dst, Rect { x: -10, y: 5, width: 512, height: 512 });
    assert_eq!(cols[0][1].dst, Rect { x: -10, y: 517, width: 512, height: 88 });
    assert_eq!(cols[1][0].dst, Rect { x: 502, y: 5, width: 488, height: 512 });
    assert_eq!(cols[1][1].src, Rect { x: 0, y: 0, width: 488, height: 88 });
}

#[test]
fn backdrop_empty_and_resized() {
    let mut b = CheckerBoard::new(7u8, (0, 600));
    assert_eq!(b.draw().unwrap().len(), 0);
    b.set_size((512, 1024));
    assert_eq!(b.size(), (512, 1024));
    let cols = b.draw().unwrap();
    assert_eq!(cols.len(), 1);
    assert_eq!(cols[0].len(), 2);
    b.center_on(Point::new(0, 0));
    assert_eq!(b.position, Point::new(-256, -512));
}

#[test]
fn backdrop_overflow_is_reported() {
    let mut b = CheckerBoard::new(7u8, (2048, 10));
    b.reposition(Point { x: i32::MAX - 100, y: 0 });
    assert_eq!(b.draw(), Err(ViewError::GeometryOverflow));
    b.set_size((100, 10));
    assert_eq!(b.draw().unwrap().len(), 1);
}
