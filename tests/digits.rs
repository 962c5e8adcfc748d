use lukaj::digits::DigitsDisplay;
use lukaj::error::ViewError;
use lukaj::geometry::{Point, Rect};
use lukaj::status::{LabeledDigitsDisplay, SimpleCanvasEntity, StatusBar};

fn display() -> DigitsDisplay<u8> {
    DigitsDisplay::new(1, 130, 16)
}

fn labeled(label_width: u32) -> LabeledDigitsDisplay<u8> {
    LabeledDigitsDisplay::new(SimpleCanvasEntity::new(0, label_width, 16), display())
}

#[test]
fn glyph_width_from_strip() {
    let d = display();
    assert_eq!(d.glyph_width, 10);
    assert_eq!(d.glyph_height, 16);
    assert_eq!(d.size(), (0, 16));
}

#[test]
fn with_i32_writes_glyph_indices() {
    let mut d = display();
    d.with_i32(-120);
    assert_eq!(d.glyphs, vec![0, 4, 5, 3]);
    d.with_i32(7);
    assert_eq!(d.glyphs, vec![10]);
    d.with_i32(i32::MIN);
    assert_eq!(d.glyphs, vec![0, 5, 4, 7, 10, 7, 11, 6, 9, 7, 11]);
    assert_eq!(d.size(), (110, 16));
}

#[test]
fn with_text_maps_characters() {
    let mut d = display();
    d.with_text(b"2.5");
    assert_eq!(d.glyphs, vec![5, 1, 8]);
}

#[test]
fn digits_draw_copies_each_glyph() {
    let mut d = display();
    d.with_i32(-9);
    d.reposition(Point::new(5, 6));
    let blits = d.draw().unwrap();
    assert_eq!(blits.len(), 2);
    assert_eq!(blits[0].src, Rect { x: 0, y: 0, width: 10, height: 16 });
    assert_eq!(blits[1].src, Rect { x: 120, y: 0, width: 10, height: 16 });
    assert_eq!(blits[1].dst, Rect { x: 15, y: 6, width: 10, height: 16 });
}

#[test]
fn digits_draw_overflow() {
    let mut d = display();
    d.with_i32(12);
    d.reposition(Point { x: i32::MAX - 5, y: 0 });
    assert_eq!(d.draw(), Err(ViewError::GeometryOverflow));
}

#[test]
fn labeled_layout() {
    let mut l = labeled(30);
    l.digits.with_i32(42);
    l.reposition(Point::new(0, 100));
    assert_eq!(l.label.position, Point::new(0, 100));
    assert_eq!(l.digits.position, Point::new(30, 100));
    assert_eq!(l.size(), (50, 16));
    let f = l.draw().unwrap();
    assert_eq!(f.label.dst, Rect { x: 0, y: 100, width: 30, height: 16 });
    assert_eq!(f.digits.len(), 2);
}

#[test]
fn status_bar_layout() {
    let mut bar = StatusBar::new(labeled(20), labeled(20), labeled(50), labeled(50));
    bar.update(12, -3, 150);
    bar.scale_display.digits.with_text(b"1.0");
    assert_eq!(bar.split_display.digits.glyphs, vec![4, 8, 3]);
    assert_eq!(bar.scale_display.digits.glyphs, vec![4, 1, 3]);
    bar.reposition(Point::new(0, 500));
    assert_eq!(bar.mouse_y_display.label.position, Point::new(40, 500));
    assert_eq!(bar.split_display.label.position, Point::new(80, 500));
    assert_eq!(bar.scale_display.label.position, Point::new(160, 500));
    assert_eq!(bar.size(), (240, 16));
    assert_eq!(bar.draw().unwrap().len(), 4);
}
