use lukaj::drag::Drag;
use lukaj::geometry::Point;

fn assert_state(d: &Drag, active: bool, start_x: i32, start_y: i32, x: i32, y: i32) {
    assert_eq!(d.active, active);
    assert_eq!(d.drag_start, Point::new(start_x, start_y));
    assert_eq!(d.drag, Point::new(x, y));
}

#[test]
fn test_reset() {
    let mut d = Drag::new();
    d.drag_start = Point::new(10, 20);
    d.drag = Point::new(30, 40);
    d.reset();
    assert_state(&d, false, 0, 0, 0, 0);
}

#[test]
fn test_internal_update() {
    let mut d = Drag::new();
    d.update(true, 10, 10);
    // first update when pressed true does not change drag value, just toggles the state
    assert_state(&d, true, 10, 10, 0, 0);
    // the second update with pressed calculates new drag
    d.update(true, 15, 20);
    assert_state(&d, true, 10, 10, 5, 10);
    // releasing button does not reset drag, just clears the start state
    d.update(false, 20, 20);
    assert_state(&d, false, 10, 10, 5, 10);
    // starting all over, changing start drag position to keep continuous dragging
    d.update(true, 0, 0);
    assert_state(&d, true, -5, -10, 5, 10);
    d.update(true, 5, 0);
    assert_state(&d, true, -5, -10, 10, 10);
}

#[test]
fn drag_get_returns_offset() {
    let mut d = Drag::new();
    d.update(true, 100, 100);
    d.update(true, 130, 90);
    assert_eq!(d.get(), Point::new(30, -10));
}

#[test]
fn drag_offsets_clamp_to_coordinate_range() {
    let mut d = Drag::new();
    d.update(true, i32::MIN, 0);
    d.update(true, i32::MAX, 0);
    assert_eq!(d.get().x, lukaj::geometry::MAX_COORD);
}
