use lukaj::diff::Diff;
use lukaj::drag::Drag;
use lukaj::error::{SizeBreach, ViewError};
use lukaj::geometry::Point;
use lukaj::session::{PointerInput, Session, SizePolicy, ZoomDirection};
use lukaj::split::PixelBuffer;
use lukaj::window::{initial_window_size, largest_display};

fn raster(width: u32, height: u32) -> PixelBuffer<u32> {
    PixelBuffer { pixels: width * 1000 + height, width, height }
}

fn policy() -> SizePolicy {
    SizePolicy::for_renderer(true, (0, 0))
}

fn session(w: u32, h: u32) -> Session<u32> {
    Session::start(policy(), raster(w, h), raster(w, h), 9).unwrap()
}

#[test]
fn renderer_policy() {
    let p = SizePolicy::for_renderer(false, (8192, 4096));
    assert_eq!((p.min, p.max), ((100, 100), (8192, 4096)));
    let p = policy();
    assert_eq!(p.max, (16384, 16384));
}

#[test]
fn start_refuses_small_source() {
    let p = SizePolicy::load_time();
    assert_eq!(
        p.check((99, 150), (200, 200)),
        Err(ViewError::SizeOutOfPolicy(SizeBreach::BelowMinimum))
    );
    assert_eq!(
        p.check((200, 200), (150, 50)),
        Err(ViewError::SizeOutOfPolicy(SizeBreach::BelowMinimum))
    );
    assert_eq!(p.check((100, 100), (u32::MAX, 100)), Ok(()));
    let r = Session::start(policy(), raster(99, 99), raster(200, 200), 9);
    assert!(matches!(r, Err(ViewError::SizeOutOfPolicy(SizeBreach::BelowMinimum))));
}

#[test]
fn start_refuses_large_source_first() {
    let r = Session::start(policy(), raster(20000, 50), raster(200, 200), 9);
    assert!(matches!(r, Err(ViewError::SizeOutOfPolicy(SizeBreach::AboveMaximum))));
}

#[test]
fn start_builds_view_and_backdrop() {
    let s = Session::start(policy(), raster(200, 150), raster(300, 120), 9).unwrap();
    assert_eq!(s.diff.split, 100);
    assert_eq!(s.backdrop.size(), (300, 150));
    assert_eq!(s.backdrop.tile, 9);
    assert_eq!(s.zoom, 0);
}

#[test]
fn zoom_rejected_below_minimum() {
    let mut s = session(200, 200);
    let r = s.review_zoom(ZoomDirection::Out, Ok((99, 150)), Ok((150, 150)));
    assert_eq!(r, Err(ViewError::SizeOutOfPolicy(SizeBreach::BelowMinimum)));
    let r = s.apply_zoom(ZoomDirection::Out, Ok((raster(99, 150), raster(150, 150))));
    assert_eq!(r, Err(ViewError::SizeOutOfPolicy(SizeBreach::BelowMinimum)));
    assert_eq!(s.zoom, 0);
    assert_eq!(s.diff.size(), (200, 200));
}

#[test]
fn zoom_review_passes_errors_and_levels() {
    let s = session(200, 200);
    assert_eq!(s.review_zoom(ZoomDirection::In, Ok((400, 400)), Ok((400, 400))), Ok(1));
    assert_eq!(s.review_zoom(ZoomDirection::Out, Ok((100, 100)), Ok((100, 100))), Ok(-1));
    assert_eq!(
        s.review_zoom(ZoomDirection::In, Err(ViewError::SizeUnavailable), Ok((400, 400))),
        Err(ViewError::SizeUnavailable)
    );
    assert_eq!(
        s.review_zoom(ZoomDirection::In, Ok((400, 400)), Ok((20000, 400))),
        Err(ViewError::SizeOutOfPolicy(SizeBreach::AboveMaximum))
    );
}

#[test]
fn zoom_render_failure_keeps_state() {
    let mut s = session(200, 200);
    s.diff.update_split(50);
    let r = s.apply_zoom(ZoomDirection::In, Err(ViewError::RenderFailure));
    assert_eq!(r, Err(ViewError::RenderFailure));
    assert_eq!(s.zoom, 0);
    assert_eq!(s.diff.split, 50);
}

#[test]
fn zoom_in_rescales_and_keeps_fraction() {
    let mut s = session(200, 200);
    assert_eq!(s.diff.split, 100);
    let r = s.apply_zoom(ZoomDirection::In, Ok((raster(400, 400), raster(400, 400))));
    assert_eq!(r, Ok(()));
    assert_eq!(s.zoom, 1);
    assert_eq!(s.diff.split, 200);
    assert_eq!(s.diff.left.buffer, 400400);
    assert_eq!(s.backdrop.size(), (400, 400));
}

#[test]
fn frame_pans_and_moves_split() {
    let mut s = session(200, 200);
    let center = Point::new(400, 300);
    s.frame(PointerInput { x: 10, y: 10, primary: false, secondary: true }, center);
    assert_eq!(s.diff.position, Point::new(300, 200));
    s.frame(PointerInput { x: 30, y: 5, primary: false, secondary: true }, center);
    assert_eq!(s.drag.get(), Point::new(20, -5));
    assert_eq!(s.diff.position, Point::new(320, 195));
    assert_eq!(s.backdrop.position, Point::new(320, 195));
    s.frame(PointerInput { x: 370, y: 5, primary: true, secondary: false }, center);
    assert_eq!(s.diff.split, 50);
    assert_eq!(s.readout(PointerInput { x: 370, y: 5, primary: true, secondary: false }), (50, -190, 50));
    s.reset();
    assert_eq!(s.drag.get(), Point::new(0, 0));
    assert!(!s.drag.active);
    let _ = Drag::new();
    let _ = Diff::new(raster(1, 1), raster(1, 1));
}

#[test]
fn largest_display_by_area() {
    assert_eq!(largest_display(&vec![]), (1, 1));
    assert_eq!(largest_display(&vec![(1920, 1080), (2560, 1440), (1440, 2560)]), (2560, 1440));
    assert_eq!(largest_display(&vec![(u32::MAX, u32::MAX), (10, 10)]), (u32::MAX, u32::MAX));
}

#[test]
fn window_size_is_a_tenth_larger_within_bounds() {
    assert_eq!(initial_window_size((1000, 700), (900, 800), (3840, 2160)), (1100, 880));
    assert_eq!(initial_window_size((100, 100), (200, 120), (3840, 2160)), (800, 600));
    assert_eq!(initial_window_size((5000, 4000), (10, 10), (1920, 1080)), (1920, 1080));
}
