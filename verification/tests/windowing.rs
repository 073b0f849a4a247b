use luminance_windowing::mock::{MockError, MockSurface};
use luminance_windowing::{Surface, WindowDim, WindowOpt};

#[test]
fn default_cursor_not_hidden() {
    assert_eq!(WindowOpt::default().is_cursor_hidden(), false);
}

#[test]
fn hide_cursor_round_trip() {
    assert_eq!(WindowOpt::default().hide_cursor(true).is_cursor_hidden(), true);
    assert_eq!(WindowOpt::default().hide_cursor(false).is_cursor_hidden(), false);
}

#[test]
fn hide_cursor_idempotent() {
    let once = WindowOpt::default().hide_cursor(true);
    let twice = once.hide_cursor(true);
    assert_eq!(twice, once);

    let once_off = WindowOpt::default().hide_cursor(false);
    let twice_off = once_off.hide_cursor(false);
    assert_eq!(twice_off, once_off);
}

#[test]
fn window_dim_payload_preserved() {
    match WindowDim::Windowed(800, 600) {
        WindowDim::Windowed(w, h) => {
            assert_eq!(w, 800);
            assert_eq!(h, 600);
        }
        _ => panic!("wrong variant"),
    }
    match WindowDim::FullscreenRestricted(1024, 768) {
        WindowDim::FullscreenRestricted(w, h) => {
            assert_eq!(w, 1024);
            assert_eq!(h, 768);
        }
        _ => panic!("wrong variant"),
    }
}

#[test]
fn window_dim_variants_distinct() {
    assert_ne!(WindowDim::Windowed(640, 480), WindowDim::Fullscreen);
    assert_ne!(WindowDim::Windowed(640, 480), WindowDim::FullscreenRestricted(640, 480));
    assert_ne!(WindowDim::Fullscreen, WindowDim::FullscreenRestricted(640, 480));
}

#[test]
fn mock_create_fullscreen_fails() {
    let r = MockSurface::new(WindowDim::Fullscreen, "t", WindowOpt::default());
    assert_eq!(r.err(), Some(MockError::UnsupportedMode));
}

#[test]
fn mock_create_fullscreen_restricted_fails() {
    let r = MockSurface::new(WindowDim::FullscreenRestricted(640, 480), "t", WindowOpt::default());
    assert!(r.is_err());
}

#[test]
fn mock_create_windowed_reports_fixed_size() {
    let s = MockSurface::new(WindowDim::Windowed(640, 480), "t", WindowOpt::default())
        .expect("windowed mode must be accepted");
    assert_eq!(s.size(), (640, 480));
}

#[test]
fn width_and_height_follow_size() {
    let s = MockSurface::new(WindowDim::Windowed(640, 480), "t", WindowOpt::default())
        .expect("windowed mode must be accepted");
    assert_eq!(s.width(), s.size().0);
    assert_eq!(s.height(), s.size().1);
    assert_eq!(s.width(), 640);
    assert_eq!(s.height(), 480);
}

#[test]
fn mock_poll_yields_queued_events_in_order_then_empty() {
    let mut s = MockSurface::new(WindowDim::Windowed(640, 480), "t", WindowOpt::default())
        .expect("windowed mode must be accepted");
    s.push_event(11);
    s.push_event(22);
    s.push_event(33);
    assert_eq!(s.poll_events(), vec![11, 22, 33]);
    assert_eq!(s.poll_events(), Vec::<u32>::new());
}

#[test]
fn mock_draw_runs_action_and_keeps_queue() {
    let mut s = MockSurface::new(WindowDim::Windowed(640, 480), "t", WindowOpt::default())
        .expect("windowed mode must be accepted");
    s.push_event(5);
    let mut frames: u32 = 0;
    s.draw(|| frames += 1);
    assert_eq!(frames, 1);
    assert_eq!(s.size(), (640, 480));
    assert_eq!(s.poll_events(), vec![5]);
}

#[test]
fn mock_wait_delivers_queued_events_in_order() {
    let mut s = MockSurface::new(WindowDim::Windowed(640, 480), "t", WindowOpt::default())
        .expect("windowed mode must be accepted");
    s.push_event(1);
    s.push_event(2);
    assert_eq!(s.wait_events(), vec![1, 2]);
    assert_eq!(s.poll_events(), Vec::<u32>::new());
}
