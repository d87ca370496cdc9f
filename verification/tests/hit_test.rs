use overlay_window::behavior::WindowBehaviorState;
use overlay_window::geometry::{
    point_in_rect, ControlBounds, LocalPoint, ScreenPoint, WindowProbe, WindowRect, WindowSize,
};
use overlay_window::hit_test::{
    default_controls_bounds, is_cursor_in_controls, is_cursor_inside, is_cursor_near_window,
    DEFAULT_FADE_MARGIN,
};

fn probe(x: i32, y: i32, width: u32, height: u32) -> WindowProbe {
    WindowProbe {
        position: Some(ScreenPoint { x, y }),
        size: Some(WindowSize { width, height }),
    }
}

#[test]
fn point_strictly_inside_rect_is_inside() {
    let rect = WindowRect::from_edges(100, 100, 500, 400).unwrap();
    assert!(point_in_rect(101, 101, rect));
    assert!(point_in_rect(300, 200, rect));
    assert!(point_in_rect(499, 399, rect));
}

#[test]
fn point_on_each_edge_of_rect_is_inside() {
    let rect = WindowRect::from_edges(100, 100, 500, 400).unwrap();
    assert!(point_in_rect(100, 250, rect));
    assert!(point_in_rect(500, 250, rect));
    assert!(point_in_rect(300, 100, rect));
    assert!(point_in_rect(300, 400, rect));
    assert!(point_in_rect(100, 100, rect));
    assert!(point_in_rect(500, 400, rect));
    assert!(point_in_rect(100, 400, rect));
    assert!(point_in_rect(500, 100, rect));
}

#[test]
fn point_with_a_coordinate_outside_rect_is_outside() {
    let rect = WindowRect::from_edges(100, 100, 500, 400).unwrap();
    assert!(!point_in_rect(99, 250, rect));
    assert!(!point_in_rect(501, 250, rect));
    assert!(!point_in_rect(300, 99, rect));
    assert!(!point_in_rect(300, 401, rect));
    assert!(!point_in_rect(i32::MIN, 250, rect));
    assert!(!point_in_rect(i32::MAX, i32::MAX, rect));
}

#[test]
fn rect_at_the_far_corner_of_the_screen_does_not_overflow() {
    let rect = WindowRect { left: i32::MAX, top: i32::MAX, width: u32::MAX, height: u32::MAX };
    assert_eq!(rect.right(), i32::MAX as i64 + u32::MAX as i64);
    assert_eq!(rect.bottom(), i32::MAX as i64 + u32::MAX as i64);
    assert!(point_in_rect(i32::MAX, i32::MAX, rect));
    assert!(!point_in_rect(i32::MAX - 1, i32::MAX, rect));
}

#[test]
fn rect_from_edges_keeps_the_edges() {
    let rect = WindowRect::from_edges(-20, -10, 30, 40).unwrap();
    assert_eq!(rect, WindowRect { left: -20, top: -10, width: 50, height: 50 });
    assert_eq!(rect.right(), 30);
    assert_eq!(rect.bottom(), 40);
    assert_eq!(rect.origin(), ScreenPoint { x: -20, y: -10 });
    assert_eq!(rect.size(), WindowSize { width: 50, height: 50 });
    let widest = WindowRect::from_edges(i32::MIN, i32::MIN, i32::MAX, i32::MAX).unwrap();
    assert_eq!(widest.width, u32::MAX);
    assert_eq!(widest.height, u32::MAX);
}

#[test]
fn rect_from_edges_out_of_order_is_refused() {
    assert_eq!(WindowRect::from_edges(10, 0, 9, 5), None);
    assert_eq!(WindowRect::from_edges(0, 10, 5, 9), None);
    assert!(WindowRect::from_edges(7, 7, 7, 7).is_some());
}

#[test]
fn rect_from_origin_and_size_round_trips() {
    let origin = ScreenPoint { x: 5, y: -6 };
    let size = WindowSize { width: 7, height: 8 };
    let rect = WindowRect::from_origin_size(origin, size);
    assert_eq!(rect.origin(), origin);
    assert_eq!(rect.size(), size);
}

#[test]
fn screen_point_to_local_subtracts_the_origin() {
    let local = ScreenPoint { x: 450, y: 380 }.to_local(ScreenPoint { x: 100, y: 100 });
    assert_eq!(local, LocalPoint { x: 350, y: 280 });
    let far = ScreenPoint { x: i32::MIN, y: i32::MAX }.to_local(ScreenPoint { x: i32::MAX, y: i32::MIN });
    assert_eq!(far, LocalPoint { x: i32::MIN as i64 - i32::MAX as i64, y: i32::MAX as i64 - i32::MIN as i64 });
}

#[test]
fn control_bounds_contains_is_inclusive() {
    let bounds = ControlBounds { left: 10, top: 20, right: 30, bottom: 40 };
    assert!(bounds.is_ordered());
    assert!(bounds.contains(10, 20));
    assert!(bounds.contains(30, 40));
    assert!(bounds.contains(20, 30));
    assert!(!bounds.contains(9, 30));
    assert!(!bounds.contains(31, 30));
    assert!(!bounds.contains(20, 19));
    assert!(!bounds.contains(20, 41));
}

#[test]
fn control_bounds_are_made_from_edges_in_order_only() {
    assert_eq!(
        ControlBounds::new(10, 20, 30, 40),
        Some(ControlBounds { left: 10, top: 20, right: 30, bottom: 40 })
    );
    assert_eq!(ControlBounds::new(5, 5, 5, 5), Some(ControlBounds { left: 5, top: 5, right: 5, bottom: 5 }));
    assert_eq!(ControlBounds::new(31, 20, 30, 40), None);
    assert_eq!(ControlBounds::new(10, 41, 30, 40), None);
    assert!(ControlBounds::new(i64::MIN, i64::MIN, i64::MAX, i64::MAX).is_some());
}

#[test]
fn control_bounds_out_of_order_contain_nothing() {
    let bounds = ControlBounds { left: 30, top: 20, right: 10, bottom: 40 };
    assert!(!bounds.is_ordered());
    assert!(!bounds.contains(30, 30));
    assert!(!bounds.contains(10, 30));
    assert!(!bounds.contains(20, 30));
}

#[test]
fn probe_prefers_inner_readings() {
    let inner = ScreenPoint { x: 1, y: 2 };
    let outer = ScreenPoint { x: 3, y: 4 };
    let small = WindowSize { width: 5, height: 6 };
    let large = WindowSize { width: 7, height: 8 };
    let both = WindowProbe::from_readings(Some(inner), Some(outer), Some(small), Some(large));
    assert_eq!(both, WindowProbe { position: Some(inner), size: Some(small) });
    let fallback = WindowProbe::from_readings(None, Some(outer), None, Some(large));
    assert_eq!(fallback, WindowProbe { position: Some(outer), size: Some(large) });
    let nothing = WindowProbe::from_readings(None, None, None, None);
    assert_eq!(nothing, WindowProbe { position: None, size: None });
    assert_eq!(nothing.rect(), None);
}

#[test]
fn probe_from_rect_gives_the_rect_back() {
    let rect = WindowRect::from_edges(100, 100, 500, 400).unwrap();
    let p = WindowProbe::from_rect(Some(rect));
    assert_eq!(p.rect(), Some(rect));
    assert_eq!(p, probe(100, 100, 400, 300));
    assert_eq!(WindowProbe::from_rect(None), WindowProbe { position: None, size: None });
}

#[test]
fn cursor_inside_needs_position_and_size() {
    let full = probe(100, 100, 400, 300);
    assert!(is_cursor_inside(&full, 100, 100));
    assert!(is_cursor_inside(&full, 500, 400));
    assert!(!is_cursor_inside(&full, 501, 400));
    let no_size = WindowProbe { position: full.position, size: None };
    assert!(!is_cursor_inside(&no_size, 300, 200));
    let no_position = WindowProbe { position: None, size: full.size };
    assert!(!is_cursor_inside(&no_position, 300, 200));
}

#[test]
fn cursor_near_window_with_default_margin_is_cursor_inside() {
    let window = probe(100, 100, 400, 300);
    assert_eq!(DEFAULT_FADE_MARGIN, 0);
    for (x, y) in [(100, 100), (500, 400), (99, 100), (501, 400), (300, 401), (300, 99), (300, 200)] {
        assert_eq!(
            is_cursor_near_window(&window, x, y, DEFAULT_FADE_MARGIN),
            is_cursor_inside(&window, x, y)
        );
    }
}

#[test]
fn cursor_near_window_widens_by_the_margin_on_every_side() {
    let window = probe(100, 100, 400, 300);
    assert!(is_cursor_near_window(&window, 90, 90, 10));
    assert!(is_cursor_near_window(&window, 510, 410, 10));
    assert!(!is_cursor_near_window(&window, 89, 90, 10));
    assert!(!is_cursor_near_window(&window, 90, 89, 10));
    assert!(!is_cursor_near_window(&window, 511, 410, 10));
    assert!(!is_cursor_near_window(&window, 510, 411, 10));
    let unread = WindowProbe { position: None, size: None };
    assert!(!is_cursor_near_window(&unread, 0, 0, u32::MAX));
    let edge = probe(i32::MIN, i32::MIN, u32::MAX, u32::MAX);
    assert!(is_cursor_near_window(&edge, i32::MIN, i32::MAX, u32::MAX));
}

#[test]
fn default_controls_region_in_a_large_window() {
    let bounds = default_controls_bounds(WindowSize { width: 640, height: 720 });
    assert_eq!(bounds, ControlBounds { left: 256, top: 336, right: 616, bottom: 696 });
}

#[test]
fn default_controls_region_is_clipped_to_the_window_origin() {
    let bounds = default_controls_bounds(WindowSize { width: 400, height: 300 });
    assert_eq!(bounds, ControlBounds { left: 16, top: 0, right: 376, bottom: 276 });
    let at_threshold = default_controls_bounds(WindowSize { width: 384, height: 383 });
    assert_eq!(at_threshold, ControlBounds { left: 0, top: 0, right: 360, bottom: 359 });
}

#[test]
fn default_controls_region_of_a_tiny_window_is_empty() {
    let bounds = default_controls_bounds(WindowSize { width: 10, height: 0 });
    assert_eq!(bounds, ControlBounds { left: 0, top: 0, right: -14, bottom: -24 });
    assert!(!bounds.is_ordered());
    let state = WindowBehaviorState::default();
    assert!(!is_cursor_in_controls(&probe(0, 0, 10, 0), &state, 0, 0));
}

#[test]
fn default_controls_region_of_the_largest_window() {
    let bounds = default_controls_bounds(WindowSize { width: u32::MAX, height: u32::MAX });
    let far = u32::MAX as i64;
    assert_eq!(bounds, ControlBounds { left: far - 384, top: far - 384, right: far - 24, bottom: far - 24 });
}

#[test]
fn cursor_in_default_controls_matches_the_region() {
    let state = WindowBehaviorState::default();
    let window = probe(1000, 2000, 640, 720);
    // local region is [256, 616] x [336, 696]
    assert!(is_cursor_in_controls(&window, &state, 1256, 2336));
    assert!(is_cursor_in_controls(&window, &state, 1616, 2696));
    assert!(is_cursor_in_controls(&window, &state, 1400, 2500));
    assert!(!is_cursor_in_controls(&window, &state, 1255, 2336));
    assert!(!is_cursor_in_controls(&window, &state, 1256, 2335));
    assert!(!is_cursor_in_controls(&window, &state, 1617, 2696));
    assert!(!is_cursor_in_controls(&window, &state, 1616, 2697));
}

#[test]
fn cursor_left_of_a_narrow_window_is_not_in_default_controls() {
    let state = WindowBehaviorState::default();
    let window = probe(100, 100, 200, 200);
    // local region is [0, 176] x [0, 176]
    assert!(is_cursor_in_controls(&window, &state, 100, 100));
    assert!(!is_cursor_in_controls(&window, &state, 99, 150));
    assert!(!is_cursor_in_controls(&window, &state, 150, 99));
    assert!(is_cursor_in_controls(&window, &state, 276, 276));
    assert!(!is_cursor_in_controls(&window, &state, 277, 276));
}

#[test]
fn configured_controls_override_the_default_for_any_window_size() {
    let bounds = ControlBounds { left: 5, top: 6, right: 50, bottom: 60 };
    let mut state = WindowBehaviorState::default();
    state.set_controls_bounds(Some(bounds));
    for (width, height) in [(0, 0), (400, 300), (640, 720), (u32::MAX, u32::MAX)] {
        let window = probe(100, 200, width, height);
        for (x, y) in [(105, 206), (150, 260), (104, 206), (105, 205), (151, 260), (150, 261), (500, 800)] {
            assert_eq!(
                is_cursor_in_controls(&window, &state, x, y),
                bounds.contains(x as i64 - 100, y as i64 - 200)
            );
        }
    }
    let no_size = WindowProbe { position: Some(ScreenPoint { x: 100, y: 200 }), size: None };
    assert!(is_cursor_in_controls(&no_size, &state, 105, 206));
    assert!(!is_cursor_in_controls(&no_size, &state, 104, 206));
}

#[test]
fn cursor_in_controls_without_a_position_is_false() {
    let mut state = WindowBehaviorState::default();
    let unread = WindowProbe { position: None, size: Some(WindowSize { width: 640, height: 720 }) };
    assert!(!is_cursor_in_controls(&unread, &state, 400, 500));
    state.set_controls_bounds(Some(ControlBounds { left: i64::MIN, top: i64::MIN, right: i64::MAX, bottom: i64::MAX }));
    assert!(!is_cursor_in_controls(&unread, &state, 400, 500));
}

#[test]
fn cursor_in_controls_without_bounds_or_size_is_false() {
    let state = WindowBehaviorState::default();
    let no_size = WindowProbe { position: Some(ScreenPoint { x: 0, y: 0 }), size: None };
    assert!(!is_cursor_in_controls(&no_size, &state, 0, 0));
}
