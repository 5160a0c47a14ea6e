use wm_layout::Rect;

#[test]
fn test_clamp_within_bounds_no_overflow() {
    let window_rect = Rect::from_xy(100, 100, 200, 150);
    let monitor_rect = Rect::from_xy(0, 0, 1920, 1080);

    let result = window_rect.clamp_within_bounds(&monitor_rect);

    // Window should remain unchanged as it fits within bounds
    assert_eq!(result, window_rect);
}

#[test]
fn test_clamp_within_bounds_right_overflow() {
    let window_rect = Rect::from_xy(1800, 100, 200, 150);
    let monitor_rect = Rect::from_xy(0, 0, 1920, 1080);

    let result = window_rect.clamp_within_bounds(&monitor_rect);

    // Window should be repositioned to fit entirely within monitor
    assert_eq!(result, Rect::from_xy(1720, 100, 200, 150));
}

#[test]
fn test_clamp_within_bounds_bottom_overflow() {
    let window_rect = Rect::from_xy(100, 1000, 200, 150);
    let monitor_rect = Rect::from_xy(0, 0, 1920, 1080);

    let result = window_rect.clamp_within_bounds(&monitor_rect);

    // Window should be repositioned to fit entirely within monitor
    assert_eq!(result, Rect::from_xy(100, 930, 200, 150));
}

#[test]
fn test_clamp_within_bounds_mixed_resolution_scenario() {
    // Simulate Task Manager spilling from 4K monitor to smaller monitor
    // 4K monitor: 0,0 to 3840,2160
    // 1920x1200 monitor: 3840,0 to 5760,1200
    let window_rect = Rect::from_xy(3700, 100, 300, 400); // Window near edge of 4K monitor
    let small_monitor_rect = Rect::from_xy(3840, 0, 1920, 1200);

    let result = window_rect.clamp_within_bounds(&small_monitor_rect);

    // Should be fully contained within the small monitor
    assert_eq!(result, Rect::from_xy(3840, 100, 300, 400));
    assert!(result.right <= small_monitor_rect.right);
    assert!(result.bottom <= small_monitor_rect.bottom);
}

#[test]
fn test_clamp_within_bounds_oversized_window() {
    let window_rect = Rect::from_xy(100, 100, 2000, 1500);
    let monitor_rect = Rect::from_xy(0, 0, 1920, 1080);

    let result = window_rect.clamp_within_bounds(&monitor_rect);

    // Window should be resized and positioned at origin
    assert_eq!(result, Rect::from_xy(0, 0, 1920, 1080));
}

#[test]
fn test_clamp_within_bounds_negative_coordinates() {
    let window_rect = Rect::from_xy(-100, -50, 200, 150);
    let monitor_rect = Rect::from_xy(0, 0, 1920, 1080);

    let result = window_rect.clamp_within_bounds(&monitor_rect);

    // Window should be repositioned to monitor origin
    assert_eq!(result, Rect::from_xy(0, 0, 200, 150));
}

#[test]
fn test_clamp_within_bounds_multi_monitor_boundary() {
    // Test window at boundary between monitors in mixed resolution setup
    let window_rect = Rect::from_xy(3700, 500, 400, 300); // Spans across monitors
    let right_monitor_rect = Rect::from_xy(3840, 0, 1920, 1200);

    let result = window_rect.clamp_within_bounds(&right_monitor_rect);

    // Should be fully within the right monitor
    assert_eq!(result, Rect::from_xy(3840, 500, 400, 300));
    assert!(result.left >= right_monitor_rect.left);
    assert!(result.right <= right_monitor_rect.right);
}
