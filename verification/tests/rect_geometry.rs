use wm_layout::{Direction, Point, Rect};

#[test]
fn from_ltrb_keeps_the_four_edges() {
    let rect = Rect::from_ltrb(1, 2, 3, 4);
    assert_eq!(rect.left, 1);
    assert_eq!(rect.top, 2);
    assert_eq!(rect.right, 3);
    assert_eq!(rect.bottom, 4);
}

#[test]
fn from_xy_adds_the_size_to_the_origin() {
    let rect = Rect::from_xy(100, 100, 200, 150);
    assert_eq!(rect, Rect::from_ltrb(100, 100, 300, 250));
    assert_eq!(rect.x(), 100);
    assert_eq!(rect.y(), 100);
    assert_eq!(rect.width(), 200);
    assert_eq!(rect.height(), 150);
}

#[test]
fn a_rect_of_negative_size_is_accepted() {
    let rect = Rect::from_ltrb(10, 10, 4, 3);
    assert_eq!(rect.width(), -6);
    assert_eq!(rect.height(), -7);
    assert_eq!(Rect::from_xy(10, 10, -6, -7), rect);
}

#[test]
fn translate_to_coordinates_keeps_the_size() {
    let rect = Rect::from_xy(100, 100, 200, 150);
    assert_eq!(rect.translate_to_coordinates(-5, 7), Rect::from_xy(-5, 7, 200, 150));
}

#[test]
fn translate_to_coordinates_of_the_widest_rect() {
    // The width does not fit in an `i32`, the result does.
    let rect = Rect::from_ltrb(i32::MIN, 0, i32::MAX, 10);
    assert_eq!(rect.translate_to_coordinates(i32::MIN, 5), Rect::from_ltrb(i32::MIN, 5, i32::MAX, 15));
}

#[test]
fn translate_to_center_centers_inside_the_outer_rect() {
    let rect = Rect::from_xy(100, 100, 200, 150);
    let outer = Rect::from_xy(0, 0, 1920, 1080);
    assert_eq!(rect.translate_to_center(&outer), Rect::from_xy(860, 465, 200, 150));
}

#[test]
fn translate_to_center_rounds_each_half_towards_zero() {
    let rect = Rect::from_xy(100, 100, 201, 151);
    let outer = Rect::from_xy(10, 20, 1921, 1081);
    assert_eq!(rect.translate_to_center(&outer), Rect::from_xy(870, 485, 201, 151));

    let negative = Rect::from_ltrb(0, 0, -5, -7);
    let outer = Rect::from_xy(0, 0, 1920, 1080);
    assert_eq!(negative.translate_to_center(&outer), Rect::from_xy(962, 543, -5, -7));
}

#[test]
fn translate_in_direction_moves_along_one_axis() {
    let rect = Rect::from_xy(100, 100, 200, 150);
    assert_eq!(rect.translate_in_direction(&Direction::Up, 30), Rect::from_xy(100, 70, 200, 150));
    assert_eq!(rect.translate_in_direction(&Direction::Down, 30), Rect::from_xy(100, 130, 200, 150));
    assert_eq!(rect.translate_in_direction(&Direction::Left, 30), Rect::from_xy(70, 100, 200, 150));
    assert_eq!(rect.translate_in_direction(&Direction::Right, 30), Rect::from_xy(130, 100, 200, 150));
}

#[test]
fn translate_in_direction_by_a_negative_distance_goes_back() {
    let rect = Rect::from_xy(100, 100, 200, 150);
    let there = rect.translate_in_direction(&Direction::Left, 45);
    assert_eq!(there.translate_in_direction(&Direction::Left, -45), rect);
    assert_eq!(rect.translate_in_direction(&Direction::Up, -10), Rect::from_xy(100, 110, 200, 150));
}

#[test]
fn translate_in_direction_by_the_smallest_distance() {
    let rect = Rect::from_ltrb(-10, -1, -5, 0);
    assert_eq!(
        rect.translate_in_direction(&Direction::Left, i32::MIN),
        Rect::from_ltrb(i32::MAX - 9, -1, i32::MAX - 4, 0),
    );
}

#[test]
fn clamp_raises_the_origin_and_caps_the_size() {
    let outer = Rect::from_xy(0, 0, 1920, 1080);
    assert_eq!(Rect::from_xy(-100, -50, 200, 150).clamp(&outer), Rect::from_xy(0, 0, 200, 150));
    assert_eq!(Rect::from_xy(100, 100, 2000, 1500).clamp(&outer), Rect::from_xy(100, 100, 1920, 1080));
}

#[test]
fn clamp_leaves_the_far_edges_beyond_the_outer_rect() {
    let outer = Rect::from_xy(0, 0, 1920, 1080);
    let result = Rect::from_xy(1800, 1000, 200, 150).clamp(&outer);
    assert_eq!(result, Rect::from_xy(1800, 1000, 200, 150));
    assert!(result.right > outer.right);
    assert!(result.bottom > outer.bottom);
}

#[test]
fn clamp_within_bounds_left_and_top_overflow() {
    let outer = Rect::from_xy(100, 200, 800, 600);
    let result = Rect::from_xy(50, 150, 300, 300).clamp_within_bounds(&outer);
    assert_eq!(result, Rect::from_xy(100, 200, 300, 300));
}

#[test]
fn clamp_within_bounds_result_lies_within_the_outer_rect() {
    let outers = [
        Rect::from_xy(0, 0, 1920, 1080),
        Rect::from_xy(-500, 300, 10, 10),
        Rect::from_ltrb(100, 100, 50, 50),
        Rect::from_ltrb(i32::MIN, i32::MIN, i32::MAX, i32::MAX),
    ];
    let rects = [
        Rect::from_xy(100, 100, 200, 150),
        Rect::from_xy(-3000, 5000, 7000, 1),
        Rect::from_ltrb(10, 10, -10, -10),
        Rect::from_ltrb(i32::MAX, i32::MAX, i32::MIN, i32::MIN),
        Rect::from_ltrb(i32::MIN, i32::MIN, i32::MAX, i32::MAX),
    ];
    for outer in outers.iter() {
        for rect in rects.iter() {
            let result = rect.clamp_within_bounds(outer);
            assert!(result.left >= outer.left);
            assert!(result.top >= outer.top);
            assert!(result.right <= outer.right);
            assert!(result.bottom <= outer.bottom);
        }
    }
}

#[test]
fn clamp_within_bounds_twice_is_the_same_as_once() {
    let outer = Rect::from_xy(0, 0, 1920, 1080);
    let once = Rect::from_xy(1800, 1000, 400, 150).clamp_within_bounds(&outer);
    assert_eq!(once, Rect::from_xy(1520, 930, 400, 150));
    assert_eq!(once.clamp_within_bounds(&outer), once);
}

#[test]
fn clamp_size_caps_each_dimension() {
    let rect = Rect::from_xy(10, 20, 300, 400);
    assert_eq!(rect.clamp_size(200, 500), Rect::from_xy(10, 20, 200, 400));
    assert_eq!(rect.clamp_size(500, 100), Rect::from_xy(10, 20, 300, 100));
    assert_eq!(rect.clamp_size(-1, -2), Rect::from_xy(10, 20, -1, -2));
}

#[test]
fn center_point_truncates_towards_zero() {
    assert_eq!(Rect::from_xy(100, 100, 200, 150).center_point(), Point { x: 200, y: 175 });
    assert_eq!(Rect::from_ltrb(0, 0, 5, 7).center_point(), Point { x: 2, y: 3 });
    assert_eq!(Rect::from_ltrb(0, 0, -5, -7).center_point(), Point { x: -2, y: -3 });
}

#[test]
fn center_point_of_the_widest_rect() {
    let rect = Rect::from_ltrb(i32::MIN, i32::MIN, i32::MAX, i32::MAX);
    assert_eq!(rect.center_point(), Point { x: -1, y: -1 });
    let turned = Rect::from_ltrb(i32::MAX, i32::MAX, i32::MIN, i32::MIN);
    assert_eq!(turned.center_point(), Point { x: 0, y: 0 });
}

#[test]
fn overlap_needs_more_than_a_shared_edge() {
    let a = Rect::from_xy(0, 0, 100, 100);
    assert!(a.has_overlap_x(&Rect::from_xy(99, 500, 10, 10)));
    assert!(!a.has_overlap_x(&Rect::from_xy(100, 0, 10, 10)));
    assert!(!a.has_overlap_x(&Rect::from_xy(-10, 0, 10, 10)));
    assert!(a.has_overlap_x(&Rect::from_xy(-10, 0, 11, 10)));
    assert!(a.has_overlap_y(&Rect::from_xy(500, 99, 10, 10)));
    assert!(!a.has_overlap_y(&Rect::from_xy(0, 100, 10, 10)));
    assert!(!a.has_overlap_y(&Rect::from_xy(0, -10, 10, 10)));
    assert!(a.has_overlap_y(&Rect::from_xy(0, -10, 10, 11)));
}

#[test]
fn overlap_is_symmetric() {
    let a = Rect::from_xy(0, 0, 100, 100);
    let b = Rect::from_xy(50, 200, 100, 100);
    assert_eq!(a.has_overlap_x(&b), b.has_overlap_x(&a));
    assert_eq!(a.has_overlap_y(&b), b.has_overlap_y(&a));
    assert!(a.has_overlap_x(&b));
    assert!(!a.has_overlap_y(&b));
}

#[test]
fn contains_point_includes_all_four_edges() {
    let rect = Rect::from_ltrb(10, 20, 30, 40);
    assert!(rect.contains_point(&Point { x: 10, y: 20 }));
    assert!(rect.contains_point(&Point { x: 30, y: 40 }));
    assert!(rect.contains_point(&Point { x: 30, y: 20 }));
    assert!(rect.contains_point(&Point { x: 15, y: 25 }));
    assert!(!rect.contains_point(&Point { x: 9, y: 25 }));
    assert!(!rect.contains_point(&Point { x: 31, y: 25 }));
    assert!(!rect.contains_point(&Point { x: 15, y: 19 }));
    assert!(!rect.contains_point(&Point { x: 15, y: 41 }));
}

#[test]
fn squared_distance_goes_to_the_farthest_corner() {
    let rect = Rect::from_xy(0, 0, 10, 10);
    assert_eq!(rect.squared_distance_to_point(&Point { x: 3, y: 4 }), 85);
    assert_eq!(rect.squared_distance_to_point(&Point { x: -5, y: 20 }), 625);
    assert_eq!(rect.squared_distance_to_point(&Point { x: 5, y: 5 }), 50);
}

#[test]
fn squared_distance_of_the_widest_rect() {
    let rect = Rect::from_ltrb(i32::MIN, i32::MIN, i32::MAX, i32::MAX);
    let corner = Point { x: i32::MAX, y: i32::MAX };
    assert_eq!(rect.squared_distance_to_point(&corner), 36893488130239234050u128);
}

#[test]
fn squared_distance_orders_as_the_distance_does() {
    let rect = Rect::from_xy(0, 0, 10, 10);
    let near = rect.squared_distance_to_point(&Point { x: 5, y: 5 });
    let far = rect.squared_distance_to_point(&Point { x: 50, y: 5 });
    assert!(near < far);
    assert!((near as f64).sqrt() < (far as f64).sqrt());
    assert_eq!((rect.squared_distance_to_point(&Point { x: -5, y: 20 }) as f64).sqrt(), 25.0);
}
