use debug_ui::geometry::{Color, Point, Rect, Size};
use pathfinder_geometry::rect::RectI;
use pathfinder_geometry::vector::Vector2I;

#[test]
fn rect_from_origin_and_size() {
    let rect = Rect::new(Point::new(3, 5), Point::new(10, 20));
    assert_eq!(rect.origin(), Point::new(3, 5));
    assert_eq!(rect.upper_right(), Point::new(13, 5));
    assert_eq!(rect.lower_right(), Point::new(13, 25));
    assert_eq!(rect.lower_left(), Point::new(3, 25));
    assert_eq!(rect.min_x(), 3);
    assert_eq!(rect.min_y(), 5);
}

#[test]
fn rect_with_negative_origin() {
    let rect = Rect::new(Point::new(0, -20), Point::new(10, 20));
    assert_eq!(rect.origin(), Point::new(0, -20));
    assert_eq!(rect.lower_right(), Point::new(10, 0));
}

#[test]
fn empty_rect_has_all_corners_at_its_origin() {
    let rect = Rect::new(Point::new(7, 9), Point::new(0, 0));
    assert_eq!(rect.upper_right(), Point::new(7, 9));
    assert_eq!(rect.lower_right(), Point::new(7, 9));
    assert_eq!(rect.lower_left(), Point::new(7, 9));
}

#[test]
fn rect_corner_past_the_range_is_narrowed() {
    let rect = Rect::new(Point::new(i32::MAX, i32::MIN), Point::new(1, -1));
    assert_eq!(rect.lower_right(), Point::new(i32::MIN, i32::MAX));
    assert_eq!(rect.origin(), Point::new(i32::MAX, i32::MIN));
}

#[test]
fn size_read_as_a_point() {
    assert_eq!(Size::new(256, 128).to_point(), Point::new(256, 128));
    assert_eq!(Size::new(u32::MAX, 0x8000_0000).to_point(), Point::new(-1, i32::MIN));
}

#[test]
fn plain_values_keep_their_fields() {
    let color = Color { r: 1, g: 2, b: 3, a: 4 };
    assert_eq!((color.r, color.g, color.b, color.a), (1, 2, 3, 4));
    let size = Size::new(640, 480);
    assert_eq!((size.width, size.height), (640, 480));
    let point = Point::new(-4, 9);
    assert_eq!((point.x, point.y), (-4, 9));
}

#[test]
fn corners_agree_with_pathfinder_geometry() {
    let cases = [
        (0, 0, 0, 0),
        (3, 5, 10, 20),
        (0, -20, 10, 20),
        (-100, -200, 50, 75),
        (488, 490, 300, 98),
        (32_000, -32_000, 767, 1_000),
        (1_000_000, 2_000_000, 3_000_000, 4_000_000),
    ];
    for (x, y, width, height) in cases {
        let ours = Rect::new(Point::new(x, y), Point::new(width, height));
        let theirs = RectI::new(Vector2I::new(x, y), Vector2I::new(width, height));
        let pairs = [
            (ours.origin(), theirs.origin()),
            (ours.upper_right(), theirs.upper_right()),
            (ours.lower_right(), theirs.lower_right()),
            (ours.lower_left(), theirs.lower_left()),
        ];
        for (our_corner, their_corner) in pairs {
            assert_eq!(our_corner.x, their_corner.x());
            assert_eq!(our_corner.y, their_corner.y());
        }
        assert_eq!(ours.min_x(), theirs.min_x());
        assert_eq!(ours.min_y(), theirs.min_y());
    }
}
