use kernel_core::geometry::position::Point;
use kernel_core::geometry::rect::Rect;
use kernel_core::geometry::size::{Size, SizePointsIterator};

#[test]
fn test_rect_min_and_max() {
    let rect = Rect::from(2, 2, 3, 3);

    assert_eq!(rect.min_x(), 2);
    assert_eq!(rect.min_y(), 2);
    assert_eq!(rect.max_x(), 4);
    assert_eq!(rect.max_y(), 4);
}

#[test]
fn test_rect_contains() {
    let rect = Rect::from(2, 2, 3, 3);

    assert!(rect.contains(Point::new(2, 2)));
    assert!(rect.contains(Point::new(4, 2)));
    assert!(rect.contains(Point::new(2, 4)));
    assert!(rect.contains(Point::new(4, 4)));

    assert!(!rect.contains(Point::new(1, 1)));
    assert!(!rect.contains(Point::new(2, 1)));
    assert!(!rect.contains(Point::new(1, 2)));

    assert!(!rect.contains(Point::new(5, 4)));
    assert!(!rect.contains(Point::new(5, 5)));
    assert!(!rect.contains(Point::new(4, 5)));
}

#[test]
fn test_rect_corner() {
    let rect = Rect::from(2, 2, 3, 3);

    assert_eq!(rect.corner_upper_left(), Point::new(2, 2));
    assert_eq!(rect.corner_upper_right(), Point::new(4, 2));
    assert_eq!(rect.corner_lower_left(), Point::new(2, 4));
    assert_eq!(rect.corner_lower_right(), Point::new(4, 4));
}

#[test]
fn size_area() {
    assert_eq!(Size::new(3, 2).area(), 6);
    assert_eq!(Size::new(0, 7).area(), 0);
}

#[test]
fn size_points_row_major() {
    let pts = Size::new(2, 2).points();
    assert_eq!(
        pts,
        vec![Point::new(0, 0), Point::new(1, 0), Point::new(0, 1), Point::new(1, 1)]
    );
}

#[test]
fn size_points_iterator_walks_and_ends() {
    let mut it = SizePointsIterator::new(Size::new(2, 2));
    assert_eq!(it.next(), Some(Point::new(0, 0)));
    assert_eq!(it.next(), Some(Point::new(1, 0)));
    assert_eq!(it.next(), Some(Point::new(0, 1)));
    assert_eq!(it.next(), Some(Point::new(1, 1)));
    assert_eq!(it.next(), None);
    assert_eq!(it.next(), None);
}

#[test]
fn default_point_is_origin() {
    assert_eq!(Point::default(), Point::new(0, 0));
}
