use sandlot::rect::{Point, Rect};

#[test]
fn point_new_and_zero() {
    let p = Point::new(3, -4);
    assert_eq!((p.x, p.y), (3, -4));
    assert_eq!(Point::<i32>::zero(), Point::new(0, 0));
}

#[test]
fn point_map_applies_to_both_coordinates() {
    let p = Point::new(3i32, -4i32).map(|v| v as i64 * 10);
    assert_eq!(p, Point::new(30i64, -40i64));
}

#[test]
fn point_mul_scales_both_coordinates() {
    let p = Point::new(3i32, -4i32) * 5;
    assert_eq!(p, Point::new(15, -20));
}

#[test]
fn point_order_is_by_x_then_y() {
    assert!(Point::new(1, 9) < Point::new(2, 0));
    assert!(Point::new(1, 2) < Point::new(1, 3));
}

#[test]
fn point_text_form() {
    assert_eq!(Point::new(3, -4).to_string(), "[3,-4]");
    assert_eq!(Point::new(0, 0).to_string(), "[0,0]");
    assert_eq!(Point::new(i32::MIN, i32::MAX).to_string(), "[-2147483648,2147483647]");
    assert_eq!(Point::new(1000, -10).to_string(), "[1000,-10]");
}

#[test]
fn rect_constructors() {
    let r = Rect::xywh(1, 2, 3, 4);
    assert_eq!(r, Rect::new(Point::new(1, 2), Point::new(3, 4)));
    assert_eq!(Rect::<i32>::xy(5, 6), Rect::xywh(5, 6, 0, 0));
    assert_eq!(Rect::<i32>::wh(7, 8), Rect::xywh(0, 0, 7, 8));
    assert_eq!(Rect::<i32>::zeroed(), Rect::xywh(0, 0, 0, 0));
}

#[test]
fn rect_map_applies_to_every_coordinate() {
    let r = Rect::xywh(1i32, 2, 3, 4).map(|v| v + 100);
    assert_eq!(r, Rect::xywh(101, 102, 103, 104));
}

#[test]
fn rect_text_form() {
    assert_eq!(Rect::xywh(1, 2, 3, 4).to_string(), "([1,2], 3x4)");
    assert_eq!(Rect::xywh(-5, 0, 640, 480).to_string(), "([-5,0], 640x480)");
}

#[test]
fn xy_and_wh_use_the_default_of_i32() {
    assert_eq!(Rect::<i32>::xy(5, -7), Rect::xywh(5, -7, 0, 0));
    assert_eq!(Rect::<i32>::wh(-3, 9), Rect::xywh(0, 0, -3, 9));
}
