use arcaders::phi::data::from_pixels;
use arcaders::phi::data::half_of;
use arcaders::phi::data::magnitude;
use arcaders::phi::data::to_whole_pixels;
use arcaders::phi::data::MaybeAlive;
use arcaders::phi::data::PixelRect;
use arcaders::phi::data::Rectangle;

fn rect(x: i64, y: i64, w: i64, h: i64) -> Rectangle {
    Rectangle { x, y, w, h }
}

#[test]
fn as_option_keeps_the_living() {
    assert_eq!(MaybeAlive { alive: true, value: 7u8 }.as_option(), Some(7u8));
    assert_eq!(MaybeAlive { alive: false, value: 7u8 }.as_option(), None);
}

#[test]
fn overlap_is_symmetric() {
    let a = rect(0, 0, 10, 10);
    let b = rect(5, 5, 10, 10);
    let c = rect(30, 30, 1, 1);
    assert!(a.overlaps(b));
    assert!(b.overlaps(a));
    assert!(!a.overlaps(c));
    assert!(!c.overlaps(a));
}

#[test]
fn touching_edges_do_not_overlap() {
    let a = rect(0, 0, 10, 10);
    assert!(!a.overlaps(rect(10, 0, 10, 10)));
    assert!(!a.overlaps(rect(0, 10, 10, 10)));
    assert!(!a.overlaps(rect(-10, 0, 10, 10)));
    assert!(a.overlaps(rect(9, 9, 10, 10)));
}

#[test]
fn overlap_needs_both_axes() {
    let a = rect(0, 0, 10, 10);
    assert!(!a.overlaps(rect(5, 20, 10, 10)));
    assert!(!a.overlaps(rect(20, 5, 10, 10)));
}

#[test]
fn overlap_at_the_ends_of_the_range() {
    let a = rect(i64::MAX - 5, i64::MAX - 5, 10, 10);
    let b = rect(i64::MAX - 1, i64::MAX - 1, 10, 10);
    assert!(a.overlaps(b));
    assert!(!a.overlaps(rect(i64::MIN, i64::MIN, 10, 10)));
}

#[test]
fn a_rectangle_contains_itself() {
    let a = rect(-3, 4, 10, 20);
    assert!(a.contains(a));
    let point = rect(5, 5, 0, 0);
    assert!(point.contains(point));
}

#[test]
fn containment_includes_the_edges() {
    let parent = rect(0, 0, 10, 10);
    assert!(parent.contains(rect(5, 5, 5, 5)));
    assert!(parent.contains(rect(0, 0, 10, 10)));
    assert!(!parent.contains(rect(5, 5, 6, 5)));
    assert!(!parent.contains(rect(5, 5, 5, 6)));
    assert!(!parent.contains(rect(-1, 0, 5, 5)));
    assert!(!parent.contains(rect(0, -1, 5, 5)));
}

#[test]
fn move_inside_fails_for_a_larger_rectangle() {
    let parent = rect(0, 0, 10, 10);
    assert_eq!(rect(0, 0, 11, 5).move_inside(parent), None);
    assert_eq!(rect(0, 0, 5, 11).move_inside(parent), None);
    assert_eq!(rect(100, 100, 11, 11).move_inside(parent), None);
}

#[test]
fn move_inside_keeps_a_rectangle_that_is_inside() {
    let parent = rect(0, 0, 10, 10);
    let inside = rect(2, 3, 4, 5);
    assert_eq!(inside.move_inside(parent), Some(inside));
    let whole = rect(0, 0, 10, 10);
    assert_eq!(whole.move_inside(parent), Some(whole));
}

#[test]
fn move_inside_clamps_each_axis() {
    let parent = rect(10, 20, 100, 50);
    assert_eq!(rect(0, 30, 10, 10).move_inside(parent), Some(rect(10, 30, 10, 10)));
    assert_eq!(rect(200, 30, 10, 10).move_inside(parent), Some(rect(100, 30, 10, 10)));
    assert_eq!(rect(50, 0, 10, 10).move_inside(parent), Some(rect(50, 20, 10, 10)));
    assert_eq!(rect(50, 500, 10, 10).move_inside(parent), Some(rect(50, 60, 10, 10)));
    assert_eq!(rect(-5, 500, 10, 10).move_inside(parent), Some(rect(10, 60, 10, 10)));
}

#[test]
fn move_inside_result_is_contained_and_keeps_its_size() {
    let parent = rect(-50, -50, 100, 100);
    let starts = [rect(-500, 0, 30, 40), rect(500, 500, 100, 100), rect(0, 0, 0, 0), rect(49, 49, 2, 2)];
    for r in starts.iter() {
        let moved = r.move_inside(parent).unwrap();
        assert!(parent.contains(moved));
        assert_eq!(moved.w, r.w);
        assert_eq!(moved.h, r.h);
    }
}

#[test]
fn with_size_starts_at_the_origin() {
    assert_eq!(Rectangle::with_size(3, 4), rect(0, 0, 3, 4));
}

#[test]
fn center_lies_halfway() {
    assert_eq!(rect(0, 0, 10, 20).center(), (5, 10));
    assert_eq!(rect(-10, 5, 5, 1).center(), (-8, 5));
}

#[test]
fn center_at_moves_the_center() {
    let moved = rect(0, 0, 10, 20).center_at((100, 100));
    assert_eq!(moved, rect(95, 90, 10, 20));
    assert_eq!(moved.center(), (100, 100));
    let odd = rect(7, 7, 5, 3).center_at((-4, 9));
    assert_eq!(odd.center(), (-4, 9));
    assert_eq!((odd.w, odd.h), (5, 3));
}

#[test]
fn to_sdl_truncates_toward_zero() {
    let r = rect(1_500_000, -1_500_000, 8_000_000, 4_999_999);
    assert_eq!(r.to_sdl(), Some(PixelRect { x: 1, y: -1, w: 8, h: 4 }));
}

#[test]
fn to_sdl_gives_nothing_for_less_than_a_pixel() {
    assert_eq!(rect(0, 0, 999_999, 4_000_000).to_sdl(), None);
    assert_eq!(rect(0, 0, 4_000_000, 0).to_sdl(), None);
    assert!(rect(0, 0, 1_000_000, 1_000_000).to_sdl().is_some());
}

#[test]
fn pixels_and_units() {
    assert_eq!(from_pixels(800), 800_000_000);
    assert_eq!(from_pixels(0), 0);
    assert_eq!(from_pixels(u32::MAX), 4_294_967_295_000_000);
    assert_eq!(to_whole_pixels(2_999_999), 2);
    assert_eq!(to_whole_pixels(-2_999_999), -2);
    assert_eq!(to_whole_pixels(-1), 0);
    assert_eq!(to_whole_pixels(i64::MIN), -9_223_372_036_854);
    assert_eq!(to_whole_pixels(i64::MAX), 9_223_372_036_854);
}

#[test]
fn half_rounds_down() {
    assert_eq!(half_of(7), 3);
    assert_eq!(half_of(-7), -4);
    assert_eq!(half_of(-4), -2);
    assert_eq!(half_of(-1), -1);
    assert_eq!(half_of(0), 0);
    assert_eq!(half_of(i64::MIN), i64::MIN / 2);
    assert_eq!(half_of(i64::MAX), i64::MAX / 2);
}

#[test]
fn magnitude_of_every_value() {
    assert_eq!(magnitude(5), 5);
    assert_eq!(magnitude(-5), 5);
    assert_eq!(magnitude(0), 0);
    assert_eq!(magnitude(i64::MIN), 9_223_372_036_854_775_808);
}
