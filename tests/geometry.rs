use spaceship::{screen_rect, Player, Point, Rect};

#[test]
fn point_new_clamps() {
    assert_eq!(Point::new(i32::MAX, i32::MIN), Point { x: 1073741823, y: -1073741824 });
    assert_eq!(Point::new(-7, 8), Point { x: -7, y: 8 });
}

#[test]
fn offset_adds_and_saturates() {
    assert_eq!(Point::new(3, 4).offset(-5, 10), Point { x: -2, y: 14 });
    assert_eq!(Point::new(1073741823, -1073741824).offset(i32::MAX, i32::MIN), Point { x: 1073741823, y: -1073741824 });
}

#[test]
fn rect_new_clamps_size() {
    let r = Rect::new(1, 2, 0, u32::MAX);
    assert_eq!(r, Rect { x: 1, y: 2, width: 1, height: 1073741823 });
}

#[test]
fn from_center_puts_corner_half_a_size_back() {
    assert_eq!(Rect::from_center(Point::new(10, 10), 4, 5), Rect { x: 8, y: 8, width: 4, height: 5 });
}

#[test]
fn ship_at_origin_is_drawn_at_canvas_centre() {
    let p = Player::new();
    assert_eq!(screen_rect(&p, 800, 600), Rect { x: 350, y: 250, width: 100, height: 100 });
}

#[test]
fn screen_rect_follows_the_position() {
    let mut p = Player::new();
    p.position = Point::new(-30, 45);
    assert_eq!(screen_rect(&p, 801, 601), Rect { x: 320, y: 295, width: 100, height: 100 });
}

#[test]
fn oversized_canvas_reads_as_negative() {
    let p = Player::new();
    let r = screen_rect(&p, u32::MAX, 600);
    assert_eq!(r.x, -50);
}
