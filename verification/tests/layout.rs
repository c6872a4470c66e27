use fpvsetup::layout::{Position, Rect, Size};
use fpvsetup::repack::Repack;

#[test]
fn position_and_size_give_their_parts() {
    let p = Position(3, -4);
    assert_eq!(p.x(), 3);
    assert_eq!(p.y(), -4);
    let s = Size(640, 480);
    assert_eq!(s.w(), 640);
    assert_eq!(s.h(), 480);
}

#[test]
fn rect_gives_its_parts() {
    let r = Rect(Position(1, 2), Size(30, 40));
    assert_eq!(r.pos(), Position(1, 2));
    assert_eq!(r.size(), Size(30, 40));
    assert_eq!(r.x(), 1);
    assert_eq!(r.y(), 2);
    assert_eq!(r.w(), 30);
    assert_eq!(r.h(), 40);
}

#[test]
fn to_right_starts_past_the_right_edge() {
    let r = Rect(Position(7, 7), Size(96, 17));
    assert_eq!(r.to_right(5), Position(108, 7));
    assert_eq!(r.to_right(0), Position(103, 7));
    assert_eq!(r.to_right(-3), Position(100, 7));
}

#[test]
fn to_bottom_starts_past_the_bottom_edge() {
    let r = Rect(Position(7, 7), Size(96, 17));
    assert_eq!(r.to_bottom(10), Position(7, 34));
    assert_eq!(r.to_bottom(0), Position(7, 24));
}

#[test]
fn with_added_pos_moves_and_keeps_the_size() {
    let r = Rect(Position(7, 7), Size(96, 17));
    assert_eq!(r.with_added_pos(Position(100, -7)), Rect(Position(107, 0), Size(96, 17)));
    assert_eq!(r.with_added_pos(Position(0, 0)), r);
}

#[test]
fn with_added_size_grows_and_keeps_the_corner() {
    let r = Rect(Position(7, 7), Size(96, 17));
    assert_eq!(r.with_added_size(Size(4, 3)), Rect(Position(7, 7), Size(100, 20)));
}

#[test]
fn positions_and_sizes_add_part_by_part() {
    assert_eq!(Position(1, 2) + Position(10, 20), Position(11, 22));
    assert_eq!(Position(1, 2) + Size(10, 20), Position(11, 22));
    assert_eq!(Size(1, 2) + Size(10, 20), Size(11, 22));
    assert_eq!(Position(i32::MAX - 1, i32::MIN + 1) + Position(1, -1), Position(i32::MAX, i32::MIN));
}

#[test]
fn add_assign_agrees_with_add() {
    let mut p = Position(1, 2);
    p += Position(10, 20);
    assert_eq!(p, Position(11, 22));
    p += Size(5, 6);
    assert_eq!(p, Position(16, 28));
    let mut s = Size(1, 2);
    s += Size(10, 20);
    assert_eq!(s, Size(11, 22));
}

#[test]
fn repack_keeps_order() {
    let a: [i32; 2] = (3, 4).repack();
    assert_eq!(a, [3, 4]);
    let t: (i32, i32) = [3, 4].repack();
    assert_eq!(t, (3, 4));
    let s: Size = (3, 4).repack();
    assert_eq!(s, Size(3, 4));
    let p: Position = (3, 4).repack();
    assert_eq!(p, Position(3, 4));
    let back: (i32, i32) = Position(5, 6).repack();
    assert_eq!(back, (5, 6));
    let back: (i32, i32) = Size(7, 8).repack();
    assert_eq!(back, (7, 8));
}

#[test]
fn repack_of_other_items_than_numbers() {
    let a: [&str; 2] = ("left", "right").repack();
    assert_eq!(a, ["left", "right"]);
}
