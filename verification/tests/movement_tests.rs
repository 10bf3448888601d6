use yulaven::movement::{keyboard_move, Facing};

#[test]
fn arrow_keys() {
    let m = keyboard_move(true, false, false, false);
    assert_eq!((m.dx, m.dy, m.facing), (0, 1, Some(Facing::Up)));
    let m = keyboard_move(true, true, false, false);
    assert_eq!((m.dx, m.dy, m.facing), (0, 0, Some(Facing::Down)));
    let m = keyboard_move(true, false, true, false);
    assert_eq!((m.dx, m.dy, m.facing), (-1, 1, Some(Facing::Left)));
    let m = keyboard_move(false, true, true, true);
    assert_eq!((m.dx, m.dy, m.facing), (0, -1, Some(Facing::Right)));
    let m = keyboard_move(false, false, false, false);
    assert_eq!((m.dx, m.dy, m.facing), (0, 0, None));
}
