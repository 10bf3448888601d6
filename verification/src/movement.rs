use vstd::prelude::*;

verus! {

/// One of the four arrow-key directions.
#[derive(Clone, Copy, Debug, PartialEq, Eq, Structural)]
pub enum Facing {
    Up,
    Down,
    Left,
    Right,
}

/// The arrow keys' contribution to one frame of hero movement.
#[derive(Clone, Copy, Debug, PartialEq, Eq, Structural)]
pub struct KeyboardMove {
    /// Horizontal direction: right minus left, in -1..=1.
    pub dx: i8,
    /// Vertical direction: up minus down, in -1..=1.
    pub dy: i8,
    /// The facing the keys set: the last of Up, Down, Left, Right that is
    /// held, or `None` when no arrow key is held.
    pub facing: Option<Facing>,
}

/// The arrow keys' contribution to one frame of hero movement. Keys are
/// read in the order Up, Down, Left, Right; each held key adds its unit
/// step and turns the hero its way, so of two held keys the later wins
/// the facing and opposite keys cancel in the direction.
pub fn keyboard_move(up: bool, down: bool, left: bool, right: bool) -> (m: KeyboardMove)
    ensures
        m.dx == (if right { 1int } else { 0 }) - (if left { 1int } else { 0 }),
        m.dy == (if up { 1int } else { 0 }) - (if down { 1int } else { 0 }),
        m.facing == if right {
            Some(Facing::Right)
        } else if left {
            Some(Facing::Left)
        } else if down {
            Some(Facing::Down)
        } else if up {
            Some(Facing::Up)
        } else {
            None
        },
{
    let mut dx: i8 = 0;
    let mut dy: i8 = 0;
    let mut facing: Option<Facing> = None;
    if up {
        dy = dy + 1;
        facing = Some(Facing::Up);
    }
    if down {
        dy = dy - 1;
        facing = Some(Facing::Down);
    }
    if left {
        dx = dx - 1;
        facing = Some(Facing::Left);
    }
    if right {
        dx = dx + 1;
        facing = Some(Facing::Right);
    }
    KeyboardMove { dx, dy, facing }
}

} // verus!
