use vstd::prelude::*;

verus! {

/// Width of the play field, in world units.
pub const WINDOW_WIDTH: i32 = 600;

/// Height of the play field, in world units.
pub const WINDOW_HEIGHT: i32 = 800;

/// Side of one square: the head, a tail segment, a piece of food, a border's thickness.
pub const SQUARE_THICKNESS: i32 = 25;

/// How far the head moves in one tick.
pub const STEP: i32 = 10;

/// A point of the field; the field is centred on the origin.
#[derive(Clone, Copy, Debug, PartialEq, Eq, Structural)]
pub struct Position {
    pub x: i32,
    pub y: i32,
}

/// Squared Euclidean distance between two points.
pub open spec fn dist_sq(a: Position, b: Position) -> int {
    (a.x - b.x) * (a.x - b.x) + (a.y - b.y) * (a.y - b.y)
}

/// Whether the distance from `a` to `b` is less than `range`.
pub fn within(a: Position, b: Position, range: i32) -> (r: bool)
    requires
        range >= 0,
    ensures
        r == (dist_sq(a, b) < range * range),
{
    let dx: i128 = a.x as i128 - b.x as i128;
    let dy: i128 = a.y as i128 - b.y as i128;
    assert(0 <= dx * dx <= 0x1_0000_0000_0000_0000) by (nonlinear_arith)
        requires
            -0x1_0000_0000 <= dx <= 0x1_0000_0000,
    ;
    assert(0 <= dy * dy <= 0x1_0000_0000_0000_0000) by (nonlinear_arith)
        requires
            -0x1_0000_0000 <= dy <= 0x1_0000_0000,
    ;
    assert(0 <= range * range <= 0x1_0000_0000_0000_0000) by (nonlinear_arith)
        requires
            0 <= range <= 0x1_0000_0000,
    ;
    let rr: i128 = range as i128 * range as i128;
    dx * dx + dy * dy < rr
}

/// Where the head is heading.
#[derive(Clone, Copy, Debug, PartialEq, Eq, Structural)]
pub enum Direction {
    Up,
    Down,
    Left,
    Right,
}

/// The direction pointing the other way.
pub open spec fn opposite(d: Direction) -> Direction {
    match d {
        Direction::Up => Direction::Down,
        Direction::Down => Direction::Up,
        Direction::Left => Direction::Right,
        Direction::Right => Direction::Left,
    }
}

/// The direction after asking for `requested`: a request for the reverse of
/// `current` is ignored.
pub open spec fn turned(current: Direction, requested: Direction) -> Direction {
    if requested == opposite(current) {
        current
    } else {
        requested
    }
}

/// Where one step from `p` in direction `d` leads.
pub open spec fn stepped(p: Position, d: Direction) -> (int, int) {
    match d {
        Direction::Up => (p.x as int, p.y + STEP),
        Direction::Down => (p.x as int, p.y - STEP),
        Direction::Left => (p.x - STEP, p.y as int),
        Direction::Right => (p.x + STEP, p.y as int),
    }
}

/// Whether one step from `p` in direction `d` stays within the coordinate range.
pub open spec fn can_step(p: Position, d: Direction) -> bool {
    let (x, y) = stepped(p, d);
    i32::MIN <= x <= i32::MAX && i32::MIN <= y <= i32::MAX
}

impl Direction {
    /// The direction pointing the other way.
    pub fn opposite(self) -> (r: Direction)
        ensures
            r == opposite(self),
    {
        match self {
            Direction::Up => Direction::Down,
            Direction::Down => Direction::Up,
            Direction::Left => Direction::Right,
            Direction::Right => Direction::Left,
        }
    }

    /// Turns towards `requested`, unless that would reverse the heading.
    pub fn turn(self, requested: Direction) -> (r: Direction)
        ensures
            r == turned(self, requested),
    {
        if requested == self.opposite() {
            self
        } else {
            requested
        }
    }
}

/// Turning is never a reversal: asking for the opposite heading keeps the current one.
pub proof fn lemma_reverse_request_ignored(d: Direction)
    ensures
        turned(d, opposite(d)) == d,
        turned(d, opposite(d)) != opposite(d),
{
}

/// Every turn leads either to the requested heading or keeps the current one,
/// and never to the reverse of the current one.
pub proof fn lemma_turn_never_reverses(d: Direction, requested: Direction)
    ensures
        turned(d, requested) != opposite(d),
        turned(d, requested) == requested || turned(d, requested) == d,
{
}

/// Which of the four steering keys are held down during a tick.
#[derive(Clone, Copy, Debug, PartialEq, Eq, Structural)]
pub struct Keys {
    pub up: bool,
    pub down: bool,
    pub left: bool,
    pub right: bool,
}

/// Turns for one key if it is held.
pub open spec fn turned_if(d: Direction, held: bool, requested: Direction) -> Direction {
    if held {
        turned(d, requested)
    } else {
        d
    }
}

/// The keys taken in turn: up, down, left, right, each held one turning from
/// the heading that the earlier keys left.
pub open spec fn keys_in_turn(d: Direction, k: Keys) -> Direction {
    let d1 = turned_if(d, k.up, Direction::Up);
    let d2 = turned_if(d1, k.down, Direction::Down);
    let d3 = turned_if(d2, k.left, Direction::Left);
    turned_if(d3, k.right, Direction::Right)
}

/// The heading after a tick's keys: the keys taken in turn, unless together
/// they would reverse the heading the tick began with; then it stays.
pub open spec fn steered(start: Direction, k: Keys) -> Direction {
    if keys_in_turn(start, k) == opposite(start) {
        start
    } else {
        keys_in_turn(start, k)
    }
}

/// Applies the keys held during a tick to the heading.
pub fn handle_input(direction: Direction, keys: Keys) -> (r: Direction)
    ensures
        r == steered(direction, keys),
        r != opposite(direction),
{
    let mut d = direction;
    if keys.up {
        d = d.turn(Direction::Up);
    }
    if keys.down {
        d = d.turn(Direction::Down);
    }
    if keys.left {
        d = d.turn(Direction::Left);
    }
    if keys.right {
        d = d.turn(Direction::Right);
    }
    if d == direction.opposite() {
        direction
    } else {
        d
    }
}

/// Whatever keys are held, a tick never reverses the heading: it ends on the
/// heading it began with or on one whose key was held.
pub proof fn lemma_steering_never_reverses(d: Direction, k: Keys)
    ensures
        steered(d, k) != opposite(d),
        steered(d, k) == d || (steered(d, k) == Direction::Up && k.up) || (steered(d, k)
            == Direction::Down && k.down) || (steered(d, k) == Direction::Left && k.left) || (
        steered(d, k) == Direction::Right && k.right),
{
}

/// Holding the same keys for another tick changes nothing: the heading one
/// tick gives is kept by the next.
pub proof fn lemma_steering_settles(d: Direction, k: Keys)
    ensures
        steered(steered(d, k), k) == steered(d, k),
{
}

} // verus!
