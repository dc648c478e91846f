use crate::field::{crosses_border, hits_border};
use crate::food::{food_spot_ok, get_food_position, in_food_area};
use crate::geometry::{
    can_step, dist_sq, stepped, within, Direction, Position, SQUARE_THICKNESS, STEP,
};
use vstd::prelude::*;

verus! {

/// A head closer than this to a tail segment beyond the first one has bitten it.
pub const SELF_HIT_DISTANCE: i32 = 10;

/// Frames per second while the snake has no tail; each segment adds one.
pub const BASE_FRAME_RATE: i64 = 10;

/// The snake's state besides its head: whether it has died, how many tail
/// segments it has grown, and where they are, nearest the head first.
#[derive(Debug)]
pub struct Snake {
    pub is_dead: bool,
    pub length: i32,
    pub tail_positions: Vec<Position>,
}

/// A drawn tail segment; `length` is its place in the tail, counting from one
/// at the head.
#[derive(Clone, Copy, Debug, PartialEq, Eq, Structural)]
pub struct Tail {
    pub length: i32,
}

/// What eating a piece of food brings: the new segment, where it is first
/// drawn, and the frame rate that the game now runs at.
#[derive(Clone, Copy, Debug, PartialEq, Eq, Structural)]
pub struct Growth {
    pub tail: Tail,
    pub spawn_at: Position,
    pub frame_rate: i64,
}

impl Snake {
    /// The length counts the tail's segments.
    pub open spec fn wf(&self) -> bool {
        self.length >= 0 && self.length == self.tail_positions.len()
    }

    /// A live snake with no tail.
    pub fn new() -> (r: Snake)
        ensures
            r.wf(),
            !r.is_dead,
            r.length == 0,
            r.tail_positions@.len() == 0,
    {
        Snake { is_dead: false, length: 0, tail_positions: Vec::new() }
    }
}

/// The snake at the start of a game: no tail, heading up, head on the origin.
pub fn spawn_snake() -> (r: (Snake, Direction, Position))
    ensures
        r.0.wf(),
        !r.0.is_dead,
        r.0.length == 0,
        r.0.tail_positions@.len() == 0,
        r.1 == Direction::Up,
        r.2 == (Position { x: 0, y: 0 }),
{
    (Snake::new(), Direction::Up, Position { x: 0, y: 0 })
}

/// The tail one tick later: each segment takes the place its leader held,
/// and the first one the place `lead` (the head before it moved) held.
pub open spec fn follow(tail: Seq<Position>, lead: Position) -> Seq<Position> {
    Seq::new(tail.len(), |i: int| if i == 0 { lead } else { tail[i - 1] })
}

/// After a tick, segment `i` holds what segment `i - 1` held before it, and
/// the first segment holds where the head was; so every segment stands where
/// the head or another segment stood a tick earlier.
pub proof fn lemma_tail_follows(tail: Seq<Position>, lead: Position)
    ensures
        follow(tail, lead).len() == tail.len(),
        tail.len() > 0 ==> follow(tail, lead)[0] == lead,
        forall|i: int| 1 <= i < tail.len() ==> #[trigger] follow(tail, lead)[i] == tail[i - 1],
        forall|i: int|
            0 <= i < tail.len() ==> #[trigger] follow(tail, lead)[i] == lead || tail.contains(
                follow(tail, lead)[i],
            ),
{
    assert forall|i: int| 0 <= i < tail.len() implies #[trigger] follow(tail, lead)[i] == lead
        || tail.contains(follow(tail, lead)[i]) by {
        if i > 0 {
            assert(tail[i - 1] == follow(tail, lead)[i]);
        }
    }
}

/// Moves the head one step in `direction` and pulls the tail after it.
pub fn move_snake(head: &mut Position, direction: Direction, snake: &mut Snake)
    requires
        can_step(*old(head), direction),
    ensures
        (final(head).x as int, final(head).y as int) == stepped(*old(head), direction),
        final(snake).tail_positions@ == follow(old(snake).tail_positions@, *old(head)),
        final(snake).is_dead == old(snake).is_dead,
        final(snake).length == old(snake).length,
{
    let ghost lead = *head;
    let ghost tail0 = snake.tail_positions@;
    let mut previous: Position = *head;
    match direction {
        Direction::Up => head.y = head.y + STEP,
        Direction::Down => head.y = head.y - STEP,
        Direction::Left => head.x = head.x - STEP,
        Direction::Right => head.x = head.x + STEP,
    }
    let n = snake.tail_positions.len();
    let mut i: usize = 0;
    while i < n
        invariant
            n == snake.tail_positions@.len(),
            n == tail0.len(),
            i <= n,
            previous == (if i == 0 { lead } else { tail0[i - 1] }),
            forall|j: int| 0 <= j < i ==> snake.tail_positions@[j] == follow(tail0, lead)[j],
            forall|j: int| i <= j < n ==> snake.tail_positions@[j] == tail0[j],
            snake.is_dead == old(snake).is_dead,
            snake.length == old(snake).length,
        decreases n - i,
    {
        let current = snake.tail_positions[i];
        snake.tail_positions[i] = previous;
        previous = current;
        i = i + 1;
    }
    assert(snake.tail_positions@ =~= follow(tail0, lead));
}

/// Where each drawn segment goes: the position of the tail that its place names.
pub fn move_tails(snake: &Snake, tails: &Vec<Tail>) -> (r: Vec<Position>)
    requires
        forall|j: int|
            0 <= j < tails@.len() ==> 1 <= #[trigger] tails@[j].length
                <= snake.tail_positions@.len(),
    ensures
        r@.len() == tails@.len(),
        forall|j: int|
            0 <= j < tails@.len() ==> #[trigger] r@[j] == snake.tail_positions@[tails@[j].length
                - 1],
{
    let mut r: Vec<Position> = Vec::new();
    let mut j: usize = 0;
    while j < tails.len()
        invariant
            j <= tails@.len(),
            r@.len() == j,
            forall|k: int|
                0 <= k < tails@.len() ==> 1 <= #[trigger] tails@[k].length
                    <= snake.tail_positions@.len(),
            forall|k: int|
                0 <= k < j ==> #[trigger] r@[k] == snake.tail_positions@[tails@[k].length - 1],
        decreases tails@.len() - j,
    {
        let place = (tails[j].length - 1) as usize;
        r.push(snake.tail_positions[place]);
        j = j + 1;
    }
    r
}

/// Whether the head at `head` touches a segment of `tail` other than the
/// first, which always sits right behind it.
pub open spec fn bites_tail(head: Position, tail: Seq<Position>) -> bool {
    exists|i: int|
        1 <= i < tail.len() && #[trigger] dist_sq(head, tail[i]) < SELF_HIT_DISTANCE
            * SELF_HIT_DISTANCE
}

/// Whether the head has run into its own tail.
pub fn hits_tail(head: Position, tail: &Vec<Position>) -> (r: bool)
    ensures
        r == bites_tail(head, tail@),
{
    let n = tail.len();
    let mut i: usize = 1;
    while i < n
        invariant
            n == tail@.len(),
            1 <= i,
            forall|j: int|
                1 <= j < i && j < n ==> !(#[trigger] dist_sq(head, tail@[j]) < SELF_HIT_DISTANCE
                    * SELF_HIT_DISTANCE),
        decreases n - i,
    {
        if within(head, tail[i], SELF_HIT_DISTANCE) {
            return true;
        }
        i = i + 1;
    }
    false
}

/// Marks the snake dead exactly when its head reaches a border or bites its tail.
pub fn handle_snake_collisions(head: Position, snake: &mut Snake)
    ensures
        final(snake).is_dead == (crosses_border(head) || bites_tail(
            head,
            old(snake).tail_positions@,
        )),
        final(snake).length == old(snake).length,
        final(snake).tail_positions@ == old(snake).tail_positions@,
{
    let hit_border = hits_border(head);
    let hit_tail = hits_tail(head, &snake.tail_positions);
    snake.is_dead = hit_border || hit_tail;
}

/// The frame rate for a snake with `length` tail segments.
pub fn frame_rate(length: i32) -> (r: i64)
    ensures
        r == BASE_FRAME_RATE + length,
{
    BASE_FRAME_RATE + length as i64
}

/// Where a new segment starts: on the last one, or on the head when there is
/// no tail yet.
pub open spec fn grown_segment(tail: Seq<Position>, head: Position) -> Position {
    if tail.len() == 0 {
        head
    } else {
        tail.last()
    }
}

/// Whether the head at `head` is on the food at `food`.
pub open spec fn eats(head: Position, food: Position) -> bool {
    dist_sq(head, food) < SQUARE_THICKNESS * SQUARE_THICKNESS
}

/// When the head is on the food, moves the food to a new place, grows the
/// tail by one segment and reports the growth; otherwise changes nothing.
pub fn handle_food_collision(head: Position, snake: &mut Snake, food: &mut Position) -> (r:
    Option<Growth>)
    requires
        old(snake).length < i32::MAX,
    ensures
        r.is_some() == eats(head, *old(food)),
        r.is_none() ==> *final(snake) == *old(snake) && *final(food) == *old(food),
        r.is_some() ==> {
            &&& in_food_area(*final(food))
            &&& food_spot_ok(*final(food), head)
            &&& final(snake).is_dead == old(snake).is_dead
            &&& final(snake).length == old(snake).length + 1
            &&& final(snake).tail_positions@ == old(snake).tail_positions@.push(
                grown_segment(old(snake).tail_positions@, head),
            )
            &&& r == Some(
                Growth {
                    tail: Tail { length: (old(snake).length + 1) as i32 },
                    spawn_at: grown_segment(old(snake).tail_positions@, head),
                    frame_rate: (BASE_FRAME_RATE + old(snake).length + 1) as i64,
                },
            )
        },
{
    if !within(head, *food, SQUARE_THICKNESS) {
        return None;
    }
    *food = get_food_position(head);
    snake.length = snake.length + 1;
    let n = snake.tail_positions.len();
    let spawn_at = if n == 0 {
        head
    } else {
        snake.tail_positions[n - 1]
    };
    snake.tail_positions.push(spawn_at);
    Some(
        Growth {
            tail: Tail { length: snake.length },
            spawn_at,
            frame_rate: frame_rate(snake.length),
        },
    )
}

} // verus!
