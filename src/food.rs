use crate::geometry::{Position, SQUARE_THICKNESS, WINDOW_HEIGHT, WINDOW_WIDTH};
use rand::Rng;
use vstd::prelude::*;

verus! {

/// Width of the band in which food may appear: the field less three squares.
pub const FOOD_AREA_WIDTH: i32 = WINDOW_WIDTH - SQUARE_THICKNESS * 3;

/// Height of the band in which food may appear: the field less three squares.
pub const FOOD_AREA_HEIGHT: i32 = WINDOW_HEIGHT - SQUARE_THICKNESS * 3;

/// How many points are drawn before the search settles on a fixed spot.
pub const FOOD_DRAW_LIMIT: u32 = 64;

/// Whether `p` lies strictly inside the centred rectangle where food may appear.
pub open spec fn in_food_area(p: Position) -> bool {
    &&& -FOOD_AREA_WIDTH < 2 * p.x < FOOD_AREA_WIDTH
    &&& -FOOD_AREA_HEIGHT < 2 * p.y < FOOD_AREA_HEIGHT
}

/// Whether food may be placed at `c` while the head is at `head`: a point is
/// turned down only when, on each axis, it lies on the head's line or on the
/// centre line.
pub open spec fn food_spot_ok(c: Position, head: Position) -> bool {
    !((c.x == head.x || c.x == 0) && (c.y == head.y || c.y == 0))
}

/// Relies on rand's `thread_rng().gen_range(low..high)`: a value drawn from
/// `[low, high)`. It panics on an empty range, which `requires` leaves out.
#[verifier::external_body]
fn random_in(low: i32, high: i32) -> (r: i32)
    requires
        low < high,
    ensures
        low <= r < high,
{
    rand::thread_rng().gen_range(low..high)
}

/// Whether a drawn point may take the food.
pub fn accepts_food_position(candidate: Position, head: Position) -> (r: bool)
    ensures
        r == food_spot_ok(candidate, head),
{
    !((candidate.x == head.x || candidate.x == 0) && (candidate.y == head.y || candidate.y == 0))
}

/// The first of `candidates` that may take the food while the head is at
/// `head`, or `None` when each is turned down.
pub fn first_accepted(candidates: &Vec<Position>, head: Position) -> (r: Option<Position>)
    ensures
        r matches None ==> forall|i: int|
            0 <= i < candidates@.len() ==> !food_spot_ok(#[trigger] candidates@[i], head),
        r matches Some(p) ==> exists|j: int|
            0 <= j < candidates@.len() && candidates@[j] == p && food_spot_ok(p, head) && forall|
                i: int,
            | 0 <= i < j ==> !food_spot_ok(#[trigger] candidates@[i], head),
{
    let mut i: usize = 0;
    while i < candidates.len()
        invariant
            i <= candidates@.len(),
            forall|k: int| 0 <= k < i ==> !food_spot_ok(#[trigger] candidates@[k], head),
        decreases candidates@.len() - i,
    {
        if accepts_food_position(candidates[i], head) {
            return Some(candidates[i]);
        }
        i = i + 1;
    }
    None
}

/// Where the food goes when every draw was turned down: the food area's
/// left edge on its bottom row, or its right edge when the head stands on the
/// left one.
pub open spec fn fallback_spot(head: Position) -> Position {
    let x_low = -(FOOD_AREA_WIDTH / 2);
    Position {
        x: if head.x == x_low { (FOOD_AREA_WIDTH / 2) as i32 } else { x_low as i32 },
        y: -(FOOD_AREA_HEIGHT / 2) as i32,
    }
}

/// Where the food goes given the points drawn for it: the first accepted one,
/// or the fallback spot when each is turned down.
pub fn choose_food_position(draws: &Vec<Position>, head: Position) -> (r: Position)
    ensures
        (forall|i: int| 0 <= i < draws@.len() ==> !food_spot_ok(#[trigger] draws@[i], head))
            ==> r == fallback_spot(head),
        (exists|i: int| 0 <= i < draws@.len() && food_spot_ok(#[trigger] draws@[i], head))
            ==> exists|j: int|
            0 <= j < draws@.len() && draws@[j] == r && food_spot_ok(r, head) && forall|i: int|
                0 <= i < j ==> !food_spot_ok(#[trigger] draws@[i], head),
        food_spot_ok(r, head),
        (forall|i: int| 0 <= i < draws@.len() ==> in_food_area(#[trigger] draws@[i]))
            ==> in_food_area(r),
{
    match first_accepted(draws, head) {
        Some(p) => p,
        None => {
            let x_low: i32 = -(FOOD_AREA_WIDTH / 2);
            let x = if head.x == x_low {
                FOOD_AREA_WIDTH / 2
            } else {
                x_low
            };
            Position { x, y: -(FOOD_AREA_HEIGHT / 2) }
        },
    }
}

/// Picks a new place for the food: draws `FOOD_DRAW_LIMIT` random points
/// inside the food area and takes the first accepted one, or the fallback
/// spot should every one be turned down. Drawing stops at the limit so that
/// the search ends; with the area's size, all of them being turned down
/// cannot be told from never.
pub fn get_food_position(head: Position) -> (r: Position)
    ensures
        in_food_area(r),
        food_spot_ok(r, head),
{
    let x_low: i32 = -(FOOD_AREA_WIDTH / 2);
    let x_high: i32 = FOOD_AREA_WIDTH / 2 + 1;
    let y_low: i32 = -(FOOD_AREA_HEIGHT / 2);
    let y_high: i32 = FOOD_AREA_HEIGHT / 2 + 1;
    let mut draws: Vec<Position> = Vec::new();
    let mut attempts: u32 = 0;
    while attempts < FOOD_DRAW_LIMIT
        invariant
            attempts <= FOOD_DRAW_LIMIT,
            x_low == -(FOOD_AREA_WIDTH / 2),
            x_high == FOOD_AREA_WIDTH / 2 + 1,
            y_low == -(FOOD_AREA_HEIGHT / 2),
            y_high == FOOD_AREA_HEIGHT / 2 + 1,
            forall|k: int| 0 <= k < draws@.len() ==> in_food_area(#[trigger] draws@[k]),
        decreases FOOD_DRAW_LIMIT - attempts,
    {
        let x = random_in(x_low, x_high);
        let y = random_in(y_low, y_high);
        draws.push(Position { x, y });
        attempts = attempts + 1;
    }
    choose_food_position(&draws, head)
}

/// A relocated piece of food never lands on the head: it differs from the
/// head's position on at least one axis.
pub proof fn lemma_food_spot_leaves_head(c: Position, head: Position)
    requires
        food_spot_ok(c, head),
    ensures
        c.x != head.x || c.y != head.y,
        c != head,
{
}

} // verus!
