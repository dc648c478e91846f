use crate::geometry::{Position, SQUARE_THICKNESS, WINDOW_HEIGHT, WINDOW_WIDTH};
use crate::helper::{round_to, MathHelper};
use vstd::arithmetic::div_mod::lemma_fundamental_div_mod_converse;
use vstd::prelude::*;

verus! {

/// The highest coordinate that the head's upper edge may stay below.
pub open spec fn top_limit() -> int {
    round_to(WINDOW_HEIGHT / 2 - SQUARE_THICKNESS, 1)
}

/// The lowest coordinate that the head's lower edge may stay above.
pub open spec fn bottom_limit() -> int {
    round_to(-(WINDOW_HEIGHT / 2 - SQUARE_THICKNESS), 1)
}

/// The rightmost coordinate that the head's right edge may stay left of.
pub open spec fn right_limit() -> int {
    round_to(WINDOW_WIDTH / 2 - SQUARE_THICKNESS, 1)
}

/// The leftmost coordinate that the head's left edge may stay right of.
pub open spec fn left_limit() -> int {
    round_to(-(WINDOW_WIDTH / 2 - SQUARE_THICKNESS), 1)
}

/// Whether a head centred on `p` reaches a border. The limits are the inner
/// edges of the borders, rounded down to a multiple of ten; the head reaches
/// one when its centre plus or minus half a square gets to it. Both sides are
/// doubled so that the half square stays whole.
pub open spec fn crosses_border(p: Position) -> bool {
    let s = SQUARE_THICKNESS as int;
    ||| 2 * p.y + s >= 2 * top_limit()
    ||| 2 * p.y - s <= 2 * bottom_limit()
    ||| 2 * p.x + s >= 2 * right_limit()
    ||| 2 * p.x - s <= 2 * left_limit()
}

/// Whether a head centred on `head` has run into one of the four borders.
pub fn hits_border(head: Position) -> (r: bool)
    ensures
        r == crosses_border(head),
{
    let s: i64 = SQUARE_THICKNESS as i64;
    let top = MathHelper::round(WINDOW_HEIGHT / 2 - SQUARE_THICKNESS, 1);
    let bottom = MathHelper::round(-(WINDOW_HEIGHT / 2 - SQUARE_THICKNESS), 1);
    let right = MathHelper::round(WINDOW_WIDTH / 2 - SQUARE_THICKNESS, 1);
    let left = MathHelper::round(-(WINDOW_WIDTH / 2 - SQUARE_THICKNESS), 1);
    let x: i64 = head.x as i64;
    let y: i64 = head.y as i64;
    let hit_vertical_border = 2 * y + s >= 2 * top || 2 * y - s <= 2 * bottom;
    let hit_horizontal_border = 2 * x + s >= 2 * right || 2 * x - s <= 2 * left;
    hit_vertical_border || hit_horizontal_border
}

/// On the grid the border rule comes to four thresholds, one per side: with
/// the limits at 370 and -380 vertically and 270 and -280 horizontally, a
/// head reaches the top from 358 up, the bottom from -368 down, the right
/// side from 258 up and the left side from -268 down.
pub proof fn lemma_border_thresholds(p: Position)
    ensures
        top_limit() == 370,
        bottom_limit() == -380,
        right_limit() == 270,
        left_limit() == -280,
        crosses_border(p) <==> (p.y >= 358 || p.y <= -368 || p.x >= 258 || p.x <= -268),
{
    assert(WINDOW_HEIGHT / 2 - SQUARE_THICKNESS == 375);
    assert(WINDOW_WIDTH / 2 - SQUARE_THICKNESS == 275);
    lemma_fundamental_div_mod_converse(375, 10, 37, 5);
    lemma_fundamental_div_mod_converse(-375, 10, -38, 5);
    lemma_fundamental_div_mod_converse(275, 10, 27, 5);
    lemma_fundamental_div_mod_converse(-275, 10, -28, 5);
}

/// One of the four walls round the field, as drawn. A wall's centre lies half
/// a unit off the grid, so its coordinates are kept doubled.
#[derive(Clone, Copy, Debug, PartialEq, Eq, Structural)]
pub struct Border {
    pub center_x2: i32,
    pub center_y2: i32,
    pub width: i32,
    pub height: i32,
}

/// The wall centred on doubled coordinates `(x2, y2)` with the given size.
pub open spec fn border_at(x2: int, y2: int, width: int, height: int) -> Border {
    Border { center_x2: x2 as i32, center_y2: y2 as i32, width: width as i32, height: height as i32 }
}

/// The four walls: a horizontal one at the bottom and at the top, each one
/// square wider than the field, then a vertical one at the left and at the
/// right, each one square taller; each lies half a square inside the field's
/// edge.
pub fn generate_borders() -> (r: Vec<Border>)
    ensures
        r@ == seq![
            border_at(0, -(WINDOW_HEIGHT - SQUARE_THICKNESS), WINDOW_WIDTH + SQUARE_THICKNESS, SQUARE_THICKNESS as int),
            border_at(0, WINDOW_HEIGHT - SQUARE_THICKNESS, WINDOW_WIDTH + SQUARE_THICKNESS, SQUARE_THICKNESS as int),
            border_at(-(WINDOW_WIDTH - SQUARE_THICKNESS), 0, SQUARE_THICKNESS as int, WINDOW_HEIGHT + SQUARE_THICKNESS),
            border_at(WINDOW_WIDTH - SQUARE_THICKNESS, 0, SQUARE_THICKNESS as int, WINDOW_HEIGHT + SQUARE_THICKNESS),
        ],
{
    let horizontal_width = WINDOW_WIDTH + SQUARE_THICKNESS;
    let vertical_height = WINDOW_HEIGHT + SQUARE_THICKNESS;
    let mut r: Vec<Border> = Vec::new();
    r.push(Border {
        center_x2: 0,
        center_y2: -(WINDOW_HEIGHT - SQUARE_THICKNESS),
        width: horizontal_width,
        height: SQUARE_THICKNESS,
    });
    r.push(Border {
        center_x2: 0,
        center_y2: WINDOW_HEIGHT - SQUARE_THICKNESS,
        width: horizontal_width,
        height: SQUARE_THICKNESS,
    });
    r.push(Border {
        center_x2: -(WINDOW_WIDTH - SQUARE_THICKNESS),
        center_y2: 0,
        width: SQUARE_THICKNESS,
        height: vertical_height,
    });
    r.push(Border {
        center_x2: WINDOW_WIDTH - SQUARE_THICKNESS,
        center_y2: 0,
        width: SQUARE_THICKNESS,
        height: vertical_height,
    });
    assert(r@ =~= seq![
        border_at(0, -(WINDOW_HEIGHT - SQUARE_THICKNESS), WINDOW_WIDTH + SQUARE_THICKNESS, SQUARE_THICKNESS as int),
        border_at(0, WINDOW_HEIGHT - SQUARE_THICKNESS, WINDOW_WIDTH + SQUARE_THICKNESS, SQUARE_THICKNESS as int),
        border_at(-(WINDOW_WIDTH - SQUARE_THICKNESS), 0, SQUARE_THICKNESS as int, WINDOW_HEIGHT + SQUARE_THICKNESS),
        border_at(WINDOW_WIDTH - SQUARE_THICKNESS, 0, SQUARE_THICKNESS as int, WINDOW_HEIGHT + SQUARE_THICKNESS),
    ]);
    r
}

} // verus!
