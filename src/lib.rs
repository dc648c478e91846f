//! A Snake game's rules on an integer grid: turning, moving the head and the
//! tail that follows it, collisions with the borders, the tail and the food,
//! and where new food appears.

pub mod field;
pub mod food;
pub mod geometry;
pub mod helper;
pub mod snake;

pub use field::{generate_borders, hits_border, Border};
pub use food::{accepts_food_position, choose_food_position, first_accepted, get_food_position};
pub use geometry::{
    handle_input, within, Direction, Keys, Position, SQUARE_THICKNESS, STEP, WINDOW_HEIGHT,
    WINDOW_WIDTH,
};
pub use helper::MathHelper;
pub use snake::{
    frame_rate, handle_food_collision, handle_snake_collisions, hits_tail, move_snake, move_tails,
    spawn_snake, Growth, Snake, Tail,
};
