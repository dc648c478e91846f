use snake_game::field::Border;
use snake_game::food::{FOOD_AREA_HEIGHT, FOOD_AREA_WIDTH};
use snake_game::{
    accepts_food_position, choose_food_position, first_accepted, frame_rate, generate_borders,
    get_food_position, handle_food_collision, handle_input, handle_snake_collisions, hits_border,
    hits_tail, move_snake, move_tails, spawn_snake, within, Direction, Growth, Keys, MathHelper,
    Position, Snake, Tail,
};

fn p(x: i32, y: i32) -> Position {
    Position { x, y }
}

fn keys(up: bool, down: bool, left: bool, right: bool) -> Keys {
    Keys { up, down, left, right }
}

fn snake_with(tail: Vec<Position>) -> Snake {
    Snake { is_dead: false, length: tail.len() as i32, tail_positions: tail }
}

#[test]
fn round_floors_to_multiples_of_ten() {
    assert_eq!(MathHelper::round(375, 1), 370);
    assert_eq!(MathHelper::round(-375, 1), -380);
    assert_eq!(MathHelper::round(275, 1), 270);
    assert_eq!(MathHelper::round(-275, 1), -280);
    assert_eq!(MathHelper::round(40, 1), 40);
    assert_eq!(MathHelper::round(-40, 1), -40);
    assert_eq!(MathHelper::round(0, 1), 0);
}

#[test]
fn round_with_larger_unit() {
    assert_eq!(MathHelper::round(-1, 2), -20);
    assert_eq!(MathHelper::round(59, 3), 30);
    assert_eq!(MathHelper::round(i32::MIN, 1), -2147483650);
    assert_eq!(MathHelper::round(i32::MAX, 1), 2147483640);
}

#[test]
fn round_with_negative_unit_rounds_up() {
    assert_eq!(MathHelper::round(375, -1), 380);
    assert_eq!(MathHelper::round(-375, -1), -370);
    assert_eq!(MathHelper::round(40, -1), 40);
    assert_eq!(MathHelper::round(1, -2), 20);
    assert_eq!(MathHelper::round(-59, -3), -30);
    assert_eq!(MathHelper::round(5, i32::MIN), 21474836480);
    assert_eq!(MathHelper::round(i32::MIN, i32::MIN), 0);
}

#[test]
fn reverse_turn_is_ignored() {
    assert_eq!(Direction::Up.turn(Direction::Down), Direction::Up);
    assert_eq!(Direction::Down.turn(Direction::Up), Direction::Down);
    assert_eq!(Direction::Left.turn(Direction::Right), Direction::Left);
    assert_eq!(Direction::Right.turn(Direction::Left), Direction::Right);
}

#[test]
fn quarter_turns_are_taken() {
    assert_eq!(Direction::Up.turn(Direction::Left), Direction::Left);
    assert_eq!(Direction::Up.turn(Direction::Right), Direction::Right);
    assert_eq!(Direction::Left.turn(Direction::Down), Direction::Down);
    assert_eq!(Direction::Right.turn(Direction::Right), Direction::Right);
    assert_eq!(Direction::Left.opposite(), Direction::Right);
}

#[test]
fn single_keys_steer() {
    assert_eq!(handle_input(Direction::Up, keys(false, false, true, false)), Direction::Left);
    assert_eq!(handle_input(Direction::Up, keys(false, false, false, true)), Direction::Right);
    assert_eq!(handle_input(Direction::Left, keys(true, false, false, false)), Direction::Up);
    assert_eq!(handle_input(Direction::Left, keys(false, true, false, false)), Direction::Down);
    assert_eq!(handle_input(Direction::Up, keys(false, true, false, false)), Direction::Up);
    assert_eq!(handle_input(Direction::Left, keys(false, false, false, true)), Direction::Left);
    assert_eq!(handle_input(Direction::Down, keys(false, false, false, false)), Direction::Down);
}

#[test]
fn keys_apply_in_order() {
    // Up is taken, so down is then the reverse and ignored.
    assert_eq!(handle_input(Direction::Left, keys(true, true, false, false)), Direction::Up);
    // Left is taken, so right is then the reverse and ignored.
    assert_eq!(handle_input(Direction::Up, keys(false, false, true, true)), Direction::Left);
    assert_eq!(handle_input(Direction::Up, keys(true, true, true, true)), Direction::Left);
    assert_eq!(handle_input(Direction::Up, keys(false, true, true, false)), Direction::Left);
    assert_eq!(handle_input(Direction::Down, keys(true, false, false, true)), Direction::Right);
}

#[test]
fn two_quarter_turns_never_reverse() {
    // Taken in turn these keys would end on the reverse, so the heading stays.
    assert_eq!(handle_input(Direction::Right, keys(true, false, true, false)), Direction::Right);
    assert_eq!(handle_input(Direction::Left, keys(true, false, false, true)), Direction::Left);
    assert_eq!(handle_input(Direction::Left, keys(false, true, false, true)), Direction::Left);
    assert_eq!(handle_input(Direction::Right, keys(false, true, true, false)), Direction::Right);
    for start in [Direction::Up, Direction::Down, Direction::Left, Direction::Right] {
        for bits in 0..16u8 {
            let k = keys(bits & 1 != 0, bits & 2 != 0, bits & 4 != 0, bits & 8 != 0);
            assert_ne!(handle_input(start, k), start.opposite());
        }
    }
}

#[test]
fn same_keys_again_keep_the_heading() {
    for start in [Direction::Up, Direction::Down, Direction::Left, Direction::Right] {
        for bits in 0..16u8 {
            let k = keys(bits & 1 != 0, bits & 2 != 0, bits & 4 != 0, bits & 8 != 0);
            let once = handle_input(start, k);
            assert_eq!(handle_input(once, k), once);
        }
    }
}

#[test]
fn head_moves_one_step() {
    let mut snake = Snake::new();
    let mut head = p(0, 0);
    move_snake(&mut head, Direction::Up, &mut snake);
    assert_eq!(head, p(0, 10));
    move_snake(&mut head, Direction::Right, &mut snake);
    assert_eq!(head, p(10, 10));
    move_snake(&mut head, Direction::Down, &mut snake);
    assert_eq!(head, p(10, 0));
    move_snake(&mut head, Direction::Left, &mut snake);
    assert_eq!(head, p(0, 0));
    assert!(snake.tail_positions.is_empty());
    assert_eq!(snake.length, 0);
}

#[test]
fn tail_follows_the_head() {
    let mut snake = snake_with(vec![p(0, -10), p(0, -20), p(10, -20)]);
    let mut head = p(0, 0);
    move_snake(&mut head, Direction::Left, &mut snake);
    assert_eq!(head, p(-10, 0));
    assert_eq!(snake.tail_positions, vec![p(0, 0), p(0, -10), p(0, -20)]);
    move_snake(&mut head, Direction::Left, &mut snake);
    assert_eq!(snake.tail_positions, vec![p(-10, 0), p(0, 0), p(0, -10)]);
    assert_eq!(snake.length, 3);
    assert!(!snake.is_dead);
}

#[test]
fn drawn_segments_take_their_places() {
    let snake = snake_with(vec![p(1, 1), p(2, 2), p(3, 3)]);
    let tails = vec![Tail { length: 3 }, Tail { length: 1 }, Tail { length: 2 }];
    assert_eq!(move_tails(&snake, &tails), vec![p(3, 3), p(1, 1), p(2, 2)]);
    assert!(move_tails(&snake, &Vec::new()).is_empty());
}

#[test]
fn border_top_and_bottom() {
    assert!(!hits_border(p(0, 350)));
    assert!(hits_border(p(0, 360)));
    assert!(!hits_border(p(0, 357)));
    assert!(hits_border(p(0, 358)));
    assert!(!hits_border(p(0, -360)));
    assert!(hits_border(p(0, -370)));
    assert!(!hits_border(p(0, -367)));
    assert!(hits_border(p(0, -368)));
}

#[test]
fn border_left_and_right() {
    assert!(!hits_border(p(250, 0)));
    assert!(hits_border(p(260, 0)));
    assert!(!hits_border(p(-260, 0)));
    assert!(hits_border(p(-270, 0)));
    assert!(!hits_border(p(0, 0)));
}

#[test]
fn first_segment_never_bites() {
    let tail = vec![p(0, 0)];
    assert!(!hits_tail(p(0, 0), &tail));
    assert!(!hits_tail(p(0, 0), &Vec::new()));
}

#[test]
fn later_segments_bite_when_close() {
    let tail = vec![p(0, 0), p(50, 50), p(3, 4)];
    assert!(hits_tail(p(0, 0), &tail));
    assert!(!hits_tail(p(100, 100), &tail));
    // Exactly the threshold away is not a bite.
    let edge = vec![p(0, -10), p(0, 10)];
    assert!(!hits_tail(p(0, 0), &edge));
    let near = vec![p(0, -10), p(6, 7)];
    assert!(hits_tail(p(0, 0), &near));
}

#[test]
fn distance_check() {
    assert!(within(p(0, 0), p(3, 4), 6));
    assert!(!within(p(0, 0), p(3, 4), 5));
    assert!(!within(p(i32::MIN, i32::MIN), p(i32::MAX, i32::MAX), i32::MAX));
    assert!(!within(p(0, 0), p(0, 0), 0));
}

#[test]
fn collisions_kill_and_spare() {
    let mut snake = snake_with(vec![p(0, -10), p(0, 0)]);
    handle_snake_collisions(p(0, 0), &mut snake);
    assert!(snake.is_dead);

    let mut snake = snake_with(vec![p(0, -10), p(0, -20)]);
    handle_snake_collisions(p(0, 0), &mut snake);
    assert!(!snake.is_dead);
    handle_snake_collisions(p(0, 360), &mut snake);
    assert!(snake.is_dead);
    assert_eq!(snake.tail_positions, vec![p(0, -10), p(0, -20)]);
}

#[test]
fn food_spot_rules() {
    assert!(!accepts_food_position(p(0, 0), p(0, 0)));
    assert!(!accepts_food_position(p(30, 40), p(30, 40)));
    assert!(!accepts_food_position(p(0, 40), p(30, 40)));
    assert!(!accepts_food_position(p(30, 0), p(30, 40)));
    assert!(accepts_food_position(p(0, 5), p(0, 0)));
    assert!(accepts_food_position(p(30, 40), p(30, 50)));
    assert!(accepts_food_position(p(31, 40), p(30, 40)));
}

#[test]
fn first_accepted_draw_is_taken() {
    let head = p(30, 40);
    let draws = vec![p(30, 40), p(0, 0), p(30, 0), p(31, 40), p(50, 60)];
    assert_eq!(first_accepted(&draws, head), Some(p(31, 40)));
    assert_eq!(first_accepted(&vec![p(50, 60), p(31, 40)], head), Some(p(50, 60)));
    assert_eq!(first_accepted(&vec![p(30, 40), p(0, 40), p(0, 0)], head), None);
    assert_eq!(first_accepted(&Vec::new(), head), None);
}

#[test]
fn chosen_food_spot() {
    let head = p(30, 40);
    let draws = vec![p(30, 40), p(0, 0), p(31, 40), p(50, 60)];
    assert_eq!(choose_food_position(&draws, head), p(31, 40));
    // Every draw turned down: the bottom row's left edge.
    assert_eq!(choose_food_position(&vec![p(30, 40), p(0, 40)], head), p(-262, -362));
    assert_eq!(choose_food_position(&Vec::new(), head), p(-262, -362));
    // The head on the left edge: the right edge instead.
    assert_eq!(choose_food_position(&Vec::new(), p(-262, 0)), p(262, -362));
}

#[test]
fn food_lands_inside_and_off_the_head() {
    let head = p(0, 0);
    let mut seen = Vec::new();
    for _ in 0..500 {
        let f = get_food_position(head);
        assert!(-FOOD_AREA_WIDTH < 2 * f.x && 2 * f.x < FOOD_AREA_WIDTH);
        assert!(-FOOD_AREA_HEIGHT < 2 * f.y && 2 * f.y < FOOD_AREA_HEIGHT);
        assert!(accepts_food_position(f, head));
        assert_ne!(f, head);
        if !seen.contains(&f) {
            seen.push(f);
        }
    }
    assert!(seen.len() > 1);
}

#[test]
fn no_food_no_change() {
    let mut snake = snake_with(vec![p(0, -10)]);
    let mut food = p(100, 100);
    assert_eq!(handle_food_collision(p(0, 0), &mut snake, &mut food), None);
    assert_eq!(food, p(100, 100));
    assert_eq!(snake.length, 1);
    assert_eq!(snake.tail_positions, vec![p(0, -10)]);
    // Exactly a square away is not eating.
    let mut food = p(0, 25);
    assert_eq!(handle_food_collision(p(0, 0), &mut snake, &mut food), None);
    assert_eq!(food, p(0, 25));
}

#[test]
fn first_meal_grows_on_the_head() {
    let (mut snake, direction, head) = spawn_snake();
    assert_eq!(direction, Direction::Up);
    let mut food = p(0, 24);
    let growth = handle_food_collision(head, &mut snake, &mut food);
    assert_eq!(
        growth,
        Some(Growth { tail: Tail { length: 1 }, spawn_at: p(0, 0), frame_rate: 11 })
    );
    assert_eq!(snake.length, 1);
    assert_eq!(snake.tail_positions, vec![p(0, 0)]);
    assert!(accepts_food_position(food, head));
}

#[test]
fn later_meal_grows_on_the_last_segment() {
    let mut snake = snake_with(vec![p(0, -10), p(0, -20)]);
    let head = p(0, 0);
    let mut food = p(10, 10);
    let growth = handle_food_collision(head, &mut snake, &mut food);
    assert_eq!(
        growth,
        Some(Growth { tail: Tail { length: 3 }, spawn_at: p(0, -20), frame_rate: 13 })
    );
    assert_eq!(snake.tail_positions, vec![p(0, -10), p(0, -20), p(0, -20)]);
    assert_ne!(food, p(10, 10));
    assert!(accepts_food_position(food, head));
}

#[test]
fn start_of_game() {
    let (snake, direction, head) = spawn_snake();
    assert!(!snake.is_dead);
    assert_eq!(snake.length, 0);
    assert!(snake.tail_positions.is_empty());
    assert_eq!(direction, Direction::Up);
    assert_eq!(head, p(0, 0));
    assert_eq!(frame_rate(0), 10);
    assert_eq!(frame_rate(5), 15);
}

#[test]
fn four_walls() {
    assert_eq!(
        generate_borders(),
        vec![
            Border { center_x2: 0, center_y2: -775, width: 625, height: 25 },
            Border { center_x2: 0, center_y2: 775, width: 625, height: 25 },
            Border { center_x2: -575, center_y2: 0, width: 25, height: 825 },
            Border { center_x2: 575, center_y2: 0, width: 25, height: 825 },
        ]
    );
}
