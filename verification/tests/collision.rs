use snake_for_eating::{
    DirectionKeys, Game, LastTailPosition, Position, SnakeMoveDirection, SnakeSegment,
    SnakeSegments, FOOD_SPAWN_NANOS, SNAKE_TICK_NANOS,
};

fn pos(x: i32, y: i32) -> Position {
    Position { x, y }
}

fn snake(cells: &[(i32, i32)]) -> SnakeSegments {
    SnakeSegments(cells.iter().map(|&(x, y)| SnakeSegment { position: pos(x, y) }).collect())
}

fn cells(game: &Game) -> Vec<(i32, i32)> {
    game.segments().0.iter().map(|s| (s.position.x, s.position.y)).collect()
}

fn key(direction: SnakeMoveDirection) -> DirectionKeys {
    DirectionKeys {
        left: direction == SnakeMoveDirection::Left,
        right: direction == SnakeMoveDirection::Right,
        up: direction == SnakeMoveDirection::Up,
        down: direction == SnakeMoveDirection::Down,
    }
}

fn going(cells: &[(i32, i32)], direction: SnakeMoveDirection) -> Game {
    let mut game = Game::with_segments(snake(cells)).unwrap();
    game.snake_movement_input(key(direction));
    game
}

#[test]
fn leaving_on_the_left_ends_the_run() {
    for y in 0..10 {
        let mut game = going(&[(0, y), (1, y)], SnakeMoveDirection::Left);
        game.snake_movement(SNAKE_TICK_NANOS);
        assert!(game.game_over_event().is_some());
        assert_eq!(cells(&game), vec![(-1, y), (0, y)]);
    }
}

#[test]
fn leaving_on_the_right_ends_the_run() {
    let mut game = going(&[(9, 4), (8, 4)], SnakeMoveDirection::Right);
    game.snake_movement(SNAKE_TICK_NANOS);
    assert!(game.game_over_event().is_some());
    assert_eq!(cells(&game), vec![(10, 4), (9, 4)]);
}

#[test]
fn leaving_at_the_top_ends_the_run() {
    let mut game = going(&[(4, 9), (4, 8)], SnakeMoveDirection::Up);
    game.snake_movement(SNAKE_TICK_NANOS);
    assert!(game.game_over_event().is_some());
    assert_eq!(cells(&game), vec![(4, 10), (4, 9)]);
}

#[test]
fn leaving_at_the_bottom_ends_the_run() {
    let mut game = going(&[(4, 0), (4, 1)], SnakeMoveDirection::Down);
    game.snake_movement(SNAKE_TICK_NANOS);
    assert!(game.game_over_event().is_some());
    assert_eq!(cells(&game), vec![(4, -1), (4, 0)]);
}

#[test]
fn a_step_to_the_edge_does_not_end_the_run() {
    let mut game = going(&[(1, 0), (2, 0)], SnakeMoveDirection::Left);
    game.snake_movement(SNAKE_TICK_NANOS);
    assert!(game.game_over_event().is_none());
    assert_eq!(cells(&game), vec![(0, 0), (1, 0)]);
    let mut game = going(&[(8, 9), (7, 9)], SnakeMoveDirection::Right);
    game.snake_movement(SNAKE_TICK_NANOS);
    assert!(game.game_over_event().is_none());
    assert_eq!(cells(&game), vec![(9, 9), (8, 9)]);
}

#[test]
fn the_restart_after_leaving_puts_the_starting_snake_in_place() {
    let mut game = going(&[(0, 6), (1, 6), (2, 6)], SnakeMoveDirection::Left);
    game.snake_movement(SNAKE_TICK_NANOS);
    assert!(game.game_over_event().is_some());
    game.game_over();
    assert!(game.game_over_event().is_none());
    assert_eq!(cells(&game), vec![(3, 3), (3, 2)]);
    assert_eq!(game.head().direction, SnakeMoveDirection::Init);
}

#[test]
fn a_frame_in_which_the_run_ends_ends_with_the_starting_snake() {
    let mut game = Game::with_segments(snake(&[(0, 6), (1, 6), (2, 6)])).unwrap();
    game.update(key(SnakeMoveDirection::Left), SNAKE_TICK_NANOS, pos(5, 5));
    assert_eq!(cells(&game), vec![(3, 3), (3, 2)]);
    assert_eq!(game.head().direction, SnakeMoveDirection::Init);
    assert!(game.game_over_event().is_none());
    // The next frames leave the new snake where it is.
    game.update(DirectionKeys::none(), SNAKE_TICK_NANOS, pos(5, 5));
    assert_eq!(cells(&game), vec![(3, 3), (3, 2)]);
}

#[test]
fn head_onto_the_third_segment_ends_the_run() {
    // The head's next cell is the cell of segment 2.
    let mut game = going(&[(3, 3), (3, 2), (3, 4), (7, 7)], SnakeMoveDirection::Up);
    game.snake_movement(SNAKE_TICK_NANOS);
    assert!(game.game_over_event().is_some());
    assert_eq!(cells(&game), vec![(3, 4), (3, 3), (3, 2), (3, 4)]);
}

#[test]
fn turning_back_onto_the_second_segment_ends_the_run() {
    let mut game = Game::new();
    game.snake_movement_input(key(SnakeMoveDirection::Down));
    game.snake_movement(SNAKE_TICK_NANOS);
    assert!(game.game_over_event().is_some());
}

#[test]
fn head_onto_the_cell_that_the_tail_is_leaving_ends_the_run() {
    // A ring of four: the head goes to where the tail is before the step.
    let mut game = going(&[(2, 2), (2, 3), (3, 3), (3, 2)], SnakeMoveDirection::Right);
    game.snake_movement(SNAKE_TICK_NANOS);
    assert!(game.game_over_event().is_some());
}

#[test]
fn head_onto_the_cell_that_the_head_leaves_is_no_collision() {
    // After the step the second segment is where the head was; the head
    // itself is elsewhere, and nothing else was on its new cell.
    let mut game = going(&[(5, 5), (5, 4), (5, 3)], SnakeMoveDirection::Left);
    game.snake_movement(SNAKE_TICK_NANOS);
    assert!(game.game_over_event().is_none());
    assert_eq!(cells(&game), vec![(4, 5), (5, 5), (5, 4)]);
}

#[test]
fn runs_into_looks_behind_the_head_only() {
    let body = snake(&[(2, 2), (2, 3), (3, 3)]);
    assert!(!body.runs_into(pos(2, 2)));
    assert!(body.runs_into(pos(2, 3)));
    assert!(body.runs_into(pos(3, 3)));
    assert!(!body.runs_into(pos(3, 2)));
    assert!(!SnakeSegments::default().runs_into(pos(0, 0)));
    assert!(!snake(&[(1, 1)]).runs_into(pos(1, 1)));
}

#[test]
fn a_snake_whose_run_has_ended_stays_put_until_the_restart() {
    let mut game = going(&[(0, 6), (1, 6)], SnakeMoveDirection::Left);
    game.snake_movement(SNAKE_TICK_NANOS);
    assert_eq!(cells(&game), vec![(-1, 6), (0, 6)]);
    game.snake_movement(SNAKE_TICK_NANOS);
    assert_eq!(cells(&game), vec![(-1, 6), (0, 6)]);
    assert!(game.game_over_event().is_some());
    assert_eq!(game.snake_timer().0.elapsed(), 0);
}

#[test]
fn game_over_without_an_ended_run_changes_nothing() {
    let mut game = going(&[(4, 4), (4, 3), (4, 2)], SnakeMoveDirection::Up);
    game.food_spawner(FOOD_SPAWN_NANOS, pos(8, 8));
    game.snake_movement(SNAKE_TICK_NANOS);
    game.game_over();
    assert_eq!(cells(&game), vec![(4, 5), (4, 4), (4, 3)]);
    assert_eq!(game.head().direction, SnakeMoveDirection::Up);
    assert_eq!(game.foods().len(), 1);
}

#[test]
fn the_restart_removes_all_food_and_drops_growth_that_was_due() {
    let mut game = going(&[(9, 5), (8, 5)], SnakeMoveDirection::Right);
    game.food_spawner(FOOD_SPAWN_NANOS, pos(9, 5));
    game.food_spawner(FOOD_SPAWN_NANOS, pos(1, 1));
    game.snake_eating();
    assert!(game.growth_event().is_some());
    assert_eq!(game.foods().len(), 1);
    game.snake_movement(SNAKE_TICK_NANOS);
    assert!(game.game_over_event().is_some());
    game.game_over();
    assert!(game.foods().is_empty());
    assert!(game.growth_event().is_none());
    assert!(game.game_over_event().is_none());
    game.snake_growth();
    assert_eq!(cells(&game), vec![(3, 3), (3, 2)]);
}

#[test]
fn the_restart_keeps_the_timers_and_the_remembered_cell() {
    let mut game = going(&[(9, 5), (8, 5)], SnakeMoveDirection::Right);
    game.food_spawner(300, pos(1, 1));
    game.snake_movement(SNAKE_TICK_NANOS + 7);
    game.game_over();
    assert_eq!(game.snake_timer().0.elapsed(), 7);
    assert_eq!(game.food_spawn_timer().0.elapsed(), 300);
    assert_eq!(game.last_tail_position(), LastTailPosition(Some(pos(8, 5))));
}

#[test]
fn spawn_snake_puts_the_starting_snake_in_place() {
    let mut game = going(&[(6, 6), (6, 5), (6, 4)], SnakeMoveDirection::Left);
    game.food_spawner(FOOD_SPAWN_NANOS, pos(1, 1));
    game.spawn_snake();
    assert_eq!(cells(&game), vec![(3, 3), (3, 2)]);
    assert_eq!(game.head().direction, SnakeMoveDirection::Init);
    assert_eq!(game.foods().len(), 1);
}
