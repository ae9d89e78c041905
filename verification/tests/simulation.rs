//! End-to-end scenarios over whole ticks: movement, wall and body
//! collisions, eating, growth on the following tick, and the interval clamp.

use snake_sim::direction::Direction;
use snake_sim::game::{GameState, LastTailPosition, Score, SnakeHead, SnakeSegments};
use snake_sim::grid::Position;
use snake_sim::timer::MoveTimer;

fn state(
    cells: Vec<(i32, i32)>,
    direction: Direction,
    food: Option<(i32, i32)>,
    score: u32,
    interval_ms: u32,
    growth_pending: bool,
) -> GameState {
    let mut segments: Vec<Position> = Vec::new();
    for (x, y) in cells {
        segments.push(Position { x, y });
    }
    GameState {
        segments: SnakeSegments(segments),
        head: SnakeHead { direction },
        food: food.map(|(x, y)| Position { x, y }),
        last_tail_position: LastTailPosition(None),
        score: Score(score),
        move_timer: MoveTimer { accumulated_ms: 0, interval_ms },
        growth_pending,
    }
}

fn cells_of(s: &GameState) -> Vec<(i32, i32)> {
    s.segments.0.iter().map(|p| (p.x, p.y)).collect()
}

fn assert_fresh(s: &GameState) {
    assert_eq!(cells_of(s), vec![(5, 5), (5, 4)]);
    assert_eq!(s.head.direction, Direction::Up);
    assert_eq!(s.score.0, 0);
    assert_eq!(s.move_timer.interval_ms, 300);
    assert!(!s.growth_pending);
    let food = s.food.expect("a fresh game has a food");
    assert!(0 <= food.x && food.x < 10 && 0 <= food.y && food.y < 10);
    assert!(!s.segments.0.contains(&food));
}

#[test]
fn scenario_plain_tick_moves_head_and_body() {
    let mut s = state(vec![(5, 5), (5, 4)], Direction::Up, Some((0, 0)), 0, 300, false);
    s.tick();
    assert_eq!(cells_of(&s), vec![(5, 6), (5, 5)]);
    assert_eq!(s.last_tail_position.0, Some(Position { x: 5, y: 4 }));
    assert_eq!(s.score.0, 0);
    assert_eq!(s.food, Some(Position { x: 0, y: 0 }));
    assert!(!s.growth_pending);
}

#[test]
fn scenario_wall_collision_resets_game() {
    let mut s = state(vec![(0, 5), (0, 4)], Direction::Left, Some((9, 9)), 7, 230, false);
    s.tick();
    assert_fresh(&s);
}

#[test]
fn scenario_body_collision_resets_game() {
    // The head at (5,5) facing Up walks into its own body at (5,6).
    let mut s = state(
        vec![(5, 5), (6, 5), (6, 6), (5, 6)],
        Direction::Up,
        Some((0, 0)),
        2,
        280,
        false,
    );
    s.tick();
    assert_fresh(&s);
}

#[test]
fn scenario_eating_scores_shrinks_interval_and_grows_next_tick() {
    let mut s = state(vec![(5, 5), (5, 4)], Direction::Up, Some((5, 6)), 0, 300, false);
    s.tick();
    // The food was consumed: score and speed change now, growth is queued.
    assert_eq!(cells_of(&s), vec![(5, 6), (5, 5)]);
    assert_eq!(s.score.0, 1);
    assert_eq!(s.move_timer.interval_ms, 290);
    assert!(s.growth_pending);
    let new_food = s.food.expect("the consumed food was respawned");
    assert!(!s.segments.0.contains(&new_food));
    // The next tick appends the new segment at the cell the tail vacates.
    s.food = None;
    s.tick();
    assert_eq!(cells_of(&s), vec![(5, 7), (5, 6), (5, 5)]);
    assert_eq!(s.last_tail_position.0, Some(Position { x: 5, y: 5 }));
    assert!(!s.growth_pending);
    // A tick with nothing queued and nothing eaten keeps the length.
    s.tick();
    assert_eq!(cells_of(&s), vec![(5, 8), (5, 7), (5, 6)]);
}

#[test]
fn scenario_interval_clamps_at_minimum() {
    let mut s = state(vec![(5, 5), (5, 4)], Direction::Up, Some((5, 6)), 0, 300, false);
    for round in 1u32..=25 {
        // Re-arm a deterministic board; the score and timer carry over.
        let mut segments: Vec<Position> = Vec::new();
        segments.push(Position { x: 5, y: 5 });
        segments.push(Position { x: 5, y: 4 });
        s.segments = SnakeSegments(segments);
        s.head = SnakeHead { direction: Direction::Up };
        s.food = Some(Position { x: 5, y: 6 });
        s.growth_pending = false;
        s.tick();
        assert_eq!(s.score.0, round);
        let expected = if round >= 20 { 100 } else { 300 - 10 * round };
        assert_eq!(s.move_timer.interval_ms, expected);
        assert!(s.move_timer.interval_ms >= 100);
    }
    assert_eq!(s.move_timer.interval_ms, 100);
}

#[test]
fn head_steps_one_cell_along_each_direction() {
    let expectations = vec![
        (Direction::Up, (4, 5)),
        (Direction::Down, (4, 3)),
        (Direction::Left, (3, 4)),
        (Direction::Right, (5, 4)),
    ];
    for (direction, expected_head) in expectations {
        // The body sits in a far corner so no step collides.
        let mut s = state(vec![(4, 4), (9, 9)], direction, Some((0, 9)), 0, 300, false);
        s.tick();
        let head = s.segments.0[0];
        assert_eq!((head.x, head.y), expected_head);
    }
}

#[test]
fn new_game_builds_the_starting_board() {
    let s = GameState::new();
    assert_fresh(&s);
    assert_eq!(s.move_timer.accumulated_ms, 0);
}

#[test]
fn game_over_rebuilds_the_starting_board() {
    let mut s = state(vec![(1, 1), (1, 2), (2, 2)], Direction::Down, Some((8, 8)), 12, 180, true);
    s.game_over();
    assert_fresh(&s);
}

#[test]
fn frame_ticks_only_when_the_interval_is_reached() {
    let mut s = GameState::new();
    s.food = Some(Position { x: 0, y: 0 });
    assert!(!s.frame(100, None));
    assert_eq!(cells_of(&s), vec![(5, 5), (5, 4)]);
    assert!(!s.frame(199, None));
    assert_eq!(cells_of(&s), vec![(5, 5), (5, 4)]);
    assert!(s.frame(1, None));
    assert_eq!(cells_of(&s), vec![(5, 6), (5, 5)]);
    assert_eq!(s.move_timer.accumulated_ms, 0);
}

#[test]
fn frame_applies_input_before_movement() {
    let mut s = GameState::new();
    s.food = Some(Position { x: 0, y: 0 });
    assert!(s.frame(300, Some(Direction::Right)));
    assert_eq!(cells_of(&s), vec![(6, 5), (5, 5)]);
    assert_eq!(s.head.direction, Direction::Right);
}
