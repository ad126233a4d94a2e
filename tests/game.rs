use snake::cell::{Cell, Direction};
use snake::game::{Command, SnakeGameViewModel};
use snake::rules::GameState;

fn in_grid(c: Cell) -> bool {
    0 <= c.0 && c.0 < 50 && 0 <= c.1 && c.1 < 50
}

/// A playing model with the given head, food, direction and body (from the
/// segment next to the head to the tail), with one point per segment.
fn layout(head: Cell, dot: Cell, direction: Direction, body: &[Cell]) -> SnakeGameViewModel {
    let mut m = SnakeGameViewModel::with_layout(head, dot, direction);
    for &c in body {
        m.snake.push_back(c);
        m.available_spaces.remove(c);
    }
    m.score = body.len() as u32;
    m
}

fn body(m: &SnakeGameViewModel) -> Vec<Cell> {
    m.snake.iter().cloned().collect()
}

/// Every on-board cell is in exactly one of: free cells, head, body, food.
fn assert_partition(m: &SnakeGameViewModel) {
    let mut free = 0usize;
    for x in 0..50i16 {
        for y in 0..50i16 {
            let c = (x, y);
            let mut n = 0;
            if m.available_spaces.contains(c) {
                n += 1;
                free += 1;
            }
            if m.head == c {
                n += 1;
            }
            if m.dot == c {
                n += 1;
            }
            n += m.snake.iter().filter(|&&s| s == c).count();
            assert_eq!(n, 1, "cell {:?}", c);
        }
    }
    assert_eq!(free, m.available_spaces.len());
}

#[test]
fn fresh_game_is_well_placed() {
    let m = SnakeGameViewModel::new();
    assert!(in_grid(m.head));
    assert!(in_grid(m.dot));
    assert_ne!(m.head, m.dot);
    assert!(m.snake.is_empty());
    assert_eq!(m.score, 0);
    assert_eq!(m.state, GameState::Playing);
    assert_eq!(m.speed, 100);
    assert_eq!(m.boost_turns, 0);
    assert_eq!(m.available_spaces.len(), 2498);
    assert_partition(&m);
}

#[test]
fn scenario_reverse_move_is_rejected() {
    let mut m = SnakeGameViewModel::with_layout((10, 10), (20, 20), Direction::Right);
    m.left();
    assert_eq!(m.head, (10, 10));
    assert_eq!(m.direction, Direction::Right);
    assert_eq!(m.score, 0);
    assert_eq!(m.state, GameState::Playing);
}

#[test]
fn scenario_boost_needs_a_point() {
    let mut m = SnakeGameViewModel::with_layout((10, 10), (20, 20), Direction::Right);
    m.boost();
    assert_eq!(m.speed, 100);
    assert_eq!(m.boost_turns, 0);
}

#[test]
fn scenario_fifth_point_speeds_up() {
    let mut m = layout((10, 10), (10, 11), Direction::Up, &[(10, 9), (10, 8), (10, 7), (10, 6)]);
    assert_eq!(m.score, 4);
    m.up();
    assert_eq!(m.score, 5);
    assert_eq!(m.speed, 96);
}

#[test]
fn scenario_paused_game_ignores_moves() {
    let mut m = layout((10, 10), (30, 30), Direction::Up, &[(10, 9)]);
    assert!(!m.handle_events(Command::TogglePause));
    assert_eq!(m.state, GameState::Paused);
    for c in [
        Command::MoveUp,
        Command::MoveLeft,
        Command::MoveRight,
        Command::MoveDown,
        Command::MoveUpDouble,
        Command::Timeout,
    ] {
        m.handle_events(c);
        assert_eq!(m.head, (10, 10));
        assert_eq!(body(&m), vec![(10, 9)]);
        assert_eq!(m.score, 1);
    }
    m.handle_events(Command::TogglePause);
    assert_eq!(m.state, GameState::Playing);
}

#[test]
fn scenario_new_game_after_loss() {
    let mut m = layout((0, 5), (30, 30), Direction::Left, &[(1, 5), (2, 5)]);
    m.left();
    assert_eq!(m.state, GameState::Lost);
    m.handle_events(Command::NewGame);
    assert_eq!(m.score, 0);
    assert!(m.snake.is_empty());
    assert_eq!(m.state, GameState::Playing);
    assert_eq!(m.speed, 100);
    assert_eq!(m.boost_turns, 0);
    assert!(in_grid(m.head));
    assert_ne!(m.head, m.dot);
    assert_partition(&m);
}

#[test]
fn new_game_is_ignored_while_playing() {
    let mut m = layout((10, 10), (30, 30), Direction::Up, &[(10, 9)]);
    m.handle_events(Command::NewGame);
    assert_eq!(m.score, 1);
    assert_eq!(m.head, (10, 10));
    assert_eq!(m.dot, (30, 30));
}

#[test]
fn wall_collision_loses() {
    let mut m = layout((0, 5), (30, 30), Direction::Left, &[(1, 5), (2, 5)]);
    m.left();
    assert_eq!(m.state, GameState::Lost);
    assert_eq!(m.head, (-1, 5));
    assert_eq!(body(&m), vec![(1, 5), (2, 5)]);
    assert_eq!(m.score, 2);
    m.same_direction();
    assert_eq!(m.head, (-1, 5));
}

#[test]
fn top_wall_collision_loses() {
    let mut m = SnakeGameViewModel::with_layout((7, 49), (30, 30), Direction::Up);
    m.up();
    assert_eq!(m.state, GameState::Lost);
    assert_eq!(m.head, (7, 50));
}

#[test]
fn body_collision_loses() {
    let mut m = layout((10, 10), (30, 30), Direction::Left, &[(11, 10), (11, 11), (10, 11)]);
    m.up();
    assert_eq!(m.state, GameState::Lost);
    assert_eq!(body(&m), vec![(11, 10), (11, 11), (10, 11)]);
    assert_eq!(m.score, 3);
}

#[test]
fn plain_move_drags_the_body() {
    let mut m = layout((10, 10), (40, 40), Direction::Right, &[(9, 10), (8, 10)]);
    m.right();
    assert_eq!(m.head, (11, 10));
    assert_eq!(body(&m), vec![(10, 10), (9, 10)]);
    assert!(m.available_spaces.contains((8, 10)));
    assert!(!m.available_spaces.contains((11, 10)));
    assert_eq!(m.score, 2);
    assert_partition(&m);
}

#[test]
fn plain_move_without_body_frees_the_old_head() {
    let mut m = SnakeGameViewModel::with_layout((10, 10), (40, 40), Direction::Down);
    m.down();
    assert_eq!(m.head, (10, 9));
    assert!(m.snake.is_empty());
    assert!(m.available_spaces.contains((10, 10)));
    assert_partition(&m);
}

#[test]
fn eating_grows_by_one() {
    let mut m = layout((10, 10), (11, 10), Direction::Right, &[(9, 10)]);
    m.right();
    assert_eq!(m.score, 2);
    assert_eq!(m.head, (11, 10));
    assert_eq!(body(&m), vec![(10, 10), (9, 10)]);
    assert_ne!(m.dot, (11, 10));
    assert!(in_grid(m.dot));
    assert_eq!(m.available_spaces.len(), 2496);
    assert_eq!(m.speed, 100);
    assert_partition(&m);
}

#[test]
fn meal_places_food_on_the_picked_cell() {
    let mut m = SnakeGameViewModel::with_layout((0, 0), (0, 1), Direction::Up);
    // The free cells are kept in row-major order: (0, 2) comes first.
    m.update_game_with(0);
    assert_eq!(m.score, 1);
    assert_eq!(m.head, (0, 1));
    assert_eq!(m.dot, (0, 2));
    assert!(!m.available_spaces.contains((0, 2)));
    assert_partition(&m);
}

#[test]
fn partition_kept_over_many_moves() {
    let mut m = layout((5, 5), (45, 45), Direction::Right, &[(4, 5), (3, 5), (2, 5)]);
    for _ in 0..10 {
        m.right();
        assert_partition(&m);
    }
    m.up();
    m.up();
    m.left();
    assert_eq!(m.state, GameState::Playing);
    assert_eq!(m.head, (14, 7));
    assert_partition(&m);
}

#[test]
fn body_stays_put_above_fifty() {
    let mut cells: Vec<Cell> = (0..50).map(|x| (x, 20)).collect();
    cells.push((49, 21));
    let mut m = layout((10, 30), (40, 40), Direction::Up, &cells);
    m.speed = 76;
    assert_eq!(m.score, 51);
    m.up();
    assert_eq!(m.head, (10, 31));
    assert_eq!(body(&m), cells);
    assert!(!m.available_spaces.contains((10, 30)));
    assert_eq!(m.state, GameState::Playing);
}

#[test]
fn hundredth_point_speeds_up_by_one() {
    let mut m = SnakeGameViewModel::with_layout((10, 10), (10, 11), Direction::Up);
    m.score = 99;
    m.speed = 76;
    m.up();
    assert_eq!(m.score, 100);
    assert_eq!(m.speed, 75);
}

#[test]
fn sixth_point_keeps_speed() {
    let mut m = layout((10, 10), (10, 11), Direction::Up, &[(10, 9), (10, 8), (10, 7), (10, 6), (10, 5)]);
    m.speed = 96;
    m.up();
    assert_eq!(m.score, 6);
    assert_eq!(m.speed, 96);
}

#[test]
fn winning_meal_wins() {
    let mut m = SnakeGameViewModel::with_layout((10, 10), (10, 11), Direction::Up);
    m.score = 2499;
    m.speed = 52;
    m.up();
    assert_eq!(m.score, 2500);
    assert_eq!(m.state, GameState::Won);
    assert_eq!(m.speed, 51);
    assert_eq!(m.dot, (10, 11));
    m.up();
    assert_eq!(m.head, (10, 11));
}

#[test]
fn boost_runs_and_ends() {
    let mut m = layout((10, 10), (40, 40), Direction::Right, &[(9, 10)]);
    m.boost();
    assert_eq!(m.boost_turns, 300);
    assert_eq!(m.speed, 50);
    m.boost();
    assert_eq!(m.boost_turns, 300);
    assert_eq!(m.speed, 50);
    m.right();
    assert_eq!(m.boost_turns, 299);
    assert_eq!(m.speed, 50);
    m.boost_turns = 1;
    m.right();
    assert_eq!(m.boost_turns, 0);
    assert_eq!(m.speed, 100);
}

#[test]
fn double_move_goes_two_cells() {
    let mut m = SnakeGameViewModel::with_layout((10, 10), (40, 40), Direction::Up);
    assert!(!m.handle_events(Command::MoveRightDouble));
    assert_eq!(m.head, (12, 10));
    assert_eq!(m.direction, Direction::Right);
}

#[test]
fn timeout_keeps_direction() {
    let mut m = SnakeGameViewModel::with_layout((10, 10), (40, 40), Direction::Down);
    m.handle_events(Command::Timeout);
    assert_eq!(m.head, (10, 9));
    assert_eq!(m.direction, Direction::Down);
}

#[test]
fn quit_reports_and_changes_nothing() {
    let mut m = SnakeGameViewModel::with_layout((10, 10), (40, 40), Direction::Down);
    assert!(m.handle_events(Command::Quit));
    assert_eq!(m.head, (10, 10));
    assert_eq!(m.state, GameState::Playing);
}
