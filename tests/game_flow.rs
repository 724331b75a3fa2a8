use snake_remix::{
    should_tick, tick_interval_ms, Ate, Direction, Food, GameState, GameStates, GridPosition,
    KeyCode, Segment, Snake,
};
use std::collections::VecDeque;

fn pos(x: i16, y: i16) -> GridPosition {
    GridPosition::new(x, y)
}

fn game_with(head: (i16, i16), body: &[(i16, i16)], dir: Direction, food: (i16, i16)) -> GameState {
    let mut segments = VecDeque::new();
    for &(x, y) in body {
        segments.push_back(Segment::new(pos(x, y)));
    }
    let snake = Snake {
        head: Segment::new(pos(head.0, head.1)),
        dir,
        body: segments,
        ate: None,
        last_update_dir: dir,
        next_dir: None,
        points: 3,
    };
    GameState {
        snake,
        food: Food::new(pos(food.0, food.1)),
        game_states: GameStates::GameOn,
        music_on: true,
        last_update: 0,
    }
}

#[test]
fn new_game_is_running_with_fresh_snake() {
    let g = GameState::new(42);
    assert_eq!(g.game_states, GameStates::GameOn);
    assert_eq!(g.snake.head.pos, pos(14, 15));
    assert_eq!(g.snake.points, 0);
    assert!(g.music_on);
    assert_eq!(g.last_update, 42);
    assert!(0 <= g.food.pos.x && g.food.pos.x < 56);
    assert!(0 <= g.food.pos.y && g.food.pos.y < 30);
    assert_eq!(GameState::start_position(), pos(14, 15));
}

#[test]
fn tick_interval_matches_square_root_formula() {
    for p in 0i16..=1000 {
        let expected = (100.0f32 - 8.0 * (p as f32).sqrt()).max(0.0) as u64;
        assert_eq!(tick_interval_ms(p), expected, "points {}", p);
    }
}

#[test]
fn tick_interval_exact_values() {
    assert_eq!(tick_interval_ms(0), 100);
    assert_eq!(tick_interval_ms(1), 92);
    assert_eq!(tick_interval_ms(2), 88);
    assert_eq!(tick_interval_ms(100), 20);
    assert_eq!(tick_interval_ms(156), 0);
    assert_eq!(tick_interval_ms(157), 0);
    assert_eq!(tick_interval_ms(i16::MAX), 0);
}

#[test]
fn should_tick_waits_for_the_interval() {
    assert!(!should_tick(1099, 1000, 0));
    assert!(should_tick(1100, 1000, 0));
    assert!(should_tick(1092, 1000, 1));
    assert!(!should_tick(1091, 1000, 1));
    assert!(!should_tick(500, 1000, 0));
    assert!(should_tick(500, 1000, 200));
}

#[test]
fn step_eating_food_scores_and_moves_food() {
    let mut g = game_with((5, 5), &[(4, 5)], Direction::Right, (6, 5));
    let eaten = g.step(pos(20, 7));
    assert!(eaten);
    assert_eq!(g.snake.points, 4);
    assert_eq!(g.food.pos, pos(20, 7));
    assert_eq!(g.snake.body.len(), 2);
    assert_eq!(g.game_states, GameStates::GameOn);
}

#[test]
fn score_stays_at_its_maximum() {
    let mut g = game_with((5, 5), &[(4, 5)], Direction::Right, (6, 5));
    g.snake.points = i16::MAX;
    assert!(g.step(pos(20, 7)));
    assert_eq!(g.snake.points, i16::MAX);
}

#[test]
fn game_over_then_restart() {
    let mut g = game_with((1, 1), &[(2, 1), (2, 2), (1, 2), (0, 2)], Direction::Down, (30, 20));
    assert!(!g.step(pos(10, 10)));
    assert_eq!(g.snake.ate, Some(Ate::Itself));
    assert_eq!(g.game_states, GameStates::GameOver);
    // frozen while over
    let head = g.snake.head.pos;
    assert!(!g.step(pos(11, 11)));
    assert_eq!(g.snake.head.pos, head);
    assert_eq!(g.game_states, GameStates::GameOver);
    let r = g.key_down_event(KeyCode::Y);
    assert!(!r.quit);
    assert_eq!(g.game_states, GameStates::Restart);
    assert!(!g.step(pos(12, 12)));
    assert_eq!(g.game_states, GameStates::GameOn);
    assert_eq!(g.snake.points, 0);
    assert_eq!(g.snake.head.pos, pos(14, 15));
    assert_eq!(g.snake.body.len(), 1);
    assert_eq!(g.snake.dir, Direction::Right);
    assert_eq!(g.food.pos, pos(12, 12));
}

#[test]
fn declining_restart_quits_and_stays_over() {
    let mut g = game_with((5, 5), &[(4, 5)], Direction::Right, (9, 9));
    g.game_states = GameStates::GameOver;
    let r = g.key_down_event(KeyCode::N);
    assert!(r.quit);
    assert_eq!(g.game_states, GameStates::GameOver);
}

#[test]
fn confirm_keys_ignored_outside_game_over() {
    let mut g = game_with((5, 5), &[(4, 5)], Direction::Right, (9, 9));
    let r = g.key_down_event(KeyCode::Y);
    assert_eq!(g.game_states, GameStates::GameOn);
    assert!(!r.quit);
    let r = g.key_down_event(KeyCode::N);
    assert_eq!(g.game_states, GameStates::GameOn);
    assert!(!r.quit);
}

#[test]
fn pause_toggles_and_freezes() {
    let mut g = game_with((5, 5), &[(4, 5)], Direction::Right, (9, 9));
    g.key_down_event(KeyCode::P);
    assert_eq!(g.game_states, GameStates::Pause);
    // arrows are dropped while paused
    g.key_down_event(KeyCode::Up);
    assert_eq!(g.snake.dir, Direction::Right);
    assert!(!g.step(pos(1, 1)));
    assert_eq!(g.snake.head.pos, pos(5, 5));
    g.key_down_event(KeyCode::P);
    assert_eq!(g.game_states, GameStates::GameOn);
    g.key_down_event(KeyCode::Up);
    assert_eq!(g.snake.dir, Direction::Up);
}

#[test]
fn pause_key_ignored_when_over() {
    let mut g = game_with((5, 5), &[(4, 5)], Direction::Right, (9, 9));
    g.game_states = GameStates::GameOver;
    g.key_down_event(KeyCode::P);
    assert_eq!(g.game_states, GameStates::GameOver);
}

#[test]
fn music_and_quit_keys() {
    let mut g = game_with((5, 5), &[(4, 5)], Direction::Right, (9, 9));
    g.game_states = GameStates::Pause;
    let r = g.key_down_event(KeyCode::M);
    assert!(r.music_toggled);
    assert!(!g.music_on);
    assert!(!r.quit);
    let r = g.key_down_event(KeyCode::M);
    assert!(g.music_on);
    assert!(r.music_toggled);
    assert!(g.key_down_event(KeyCode::Q).quit);
    assert!(g.key_down_event(KeyCode::Escape).quit);
    let r = g.key_down_event(KeyCode::Other);
    assert!(!r.quit && !r.music_toggled);
    assert_eq!(g.game_states, GameStates::Pause);
}

#[test]
fn update_runs_only_when_due() {
    let mut g = game_with((5, 5), &[(4, 5)], Direction::Right, (9, 9));
    g.snake.points = 0;
    let r = g.update(50);
    assert!(!r.ticked);
    assert_eq!(g.snake.head.pos, pos(5, 5));
    assert_eq!(g.last_update, 0);
    let r = g.update(100);
    assert!(r.ticked);
    assert!(!r.food_eaten);
    assert_eq!(g.snake.head.pos, pos(6, 5));
    assert_eq!(g.last_update, 100);
}

#[test]
fn update_eating_places_new_food_on_board() {
    let mut g = game_with((5, 5), &[(4, 5)], Direction::Right, (6, 5));
    let r = g.update(1000);
    assert!(r.ticked);
    assert!(r.food_eaten);
    assert_eq!(g.snake.points, 4);
    assert!(0 <= g.food.pos.x && g.food.pos.x < 56);
    assert!(0 <= g.food.pos.y && g.food.pos.y < 30);
}
