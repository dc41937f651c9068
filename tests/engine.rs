use snake_game::direction::Direction;
use snake_game::entity::Entity;
use snake_game::game_engine::{Event, Flow, GameEngine, Key};
use snake_game::game_object::GameObject;
use snake_game::snake::Snake;
use snake_game::utils::{Coord, COLUMNS, INITIAL_FPS, INITIAL_SNAKE_SIZE, MAX_FPS, MIN_FPS, ROWS};

fn c(x: i32, y: i32) -> Coord {
    Coord { x, y }
}

fn player_body(e: &GameEngine) -> Vec<Coord> {
    e.grid().find_by_kind(Entity::Player).expect("a player").get_body()
}

fn engine_at_5_5() -> GameEngine {
    GameEngine::with_player(Snake::with_id(1, c(5, 5), Direction::Down, 4))
}

#[test]
fn new_engine_starts_at_centre_moving_down() {
    let e = GameEngine::new();
    assert_eq!(e.fps(), INITIAL_FPS as u32);
    assert_eq!(e.direction(), Direction::Down);
    assert!(!e.is_game_over());
    let body = player_body(&e);
    assert_eq!(body.len(), INITIAL_SNAKE_SIZE as usize);
    assert_eq!(body[0], c((ROWS / 2) as i32, (COLUMNS / 2) as i32));
    assert_eq!(body[1], c((ROWS / 2) as i32, (COLUMNS / 2) as i32 - 1));
}

#[test]
fn one_tick_moves_head_down() {
    let mut e = engine_at_5_5();
    e.tick();
    assert!(!e.is_game_over());
    assert_eq!(player_body(&e), vec![c(5, 6), c(5, 5), c(5, 4), c(5, 3)]);
    assert_eq!(e.grid().find_by_kind(Entity::Player).map(|p| p.get_id()), Some(1));
}

#[test]
fn running_into_own_tail_ends_game_and_freezes() {
    let mut e = engine_at_5_5();
    e.handle_key_down_event(Some(Key::Left));
    e.tick();
    e.handle_key_down_event(Some(Key::Up));
    e.tick();
    assert_eq!(player_body(&e), vec![c(4, 4), c(4, 5), c(5, 5), c(5, 4)]);
    assert!(!e.is_game_over());
    e.handle_key_down_event(Some(Key::Right));
    e.tick();
    assert!(e.is_game_over());
    assert_eq!(player_body(&e), vec![c(4, 4), c(4, 5), c(5, 5), c(5, 4)]);
    e.tick();
    e.tick();
    assert!(e.is_game_over());
    assert_eq!(player_body(&e), vec![c(4, 4), c(4, 5), c(5, 5), c(5, 4)]);
}

#[test]
fn reverse_turn_is_rejected() {
    let mut e = engine_at_5_5();
    e.handle_key_down_event(Some(Key::Up));
    assert_eq!(e.direction(), Direction::Down);
    e.handle_key_down_event(Some(Key::Down));
    assert_eq!(e.direction(), Direction::Down);
    e.handle_key_down_event(None);
    assert_eq!(e.direction(), Direction::Down);
}

#[test]
fn quarter_turns_are_taken() {
    let mut e = engine_at_5_5();
    e.handle_key_down_event(Some(Key::Left));
    assert_eq!(e.direction(), Direction::Left);
    let mut e = engine_at_5_5();
    e.handle_key_down_event(Some(Key::Right));
    assert_eq!(e.direction(), Direction::Right);
}

#[test]
fn fps_clamps_at_max() {
    let mut e = engine_at_5_5();
    assert_eq!(e.fps(), 40);
    assert_eq!(e.handle_event(Event::MouseWheel(10)), Flow::Continue);
    assert_eq!(e.fps(), MAX_FPS as u32);
    assert_eq!(e.handle_event(Event::MouseWheel(i32::MAX)), Flow::Continue);
    assert_eq!(e.fps(), MAX_FPS as u32);
}

#[test]
fn fps_clamps_at_min() {
    let mut e = engine_at_5_5();
    e.handle_event(Event::MouseWheel(-10));
    assert_eq!(e.fps(), MIN_FPS as u32);
    e.handle_event(Event::MouseWheel(i32::MIN));
    assert_eq!(e.fps(), MIN_FPS as u32);
}

#[test]
fn fps_wheel_step_within_bounds() {
    let mut e = engine_at_5_5();
    e.handle_event(Event::MouseWheel(1));
    assert_eq!(e.fps(), 45);
    e.handle_event(Event::MouseWheel(-2));
    assert_eq!(e.fps(), 35);
}

#[test]
fn quit_and_escape_exit_the_loop() {
    let mut e = engine_at_5_5();
    assert_eq!(e.handle_event(Event::Quit), Flow::Exit);
    assert_eq!(e.handle_event(Event::KeyDown(Some(Key::Escape))), Flow::Exit);
    assert_eq!(e.handle_event(Event::KeyDown(Some(Key::Other))), Flow::Continue);
    assert_eq!(e.handle_event(Event::Other), Flow::Continue);
    assert_eq!(e.direction(), Direction::Down);
    assert_eq!(e.fps(), 40);
}

#[test]
fn key_event_turns_through_handle_event() {
    let mut e = engine_at_5_5();
    assert_eq!(e.handle_event(Event::KeyDown(Some(Key::Left))), Flow::Continue);
    assert_eq!(e.direction(), Direction::Left);
}

#[test]
fn tick_is_due_after_frame_interval() {
    let e = engine_at_5_5();
    assert!(!e.should_redraw(24));
    assert!(e.should_redraw(25));
    assert!(e.should_redraw(1000));
}
