//! The engine: the state of a running game and the decisions taken on each
//! tick and on each input event. Drawing, timing and polling for events are
//! left to the caller, which runs the loop.
use vstd::prelude::*;

use crate::direction::{orthogonal, Direction};
use crate::entity::Entity;
use crate::game_object::GameObject;
use crate::grid::Grid;
use crate::snake::{initial_body, next_cell, shifted, Snake};
use crate::utils::{
    Coord, COLUMNS, INITIAL_FPS, INITIAL_SNAKE_SIZE, MAX_FPS, MIN_FPS, MOUSE_WHEEL_SENSITIVITY,
    ROWS,
};

verus! {

/// A key of the keyboard, as far as the game tells keys apart.
#[derive(Clone, Copy, Debug, PartialEq, Eq, Structural)]
pub enum Key {
    Up,
    Down,
    Left,
    Right,
    Escape,
    Other,
}

/// An input event.
#[derive(Clone, Copy, Debug, PartialEq, Eq, Structural)]
pub enum Event {
    /// The window was closed.
    Quit,
    /// A key was pressed; `None` for a key without a key code.
    KeyDown(Option<Key>),
    /// The mouse wheel turned by this many steps.
    MouseWheel(i32),
    /// Anything else.
    Other,
}

/// What the caller's loop does after an event.
#[derive(Clone, Copy, Debug, PartialEq, Eq, Structural)]
pub enum Flow {
    Continue,
    Exit,
}

/// The state that the engine's decisions read and change.
pub struct EngineView {
    /// Simulation ticks per second.
    pub fps: u32,
    /// Set once the snake has run into itself; never cleared.
    pub game_over: bool,
    /// The direction the player moves in.
    pub direction: Direction,
    /// The registered objects.
    pub objects: Seq<Snake>,
}

impl EngineView {
    /// The engine holds exactly one object, the player, and a tick rate
    /// within bounds.
    pub open spec fn wf(self) -> bool {
        &&& MIN_FPS <= self.fps <= MAX_FPS
        &&& self.objects.len() == 1
    }

    /// The player's snake.
    pub open spec fn player(self) -> Snake {
        self.objects[0]
    }
}

/// The direction that a key asks for, if it is an arrow key.
pub open spec fn key_direction(k: Option<Key>) -> Option<Direction> {
    match k {
        Some(Key::Up) => Some(Direction::Up),
        Some(Key::Down) => Some(Direction::Down),
        Some(Key::Left) => Some(Direction::Left),
        Some(Key::Right) => Some(Direction::Right),
        _ => None,
    }
}

/// The direction after the key `k` is pressed while moving in `current`:
/// the requested direction if it is a quarter turn, else `current`.
pub open spec fn turned(current: Direction, k: Option<Key>) -> Direction {
    match key_direction(k) {
        Some(d) => if orthogonal(current, d) {
            d
        } else {
            current
        },
        None => current,
    }
}

/// `v` brought into `[lo, hi]`.
pub open spec fn clamp_to(v: int, lo: int, hi: int) -> int {
    if v < lo {
        lo
    } else if v > hi {
        hi
    } else {
        v
    }
}

/// The tick rate after the mouse wheel turned by `steps` at the rate `fps`.
pub open spec fn wheel_fps(fps: int, steps: int) -> int {
    clamp_to(fps + steps * MOUSE_WHEEL_SENSITIVITY, MIN_FPS as int, MAX_FPS as int)
}

/// Whether an event ends the game loop.
pub open spec fn is_exit(e: Event) -> bool {
    e == Event::Quit || e == Event::KeyDown(Some(Key::Escape))
}

/// What one tick does to a game that is still running: the player's next
/// head is computed; if it is one of the player's cells (the tail
/// included) the game is over and nothing moves, else the player moves.
pub open spec fn tick_result(before: EngineView, after: EngineView) -> bool {
    let p = before.player();
    let head = next_cell(p.body()[0], before.direction);
    &&& after.fps == before.fps
    &&& after.direction == before.direction
    &&& after.objects.len() == 1
    &&& after.game_over == p.body().contains(head)
    &&& p.body().contains(head) ==> after.player() == p
    &&& !p.body().contains(head) ==> {
        &&& after.player().id() == p.id()
        &&& after.player().body() == shifted(p.body(), head)
    }
}

/// Whether `cells` holds `c`.
fn holds_cell(cells: &Vec<Coord>, c: Coord) -> (r: bool)
    ensures
        r == cells@.contains(c),
{
    let mut i: usize = 0;
    while i < cells.len()
        invariant
            i <= cells@.len(),
            forall|j: int| 0 <= j < i ==> cells@[j] != c,
        decreases cells@.len() - i,
    {
        if cells[i] == c {
            assert(cells@[i as int] == c);
            return true;
        }
        i = i + 1;
    }
    false
}

/// A running game.
pub struct GameEngine {
    fps: u32,
    game_over: bool,
    direction: Direction,
    grid: Grid<Snake>,
}

impl View for GameEngine {
    type V = EngineView;

    closed spec fn view(&self) -> EngineView {
        EngineView {
            fps: self.fps,
            game_over: self.game_over,
            direction: self.direction,
            objects: self.grid@,
        }
    }
}

impl GameEngine {
    /// A new game: one snake of `INITIAL_SNAKE_SIZE` cells with its head at
    /// the centre of the grid, moving down, at `INITIAL_FPS`.
    pub fn new() -> (e: GameEngine)
        ensures
            e@.wf(),
            e@.fps == INITIAL_FPS,
            !e@.game_over,
            e@.direction == Direction::Down,
            e@.player().body() == initial_body(
                Coord { x: (ROWS / 2) as i32, y: (COLUMNS / 2) as i32 },
                Direction::Down,
                INITIAL_SNAKE_SIZE as int,
            ),
    {
        let direction = Direction::Down;
        let center = Coord { x: (ROWS / 2) as i32, y: (COLUMNS / 2) as i32 };
        let snake = Snake::new(center, direction, INITIAL_SNAKE_SIZE as i32);
        GameEngine::with_player(snake)
    }

    /// A new game with `player` as its one object, moving down, at
    /// `INITIAL_FPS`.
    pub fn with_player(player: Snake) -> (e: GameEngine)
        ensures
            e@.wf(),
            e@.fps == INITIAL_FPS,
            !e@.game_over,
            e@.direction == Direction::Down,
            e@.player() == player,
    {
        let mut grid: Grid<Snake> = Grid::new();
        let added = grid.add_game_object(player);
        assert(added is Ok);
        GameEngine { fps: INITIAL_FPS as u32, game_over: false, direction: Direction::Down, grid }
    }

    /// Simulation ticks per second.
    pub fn fps(&self) -> (r: u32)
        ensures
            r == self@.fps,
    {
        self.fps
    }

    /// Whether the snake has run into itself.
    pub fn is_game_over(&self) -> (r: bool)
        ensures
            r == self@.game_over,
    {
        self.game_over
    }

    /// The direction the player moves in.
    pub fn direction(&self) -> (r: Direction)
        ensures
            r == self@.direction,
    {
        self.direction
    }

    /// The registry of the objects in play.
    pub fn grid(&self) -> (r: &Grid<Snake>)
        ensures
            r@ == self@.objects,
    {
        &self.grid
    }

    /// Whether a tick is due once `elapsed_ms` milliseconds have passed
    /// since the last one: a tick lasts `1000 / fps` milliseconds.
    pub fn should_redraw(&self, elapsed_ms: u128) -> (r: bool)
        requires
            self@.wf(),
        ensures
            r == (elapsed_ms >= 1000int / (self@.fps as int)),
    {
        elapsed_ms >= (1000 / self.fps) as u128
    }

    /// One simulation tick: nothing once the game is over, else the player
    /// moves one step, or the game ends if that step runs into the player.
    pub fn tick(&mut self)
        requires
            old(self)@.wf(),
        ensures
            final(self)@.wf(),
            old(self)@.game_over ==> final(self)@ == old(self)@,
            !old(self)@.game_over ==> tick_result(old(self)@, final(self)@),
    {
        if !self.game_over {
            self.move_player();
        }
    }

    /// Takes the player out of the registry, tests its next step for a
    /// collision with its own cells, moves it when there is none, and
    /// registers it again.
    fn move_player(&mut self)
        requires
            old(self)@.wf(),
            !old(self)@.game_over,
        ensures
            final(self)@.wf(),
            tick_result(old(self)@, final(self)@),
    {
        let ghost before = self@;
        assert(self.grid@[0].entity() == Entity::Player);
        let player_id = match self.grid.find_by_kind(Entity::Player) {
            Some(p) => p.get_id(),
            None => {
                assert(false);
                return;
            },
        };
        assert(self.grid.contains_id(player_id)) by {
            assert(self.grid@[0].id() == player_id);
        }
        let removed = self.grid.remove_game_object_by_id(&player_id);
        let mut player = match removed {
            Some(p) => p,
            None => {
                assert(false);
                return;
            },
        };
        assert(player == before.player());
        assert(self.grid@.len() == 0);
        let next_head = player.next_head(self.direction);
        let body = player.get_body();
        let will_collide = holds_cell(&body, next_head);
        if will_collide {
            self.game_over = true;
        } else {
            player.move_to(self.direction);
        }
        let added = self.grid.add_game_object(player);
        assert(added is Ok);
        assert(self.grid@ == seq![player]);
    }

    /// Turns the player when `keycode` is an arrow key for a quarter turn
    /// from the current direction; a repeat or a reversal is ignored.
    pub fn handle_key_down_event(&mut self, keycode: Option<Key>)
        ensures
            final(self)@.direction == turned(old(self)@.direction, keycode),
            final(self)@.fps == old(self)@.fps,
            final(self)@.game_over == old(self)@.game_over,
            final(self)@.objects == old(self)@.objects,
    {
        let new_direction = match keycode {
            Some(Key::Up) => Direction::Up,
            Some(Key::Down) => Direction::Down,
            Some(Key::Left) => Direction::Left,
            Some(Key::Right) => Direction::Right,
            _ => self.direction,
        };
        if self.direction.is_orthogonal(new_direction) {
            self.direction = new_direction;
        }
    }

    /// Handles one input event. A quit or the escape key ends the loop and
    /// changes nothing; an arrow key may turn the player; the mouse wheel
    /// changes the tick rate by `MOUSE_WHEEL_SENSITIVITY` per step, kept
    /// within `[MIN_FPS, MAX_FPS]`.
    pub fn handle_event(&mut self, event: Event) -> (r: Flow)
        requires
            old(self)@.wf(),
        ensures
            final(self)@.wf(),
            r == Flow::Exit <==> is_exit(event),
            final(self)@.game_over == old(self)@.game_over,
            final(self)@.objects == old(self)@.objects,
            final(self)@.direction == (match event {
                Event::KeyDown(k) => turned(old(self)@.direction, k),
                _ => old(self)@.direction,
            }),
            final(self)@.fps == (match event {
                Event::MouseWheel(steps) => wheel_fps(old(self)@.fps as int, steps as int),
                _ => old(self)@.fps as int,
            }),
    {
        match event {
            Event::Quit => Flow::Exit,
            Event::KeyDown(Some(Key::Escape)) => Flow::Exit,
            Event::KeyDown(keycode) => {
                self.handle_key_down_event(keycode);
                Flow::Continue
            },
            Event::MouseWheel(y) => {
                let offset: i64 = y as i64 * MOUSE_WHEEL_SENSITIVITY as i64;
                let wanted: i64 = self.fps as i64 + offset;
                let fps: i64 = if wanted < MIN_FPS as i64 {
                    MIN_FPS as i64
                } else if wanted > MAX_FPS as i64 {
                    MAX_FPS as i64
                } else {
                    wanted
                };
                self.fps = fps as u32;
                Flow::Continue
            },
            Event::Other => Flow::Continue,
        }
    }
}

} // verus!
