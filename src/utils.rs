//! Game configuration, grid cells and the wrap-around arithmetic of the grid.
use vstd::prelude::*;

verus! {

/// Side of one grid cell, in pixels.
pub const CELL_SIZE: u32 = 10;

/// Width of the playing field, in pixels.
pub const WIDTH: u32 = 800;

/// Height of the playing field, in pixels.
pub const HEIGHT: u32 = 800;

/// Number of cell rows of the grid.
pub const ROWS: u32 = HEIGHT / CELL_SIZE;

/// Number of cell columns of the grid.
pub const COLUMNS: u32 = WIDTH / CELL_SIZE;

/// Simulation ticks per second when a game starts.
pub const INITIAL_FPS: i32 = 40;

/// Number of cells of the snake when a game starts.
pub const INITIAL_SNAKE_SIZE: u32 = 20;

/// Largest number of simulation ticks per second.
pub const MAX_FPS: i32 = 60;

/// Smallest number of simulation ticks per second.
pub const MIN_FPS: i32 = 5;

/// Change of the tick rate for one step of the mouse wheel.
pub const MOUSE_WHEEL_SENSITIVITY: i32 = 5;

/// A cell of the grid, or a displacement between two cells.
#[derive(Clone, Copy, Debug, PartialEq, Eq, Hash, Structural)]
pub struct Coord {
    pub x: i32,
    pub y: i32,
}

/// Relies on `num_traits::Euclid::rem_euclid` for `i64`, which forwards to
/// `i64::rem_euclid`: for a positive modulus the least nonnegative remainder.
#[verifier::external_body]
fn rem_euclid(n: i64, m: i64) -> (r: i64)
    requires
        m > 0,
    ensures
        r == n % m,
{
    num_traits::Euclid::rem_euclid(&n, &m)
}

/// Brings `n` into the half-open range `r` the way the grid wraps around:
/// `(n + r.start)` reduced modulo the range's width, shifted by `r.start`.
pub fn clamp_round(n: i64, r: std::ops::Range<i64>) -> (res: i64)
    requires
        r.start < r.end,
        i64::MIN <= n + r.start <= i64::MAX,
        r.end - r.start <= i64::MAX,
    ensures
        res == (n + r.start) % (r.end - r.start) + r.start,
{
    let width = r.end - r.start;
    rem_euclid(n + r.start, width) + r.start
}

} // verus!
