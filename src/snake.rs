//! The snake: a chain of cells, head first, that moves follow-the-leader
//! on a grid whose edges wrap around.
use vstd::prelude::*;

use crate::direction::{vector_of, Direction};
use crate::entity::Entity;
use crate::game_object::GameObject;
use crate::utils::{clamp_round, Coord, COLUMNS, ROWS};

verus! {

/// Whether `v` is a value of `i32`.
pub open spec fn fits_i32(v: int) -> bool {
    i32::MIN <= v <= i32::MAX
}

/// Cell `i` of a snake laid out from `origin`: `i` steps against `d`.
pub open spec fn trail_cell(origin: Coord, d: Direction, i: int) -> Coord {
    match d {
        Direction::Up => Coord { x: origin.x, y: (origin.y + i) as i32 },
        Direction::Down => Coord { x: origin.x, y: (origin.y - i) as i32 },
        Direction::Left => Coord { x: (origin.x + i) as i32, y: origin.y },
        Direction::Right => Coord { x: (origin.x - i) as i32, y: origin.y },
    }
}

/// Whether every cell of a snake of `n` cells laid out from `origin`
/// against `d` has coordinates that are values of `i32`.
pub open spec fn trail_fits(origin: Coord, d: Direction, n: int) -> bool {
    match d {
        Direction::Up => fits_i32(origin.y + (n - 1)),
        Direction::Down => fits_i32(origin.y - (n - 1)),
        Direction::Left => fits_i32(origin.x + (n - 1)),
        Direction::Right => fits_i32(origin.x - (n - 1)),
    }
}

/// The body of a new snake of `n` cells: the head at `origin`, the rest
/// trailing behind it against the direction `d`.
pub open spec fn initial_body(origin: Coord, d: Direction, n: int) -> Seq<Coord> {
    Seq::new(n as nat, |i: int| trail_cell(origin, d, i))
}

/// The cell one step from `c` in direction `d`, each axis wrapped into the
/// grid by Euclidean remainder.
pub open spec fn next_cell(c: Coord, d: Direction) -> Coord {
    Coord {
        x: ((c.x + vector_of(d).x) % (COLUMNS as int)) as i32,
        y: ((c.y + vector_of(d).y) % (ROWS as int)) as i32,
    }
}

/// Whether `c` lies on the grid.
pub open spec fn on_grid(c: Coord) -> bool {
    0 <= c.x < COLUMNS && 0 <= c.y < ROWS
}

/// The body after one step to the cell `head`: `head` in front, every other
/// cell taking its predecessor's old place, the old tail dropped.
pub open spec fn shifted(body: Seq<Coord>, head: Coord) -> Seq<Coord> {
    seq![head] + body.drop_last()
}

/// A new snake of `n` cells has `n` cells, its head at `origin`, and each
/// further cell one unit from its predecessor against the direction `d`.
pub proof fn lemma_initial_body_layout(origin: Coord, d: Direction, n: int)
    requires
        n >= 1,
        trail_fits(origin, d, n),
    ensures
        initial_body(origin, d, n).len() == n,
        initial_body(origin, d, n)[0] == origin,
        forall|i: int|
            0 < i < n ==> {
                &&& (#[trigger] initial_body(origin, d, n)[i]).x == initial_body(origin, d, n)[i
                    - 1].x - vector_of(d).x
                &&& initial_body(origin, d, n)[i].y == initial_body(origin, d, n)[i - 1].y
                    - vector_of(d).y
            },
{
}

/// A step off an edge of the grid comes back in at the opposite edge: the
/// grid is a torus, not a walled box.
pub proof fn lemma_wrap_at_edges(c: Coord)
    ensures
        c.x == COLUMNS - 1 ==> next_cell(c, Direction::Right).x == 0,
        c.x == 0 ==> next_cell(c, Direction::Left).x == COLUMNS - 1,
        c.y == 0 ==> next_cell(c, Direction::Up).y == ROWS - 1,
        c.y == ROWS - 1 ==> next_cell(c, Direction::Down).y == 0,
{
}

/// Relies on `uuid::Uuid::new_v4` and `uuid::Uuid::as_u128`: a fresh random
/// identifier, as an integer. Nothing is promised of its value.
#[verifier::external_body]
fn new_id() -> (r: u128) {
    uuid::Uuid::new_v4().as_u128()
}

/// The player's snake.
#[derive(Debug)]
pub struct Snake {
    id: u128,
    body: Vec<Coord>,
}

impl Snake {
    #[verifier::type_invariant]
    spec fn inv(self) -> bool {
        self.body@.len() >= 1
    }

    /// A snake of `initial_size` cells with a fresh random identity, its head
    /// at `origin` and the rest trailing behind against `direction`.
    pub fn new(origin: Coord, direction: Direction, initial_size: i32) -> (s: Snake)
        requires
            initial_size >= 1,
            trail_fits(origin, direction, initial_size as int),
        ensures
            s.body() == initial_body(origin, direction, initial_size as int),
            s.entity() == Entity::Player,
    {
        Snake::with_id(new_id(), origin, direction, initial_size)
    }

    /// A snake with the identity `id`, laid out as by `new`.
    pub fn with_id(id: u128, origin: Coord, direction: Direction, initial_size: i32) -> (s: Snake)
        requires
            initial_size >= 1,
            trail_fits(origin, direction, initial_size as int),
        ensures
            s.id() == id,
            s.body() == initial_body(origin, direction, initial_size as int),
            s.entity() == Entity::Player,
    {
        let v = direction.to_vector();
        let mut body: Vec<Coord> = Vec::with_capacity(initial_size as usize);
        let mut cell = origin;
        let mut i: i32 = 0;
        while i < initial_size
            invariant
                0 <= i <= initial_size,
                v == vector_of(direction),
                trail_fits(origin, direction, initial_size as int),
                i < initial_size ==> cell == trail_cell(origin, direction, i as int),
                body@ == initial_body(origin, direction, i as int),
            decreases initial_size - i,
        {
            body.push(cell);
            assert(body@ =~= initial_body(origin, direction, i + 1));
            if i + 1 < initial_size {
                cell = Coord { x: cell.x - v.x, y: cell.y - v.y };
            }
            i = i + 1;
        }
        Snake { id, body }
    }

    /// The cell the head moves to with one step in `direction`.
    pub fn next_head(&self, direction: Direction) -> (c: Coord)
        ensures
            c == next_cell(self.body()[0], direction),
            on_grid(c),
    {
        proof {
            use_type_invariant(self);
        }
        let head = self.body[0];
        let v = direction.to_vector();
        let x = clamp_round(head.x as i64 + v.x as i64, 0..COLUMNS as i64);
        let y = clamp_round(head.y as i64 + v.y as i64, 0..ROWS as i64);
        Coord { x: x as i32, y: y as i32 }
    }
}

impl GameObject for Snake {
    closed spec fn body(&self) -> Seq<Coord> {
        self.body@
    }

    open spec fn entity(&self) -> Entity {
        Entity::Player
    }

    closed spec fn id(&self) -> u128 {
        self.id
    }

    /// Moves the head one step in `direction`, wrapping around the grid's
    /// edges, and makes every other cell take its predecessor's place; the
    /// old tail cell is dropped. The new body is built whole and then
    /// replaces the old one.
    fn move_to(&mut self, direction: Direction)
        ensures
            final(self).body() == shifted(old(self).body(), next_cell(old(self).body()[0], direction)),
            final(self).body()[0] == next_cell(old(self).body()[0], direction),
            on_grid(final(self).body()[0]),
            forall|i: int|
                0 < i < old(self).body().len() ==> #[trigger] final(self).body()[i] == old(self).body()[i - 1],
    {
        proof {
            use_type_invariant(&*self);
        }
        let new_head = self.next_head(direction);
        let len = self.body.len();
        let mut new_body: Vec<Coord> = Vec::with_capacity(len);
        new_body.push(new_head);
        let mut i: usize = 0;
        while i + 1 < len
            invariant
                1 <= len,
                len == self.body@.len(),
                i + 1 <= len,
                new_body@ == seq![new_head] + self.body@.subrange(0, i as int),
            decreases len - i,
        {
            new_body.push(self.body[i]);
            assert(new_body@ =~= seq![new_head] + self.body@.subrange(0, i + 1));
            i = i + 1;
        }
        assert(new_body@ =~= shifted(self.body@, new_head));
        self.body = new_body;
    }

    fn get_body(&self) -> (r: Vec<Coord>) {
        self.body.clone()
    }

    fn get_entity(&self) -> (r: Entity) {
        Entity::Player
    }

    fn get_id(&self) -> (r: u128) {
        self.id
    }
}

} // verus!
