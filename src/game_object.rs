//! What every object on the grid can do.
use vstd::prelude::*;

use crate::direction::Direction;
use crate::entity::Entity;
use crate::utils::Coord;

verus! {

/// An object that occupies cells of the grid and can be moved.
pub trait GameObject {
    /// The cells the object occupies, head first.
    spec fn body(&self) -> Seq<Coord>;

    /// The object's kind.
    spec fn entity(&self) -> Entity;

    /// The object's identity, fixed for its whole life.
    spec fn id(&self) -> u128;

    /// Moves the object one step in `direction`; its kind, identity and
    /// number of cells stay as they are.
    fn move_to(&mut self, direction: Direction)
        ensures
            final(self).id() == old(self).id(),
            final(self).entity() == old(self).entity(),
            final(self).body().len() == old(self).body().len(),
    ;

    /// The cells the object occupies, head first.
    fn get_body(&self) -> (r: Vec<Coord>)
        ensures
            r@ == self.body(),
    ;

    /// The object's kind.
    fn get_entity(&self) -> (r: Entity)
        ensures
            r == self.entity(),
    ;

    /// The object's identity.
    fn get_id(&self) -> (r: u128)
        ensures
            r == self.id(),
    ;
}

} // verus!
