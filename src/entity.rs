//! The kinds of objects that the registry can hold.
use vstd::prelude::*;

verus! {

/// Kind of a movable object. Only players are driven by the engine.
#[derive(Clone, Copy, Debug, PartialEq, Eq, Structural)]
pub enum Entity {
    Player,
    Enemy,
    Obstacle,
}

} // verus!
