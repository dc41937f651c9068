//! The registry of movable objects, keyed by identity.
use vstd::prelude::*;

use crate::entity::Entity;
use crate::game_object::GameObject;
use crate::utils::{COLUMNS, ROWS};

verus! {

/// Why an object could not be added to the registry.
#[derive(Clone, Copy, Debug, PartialEq, Eq, Structural)]
pub enum GridError {
    /// An object with the same identity is already registered.
    DuplicateId { id: u128, entity: Entity },
}

/// Whether some object of `objects` has the identity `id`.
pub open spec fn holds_id<T: GameObject>(objects: Seq<T>, id: u128) -> bool {
    exists|i: int| 0 <= i < objects.len() && (#[trigger] objects[i]).id() == id
}

/// Whether no two objects of `objects` share an identity.
pub open spec fn ids_unique<T: GameObject>(objects: Seq<T>) -> bool {
    forall|i: int, j: int|
        0 <= i < objects.len() && 0 <= j < objects.len() && i != j ==> (#[trigger] objects[i]).id()
            != (#[trigger] objects[j]).id()
}

/// Whether `i` is the first position of `objects` that holds an object of
/// kind `kind`.
pub open spec fn first_of_kind<T: GameObject>(objects: Seq<T>, kind: Entity, i: int) -> bool {
    &&& 0 <= i < objects.len()
    &&& objects[i].entity() == kind
    &&& forall|j: int| 0 <= j < i ==> (#[trigger] objects[j]).entity() != kind
}

/// Two objects with distinct identities, neither of them registered, can
/// both be added one after the other, and both are registered afterwards.
pub proof fn lemma_distinct_inserts<T: GameObject>(before: Seq<T>, a: T, b: T)
    requires
        a.id() != b.id(),
        !holds_id(before, a.id()),
        !holds_id(before, b.id()),
    ensures
        !holds_id(before.push(a), b.id()),
        holds_id(before.push(a).push(b), a.id()),
        holds_id(before.push(a).push(b), b.id()),
{
    let once = before.push(a);
    let twice = once.push(b);
    assert(twice[before.len() as int] == a);
    assert(twice[once.len() as int] == b);
    assert forall|i: int| 0 <= i < once.len() implies (#[trigger] once[i]).id() != b.id() by {
        if i < before.len() {
            assert(once[i] == before[i]);
        }
    }
}

/// The objects in play, in the order they were registered. Every operation
/// keeps their identities distinct.
pub struct Grid<T: GameObject> {
    objects: Vec<T>,
}

impl<T: GameObject> View for Grid<T> {
    type V = Seq<T>;

    closed spec fn view(&self) -> Seq<T> {
        self.objects@
    }
}

impl<T: GameObject> Grid<T> {
    /// No two registered objects share an identity.
    pub open spec fn wf(&self) -> bool {
        ids_unique(self@)
    }

    /// Whether an object with the identity `id` is registered.
    pub open spec fn contains_id(&self, id: u128) -> bool {
        holds_id(self@, id)
    }

    /// An empty registry, with room for one object per cell of the grid.
    pub fn new() -> (g: Self)
        ensures
            g@ == Seq::<T>::empty(),
            g.wf(),
    {
        Grid { objects: Vec::with_capacity((ROWS * COLUMNS) as usize) }
    }

    /// Registers `obj`. An object with the same identity already there is a
    /// contract violation of the caller, reported as an error that names the
    /// identity and the kind; the registry is then left as it was.
    pub fn add_game_object(&mut self, obj: T) -> (r: Result<(), GridError>)
        ensures
            old(self).wf() ==> final(self).wf(),
            r is Ok <==> !old(self).contains_id(obj.id()),
            r is Ok ==> final(self)@ == old(self)@.push(obj),
            r is Err ==> final(self)@ == old(self)@,
            r is Err ==> r == Err::<(), GridError>(
                GridError::DuplicateId { id: obj.id(), entity: obj.entity() },
            ),
    {
        let obj_id = obj.get_id();
        let mut i: usize = 0;
        while i < self.objects.len()
            invariant
                i <= self.objects@.len(),
                obj_id == obj.id(),
                forall|j: int| 0 <= j < i ==> (#[trigger] self.objects@[j]).id() != obj_id,
            decreases self.objects@.len() - i,
        {
            if self.objects[i].get_id() == obj_id {
                let entity = obj.get_entity();
                return Err(GridError::DuplicateId { id: obj_id, entity });
            }
            i = i + 1;
        }
        self.objects.push(obj);
        assert(forall|j: int| 0 <= j < old(self)@.len() ==> self.objects@[j] == old(self)@[j]);
        Ok(())
    }

    /// Takes the object with the identity `id` out of the registry and
    /// returns it; `None` when there is none. Afterwards no object with that
    /// identity is left.
    pub fn remove_game_object_by_id(&mut self, id: &u128) -> (r: Option<T>)
        requires
            old(self).wf(),
        ensures
            final(self).wf(),
            r is Some <==> old(self).contains_id(*id),
            r is None ==> final(self)@ == old(self)@,
            r matches Some(o) ==> o.id() == *id && exists|i: int|
                0 <= i < old(self)@.len() && old(self)@[i] == o && final(self)@ == old(
                    self,
                )@.remove(i),
            !final(self).contains_id(*id),
    {
        let mut i: usize = 0;
        while i < self.objects.len()
            invariant
                i <= self.objects@.len(),
                self.objects@ == old(self)@,
                ids_unique(old(self)@),
                forall|j: int| 0 <= j < i ==> (#[trigger] self.objects@[j]).id() != *id,
            decreases self.objects@.len() - i,
        {
            if self.objects[i].get_id() == *id {
                let ghost before = self.objects@;
                let o = self.objects.remove(i);
                proof {
                    assert forall|j: int| 0 <= j < self.objects@.len() implies (
                    #[trigger] self.objects@[j]).id() != *id by {
                        let j0 = if j < i { j } else { j + 1 };
                        assert(self.objects@[j] == before[j0]);
                        assert(before[j0].id() != before[i as int].id());
                    }
                    assert forall|a: int, b: int|
                        0 <= a < self.objects@.len() && 0 <= b < self.objects@.len() && a
                            != b implies (#[trigger] self.objects@[a]).id()
                        != (#[trigger] self.objects@[b]).id() by {
                        let a0 = if a < i { a } else { a + 1 };
                        let b0 = if b < i { b } else { b + 1 };
                        assert(self.objects@[a] == before[a0]);
                        assert(self.objects@[b] == before[b0]);
                    }
                }
                return Some(o);
            }
            i = i + 1;
        }
        None
    }

    /// The registered objects, in the order they were registered.
    pub fn game_objects(&self) -> (r: &Vec<T>)
        ensures
            r@ == self@,
    {
        &self.objects
    }

    /// The first registered object of kind `kind`, or `None` when there is
    /// none.
    pub fn find_by_kind(&self, kind: Entity) -> (r: Option<&T>)
        ensures
            r is None <==> forall|j: int| 0 <= j < self@.len() ==> (#[trigger] self@[j]).entity() != kind,
            r matches Some(o) ==> exists|i: int| first_of_kind(self@, kind, i) && self@[i] == *o,
    {
        let mut i: usize = 0;
        while i < self.objects.len()
            invariant
                i <= self.objects@.len(),
                forall|j: int| 0 <= j < i ==> (#[trigger] self.objects@[j]).entity() != kind,
            decreases self.objects@.len() - i,
        {
            if self.objects[i].get_entity() == kind {
                assert(first_of_kind(self@, kind, i as int));
                return Some(&self.objects[i]);
            }
            i = i + 1;
        }
        None
    }
}

} // verus!
