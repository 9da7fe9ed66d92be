use vstd::prelude::*;
use crate::ops::Vec2;
use crate::player::PlayerAction;
use crate::units::{goals_after, Goal};
use crate::world::{nth_group_id, IdAllocator, WorldId};

verus! {

/// Something with an address in the world.
pub trait Identifiable {
    /// The address.
    spec fn id_spec(&self) -> WorldId;

    fn get_id(&self) -> (id: WorldId)
        ensures
            id == self.id_spec(),
    ;

    /// Takes the next group address from `ids`.
    fn generate_id(&self, ids: &mut IdAllocator) -> (id: WorldId)
        requires
            old(ids).has_room(),
        ensures
            id == nth_group_id(old(ids).count()),
            final(ids).count() == old(ids).count() + 1,
    ;
}

/// Something the player can mark as selected.
pub trait Selectable {
    /// Whether it is marked.
    spec fn is_selected(&self) -> bool;

    fn select(&mut self)
        ensures
            final(self).is_selected(),
    ;

    fn deselect(&mut self)
        ensures
            !final(self).is_selected(),
    ;
}

/// Something that takes orders into a queue of goals; the front goal is the active one.
pub trait Controllable<T> {
    /// The queued goals, the active one first.
    spec fn orders(&self) -> Seq<Goal<T>>;

    /// The direction that an order without one of its own is given.
    spec fn facing(&self) -> Vec2<T>;

    /// Drops every queued goal and makes `goal` the only one.
    fn new_order(&mut self, goal: Goal<T>)
        ensures
            final(self).orders() == seq![goal],
            final(self).facing() == old(self).facing(),
    ;

    /// Queues `goal` behind the goals that are there.
    fn add_order(&mut self, goal: Goal<T>)
        ensures
            final(self).orders() == old(self).orders().push(goal),
            final(self).facing() == old(self).facing(),
    ;

    /// Turns what the player asked for into orders.
    fn assign_goals(&mut self, action: PlayerAction<T>)
        ensures
            final(self).orders() == goals_after(old(self).orders(), action, old(self).facing()),
            final(self).facing() == old(self).facing(),
    ;
}

} // verus!
