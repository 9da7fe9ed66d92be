use vstd::prelude::*;

verus! {

/// How much of a group is kept live: `Cold` for the group as a whole only,
/// `Warm` once collisions are checked, `Hot` once single agents are reached.
#[derive(Debug, Copy, Clone, PartialEq, Eq)]
pub enum ContainerState {
    Cold,
    Warm,
    Hot,
}

/// Something that is kept at one of the three tiers and can be moved between them.
pub trait Container {
    /// The tier the container is at.
    spec fn tier(&self) -> ContainerState;

    fn cur_state(&self) -> (state: ContainerState)
        ensures
            state == self.tier(),
    ;

    fn to_cold(&mut self)
        ensures
            final(self).tier() == ContainerState::Cold,
    ;

    fn to_warm(&mut self)
        ensures
            final(self).tier() == ContainerState::Warm,
    ;

    fn to_hot(&mut self)
        ensures
            final(self).tier() == ContainerState::Hot,
    ;
}

} // verus!
