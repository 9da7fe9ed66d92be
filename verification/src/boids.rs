use vstd::prelude::*;
use crate::ops::{is_default, Vec2};

verus! {

/// What an agent is doing.
#[derive(Debug, Copy, Clone, PartialEq, Eq)]
pub enum BoidState {
    Stationary,
    Accelerating,
    Decelerating,
    Marching,
    Idle,
}

impl Default for BoidState {
    /// A new agent stands still.
    fn default() -> (state: Self)
        ensures
            state == BoidState::Stationary,
    {
        BoidState::Stationary
    }
}

/// One agent: a row of the entity store.
#[derive(Debug, Copy, Clone, PartialEq)]
pub struct Boid<T> {
    pub pos: Vec2<T>,
    pub vel: Vec2<T>,
    /// Direction the agent faces, in radians.
    pub heading: T,
    pub state: BoidState,
    pub color: [T; 4],
}

impl<T: Default> Boid<T> {
    /// Whether the agent stands still with every number at the coordinate type's default.
    pub open spec fn is_zeroed(self) -> bool {
        &&& is_default(self.pos.x)
        &&& is_default(self.pos.y)
        &&& is_default(self.vel.x)
        &&& is_default(self.vel.y)
        &&& is_default(self.heading)
        &&& forall|k: int| 0 <= k < 4 ==> is_default(#[trigger] self.color@[k])
        &&& self.state == BoidState::Stationary
    }
}

impl<T: Default> Default for Boid<T> {
    fn default() -> (boid: Self)
        ensures
            boid.is_zeroed(),
    {
        Boid {
            pos: Vec2::default(),
            vel: Vec2::default(),
            heading: T::default(),
            state: BoidState::Stationary,
            color: [T::default(), T::default(), T::default(), T::default()],
        }
    }
}

/// The agents of one group, stored column by column: position `i` of every
/// column belongs to agent `i`.
pub struct BoidVec<T> {
    pos: Vec<Vec2<T>>,
    vel: Vec<Vec2<T>>,
    heading: Vec<T>,
    state: Vec<BoidState>,
    color: Vec<[T; 4]>,
}

impl<T> View for BoidVec<T> {
    type V = Seq<Boid<T>>;

    /// The agents in index order, each put together from the columns.
    closed spec fn view(&self) -> Seq<Boid<T>> {
        Seq::new(
            self.pos@.len(),
            |i: int|
                Boid {
                    pos: self.pos@[i],
                    vel: self.vel@[i],
                    heading: self.heading@[i],
                    state: self.state@[i],
                    color: self.color@[i],
                },
        )
    }
}

impl<T: Copy> BoidVec<T> {
    /// All columns have the same length.
    pub closed spec fn wf(&self) -> bool {
        &&& self.vel@.len() == self.pos@.len()
        &&& self.heading@.len() == self.pos@.len()
        &&& self.state@.len() == self.pos@.len()
        &&& self.color@.len() == self.pos@.len()
    }

    /// A store without agents.
    pub fn new() -> (store: Self)
        ensures
            store.wf(),
            store@ == Seq::<Boid<T>>::empty(),
    {
        BoidVec {
            pos: Vec::new(),
            vel: Vec::new(),
            heading: Vec::new(),
            state: Vec::new(),
            color: Vec::new(),
        }
    }

    /// A store without agents, with room for `capacity` of them.
    pub fn with_capacity(capacity: usize) -> (store: Self)
        ensures
            store.wf(),
            store@ == Seq::<Boid<T>>::empty(),
    {
        BoidVec {
            pos: Vec::with_capacity(capacity),
            vel: Vec::with_capacity(capacity),
            heading: Vec::with_capacity(capacity),
            state: Vec::with_capacity(capacity),
            color: Vec::with_capacity(capacity),
        }
    }

    /// The number of agents.
    pub fn len(&self) -> (n: usize)
        requires
            self.wf(),
        ensures
            n == self@.len(),
    {
        self.pos.len()
    }

    /// Whether the store holds no agent.
    pub fn is_empty(&self) -> (b: bool)
        requires
            self.wf(),
        ensures
            b == (self@.len() == 0),
    {
        self.pos.len() == 0
    }

    /// Appends one agent.
    pub fn push(&mut self, boid: Boid<T>)
        requires
            old(self).wf(),
        ensures
            final(self).wf(),
            final(self)@ == old(self)@.push(boid),
    {
        self.pos.push(boid.pos);
        self.vel.push(boid.vel);
        self.heading.push(boid.heading);
        self.state.push(boid.state);
        self.color.push(boid.color);
    }

    /// The agent at `index`.
    pub fn get(&self, index: usize) -> (boid: Boid<T>)
        requires
            self.wf(),
            index < self@.len(),
        ensures
            boid == self@[index as int],
    {
        Boid {
            pos: self.pos[index],
            vel: self.vel[index],
            heading: self.heading[index],
            state: self.state[index],
            color: self.color[index],
        }
    }

    /// Replaces the agent at `index`.
    pub fn set(&mut self, index: usize, boid: Boid<T>)
        requires
            old(self).wf(),
            index < old(self)@.len(),
        ensures
            final(self).wf(),
            final(self)@ == old(self)@.update(index as int, boid),
    {
        self.pos[index] = boid.pos;
        self.vel[index] = boid.vel;
        self.heading[index] = boid.heading;
        self.state[index] = boid.state;
        self.color[index] = boid.color;
    }

    /// The position of the agent at `index`.
    pub fn pos(&self, index: usize) -> (pos: Vec2<T>)
        requires
            self.wf(),
            index < self@.len(),
        ensures
            pos == self@[index as int].pos,
    {
        self.pos[index]
    }

    /// Gives the agent at `index` a new position and leaves the rest of the store as it is.
    pub fn set_pos(&mut self, index: usize, pos: Vec2<T>)
        requires
            old(self).wf(),
            index < old(self)@.len(),
        ensures
            final(self).wf(),
            final(self)@ == old(self)@.update(
                index as int,
                (Boid { pos, ..old(self)@[index as int] }),
            ),
    {
        self.pos[index] = pos;
    }

    /// The velocity of the agent at `index`.
    pub fn vel(&self, index: usize) -> (vel: Vec2<T>)
        requires
            self.wf(),
            index < self@.len(),
        ensures
            vel == self@[index as int].vel,
    {
        self.vel[index]
    }

    /// Gives the agent at `index` a new velocity and leaves the rest of the store as it is.
    pub fn set_vel(&mut self, index: usize, vel: Vec2<T>)
        requires
            old(self).wf(),
            index < old(self)@.len(),
        ensures
            final(self).wf(),
            final(self)@ == old(self)@.update(
                index as int,
                (Boid { vel, ..old(self)@[index as int] }),
            ),
    {
        self.vel[index] = vel;
    }

    /// The heading of the agent at `index`.
    pub fn heading(&self, index: usize) -> (heading: T)
        requires
            self.wf(),
            index < self@.len(),
        ensures
            heading == self@[index as int].heading,
    {
        self.heading[index]
    }

    /// Gives the agent at `index` a new heading and leaves the rest of the store as it is.
    pub fn set_heading(&mut self, index: usize, heading: T)
        requires
            old(self).wf(),
            index < old(self)@.len(),
        ensures
            final(self).wf(),
            final(self)@ == old(self)@.update(
                index as int,
                (Boid { heading, ..old(self)@[index as int] }),
            ),
    {
        self.heading[index] = heading;
    }

    /// The motion state of the agent at `index`.
    pub fn state(&self, index: usize) -> (state: BoidState)
        requires
            self.wf(),
            index < self@.len(),
        ensures
            state == self@[index as int].state,
    {
        self.state[index]
    }

    /// Gives the agent at `index` a new motion state and leaves the rest of the store as it is.
    pub fn set_state(&mut self, index: usize, state: BoidState)
        requires
            old(self).wf(),
            index < old(self)@.len(),
        ensures
            final(self).wf(),
            final(self)@ == old(self)@.update(
                index as int,
                (Boid { state, ..old(self)@[index as int] }),
            ),
    {
        self.state[index] = state;
    }

    /// The colour of the agent at `index`.
    pub fn color(&self, index: usize) -> (color: [T; 4])
        requires
            self.wf(),
            index < self@.len(),
        ensures
            color == self@[index as int].color,
    {
        self.color[index]
    }

    /// Gives the agent at `index` a new colour and leaves the rest of the store as it is.
    pub fn set_color(&mut self, index: usize, color: [T; 4])
        requires
            old(self).wf(),
            index < old(self)@.len(),
        ensures
            final(self).wf(),
            final(self)@ == old(self)@.update(
                index as int,
                (Boid { color, ..old(self)@[index as int] }),
            ),
    {
        self.color[index] = color;
    }

    /// The agents in index order. The store is left as it is, so this can be
    /// asked for again at any time.
    pub fn to_vec(&self) -> (boids: Vec<Boid<T>>)
        requires
            self.wf(),
        ensures
            boids@ == self@,
    {
        let mut boids: Vec<Boid<T>> = Vec::with_capacity(self.pos.len());
        let mut i: usize = 0;
        while i < self.pos.len()
            invariant
                self.wf(),
                i <= self@.len(),
                boids@ == self@.subrange(0, i as int),
            decreases self@.len() - i,
        {
            boids.push(self.get(i));
            i = i + 1;
        }
        boids
    }

    /// A store of `num` copies of `boid`.
    pub fn filled(num: usize, boid: Boid<T>) -> (store: Self)
        ensures
            store.wf(),
            store@ == Seq::new(num as nat, |i: int| boid),
    {
        let mut store = BoidVec::with_capacity(num);
        let mut i: usize = 0;
        while i < num
            invariant
                store.wf(),
                i <= num,
                store@ == Seq::new(i as nat, |k: int| boid),
            decreases num - i,
        {
            store.push(boid);
            i = i + 1;
        }
        store
    }
}

impl<T: Copy + Default> BoidVec<T> {
    /// A store of `num` agents that stand still at the origin, every number zeroed.
    pub fn zeros(num: usize) -> (store: Self)
        ensures
            store.wf(),
            store@.len() == num,
            forall|i: int| 0 <= i < num ==> (#[trigger] store@[i]).is_zeroed(),
    {
        let mut store = BoidVec::with_capacity(num);
        let mut i: usize = 0;
        while i < num
            invariant
                store.wf(),
                i <= num,
                store@.len() == i,
                forall|k: int| 0 <= k < i ==> (#[trigger] store@[k]).is_zeroed(),
            decreases num - i,
        {
            store.push(Boid::default());
            i = i + 1;
        }
        store
    }
}

} // verus!
