use vstd::prelude::*;
use std::collections::HashSet;
use crate::boids::BoidVec;
use crate::ops::Vec2;
use crate::player::PlayerAction;
use crate::traits::Identifiable;
use crate::units::{BasicUnit, CompositeUnit, StepOutcome, StepPlan, Unit};

verus! {

/// Flat address of a group or of one of its agents.
pub type WorldId = usize;

/// Address of the whole world; no group and no agent ever carries it.
pub const WORLD_ID: WorldId = 0;

/// Number of addresses set aside for one group: its own, then those of its agents.
pub const GROUP_CAPACITY: usize = 256;

/// Whether `id` is a multiple of the group capacity: a group's address or the world's.
pub open spec fn spec_is_container(id: int) -> bool {
    id % (GROUP_CAPACITY as int) == 0
}

/// Whether `id` is the address of a group: a nonzero multiple of the group capacity.
pub open spec fn is_group_id(id: int) -> bool {
    id % (GROUP_CAPACITY as int) == 0 && id >= GROUP_CAPACITY
}

/// The group that owns `id`: `id` rounded down to a multiple of the capacity,
/// provided that this is the address of a group.
pub open spec fn spec_group_of(id: int) -> Option<int> {
    let base = id - id % (GROUP_CAPACITY as int);
    if base >= GROUP_CAPACITY {
        Some(base)
    } else {
        None
    }
}

/// The address of the agent at `local` within `group`.
pub open spec fn spec_agent_id(group: int, local: int) -> int {
    group + local + 1
}

/// The position within its group of the agent at `id`, where `id` addresses an agent.
pub open spec fn spec_local_index(id: int) -> Option<int> {
    if id % (GROUP_CAPACITY as int) == 0 {
        None
    } else {
        Some(id % (GROUP_CAPACITY as int) - 1)
    }
}

/// The address handed to the group that is constructed after `n` others.
pub open spec fn nth_group_id(n: nat) -> int {
    GROUP_CAPACITY * (n + 1)
}

/// Tells the addresses of groups (and of the world) from those of agents.
pub fn is_container(id: WorldId) -> (b: bool)
    ensures
        b == spec_is_container(id as int),
{
    id % GROUP_CAPACITY == 0
}

/// The address of the group that owns `id`, or `None` where `id` lies below the
/// first group: the world's own address and the slots after it belong to nobody.
pub fn get_group_of(id: WorldId) -> (owner: Option<WorldId>)
    ensures
        owner == match spec_group_of(id as int) {
            Some(g) => Some(g as usize),
            None => None::<usize>,
        },
{
    let base: usize = id - id % GROUP_CAPACITY;
    if base >= GROUP_CAPACITY {
        Some(base)
    } else {
        None
    }
}

/// Whether `id` addresses an agent of the group at `group`.
pub fn is_agent_of(id: WorldId, group: WorldId) -> (b: bool)
    ensures
        b == (!spec_is_container(id as int) && spec_group_of(id as int) == Some(group as int)),
{
    id % GROUP_CAPACITY != 0 && id - id % GROUP_CAPACITY == group && group >= GROUP_CAPACITY
}

/// The address of the agent at position `local` of the group at `group`.
pub fn agent_id(group: WorldId, local: usize) -> (id: WorldId)
    requires
        is_group_id(group as int),
        local + 1 < GROUP_CAPACITY,
    ensures
        id == spec_agent_id(group as int, local as int),
        !spec_is_container(id as int),
        spec_group_of(id as int) == Some(group as int),
        spec_local_index(id as int) == Some(local as int),
{
    proof {
        lemma_group_id_leaves_room(group);
        lemma_agent_id_round_trip(group as int, local as int);
    }
    group + local + 1
}

/// The position within its group of the agent at `id`; `None` for a group's
/// address and for the world's.
pub fn local_index_of(id: WorldId) -> (local: Option<usize>)
    ensures
        local == match spec_local_index(id as int) {
            Some(i) => Some(i as usize),
            None => None::<usize>,
        },
{
    let rest: usize = id % GROUP_CAPACITY;
    if rest == 0 {
        None
    } else {
        Some(rest - 1)
    }
}

/// A machine word that holds a multiple of the capacity also holds the
/// addresses of all the agents behind it.
pub proof fn lemma_group_id_leaves_room(group: usize)
    requires
        group % GROUP_CAPACITY == 0,
    ensures
        group + GROUP_CAPACITY - 1 <= usize::MAX,
{
    assert(usize::MAX == 0xffff_ffff || usize::MAX == 0xffff_ffff_ffff_ffff) by {
        assert(usize::BITS == 32 || usize::BITS == 64);
    }
}

/// Every agent's address leads back to its group and to its position there,
/// and is never taken for the address of a group.
pub proof fn lemma_agent_id_round_trip(group: int, local: int)
    requires
        is_group_id(group),
        0 <= local,
        local + 1 < GROUP_CAPACITY,
    ensures
        spec_group_of(spec_agent_id(group, local)) == Some(group),
        spec_local_index(spec_agent_id(group, local)) == Some(local),
        !spec_is_container(spec_agent_id(group, local)),
{
}

/// Two agents share an address only if they are the same agent of the same group.
pub proof fn lemma_agent_id_injective(group_a: int, local_a: int, group_b: int, local_b: int)
    requires
        is_group_id(group_a),
        is_group_id(group_b),
        0 <= local_a,
        local_a + 1 < GROUP_CAPACITY,
        0 <= local_b,
        local_b + 1 < GROUP_CAPACITY,
        spec_agent_id(group_a, local_a) == spec_agent_id(group_b, local_b),
    ensures
        group_a == group_b,
        local_a == local_b,
{
    lemma_agent_id_round_trip(group_a, local_a);
    lemma_agent_id_round_trip(group_b, local_b);
}

/// The addresses handed to groups are addresses of groups, all different, and
/// grow with the order of construction.
pub proof fn lemma_nth_group_id(n: nat, m: nat)
    ensures
        is_group_id(nth_group_id(n)),
        n < m ==> nth_group_id(n) < nth_group_id(m),
        nth_group_id(n) != WORLD_ID,
{
    assert((GROUP_CAPACITY * (n + 1)) % (GROUP_CAPACITY as int) == 0) by (nonlinear_arith);
    assert(n < m ==> GROUP_CAPACITY * (n + 1) < GROUP_CAPACITY * (m + 1)) by (nonlinear_arith);
    assert(GROUP_CAPACITY * (n + 1) >= GROUP_CAPACITY) by (nonlinear_arith);
}

/// Hands out the addresses of groups, in the order of their construction.
pub struct IdAllocator {
    issued: usize,
}

impl IdAllocator {
    /// How many addresses were handed out so far.
    pub closed spec fn count(&self) -> nat {
        self.issued as nat
    }

    /// Whether the next address still fits in a machine word.
    pub open spec fn has_room(&self) -> bool {
        nth_group_id(self.count()) <= usize::MAX
    }

    /// An allocator that has handed out nothing yet.
    pub fn new() -> (ids: Self)
        ensures
            ids.count() == 0,
    {
        IdAllocator { issued: 0 }
    }

    /// How many addresses were handed out so far.
    pub fn issued(&self) -> (n: usize)
        ensures
            n == self.count(),
    {
        self.issued
    }

    /// Whether `generate_id` may be called.
    pub fn can_generate(&self) -> (b: bool)
        ensures
            b == self.has_room(),
    {
        let limit: usize = usize::MAX / GROUP_CAPACITY;
        proof {
            let n = self.issued as int;
            let l = limit as int;
            let c = GROUP_CAPACITY as int;
            assert(l * c <= usize::MAX && (l + 1) * c > usize::MAX) by {
                assert(usize::BITS == 32 || usize::BITS == 64);
            }
            assert(n + 1 <= l ==> c * (n + 1) <= l * c) by (nonlinear_arith)
                requires c == 256;
            assert(n + 1 > l ==> c * (n + 1) >= (l + 1) * c) by (nonlinear_arith)
                requires c == 256;
        }
        self.issued < limit
    }

    /// The address of the next group: the capacity times one more than the
    /// number of groups made before it.
    pub fn generate_id(&mut self) -> (id: WorldId)
        requires
            old(self).has_room(),
        ensures
            id == nth_group_id(old(self).count()),
            is_group_id(id as int),
            final(self).count() == old(self).count() + 1,
    {
        proof {
            lemma_nth_group_id(self.count(), self.count());
            assert(GROUP_CAPACITY * (self.issued + 1) >= self.issued + 1) by (nonlinear_arith);
        }
        let id: usize = GROUP_CAPACITY * (self.issued + 1);
        self.issued = self.issued + 1;
        id
    }
}

/// What the geometry found for one unit: whether the unit itself is hit, and
/// one flag per agent, in index order, that says whether that agent is.
pub struct Probe {
    pub in_bounds: bool,
    pub near: Vec<bool>,
}

/// The addresses that a click reports for one unit: nothing where the unit is
/// missed, else the unit's own address and, behind it, that of the first
/// agent hit, if any.
pub open spec fn unit_ids_at<T: Copy>(unit: Unit<T>, probe: Probe) -> Seq<WorldId> {
    if !probe.in_bounds {
        Seq::empty()
    } else {
        match unit.agent_at(probe.near@) {
            Some(agent) => seq![unit.id_spec(), agent],
            None => seq![unit.id_spec()],
        }
    }
}

/// The addresses that a click reports for the first `n` units, in their order.
pub open spec fn ids_at<T: Copy>(units: Seq<Unit<T>>, probes: Seq<Probe>, n: nat) -> Seq<WorldId>
    decreases n,
{
    if n == 0 {
        Seq::empty()
    } else {
        ids_at(units, probes, (n - 1) as nat) + unit_ids_at(units[n - 1], probes[n - 1])
    }
}

/// The addresses that a drag reports for one unit: the unit's own address
/// where the unit is inside, then those of all its agents that are.
pub open spec fn unit_ids_in_rect<T: Copy>(unit: Unit<T>, probe: Probe) -> Seq<WorldId> {
    let own = if probe.in_bounds {
        seq![unit.id_spec()]
    } else {
        Seq::empty()
    };
    own + unit.agents_in(probe.near@)
}

/// The addresses that a drag reports for the first `n` units, in their order.
pub open spec fn ids_in_rect<T: Copy>(units: Seq<Unit<T>>, probes: Seq<Probe>, n: nat) -> Seq<
    WorldId,
>
    decreases n,
{
    if n == 0 {
        Seq::empty()
    } else {
        ids_in_rect(units, probes, (n - 1) as nat) + unit_ids_in_rect(units[n - 1], probes[n - 1])
    }
}

/// The smaller of two lengths.
pub open spec fn shorter(a: nat, b: nat) -> nat {
    if a <= b {
        a
    } else {
        b
    }
}

/// The units of the simulation in the order of their construction, and the
/// allocator that gives them their addresses.
pub struct World<T> {
    groups: Vec<Unit<T>>,
    ids: IdAllocator,
}

impl<T> View for World<T> {
    type V = Seq<Unit<T>>;

    closed spec fn view(&self) -> Seq<Unit<T>> {
        self.groups@
    }
}

impl<T: Copy> World<T> {
    /// How many group addresses the world has handed out.
    pub closed spec fn issued(&self) -> nat {
        self.ids.count()
    }

    /// Every unit is well formed, carries an address that the world handed
    /// out, and addresses grow along the list.
    pub open spec fn wf(&self) -> bool {
        &&& forall|i: int| 0 <= i < self@.len() ==> (#[trigger] self@[i]).wf()
        &&& forall|i: int|
            0 <= i < self@.len() ==> (#[trigger] self@[i]).id_spec() < nth_group_id(self.issued())
        &&& forall|i: int, j: int|
            0 <= i < j < self@.len() ==> (#[trigger] self@[i]).id_spec() < (
            #[trigger] self@[j]).id_spec()
    }

    /// Whether the world can still give a new unit an address.
    pub open spec fn has_room(&self) -> bool {
        nth_group_id(self.issued()) <= usize::MAX
    }

    /// A world without units.
    pub fn new() -> (world: Self)
        ensures
            world.wf(),
            world@.len() == 0,
            world.issued() == 0,
    {
        World { groups: Vec::new(), ids: IdAllocator::new() }
    }

    /// Whether `add_company` and `add_battalion` may be called.
    pub fn can_add(&self) -> (b: bool)
        ensures
            b == self.has_room(),
    {
        self.ids.can_generate()
    }

    /// Puts a new group of the given agents at the end of the list and
    /// returns its address, the next one in line.
    pub fn add_company(
        &mut self,
        pos: Vec2<T>,
        direction: Vec2<T>,
        radius: T,
        entities: BoidVec<T>,
    ) -> (id: WorldId)
        requires
            old(self).wf(),
            old(self).has_room(),
            entities.wf(),
            entities@.len() < GROUP_CAPACITY,
        ensures
            final(self).wf(),
            id == nth_group_id(old(self).issued()),
            final(self).issued() == old(self).issued() + 1,
            final(self)@.len() == old(self)@.len() + 1,
            final(self)@.subrange(0, old(self)@.len() as int) == old(self)@,
            final(self)@.last() matches Unit::BasicUnit(b) && b@ == BasicUnit::new_view(
                id,
                pos,
                direction,
                radius,
                entities@,
            ),
    {
        proof {
            lemma_nth_group_id(self.issued(), self.issued() + 1);
        }
        let ghost before = self@;
        let id = self.ids.generate_id();
        let unit = BasicUnit::new(id, pos, direction, radius, entities);
        self.groups.push(Unit::BasicUnit(unit));
        proof {
            assert forall|i: int| 0 <= i < before.len() implies #[trigger] self@[i] == before[i] by {}
            assert(self@[before.len() as int].id_spec() == id);
        }
        id
    }

    /// Puts a new unit made of the given groups at the end of the list and
    /// returns its address, the next one in line.
    pub fn add_battalion(
        &mut self,
        pos: Vec2<T>,
        direction: Vec2<T>,
        radius: T,
        troops: Vec<BasicUnit<T>>,
    ) -> (id: WorldId)
        requires
            old(self).wf(),
            old(self).has_room(),
            forall|i: int| 0 <= i < troops@.len() ==> (#[trigger] troops@[i]).wf(),
        ensures
            final(self).wf(),
            id == nth_group_id(old(self).issued()),
            final(self).issued() == old(self).issued() + 1,
            final(self)@.len() == old(self)@.len() + 1,
            final(self)@.subrange(0, old(self)@.len() as int) == old(self)@,
            final(self)@.last() matches Unit::CompositeUnit(c) && c@ == CompositeUnit::new_view(
                id,
                pos,
                direction,
                radius,
                troops@,
            ),
    {
        proof {
            lemma_nth_group_id(self.issued(), self.issued() + 1);
        }
        let ghost before = self@;
        let id = self.ids.generate_id();
        let unit = CompositeUnit::new(id, pos, direction, radius, troops);
        self.groups.push(Unit::CompositeUnit(unit));
        proof {
            assert forall|i: int| 0 <= i < before.len() implies #[trigger] self@[i] == before[i] by {}
            assert(self@[before.len() as int].id_spec() == id);
        }
        id
    }

    /// A world of one group, made of the given agents.
    pub fn single_company(
        pos: Vec2<T>,
        direction: Vec2<T>,
        radius: T,
        entities: BoidVec<T>,
    ) -> (world: Self)
        requires
            entities.wf(),
            entities@.len() < GROUP_CAPACITY,
        ensures
            world.wf(),
            world@.len() == 1,
            world.issued() == 1,
            world@[0] matches Unit::BasicUnit(b) && b@ == BasicUnit::new_view(
                GROUP_CAPACITY,
                pos,
                direction,
                radius,
                entities@,
            ),
    {
        let mut world = World::new();
        let _ = world.add_company(pos, direction, radius, entities);
        world
    }

    /// A world of one unit, made of the given groups.
    pub fn single_battalion(
        pos: Vec2<T>,
        direction: Vec2<T>,
        radius: T,
        troops: Vec<BasicUnit<T>>,
    ) -> (world: Self)
        requires
            forall|i: int| 0 <= i < troops@.len() ==> (#[trigger] troops@[i]).wf(),
        ensures
            world.wf(),
            world@.len() == 1,
            world.issued() == 1,
            world@[0] matches Unit::CompositeUnit(c) && c@ == CompositeUnit::new_view(
                GROUP_CAPACITY,
                pos,
                direction,
                radius,
                troops@,
            ),
    {
        let mut world = World::new();
        let _ = world.add_battalion(pos, direction, radius, troops);
        world
    }

    /// The number of units.
    pub fn len(&self) -> (n: usize)
        ensures
            n == self@.len(),
    {
        self.groups.len()
    }

    /// The unit at `index` of the list.
    pub fn unit(&self, index: usize) -> (unit: &Unit<T>)
        requires
            self.wf(),
            index < self@.len(),
        ensures
            unit.wf(),
            *unit == self@[index as int],
    {
        &self.groups[index]
    }

    /// What the next step of the unit at `index` works towards.
    pub fn plan_step(&self, index: usize) -> (plan: Option<StepPlan<T>>)
        requires
            self.wf(),
            index < self@.len(),
        ensures
            plan == self@[index as int].plan(),
    {
        self.groups[index].plan_step()
    }

    /// What a click reports: for every unit that `probes` says is hit, in list
    /// order, the unit's address and behind it the address of the first of
    /// its agents that is hit, if any. `probes` holds one entry per unit; a
    /// unit without an entry counts as missed.
    pub fn get_ids_at(&self, probes: &Vec<Probe>) -> (ids: Vec<WorldId>)
        requires
            self.wf(),
        ensures
            ids@ == ids_at(self@, probes@, shorter(self@.len(), probes@.len())),
    {
        let mut sel: Vec<WorldId> = Vec::new();
        let mut i: usize = 0;
        while i < self.groups.len() && i < probes.len()
            invariant
                self.wf(),
                i <= self@.len(),
                i <= probes@.len(),
                sel@ == ids_at(self@, probes@, i as nat),
            decreases self@.len() - i,
        {
            let group = &self.groups[i];
            let probe = &probes[i];
            let ghost before = sel@;
            if probe.in_bounds {
                sel.push(group.get_id());
                match group.get_agent_at(&probe.near) {
                    Some(agent) => {
                        sel.push(agent);
                    },
                    None => {},
                }
            }
            assert(sel@ == before + unit_ids_at(self@[i as int], probes@[i as int]));
            i = i + 1;
        }
        sel
    }

    /// What a drag reports: for every unit, in list order, the unit's address
    /// where `probes` says that the unit is inside, then the addresses of all
    /// its agents that are. `probes` holds one entry per unit; a unit without
    /// an entry counts as outside.
    pub fn get_ids_in_rect(&self, probes: &Vec<Probe>) -> (ids: Vec<WorldId>)
        requires
            self.wf(),
        ensures
            ids@ == ids_in_rect(self@, probes@, shorter(self@.len(), probes@.len())),
    {
        let mut sel: Vec<WorldId> = Vec::new();
        let mut i: usize = 0;
        while i < self.groups.len() && i < probes.len()
            invariant
                self.wf(),
                i <= self@.len(),
                i <= probes@.len(),
                sel@ == ids_in_rect(self@, probes@, i as nat),
            decreases self@.len() - i,
        {
            let group = &self.groups[i];
            let probe = &probes[i];
            let ghost before = sel@;
            if probe.in_bounds {
                sel.push(group.get_id());
            }
            let mut agents = group.get_agents_in(&probe.near);
            sel.append(&mut agents);
            assert(sel@ == before + unit_ids_in_rect(self@[i as int], probes@[i as int]));
            i = i + 1;
        }
        sel
    }

    /// Brings the player's wish to every unit: a unit whose address is in
    /// `selected` is marked and takes `action` as orders, every other unit
    /// loses its mark.
    pub fn command(&mut self, selected: &HashSet<WorldId>, action: PlayerAction<T>)
        requires
            old(self).wf(),
        ensures
            final(self).wf(),
            final(self).issued() == old(self).issued(),
            final(self)@.len() == old(self)@.len(),
            forall|i: int|
                0 <= i < old(self)@.len() ==> old(self)@[i].commanded(
                    selected@.contains(old(self)@[i].id_spec()),
                    action,
                    &#[trigger] final(self)@[i],
                ),
    {
        broadcast use vstd::std_specs::hash::group_hash_axioms;

        let ghost before = self@;
        let count = self.groups.len();
        let mut i: usize = 0;
        while i < count
            invariant
                i <= count,
                count == before.len(),
                self@.len() == count,
                self.issued() == old(self).issued(),
                forall|k: int| 0 <= k < count ==> (#[trigger] self@[k]).wf(),
                forall|k: int|
                    0 <= k < count ==> (#[trigger] self@[k]).id_spec() == before[k].id_spec(),
                forall|k: int|
                    0 <= k < i ==> before[k].commanded(
                        selected@.contains(before[k].id_spec()),
                        action,
                        &#[trigger] self@[k],
                    ),
                forall|k: int| i <= k < count ==> self@[k] == before[k],
            decreases count - i,
        {
            let id = self.groups[i].get_id();
            let is_selected = selected.contains(&id);
            self.groups[i].command(is_selected, action);
            i = i + 1;
        }
    }
}

impl<T: Copy + Default> World<T> {
    /// One simulation step of the unit at `index`, applied.
    pub fn process_boids(&mut self, index: usize, outcome: &StepOutcome<T>)
        requires
            old(self).wf(),
            index < old(self)@.len(),
            outcome.agents@.len() == old(self)@[index as int].agent_count(),
        ensures
            final(self).wf(),
            final(self).issued() == old(self).issued(),
            final(self)@.len() == old(self)@.len(),
            old(self)@[index as int].stepped(*outcome, &final(self)@[index as int]),
            forall|i: int|
                0 <= i < old(self)@.len() && i != index ==> final(self)@[i] == old(self)@[i],
    {
        self.groups[index].process_boids(outcome);
    }
}

impl<T: Copy> Default for World<T> {
    fn default() -> (world: Self)
        ensures
            world.wf(),
            world@.len() == 0,
            world.issued() == 0,
    {
        World::new()
    }
}

} // verus!
