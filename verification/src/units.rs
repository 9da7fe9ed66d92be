use vstd::prelude::*;
use std::collections::VecDeque;
use crate::boids::{Boid, BoidState, BoidVec};
use crate::container::{Container, ContainerState};
use crate::formations::FormationKind;
use crate::ops::{is_default, Vec2};
use crate::player::PlayerAction;
use crate::traits::{Controllable, Identifiable, Selectable};
use crate::world::{
    is_group_id, lemma_agent_id_round_trip, spec_agent_id, spec_group_of, spec_is_container,
    IdAllocator, WorldId, GROUP_CAPACITY,
};

verus! {

/// What a group has been told to do.
#[derive(Debug, Copy, Clone, PartialEq)]
pub enum Goal<T> {
    /// Stay loosely around a point.
    Idle(Vec2<T>),
    /// Stand as you are.
    Hold,
    /// Go to a point, facing a direction.
    Move(Vec2<T>, Vec2<T>),
    /// Go to a point in column.
    Column(Vec2<T>),
    /// Form a front between two corners, facing a direction.
    Front(Vec2<T>, Vec2<T>, Vec2<T>),
}

/// What one simulation step works towards: the formation to take and the
/// row from `pos1` to `pos2` to take it on, facing `dir`.
#[derive(Debug, Copy, Clone, PartialEq)]
pub struct StepPlan<T> {
    pub formation: FormationKind,
    pub pos1: Vec2<T>,
    pub pos2: Vec2<T>,
    pub dir: Vec2<T>,
}

/// The plan that `goal` asks for in a group facing `facing`; `Hold` asks for none.
pub open spec fn plan_for<T>(goal: Goal<T>, facing: Vec2<T>) -> Option<StepPlan<T>> {
    match goal {
        Goal::Idle(point) => Some(
            StepPlan { formation: FormationKind::Idle, pos1: point, pos2: point, dir: facing },
        ),
        Goal::Hold => None,
        Goal::Move(point, dir) => Some(
            StepPlan { formation: FormationKind::Default, pos1: point, pos2: point, dir },
        ),
        Goal::Column(point) => Some(
            StepPlan { formation: FormationKind::Default, pos1: point, pos2: point, dir: facing },
        ),
        Goal::Front(corner_a, corner_b, dir) => Some(
            StepPlan { formation: FormationKind::Directional, pos1: corner_a, pos2: corner_b, dir },
        ),
    }
}

/// `dir` where there is one, else `facing`.
pub open spec fn dir_or<T>(dir: Option<Vec2<T>>, facing: Vec2<T>) -> Vec2<T> {
    match dir {
        Some(d) => d,
        None => facing,
    }
}

/// The queue that `action` makes of `queue` in a group facing `facing`: a plain
/// action leaves its goal alone in the queue, an adding one puts it last.
pub open spec fn goals_after<T>(
    queue: Seq<Goal<T>>,
    action: PlayerAction<T>,
    facing: Vec2<T>,
) -> Seq<Goal<T>> {
    match action {
        PlayerAction::NoAction => queue,
        PlayerAction::Move(pos, dir) => seq![Goal::Move(pos, dir_or(dir, facing))],
        PlayerAction::AddMove(pos, dir) => queue.push(Goal::Move(pos, dir_or(dir, facing))),
        PlayerAction::FormUp(pos1, pos2, dir) => seq![
            Goal::Front(pos2, pos1, dir_or(dir, facing)),
        ],
        PlayerAction::AddFormUp(pos1, pos2, dir) => queue.push(
            Goal::Front(pos2, pos1, dir_or(dir, facing)),
        ),
    }
}

/// The queue once its active goal is reached: the goals behind it, or `Hold`
/// alone where there are none.
pub open spec fn goals_advanced<T>(queue: Seq<Goal<T>>) -> Seq<Goal<T>> {
    if queue.len() <= 1 {
        seq![Goal::Hold]
    } else {
        queue.drop_first()
    }
}

/// Computes `plan_for`.
pub fn plan_goal<T: Copy>(goal: Goal<T>, facing: Vec2<T>) -> (plan: Option<StepPlan<T>>)
    ensures
        plan == plan_for(goal, facing),
{
    match goal {
        Goal::Idle(point) => Some(
            StepPlan { formation: FormationKind::Idle, pos1: point, pos2: point, dir: facing },
        ),
        Goal::Hold => None,
        Goal::Move(point, dir) => Some(
            StepPlan { formation: FormationKind::Default, pos1: point, pos2: point, dir },
        ),
        Goal::Column(point) => Some(
            StepPlan { formation: FormationKind::Default, pos1: point, pos2: point, dir: facing },
        ),
        Goal::Front(corner_a, corner_b, dir) => Some(
            StepPlan { formation: FormationKind::Directional, pos1: corner_a, pos2: corner_b, dir },
        ),
    }
}

/// Turns what the player asked for into changes of a queue of goals: a plain
/// action empties the queue first, an adding one does not; a direction that
/// was not given is `default_dir`.
pub fn assign_goals<T: Copy>(
    goals: &mut VecDeque<Goal<T>>,
    action: PlayerAction<T>,
    default_dir: Vec2<T>,
)
    ensures
        final(goals)@ == goals_after(old(goals)@, action, default_dir),
{
    match action {
        PlayerAction::NoAction => {},
        PlayerAction::Move(pos, dir) => {
            let dir = match dir {
                Some(d) => d,
                None => default_dir,
            };
            goals.clear();
            goals.push_back(Goal::Move(pos, dir));
        },
        PlayerAction::AddMove(pos, dir) => {
            let dir = match dir {
                Some(d) => d,
                None => default_dir,
            };
            goals.push_back(Goal::Move(pos, dir));
        },
        PlayerAction::FormUp(pos1, pos2, dir) => {
            let dir = match dir {
                Some(d) => d,
                None => default_dir,
            };
            goals.clear();
            goals.push_back(Goal::Front(pos2, pos1, dir));
        },
        PlayerAction::AddFormUp(pos1, pos2, dir) => {
            let dir = match dir {
                Some(d) => d,
                None => default_dir,
            };
            goals.push_back(Goal::Front(pos2, pos1, dir));
        },
    }
}

/// Drops the active goal of a queue; a queue left empty gets `Hold`.
pub fn advance_goals<T: Copy>(goals: &mut VecDeque<Goal<T>>)
    ensures
        final(goals)@ == goals_advanced(old(goals)@),
{
    let _ = goals.pop_front();
    if goals.len() == 0 {
        goals.push_back(Goal::Hold);
    }
}

/// What the numeric part of a step found for one agent.
#[derive(Debug, Copy, Clone, PartialEq)]
pub enum AgentStep<T> {
    /// The agent is within the arrival margin of its place.
    Arrived,
    /// The agent is under way, with its new velocity and position, and its new
    /// heading where one could be read off the velocity.
    Marched { vel: Vec2<T>, pos: Vec2<T>, heading: Option<T> },
}

/// What the numeric part of a step found for a group: one entry per agent in
/// index order, the centroid and the bounding radius of the agents, and
/// whether the group as a whole has reached its goal.
pub struct StepOutcome<T> {
    pub agents: Vec<AgentStep<T>>,
    pub center: Vec2<T>,
    pub radius: T,
    pub arrived: bool,
}

/// Whether `after` is the agent that `step` makes of `before`: an agent that
/// has arrived stands still with no velocity and is otherwise untouched; one
/// under way marches with the velocity and position found, and keeps its
/// heading unless a new one was found.
pub open spec fn agent_after<T: Default>(before: Boid<T>, step: AgentStep<T>, after: Boid<T>) -> bool {
    match step {
        AgentStep::Arrived => {
            &&& after.state == BoidState::Stationary
            &&& is_default(after.vel.x)
            &&& is_default(after.vel.y)
            &&& after.pos == before.pos
            &&& after.heading == before.heading
            &&& after.color == before.color
        },
        AgentStep::Marched { vel, pos, heading } => {
            after == (Boid {
                state: BoidState::Marching,
                vel,
                pos,
                heading: match heading {
                    Some(h) => h,
                    None => before.heading,
                },
                color: before.color,
            })
        },
    }
}

/// A group of agents under one queue of goals, as a mathematical value.
pub struct BasicUnitView<T> {
    pub id: WorldId,
    pub center: Vec2<T>,
    pub radius: T,
    pub direction: Vec2<T>,
    pub selected: bool,
    pub goals: Seq<Goal<T>>,
    pub formation: FormationKind,
    pub entities: Seq<Boid<T>>,
    pub state: ContainerState,
}

/// Whether `after` is what one simulation step makes of `before`, given what
/// the numeric part found. A group on `Hold` is left as it is. Otherwise the
/// group takes the formation of its active goal, every agent changes as its
/// entry says, a group with agents takes the centroid and radius found, and a
/// group that has arrived moves on to its next goal.
pub open spec fn step_result<T: Default>(
    before: BasicUnitView<T>,
    outcome: StepOutcome<T>,
    after: BasicUnitView<T>,
) -> bool {
    match plan_for(before.goals[0], before.direction) {
        None => after == before,
        Some(plan) => {
            &&& after.id == before.id
            &&& after.direction == before.direction
            &&& after.selected == before.selected
            &&& after.state == before.state
            &&& after.formation == plan.formation
            &&& after.entities.len() == before.entities.len()
            &&& forall|i: int|
                0 <= i < before.entities.len() ==> agent_after(
                    before.entities[i],
                    outcome.agents@[i],
                    #[trigger] after.entities[i],
                )
            &&& after.center == if before.entities.len() == 0 {
                before.center
            } else {
                outcome.center
            }
            &&& after.radius == if before.entities.len() == 0 {
                before.radius
            } else {
                outcome.radius
            }
            &&& after.goals == if outcome.arrived {
                goals_advanced(before.goals)
            } else {
                before.goals
            }
        },
    }
}

/// Whether `index` is the first position of `flags` that is set.
pub open spec fn is_first_set(flags: Seq<bool>, index: int) -> bool {
    &&& 0 <= index < flags.len()
    &&& flags[index]
    &&& forall|j: int| 0 <= j < index ==> !flags[j]
}

/// The first position of `flags` that is set, if any is.
pub open spec fn first_set(flags: Seq<bool>) -> Option<int> {
    if exists|i: int| is_first_set(flags, i) {
        Some(choose|i: int| is_first_set(flags, i))
    } else {
        None
    }
}

/// The first set position is the only one that `is_first_set` holds of.
pub proof fn lemma_first_set_unique(flags: Seq<bool>, index: int)
    requires
        is_first_set(flags, index),
    ensures
        first_set(flags) == Some(index),
{
    let chosen = choose|i: int| is_first_set(flags, i);
    if chosen < index {
        assert(!flags[chosen]);
    } else if index < chosen {
        assert(!flags[index]);
    }
}

/// Where nothing is set, there is no first set position.
pub proof fn lemma_first_set_none(flags: Seq<bool>)
    requires
        forall|j: int| 0 <= j < flags.len() ==> !flags[j],
    ensures
        first_set(flags) is None,
{
}

/// A group of agents: the agents themselves, the queue of goals they work
/// through, and the circle that bounds them.
pub struct BasicUnit<T> {
    id: WorldId,
    center: Vec2<T>,
    radius: T,
    direction: Vec2<T>,
    selected: bool,
    goals: VecDeque<Goal<T>>,
    formation: FormationKind,
    entities: BoidVec<T>,
    state: ContainerState,
}

impl<T> View for BasicUnit<T> {
    type V = BasicUnitView<T>;

    closed spec fn view(&self) -> BasicUnitView<T> {
        BasicUnitView {
            id: self.id,
            center: self.center,
            radius: self.radius,
            direction: self.direction,
            selected: self.selected,
            goals: self.goals@,
            formation: self.formation,
            entities: self.entities@,
            state: self.state,
        }
    }
}

impl<T: Copy> BasicUnit<T> {
    /// The columns of the entity store are aligned.
    pub closed spec fn store_wf(&self) -> bool {
        self.entities.wf()
    }

    /// The group has an active goal, the address of a group, and fewer agents
    /// than a group has addresses for.
    pub open spec fn wf(&self) -> bool {
        &&& self.store_wf()
        &&& self@.goals.len() > 0
        &&& self@.entities.len() < GROUP_CAPACITY
        &&& is_group_id(self@.id as int)
    }

    /// A new group as a value: idle around `pos`, not selected, in the default
    /// formation and at the cold tier.
    pub open spec fn new_view(
        id: WorldId,
        pos: Vec2<T>,
        direction: Vec2<T>,
        radius: T,
        entities: Seq<Boid<T>>,
    ) -> BasicUnitView<T> {
        BasicUnitView {
            id,
            center: pos,
            radius,
            direction,
            selected: false,
            goals: seq![Goal::Idle(pos)],
            formation: FormationKind::Default,
            entities,
            state: ContainerState::Cold,
        }
    }

    /// A group at `pos` with the given agents, idle around `pos`, not
    /// selected, in the default formation and at the cold tier.
    pub fn new(
        id: WorldId,
        pos: Vec2<T>,
        direction: Vec2<T>,
        radius: T,
        entities: BoidVec<T>,
    ) -> (unit: Self)
        requires
            is_group_id(id as int),
            entities.wf(),
            entities@.len() < GROUP_CAPACITY,
        ensures
            unit.wf(),
            unit@ == Self::new_view(id, pos, direction, radius, entities@),
    {
        let mut goals: VecDeque<Goal<T>> = VecDeque::new();
        goals.push_back(Goal::Idle(pos));
        BasicUnit {
            id,
            center: pos,
            radius,
            direction,
            selected: false,
            goals,
            formation: FormationKind::Default,
            entities,
            state: ContainerState::Cold,
        }
    }

    /// A group put together again from what was written out of it: the
    /// queue as it was, or `Hold` alone where none was kept; the formation is
    /// the default one and the group is not selected.
    pub fn restore(
        id: WorldId,
        center: Vec2<T>,
        direction: Vec2<T>,
        radius: T,
        entities: BoidVec<T>,
        goals: &Vec<Goal<T>>,
        state: ContainerState,
    ) -> (unit: Self)
        requires
            is_group_id(id as int),
            entities.wf(),
            entities@.len() < GROUP_CAPACITY,
        ensures
            unit.wf(),
            unit@ == (BasicUnitView {
                id,
                center,
                radius,
                direction,
                selected: false,
                goals: if goals@.len() == 0 {
                    seq![Goal::Hold]
                } else {
                    goals@
                },
                formation: FormationKind::Default,
                entities: entities@,
                state,
            }),
    {
        let mut queue: VecDeque<Goal<T>> = VecDeque::new();
        let mut i: usize = 0;
        while i < goals.len()
            invariant
                i <= goals@.len(),
                queue@ == goals@.subrange(0, i as int),
            decreases goals@.len() - i,
        {
            queue.push_back(goals[i]);
            i = i + 1;
        }
        assert(queue@ =~= goals@);
        if queue.len() == 0 {
            queue.push_back(Goal::Hold);
            assert(queue@ =~= seq![Goal::Hold]);
        }
        BasicUnit {
            id,
            center,
            radius,
            direction,
            selected: false,
            goals: queue,
            formation: FormationKind::Default,
            entities,
            state,
        }
    }

    /// The centre of the bounding circle.
    pub fn center(&self) -> (center: Vec2<T>)
        ensures
            center == self@.center,
    {
        self.center
    }

    /// The radius of the bounding circle.
    pub fn radius(&self) -> (radius: T)
        ensures
            radius == self@.radius,
    {
        self.radius
    }

    /// The direction the group faces.
    pub fn direction(&self) -> (direction: Vec2<T>)
        ensures
            direction == self@.direction,
    {
        self.direction
    }

    /// Whether the player has the group selected.
    pub fn selected(&self) -> (selected: bool)
        ensures
            selected == self@.selected,
    {
        self.selected
    }

    /// The formation in use.
    pub fn formation(&self) -> (formation: FormationKind)
        ensures
            formation == self@.formation,
    {
        self.formation
    }

    /// The number of agents.
    pub fn len(&self) -> (n: usize)
        requires
            self.wf(),
        ensures
            n == self@.entities.len(),
            n < GROUP_CAPACITY,
    {
        self.entities.len()
    }

    /// The agents.
    pub fn entities(&self) -> (entities: &BoidVec<T>)
        requires
            self.wf(),
        ensures
            entities.wf(),
            entities@ == self@.entities,
    {
        &self.entities
    }

    /// The agent at `index`.
    pub fn agent(&self, index: usize) -> (boid: Boid<T>)
        requires
            self.wf(),
            index < self@.entities.len(),
        ensures
            boid == self@.entities[index as int],
    {
        self.entities.get(index)
    }

    /// Replaces the agent at `index`.
    pub fn set_agent(&mut self, index: usize, boid: Boid<T>)
        requires
            old(self).wf(),
            index < old(self)@.entities.len(),
        ensures
            final(self).wf(),
            final(self)@ == (BasicUnitView {
                entities: old(self)@.entities.update(index as int, boid),
                ..old(self)@
            }),
    {
        self.entities.set(index, boid);
    }

    /// The number of queued goals, the active one included.
    pub fn goal_count(&self) -> (n: usize)
        ensures
            n == self@.goals.len(),
    {
        self.goals.len()
    }

    /// The queued goal at `index`; the active goal is at 0.
    pub fn goal(&self, index: usize) -> (goal: Goal<T>)
        requires
            index < self@.goals.len(),
        ensures
            goal == self@.goals[index as int],
    {
        self.goals[index]
    }

    /// The goal the group is working on.
    pub fn active_goal(&self) -> (goal: Goal<T>)
        requires
            self.wf(),
        ensures
            goal == self@.goals[0],
    {
        self.goals[0]
    }

    /// Moves and resizes the bounding circle.
    pub fn set_bounds(&mut self, center: Vec2<T>, radius: T)
        ensures
            final(self)@ == (BasicUnitView { center, radius, ..old(self)@ }),
            old(self).wf() ==> final(self).wf(),
    {
        self.center = center;
        self.radius = radius;
    }

    /// Turns the group to face `direction`.
    pub fn set_direction(&mut self, direction: Vec2<T>)
        ensures
            final(self)@ == (BasicUnitView { direction, ..old(self)@ }),
            old(self).wf() ==> final(self).wf(),
    {
        self.direction = direction;
    }

    /// Puts the group in `formation`.
    pub fn set_formation(&mut self, formation: FormationKind)
        ensures
            final(self)@ == (BasicUnitView { formation, ..old(self)@ }),
            old(self).wf() ==> final(self).wf(),
    {
        self.formation = formation;
    }

    /// What the next step works towards; `None` while the group holds.
    pub fn plan_step(&self) -> (plan: Option<StepPlan<T>>)
        requires
            self.wf(),
        ensures
            plan == plan_for(self@.goals[0], self@.direction),
    {
        plan_goal(self.goals[0], self.direction)
    }

    /// The address of the agent at `local`.
    pub fn agent_id(&self, local: usize) -> (id: WorldId)
        requires
            self.wf(),
            local < self@.entities.len(),
        ensures
            id == spec_agent_id(self@.id as int, local as int),
    {
        crate::world::agent_id(self.id, local)
    }

    /// The address of the first agent that is flagged in `near`, which holds
    /// one flag per agent in index order; flags beyond the last agent count
    /// for nothing.
    pub fn get_agent_at(&self, near: &Vec<bool>) -> (hit: Option<WorldId>)
        requires
            self.wf(),
        ensures
            hit == agent_hit(self@.id, self@.entities.len(), near@),
    {
        let count = self.entities.len();
        let mut i: usize = 0;
        while i < near.len() && i < count
            invariant
                self.wf(),
                count == self@.entities.len(),
                i <= near@.len(),
                i <= count,
                forall|j: int| 0 <= j < i ==> !near@[j],
            decreases near@.len() - i,
        {
            if near[i] {
                proof {
                    lemma_first_set_unique(flags_of_agents(near@, count as nat), i as int);
                }
                return Some(crate::world::agent_id(self.id, i));
            }
            i = i + 1;
        }
        proof {
            lemma_first_set_none(flags_of_agents(near@, count as nat));
        }
        None
    }

    /// The addresses of all agents that are flagged in `inside`, which holds
    /// one flag per agent in index order; flags beyond the last agent count
    /// for nothing.
    pub fn get_agents_in(&self, inside: &Vec<bool>) -> (hits: Vec<WorldId>)
        requires
            self.wf(),
        ensures
            hits@ == agents_flagged(self@.id, self@.entities.len(), inside@),
    {
        let count = self.entities.len();
        let mut hits: Vec<WorldId> = Vec::new();
        let mut i: usize = 0;
        while i < inside.len() && i < count
            invariant
                self.wf(),
                count == self@.entities.len(),
                i <= inside@.len(),
                i <= count,
                hits@ == flagged_ids(self@.id, inside@, i as nat),
            decreases inside@.len() - i,
        {
            if inside[i] {
                hits.push(crate::world::agent_id(self.id, i));
            }
            i = i + 1;
        }
        hits
    }
}

/// The addresses of the agents among the first `n` of the group at `id` whose
/// flag is set, in index order.
pub open spec fn flagged_ids(id: WorldId, flags: Seq<bool>, n: nat) -> Seq<WorldId>
    decreases n,
{
    if n == 0 {
        Seq::empty()
    } else {
        let before = flagged_ids(id, flags, (n - 1) as nat);
        if flags[n - 1] {
            before.push(spec_agent_id(id as int, n - 1) as usize)
        } else {
            before
        }
    }
}

/// The addresses of all agents flagged in `inside`, in a group at `id` with
/// `count` agents.
pub open spec fn agents_flagged(id: WorldId, count: nat, inside: Seq<bool>) -> Seq<WorldId> {
    flagged_ids(id, inside, if inside.len() <= count { inside.len() } else { count })
}

/// The flags of `near` that belong to one of `count` agents.
pub open spec fn flags_of_agents(near: Seq<bool>, count: nat) -> Seq<bool> {
    if near.len() <= count {
        near
    } else {
        near.take(count as int)
    }
}

/// The address of the first agent flagged in `near`, in a group at `id` with
/// `count` agents.
pub open spec fn agent_hit(id: WorldId, count: nat, near: Seq<bool>) -> Option<WorldId> {
    match first_set(flags_of_agents(near, count)) {
        Some(local) => Some(spec_agent_id(id as int, local) as usize),
        None => None,
    }
}

impl<T: Copy + Default> BasicUnit<T> {
    /// One simulation step, applied: given what the numeric part found for
    /// every agent and for the group, moves the agents, the bounding circle
    /// and the queue of goals on. A group on `Hold` is left as it is.
    pub fn process_boids(&mut self, outcome: &StepOutcome<T>)
        requires
            old(self).wf(),
            outcome.agents@.len() == old(self)@.entities.len(),
        ensures
            final(self).wf(),
            step_result(old(self)@, *outcome, final(self)@),
    {
        let plan = match plan_goal(self.goals[0], self.direction) {
            Some(plan) => plan,
            None => {
                return ;
            },
        };
        let ghost before = self@;
        self.formation = plan.formation;
        let count = self.entities.len();
        let mut cur: usize = 0;
        while cur < count
            invariant
                self.entities.wf(),
                cur <= count,
                count == before.entities.len(),
                outcome.agents@.len() == count,
                self@ == (BasicUnitView {
                    formation: plan.formation,
                    entities: self.entities@,
                    ..before
                }),
                self.entities@.len() == count,
                forall|i: int|
                    0 <= i < cur ==> agent_after(
                        before.entities[i],
                        outcome.agents@[i],
                        #[trigger] self.entities@[i],
                    ),
                forall|i: int| cur <= i < count ==> self.entities@[i] == before.entities[i],
            decreases count - cur,
        {
            match outcome.agents[cur] {
                AgentStep::Arrived => {
                    self.entities.set_state(cur, BoidState::Stationary);
                    self.entities.set_vel(cur, Vec2::default());
                },
                AgentStep::Marched { vel, pos, heading } => {
                    self.entities.set_state(cur, BoidState::Marching);
                    self.entities.set_vel(cur, vel);
                    self.entities.set_pos(cur, pos);
                    match heading {
                        Some(h) => {
                            self.entities.set_heading(cur, h);
                        },
                        None => {},
                    }
                },
            }
            cur = cur + 1;
        }
        if count > 0 {
            self.center = outcome.center;
            self.radius = outcome.radius;
        }
        if outcome.arrived {
            advance_goals(&mut self.goals);
        }
    }
}

impl<T: Copy> Identifiable for BasicUnit<T> {
    open spec fn id_spec(&self) -> WorldId {
        self@.id
    }

    fn get_id(&self) -> (id: WorldId) {
        self.id
    }

    fn generate_id(&self, ids: &mut IdAllocator) -> (id: WorldId)
        ensures
            is_group_id(id as int),
    {
        ids.generate_id()
    }
}

impl<T: Copy> Selectable for BasicUnit<T> {
    open spec fn is_selected(&self) -> bool {
        self@.selected
    }

    fn select(&mut self)
        ensures
            final(self)@ == (BasicUnitView { selected: true, ..old(self)@ }),
            old(self).wf() ==> final(self).wf(),
    {
        self.selected = true;
    }

    fn deselect(&mut self)
        ensures
            final(self)@ == (BasicUnitView { selected: false, ..old(self)@ }),
            old(self).wf() ==> final(self).wf(),
    {
        self.selected = false;
    }
}

impl<T: Copy> Container for BasicUnit<T> {
    open spec fn tier(&self) -> ContainerState {
        self@.state
    }

    fn cur_state(&self) -> (state: ContainerState) {
        self.state
    }

    fn to_cold(&mut self)
        ensures
            final(self)@ == (BasicUnitView { state: ContainerState::Cold, ..old(self)@ }),
            old(self).wf() ==> final(self).wf(),
    {
        self.state = ContainerState::Cold;
    }

    fn to_warm(&mut self)
        ensures
            final(self)@ == (BasicUnitView { state: ContainerState::Warm, ..old(self)@ }),
            old(self).wf() ==> final(self).wf(),
    {
        self.state = ContainerState::Warm;
    }

    fn to_hot(&mut self)
        ensures
            final(self)@ == (BasicUnitView { state: ContainerState::Hot, ..old(self)@ }),
            old(self).wf() ==> final(self).wf(),
    {
        self.state = ContainerState::Hot;
    }
}

impl<T: Copy> Controllable<T> for BasicUnit<T> {
    open spec fn orders(&self) -> Seq<Goal<T>> {
        self@.goals
    }

    open spec fn facing(&self) -> Vec2<T> {
        self@.direction
    }

    fn new_order(&mut self, goal: Goal<T>)
        ensures
            final(self)@ == (BasicUnitView { goals: seq![goal], ..old(self)@ }),
            old(self).wf() ==> final(self).wf(),
    {
        self.goals.clear();
        self.goals.push_back(goal);
    }

    fn add_order(&mut self, goal: Goal<T>)
        ensures
            final(self)@ == (BasicUnitView { goals: old(self)@.goals.push(goal), ..old(self)@ }),
            old(self).wf() ==> final(self).wf(),
    {
        self.goals.push_back(goal);
    }

    fn assign_goals(&mut self, action: PlayerAction<T>)
        ensures
            final(self)@ == (BasicUnitView {
                goals: goals_after(old(self)@.goals, action, old(self)@.direction),
                ..old(self)@
            }),
            old(self).wf() ==> final(self).wf(),
    {
        assign_goals(&mut self.goals, action, self.direction);
    }
}

/// A unit made of groups, as a mathematical value.
pub struct CompositeUnitView<T> {
    pub id: WorldId,
    pub center: Vec2<T>,
    pub radius: T,
    pub direction: Vec2<T>,
    pub selected: bool,
    pub goals: Seq<Goal<T>>,
    pub troops: Seq<BasicUnitView<T>>,
}

/// A unit made of groups, with a queue of goals and a bounding circle of its own.
pub struct CompositeUnit<T> {
    id: WorldId,
    center: Vec2<T>,
    radius: T,
    direction: Vec2<T>,
    selected: bool,
    goals: VecDeque<Goal<T>>,
    troops: Vec<BasicUnit<T>>,
}

impl<T> View for CompositeUnit<T> {
    type V = CompositeUnitView<T>;

    closed spec fn view(&self) -> CompositeUnitView<T> {
        CompositeUnitView {
            id: self.id,
            center: self.center,
            radius: self.radius,
            direction: self.direction,
            selected: self.selected,
            goals: self.goals@,
            troops: Seq::new(self.troops@.len(), |i: int| self.troops@[i]@),
        }
    }
}

impl<T: Copy> CompositeUnit<T> {
    /// Every group of the unit is well formed.
    pub closed spec fn troops_wf(&self) -> bool {
        forall|i: int| 0 <= i < self.troops@.len() ==> (#[trigger] self.troops@[i]).wf()
    }

    /// The unit has an active goal and the address of a group, and its groups
    /// are well formed.
    pub open spec fn wf(&self) -> bool {
        &&& self.troops_wf()
        &&& self@.goals.len() > 0
        &&& is_group_id(self@.id as int)
    }

    /// A new unit as a value: idle around `pos` and not selected.
    pub open spec fn new_view(
        id: WorldId,
        pos: Vec2<T>,
        direction: Vec2<T>,
        radius: T,
        troops: Seq<BasicUnit<T>>,
    ) -> CompositeUnitView<T> {
        CompositeUnitView {
            id,
            center: pos,
            radius,
            direction,
            selected: false,
            goals: seq![Goal::Idle(pos)],
            troops: Seq::new(troops.len(), |i: int| troops[i]@),
        }
    }

    /// A unit at `pos` made of `troops`, idle around `pos` and not selected.
    pub fn new(
        id: WorldId,
        pos: Vec2<T>,
        direction: Vec2<T>,
        radius: T,
        troops: Vec<BasicUnit<T>>,
    ) -> (unit: Self)
        requires
            is_group_id(id as int),
            forall|i: int| 0 <= i < troops@.len() ==> (#[trigger] troops@[i]).wf(),
        ensures
            unit.wf(),
            unit@ == Self::new_view(id, pos, direction, radius, troops@),
    {
        let mut goals: VecDeque<Goal<T>> = VecDeque::new();
        goals.push_back(Goal::Idle(pos));
        CompositeUnit { id, center: pos, radius, direction, selected: false, goals, troops }
    }

    /// The centre of the bounding circle.
    pub fn center(&self) -> (center: Vec2<T>)
        ensures
            center == self@.center,
    {
        self.center
    }

    /// The radius of the bounding circle.
    pub fn radius(&self) -> (radius: T)
        ensures
            radius == self@.radius,
    {
        self.radius
    }

    /// The direction the unit faces.
    pub fn direction(&self) -> (direction: Vec2<T>)
        ensures
            direction == self@.direction,
    {
        self.direction
    }

    /// Whether the player has the unit selected.
    pub fn selected(&self) -> (selected: bool)
        ensures
            selected == self@.selected,
    {
        self.selected
    }

    /// The number of queued goals, the active one included.
    pub fn goal_count(&self) -> (n: usize)
        ensures
            n == self@.goals.len(),
    {
        self.goals.len()
    }

    /// The queued goal at `index`; the active goal is at 0.
    pub fn goal(&self, index: usize) -> (goal: Goal<T>)
        requires
            index < self@.goals.len(),
        ensures
            goal == self@.goals[index as int],
    {
        self.goals[index]
    }

    /// The number of groups in the unit.
    pub fn troop_count(&self) -> (n: usize)
        ensures
            n == self@.troops.len(),
    {
        self.troops.len()
    }

    /// The group at `index`.
    pub fn troop(&self, index: usize) -> (troop: &BasicUnit<T>)
        requires
            self.wf(),
            index < self@.troops.len(),
        ensures
            troop.wf(),
            troop@ == self@.troops[index as int],
    {
        &self.troops[index]
    }
}

impl<T: Copy> Identifiable for CompositeUnit<T> {
    open spec fn id_spec(&self) -> WorldId {
        self@.id
    }

    fn get_id(&self) -> (id: WorldId) {
        self.id
    }

    fn generate_id(&self, ids: &mut IdAllocator) -> (id: WorldId)
        ensures
            is_group_id(id as int),
    {
        ids.generate_id()
    }
}

impl<T: Copy> Selectable for CompositeUnit<T> {
    open spec fn is_selected(&self) -> bool {
        self@.selected
    }

    fn select(&mut self)
        ensures
            final(self)@ == (CompositeUnitView { selected: true, ..old(self)@ }),
            old(self).wf() ==> final(self).wf(),
    {
        self.selected = true;
    }

    fn deselect(&mut self)
        ensures
            final(self)@ == (CompositeUnitView { selected: false, ..old(self)@ }),
            old(self).wf() ==> final(self).wf(),
    {
        self.selected = false;
    }
}

impl<T: Copy> Controllable<T> for CompositeUnit<T> {
    open spec fn orders(&self) -> Seq<Goal<T>> {
        self@.goals
    }

    open spec fn facing(&self) -> Vec2<T> {
        self@.direction
    }

    fn new_order(&mut self, goal: Goal<T>)
        ensures
            final(self)@ == (CompositeUnitView { goals: seq![goal], ..old(self)@ }),
            old(self).wf() ==> final(self).wf(),
    {
        self.goals.clear();
        self.goals.push_back(goal);
    }

    fn add_order(&mut self, goal: Goal<T>)
        ensures
            final(self)@ == (CompositeUnitView {
                goals: old(self)@.goals.push(goal),
                ..old(self)@
            }),
            old(self).wf() ==> final(self).wf(),
    {
        self.goals.push_back(goal);
    }

    fn assign_goals(&mut self, action: PlayerAction<T>)
        ensures
            final(self)@ == (CompositeUnitView {
                goals: goals_after(old(self)@.goals, action, old(self)@.direction),
                ..old(self)@
            }),
            old(self).wf() ==> final(self).wf(),
    {
        assign_goals(&mut self.goals, action, self.direction);
    }
}

/// Anything the world holds: a group of agents, or a unit made of groups.
pub enum Unit<T> {
    BasicUnit(BasicUnit<T>),
    CompositeUnit(CompositeUnit<T>),
}

impl<T: Copy> Unit<T> {
    /// The unit inside is well formed.
    pub open spec fn wf(&self) -> bool {
        match self {
            Unit::BasicUnit(b) => b.wf(),
            Unit::CompositeUnit(c) => c.wf(),
        }
    }

    /// The number of agents the unit itself moves: those of a group, none for
    /// a unit made of groups.
    pub open spec fn agent_count(&self) -> nat {
        match self {
            Unit::BasicUnit(b) => b@.entities.len(),
            Unit::CompositeUnit(_) => 0,
        }
    }

    /// Whether `after` differs from `self` in the selection mark at most,
    /// which in `after` is `selected`.
    pub open spec fn marked(&self, selected: bool, after: &Self) -> bool {
        match (self, after) {
            (Unit::BasicUnit(b), Unit::BasicUnit(a)) => a@ == (BasicUnitView {
                selected,
                ..b@
            }),
            (Unit::CompositeUnit(c), Unit::CompositeUnit(a)) => a@ == (CompositeUnitView {
                selected,
                ..c@
            }),
            _ => false,
        }
    }

    /// Whether `after` differs from `self` in the queue of goals at most,
    /// which in `after` is `goals`.
    pub open spec fn requeued(&self, goals: Seq<Goal<T>>, after: &Self) -> bool {
        match (self, after) {
            (Unit::BasicUnit(b), Unit::BasicUnit(a)) => a@ == (BasicUnitView { goals, ..b@ }),
            (Unit::CompositeUnit(c), Unit::CompositeUnit(a)) => a@ == (CompositeUnitView {
                goals,
                ..c@
            }),
            _ => false,
        }
    }

    /// What the next step works towards. `None` for a group on `Hold`, and for
    /// a unit made of groups, which moves no agents of its own.
    pub open spec fn plan(&self) -> Option<StepPlan<T>> {
        match self {
            Unit::BasicUnit(b) => plan_for(b@.goals[0], b@.direction),
            Unit::CompositeUnit(_) => None,
        }
    }

    /// The address of the first agent flagged in `near`; a unit made of groups
    /// answers for no agent.
    pub open spec fn agent_at(&self, near: Seq<bool>) -> Option<WorldId> {
        match self {
            Unit::BasicUnit(b) => agent_hit(b@.id, b@.entities.len(), near),
            Unit::CompositeUnit(_) => None,
        }
    }

    /// The addresses of all agents flagged in `inside`; a unit made of groups
    /// answers for no agent.
    pub open spec fn agents_in(&self, inside: Seq<bool>) -> Seq<WorldId> {
        match self {
            Unit::BasicUnit(b) => agents_flagged(b@.id, b@.entities.len(), inside),
            Unit::CompositeUnit(_) => Seq::empty(),
        }
    }

    /// Whether `after` is `self` once the player's wish has reached it: a
    /// selected unit is marked and takes `action` as orders, any other unit
    /// loses its mark and keeps its orders.
    pub open spec fn commanded(&self, selected: bool, action: PlayerAction<T>, after: &Self) -> bool {
        match (self, after) {
            (Unit::BasicUnit(b), Unit::BasicUnit(a)) => a@ == (BasicUnitView {
                selected,
                goals: if selected {
                    goals_after(b@.goals, action, b@.direction)
                } else {
                    b@.goals
                },
                ..b@
            }),
            (Unit::CompositeUnit(c), Unit::CompositeUnit(a)) => a@ == (CompositeUnitView {
                selected,
                goals: if selected {
                    goals_after(c@.goals, action, c@.direction)
                } else {
                    c@.goals
                },
                ..c@
            }),
            _ => false,
        }
    }

    /// Marks the unit and hands it `action` where `selected` is set, and takes
    /// the mark off it where not.
    pub fn command(&mut self, selected: bool, action: PlayerAction<T>)
        requires
            old(self).wf(),
        ensures
            final(self).wf(),
            old(self).commanded(selected, action, final(self)),
            final(self).id_spec() == old(self).id_spec(),
    {
        if selected {
            self.select();
            self.assign_goals(action);
        } else {
            self.deselect();
        }
    }

    /// Computes `agents_in`.
    pub fn get_agents_in(&self, inside: &Vec<bool>) -> (hits: Vec<WorldId>)
        requires
            self.wf(),
        ensures
            hits@ == self.agents_in(inside@),
    {
        match self {
            Unit::BasicUnit(b) => b.get_agents_in(inside),
            Unit::CompositeUnit(_) => Vec::new(),
        }
    }

    /// Computes `plan`.
    pub fn plan_step(&self) -> (plan: Option<StepPlan<T>>)
        requires
            self.wf(),
        ensures
            plan == self.plan(),
    {
        match self {
            Unit::BasicUnit(b) => b.plan_step(),
            Unit::CompositeUnit(_) => None,
        }
    }

    /// Computes `agent_at`.
    pub fn get_agent_at(&self, near: &Vec<bool>) -> (hit: Option<WorldId>)
        requires
            self.wf(),
        ensures
            hit == self.agent_at(near@),
    {
        match self {
            Unit::BasicUnit(b) => b.get_agent_at(near),
            Unit::CompositeUnit(_) => None,
        }
    }
}

impl<T: Copy + Default> Unit<T> {
    /// Whether `after` is what one simulation step makes of `self`: a group
    /// steps as `step_result` says, a unit made of groups stays as it is.
    pub open spec fn stepped(&self, outcome: StepOutcome<T>, after: &Self) -> bool {
        match (self, after) {
            (Unit::BasicUnit(b), Unit::BasicUnit(a)) => step_result(b@, outcome, a@),
            (Unit::CompositeUnit(c), Unit::CompositeUnit(a)) => a@ == c@,
            _ => false,
        }
    }

    /// One simulation step, applied to whichever unit this is.
    pub fn process_boids(&mut self, outcome: &StepOutcome<T>)
        requires
            old(self).wf(),
            outcome.agents@.len() == old(self).agent_count(),
        ensures
            final(self).wf(),
            old(self).stepped(*outcome, final(self)),
            final(self).id_spec() == old(self).id_spec(),
    {
        match self {
            Unit::BasicUnit(b) => {
                b.process_boids(outcome);
            },
            Unit::CompositeUnit(_) => {},
        }
    }
}

impl<T: Copy> Identifiable for Unit<T> {
    open spec fn id_spec(&self) -> WorldId {
        match self {
            Unit::BasicUnit(b) => b@.id,
            Unit::CompositeUnit(c) => c@.id,
        }
    }

    fn get_id(&self) -> (id: WorldId) {
        match self {
            Unit::BasicUnit(b) => b.get_id(),
            Unit::CompositeUnit(c) => c.get_id(),
        }
    }

    fn generate_id(&self, ids: &mut IdAllocator) -> (id: WorldId)
        ensures
            is_group_id(id as int),
    {
        match self {
            Unit::BasicUnit(b) => b.generate_id(ids),
            Unit::CompositeUnit(c) => c.generate_id(ids),
        }
    }
}

impl<T: Copy> Selectable for Unit<T> {
    open spec fn is_selected(&self) -> bool {
        match self {
            Unit::BasicUnit(b) => b@.selected,
            Unit::CompositeUnit(c) => c@.selected,
        }
    }

    fn select(&mut self)
        ensures
            old(self).marked(true, final(self)),
            old(self).wf() ==> final(self).wf(),
    {
        match self {
            Unit::BasicUnit(b) => b.select(),
            Unit::CompositeUnit(c) => c.select(),
        }
    }

    fn deselect(&mut self)
        ensures
            old(self).marked(false, final(self)),
            old(self).wf() ==> final(self).wf(),
    {
        match self {
            Unit::BasicUnit(b) => b.deselect(),
            Unit::CompositeUnit(c) => c.deselect(),
        }
    }
}

impl<T: Copy> Controllable<T> for Unit<T> {
    open spec fn orders(&self) -> Seq<Goal<T>> {
        match self {
            Unit::BasicUnit(b) => b@.goals,
            Unit::CompositeUnit(c) => c@.goals,
        }
    }

    open spec fn facing(&self) -> Vec2<T> {
        match self {
            Unit::BasicUnit(b) => b@.direction,
            Unit::CompositeUnit(c) => c@.direction,
        }
    }

    fn new_order(&mut self, goal: Goal<T>)
        ensures
            old(self).requeued(seq![goal], final(self)),
            old(self).wf() ==> final(self).wf(),
    {
        match self {
            Unit::BasicUnit(b) => b.new_order(goal),
            Unit::CompositeUnit(c) => c.new_order(goal),
        }
    }

    fn add_order(&mut self, goal: Goal<T>)
        ensures
            old(self).requeued(old(self).orders().push(goal), final(self)),
            old(self).wf() ==> final(self).wf(),
    {
        match self {
            Unit::BasicUnit(b) => b.add_order(goal),
            Unit::CompositeUnit(c) => c.add_order(goal),
        }
    }

    fn assign_goals(&mut self, action: PlayerAction<T>)
        ensures
            old(self).requeued(
                goals_after(old(self).orders(), action, old(self).facing()),
                final(self),
            ),
            old(self).wf() ==> final(self).wf(),
    {
        match self {
            Unit::BasicUnit(b) => b.assign_goals(action),
            Unit::CompositeUnit(c) => c.assign_goals(action),
        }
    }
}

/// The address of every agent of a well-formed group leads back to the group,
/// and is not taken for the address of a group.
pub proof fn lemma_group_owns_its_agents<T: Copy>(unit: BasicUnit<T>, local: int)
    requires
        unit.wf(),
        0 <= local < unit@.entities.len(),
    ensures
        spec_group_of(spec_agent_id(unit@.id as int, local)) == Some(unit@.id as int),
        !spec_is_container(spec_agent_id(unit@.id as int, local)),
        spec_is_container(unit@.id as int),
{
    lemma_agent_id_round_trip(unit@.id as int, local);
}

/// A group that arrives moves on to the goal behind its active one; where
/// there is none, it goes on `Hold`.
pub proof fn lemma_arrival_advances_goals<T: Default>(
    before: BasicUnitView<T>,
    outcome: StepOutcome<T>,
    after: BasicUnitView<T>,
)
    requires
        before.goals.len() > 0,
        !(before.goals[0] is Hold),
        outcome.arrived,
        step_result(before, outcome, after),
    ensures
        before.goals.len() > 1 ==> after.goals == before.goals.drop_first(),
        before.goals.len() == 1 ==> after.goals == seq![Goal::<T>::Hold],
        after.goals.len() > 0,
{
}

/// A group that arrives at its last goal goes on `Hold`, and no later step
/// moves it or any of its agents.
pub proof fn lemma_goal_exhaustion<T: Default>(
    before: BasicUnitView<T>,
    outcome: StepOutcome<T>,
    after: BasicUnitView<T>,
    later_outcome: StepOutcome<T>,
    later: BasicUnitView<T>,
)
    requires
        before.goals.len() == 1,
        !(before.goals[0] is Hold),
        outcome.arrived,
        step_result(before, outcome, after),
        step_result(after, later_outcome, later),
    ensures
        after.goals[0] == Goal::<T>::Hold,
        later == after,
        later.entities == after.entities,
{
}

/// A step never changes how many agents a group has, nor its address.
pub proof fn lemma_step_keeps_agents<T: Default>(
    before: BasicUnitView<T>,
    outcome: StepOutcome<T>,
    after: BasicUnitView<T>,
)
    requires
        step_result(before, outcome, after),
    ensures
        after.entities.len() == before.entities.len(),
        after.id == before.id,
{
}

/// An agent that has arrived stands still, and where it stood.
pub proof fn lemma_arrived_agent_is_frozen<T: Default>(
    before: BasicUnitView<T>,
    outcome: StepOutcome<T>,
    after: BasicUnitView<T>,
    index: int,
)
    requires
        before.goals.len() > 0,
        !(before.goals[0] is Hold),
        step_result(before, outcome, after),
        0 <= index < before.entities.len(),
        outcome.agents@[index] is Arrived,
    ensures
        after.entities[index].state == BoidState::Stationary,
        is_default(after.entities[index].vel.x),
        is_default(after.entities[index].vel.y),
        after.entities[index].pos == before.entities[index].pos,
{
}

} // verus!
