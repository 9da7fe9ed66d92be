use vstd::prelude::*;
use std::collections::HashSet;
use crate::ops::Vec2;
use crate::world::{
    get_group_of, is_agent_of, is_container, spec_group_of, spec_is_container, WorldId,
};

verus! {

/// What the player asks of the selected groups.
#[derive(Debug, Copy, Clone, PartialEq)]
pub enum PlayerAction<T> {
    /// Nothing.
    NoAction,
    /// Go to a point, facing the given direction if there is one; replaces all queued goals.
    Move(Vec2<T>, Option<Vec2<T>>),
    /// As `Move`, queued behind the goals that are there.
    AddMove(Vec2<T>, Option<Vec2<T>>),
    /// Form a front between two points, facing the given direction if there is
    /// one; replaces all queued goals.
    FormUp(Vec2<T>, Vec2<T>, Option<Vec2<T>>),
    /// As `FormUp`, queued behind the goals that are there.
    AddFormUp(Vec2<T>, Vec2<T>, Option<Vec2<T>>),
}

/// What the keyboard and the mouse can tell the player's state.
#[derive(Debug, Copy, Clone, PartialEq)]
pub enum InputEvent<T> {
    CtrlPress,
    CtrlRelease,
    LeftPress,
    LeftRelease,
    RightPress,
    RightRelease,
    /// The cursor is now at the given point.
    CursorMoved(Vec2<T>),
    /// Anything else.
    Other,
}

/// The player's side of the game: where the pointer was pressed and released,
/// which keys are down, what is selected and what is asked of it.
pub struct PlayerState<T> {
    pub pos: Vec2<T>,
    pub left: bool,
    pub right: bool,
    pub up: bool,
    pub down: bool,
    pub ctrl_pressed: bool,
    pub shift_pressed: bool,
    /// Where the left button went down, and where the pointer has got to since.
    pub l1: Vec2<T>,
    pub l2: Vec2<T>,
    /// The same for the right button.
    pub r1: Vec2<T>,
    pub r2: Vec2<T>,
    pub l_pressed: bool,
    pub r_pressed: bool,
    /// Set by the event that released the left button, and by no other.
    pub l_click: bool,
    /// Set by the event that released the right button, and by no other.
    pub r_click: bool,
    pub selected: HashSet<WorldId>,
    pub action: PlayerAction<T>,
}

/// The state that `event` makes of `before`, with the cursor at `mouse_pos`
/// when the event came: the click marks of the event before are taken off; a
/// button that goes down starts its gesture at the cursor; one that goes up
/// sets its click mark; a moving cursor drags the end of every gesture whose
/// button is down.
pub open spec fn input_applied<T>(
    before: PlayerState<T>,
    event: InputEvent<T>,
    mouse_pos: Vec2<T>,
) -> PlayerState<T> {
    let p = PlayerState { l_click: false, r_click: false, ..before };
    match event {
        InputEvent::CtrlPress => PlayerState { ctrl_pressed: true, ..p },
        InputEvent::CtrlRelease => PlayerState { ctrl_pressed: false, ..p },
        InputEvent::LeftPress => PlayerState { l_pressed: true, l1: mouse_pos, l2: mouse_pos, ..p },
        InputEvent::LeftRelease => PlayerState { l_pressed: false, l_click: true, ..p },
        InputEvent::RightPress => PlayerState {
            r_pressed: true,
            r1: mouse_pos,
            r2: mouse_pos,
            ..p
        },
        InputEvent::RightRelease => PlayerState { r_pressed: false, r_click: true, ..p },
        InputEvent::CursorMoved(pos) => PlayerState {
            l2: if p.l_pressed {
                pos
            } else {
                p.l2
            },
            r2: if p.r_pressed {
                pos
            } else {
                p.r2
            },
            ..p
        },
        InputEvent::Other => p,
    }
}

/// Whether `index` is the first position of `ids` whose entry is `wanted`.
pub open spec fn is_first_where(
    ids: Seq<WorldId>,
    wanted: spec_fn(WorldId) -> bool,
    index: int,
) -> bool {
    &&& 0 <= index < ids.len()
    &&& wanted(ids[index])
    &&& forall|j: int| 0 <= j < index ==> !wanted(ids[j])
}

/// The first entry of `ids` that is `wanted`, if any is.
pub open spec fn first_where(ids: Seq<WorldId>, wanted: spec_fn(WorldId) -> bool) -> Option<
    WorldId,
> {
    if exists|i: int| is_first_where(ids, wanted, i) {
        Some(ids[choose|i: int| is_first_where(ids, wanted, i)])
    } else {
        None
    }
}

/// The first wanted entry is the one at the only position that
/// `is_first_where` holds of.
pub proof fn lemma_first_where_unique(
    ids: Seq<WorldId>,
    wanted: spec_fn(WorldId) -> bool,
    index: int,
)
    requires
        is_first_where(ids, wanted, index),
    ensures
        first_where(ids, wanted) == Some(ids[index]),
{
    let chosen = choose|i: int| is_first_where(ids, wanted, i);
    if chosen < index {
        assert(!wanted(ids[chosen]));
    } else if index < chosen {
        assert(!wanted(ids[index]));
    }
}

/// Where no entry is wanted, there is no first one.
pub proof fn lemma_first_where_none(ids: Seq<WorldId>, wanted: spec_fn(WorldId) -> bool)
    requires
        forall|j: int| 0 <= j < ids.len() ==> !wanted(ids[j]),
    ensures
        first_where(ids, wanted) is None,
{
}

/// What a scan of the hit addresses looks for.
#[derive(Copy, Clone)]
pub enum Wanted {
    /// An agent that is selected.
    SelectedAgent,
    /// A group that is selected.
    SelectedContainer,
    /// An agent of the group at the given address.
    AgentOf(WorldId),
    /// An agent.
    AnyAgent,
}

impl Wanted {
    /// Whether `id` is what is looked for, with `selected` being selected.
    pub open spec fn holds(self, selected: Set<WorldId>, id: WorldId) -> bool {
        match self {
            Wanted::SelectedAgent => !spec_is_container(id as int) && selected.contains(id),
            Wanted::SelectedContainer => spec_is_container(id as int) && selected.contains(id),
            Wanted::AgentOf(group) => !spec_is_container(id as int) && spec_group_of(id as int)
                == Some(group as int),
            Wanted::AnyAgent => !spec_is_container(id as int),
        }
    }

    /// `holds` as a predicate on addresses.
    pub open spec fn pred(self, selected: Set<WorldId>) -> spec_fn(WorldId) -> bool {
        |id: WorldId| self.holds(selected, id)
    }
}

/// The first address in `ids` that is `wanted`, with `selected` being selected.
pub fn find_first(ids: &Vec<WorldId>, selected: &HashSet<WorldId>, wanted: Wanted) -> (found:
    Option<WorldId>)
    ensures
        found == first_where(ids@, wanted.pred(selected@)),
{
    broadcast use vstd::std_specs::hash::group_hash_axioms;

    let mut i: usize = 0;
    while i < ids.len()
        invariant
            i <= ids@.len(),
            forall|j: int| 0 <= j < i ==> !wanted.pred(selected@)(ids@[j]),
        decreases ids@.len() - i,
    {
        let id = ids[i];
        let hit = match wanted {
            Wanted::SelectedAgent => !is_container(id) && selected.contains(&id),
            Wanted::SelectedContainer => is_container(id) && selected.contains(&id),
            Wanted::AgentOf(group) => is_agent_of(id, group),
            Wanted::AnyAgent => !is_container(id),
        };
        if hit {
            proof {
                lemma_first_where_unique(ids@, wanted.pred(selected@), i as int);
            }
            return Some(id);
        }
        i = i + 1;
    }
    proof {
        lemma_first_where_none(ids@, wanted.pred(selected@));
    }
    None
}

/// The selection after every one of the first `n` addresses of `ids` has been
/// toggled in turn: taken out where it was in, put in where it was not.
pub open spec fn toggled(selected: Set<WorldId>, ids: Seq<WorldId>, n: nat) -> Set<WorldId>
    decreases n,
{
    if n == 0 {
        selected
    } else {
        let before = toggled(selected, ids, (n - 1) as nat);
        if before.contains(ids[n - 1]) {
            before.remove(ids[n - 1])
        } else {
            before.insert(ids[n - 1])
        }
    }
}

/// What a click without the control key makes of a selection that is not
/// empty, where the click hit `ids`, which is not empty either.
///  - An agent that was selected gives way to its group, or to nothing where
///    no group owns it.
///  - Else a group that was selected gives way to its agent under the click,
///    or to nothing where the click hit none of its agents.
///  - Else the first agent hit is selected alone.
///  - Else the selection stays.
pub open spec fn drilled(selected: Set<WorldId>, ids: Seq<WorldId>) -> Set<WorldId> {
    match first_where(ids, Wanted::SelectedAgent.pred(selected)) {
        Some(agent) => match spec_group_of(agent as int) {
            Some(group) => set![group as usize],
            None => Set::empty(),
        },
        None => match first_where(ids, Wanted::SelectedContainer.pred(selected)) {
            Some(group) => match first_where(ids, Wanted::AgentOf(group).pred(selected)) {
                Some(agent) => set![agent],
                None => Set::empty(),
            },
            None => match first_where(ids, Wanted::AnyAgent.pred(selected)) {
                Some(agent) => set![agent],
                None => selected,
            },
        },
    }
}

/// What a click that hit `ids` makes of the selection.
///  - With the control key down, every address hit is toggled.
///  - A click that hit nothing clears the selection.
///  - With nothing selected, the first address hit is.
///  - Else the click drills from group to agent and back, as `drilled` says.
pub open spec fn selection_after(selected: Set<WorldId>, ids: Seq<WorldId>, ctrl: bool) -> Set<
    WorldId,
> {
    if ctrl {
        toggled(selected, ids, ids.len())
    } else if ids.len() == 0 {
        Set::empty()
    } else if selected.is_empty() {
        set![ids[0]]
    } else {
        drilled(selected, ids)
    }
}

/// Whether two states agree on everything but the selection and the action.
pub open spec fn same_inputs<T>(a: PlayerState<T>, b: PlayerState<T>) -> bool {
    a == (PlayerState { selected: a.selected, action: a.action, ..b })
}

/// The action that the gestures of `state` ask for: the one in force while
/// the left button is released, a move to where the right button was released
/// after a click, a front from where it went down to where it went up after
/// a drag, and none where no button was released.
pub open spec fn action_after<T>(state: PlayerState<T>, right_is_click: bool) -> PlayerAction<T> {
    if state.l_click {
        state.action
    } else if state.r_click {
        if right_is_click {
            PlayerAction::Move(state.r2, None)
        } else {
            PlayerAction::FormUp(state.r1, state.r2, None)
        }
    } else {
        PlayerAction::NoAction
    }
}

impl<T: Copy> PlayerState<T> {
    /// A player with the pointer at `origin`, no key or button down, nothing
    /// selected and nothing asked.
    pub fn new(origin: Vec2<T>) -> (state: Self)
        ensures
            state.selected@ == Set::<WorldId>::empty(),
            same_inputs(
                state,
                PlayerState {
                    pos: origin,
                    left: false,
                    right: false,
                    up: false,
                    down: false,
                    ctrl_pressed: false,
                    shift_pressed: false,
                    l1: origin,
                    l2: origin,
                    r1: origin,
                    r2: origin,
                    l_pressed: false,
                    r_pressed: false,
                    l_click: false,
                    r_click: false,
                    selected: state.selected,
                    action: state.action,
                },
            ),
            state.action == PlayerAction::<T>::NoAction,
    {
        PlayerState {
            pos: origin,
            left: false,
            right: false,
            up: false,
            down: false,
            ctrl_pressed: false,
            shift_pressed: false,
            l1: origin,
            l2: origin,
            r1: origin,
            r2: origin,
            l_pressed: false,
            r_pressed: false,
            l_click: false,
            r_click: false,
            selected: HashSet::new(),
            action: PlayerAction::NoAction,
        }
    }

    /// Takes one event from the keyboard or the mouse, with the cursor at
    /// `mouse_pos` when it came.
    pub fn handle_input(&mut self, event: InputEvent<T>, mouse_pos: Vec2<T>)
        ensures
            *final(self) == input_applied(*old(self), event, mouse_pos),
    {
        self.l_click = false;
        self.r_click = false;
        match event {
            InputEvent::CtrlPress => {
                self.ctrl_pressed = true;
            },
            InputEvent::CtrlRelease => {
                self.ctrl_pressed = false;
            },
            InputEvent::LeftPress => {
                self.l_pressed = true;
                self.l1 = mouse_pos;
                self.l2 = mouse_pos;
            },
            InputEvent::LeftRelease => {
                self.l_pressed = false;
                self.l_click = true;
            },
            InputEvent::RightPress => {
                self.r_pressed = true;
                self.r1 = mouse_pos;
                self.r2 = mouse_pos;
            },
            InputEvent::RightRelease => {
                self.r_pressed = false;
                self.r_click = true;
            },
            InputEvent::CursorMoved(pos) => {
                if self.l_pressed {
                    self.l2 = pos;
                }
                if self.r_pressed {
                    self.r2 = pos;
                }
            },
            InputEvent::Other => {},
        }
    }

    /// Changes the selection as a click that hit `ids` asks.
    pub fn select_at(&mut self, ids: &Vec<WorldId>)
        ensures
            final(self).selected@ == selection_after(
                old(self).selected@,
                ids@,
                old(self).ctrl_pressed,
            ),
            same_inputs(*final(self), *old(self)),
            final(self).action == old(self).action,
    {
        broadcast use vstd::std_specs::hash::group_hash_axioms;

        if self.ctrl_pressed {
            let mut i: usize = 0;
            while i < ids.len()
                invariant
                    i <= ids@.len(),
                    self.selected@ == toggled(old(self).selected@, ids@, i as nat),
                    same_inputs(*self, *old(self)),
                    self.action == old(self).action,
                decreases ids@.len() - i,
            {
                let id = ids[i];
                if self.selected.contains(&id) {
                    let _ = self.selected.remove(&id);
                } else {
                    let _ = self.selected.insert(id);
                }
                i = i + 1;
            }
        } else if ids.len() == 0 {
            self.selected.clear();
        } else if self.selected.is_empty() {
            let _ = self.selected.insert(ids[0]);
            assert(self.selected@ =~= set![ids@[0]]);
        } else {
            let ghost before = self.selected@;
            match find_first(ids, &self.selected, Wanted::SelectedAgent) {
                Some(agent) => {
                    let owner = get_group_of(agent);
                    self.selected.clear();
                    match owner {
                        Some(group) => {
                            let _ = self.selected.insert(group);
                            assert(self.selected@ =~= set![group]);
                        },
                        None => {},
                    }
                },
                None => match find_first(ids, &self.selected, Wanted::SelectedContainer) {
                    Some(group) => {
                        let agent = find_first(ids, &self.selected, Wanted::AgentOf(group));
                        self.selected.clear();
                        match agent {
                            Some(agent) => {
                                let _ = self.selected.insert(agent);
                                assert(self.selected@ =~= set![agent]);
                            },
                            None => {},
                        }
                    },
                    None => match find_first(ids, &self.selected, Wanted::AnyAgent) {
                        Some(agent) => {
                            self.selected.clear();
                            let _ = self.selected.insert(agent);
                            assert(self.selected@ =~= set![agent]);
                        },
                        None => {},
                    },
                },
            }
        }
    }

    /// Reads the gestures that the last event completed. A left click that hit
    /// `ids` changes the selection; a left drag changes nothing. A right click
    /// asks for a move to where it happened, a right drag for a front from
    /// its start to its end. Without a button released, nothing is asked.
    /// `left_is_click` and `right_is_click` say whether the pointer stayed
    /// where the button went down.
    pub fn update_player_action(
        &mut self,
        left_is_click: bool,
        right_is_click: bool,
        ids: &Vec<WorldId>,
    )
        ensures
            final(self).selected@ == if old(self).l_click && left_is_click {
                selection_after(old(self).selected@, ids@, old(self).ctrl_pressed)
            } else {
                old(self).selected@
            },
            final(self).action == action_after(*old(self), right_is_click),
            same_inputs(*final(self), *old(self)),
    {
        if self.l_click {
            if left_is_click {
                self.select_at(ids);
            }
        } else if self.r_click {
            if right_is_click {
                self.action = PlayerAction::Move(self.r2, None);
            } else {
                self.action = PlayerAction::FormUp(self.r1, self.r2, None);
            }
        } else {
            self.action = PlayerAction::NoAction;
        }
    }
}

} // verus!
