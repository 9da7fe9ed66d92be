use std::collections::VecDeque;

use boids::boids::BoidVec;
use boids::container::{Container, ContainerState};
use boids::formations::FormationKind;
use boids::traits::Identifiable;
use boids::ops::Vec2;
use boids::player::PlayerAction;
use boids::traits::{Controllable, Selectable};
use boids::units::{advance_goals, assign_goals, BasicUnit, CompositeUnit, Goal, Unit};

fn v(x: f64, y: f64) -> Vec2<f64> {
    Vec2 { x, y }
}

fn goals_of(unit: &BasicUnit<f64>) -> Vec<Goal<f64>> {
    (0..unit.goal_count()).map(|i| unit.goal(i)).collect()
}

fn group() -> BasicUnit<f64> {
    BasicUnit::new(256, v(5.0, 5.0), v(1.0, 0.0), 2.0, BoidVec::zeros(3))
}

#[test]
fn a_new_group_idles_where_it_stands() {
    let unit = group();
    assert_eq!(goals_of(&unit), vec![Goal::Idle(v(5.0, 5.0))]);
    assert_eq!(unit.active_goal(), Goal::Idle(v(5.0, 5.0)));
    assert_eq!(unit.center(), v(5.0, 5.0));
    assert_eq!(unit.direction(), v(1.0, 0.0));
    assert_eq!(unit.radius(), 2.0);
    assert!(!unit.selected());
    assert_eq!(unit.len(), 3);
}

#[test]
fn a_plain_action_replaces_the_queue() {
    let facing = v(1.0, 0.0);
    let mut queue: VecDeque<Goal<f64>> = VecDeque::new();
    queue.push_back(Goal::Idle(v(0.0, 0.0)));
    queue.push_back(Goal::Column(v(1.0, 1.0)));

    assign_goals(&mut queue, PlayerAction::Move(v(9.0, 9.0), Some(v(0.0, 1.0))), facing);
    assert_eq!(Vec::from(queue.clone()), vec![Goal::Move(v(9.0, 9.0), v(0.0, 1.0))]);

    assign_goals(&mut queue, PlayerAction::FormUp(v(1.0, 2.0), v(3.0, 4.0), None), facing);
    assert_eq!(Vec::from(queue.clone()), vec![Goal::Front(v(3.0, 4.0), v(1.0, 2.0), facing)]);
}

#[test]
fn an_adding_action_appends() {
    let facing = v(1.0, 0.0);
    let mut queue: VecDeque<Goal<f64>> = VecDeque::new();
    queue.push_back(Goal::Idle(v(0.0, 0.0)));

    assign_goals(&mut queue, PlayerAction::AddMove(v(9.0, 9.0), None), facing);
    assign_goals(
        &mut queue,
        PlayerAction::AddFormUp(v(1.0, 2.0), v(3.0, 4.0), Some(v(0.0, -1.0))),
        facing,
    );
    assert_eq!(
        Vec::from(queue.clone()),
        vec![
            Goal::Idle(v(0.0, 0.0)),
            Goal::Move(v(9.0, 9.0), facing),
            Goal::Front(v(3.0, 4.0), v(1.0, 2.0), v(0.0, -1.0)),
        ]
    );
}

#[test]
fn no_action_leaves_the_queue() {
    let mut queue: VecDeque<Goal<f64>> = VecDeque::new();
    queue.push_back(Goal::Hold);
    queue.push_back(Goal::Column(v(1.0, 1.0)));
    assign_goals(&mut queue, PlayerAction::NoAction, v(1.0, 0.0));
    assert_eq!(Vec::from(queue), vec![Goal::Hold, Goal::Column(v(1.0, 1.0))]);
}

#[test]
fn advancing_drops_the_front_and_ends_on_hold() {
    let mut queue: VecDeque<Goal<f64>> = VecDeque::new();
    queue.push_back(Goal::Move(v(1.0, 1.0), v(1.0, 0.0)));
    queue.push_back(Goal::Column(v(2.0, 2.0)));

    advance_goals(&mut queue);
    assert_eq!(Vec::from(queue.clone()), vec![Goal::Column(v(2.0, 2.0))]);
    advance_goals(&mut queue);
    assert_eq!(Vec::from(queue.clone()), vec![Goal::Hold]);
    advance_goals(&mut queue);
    assert_eq!(Vec::from(queue.clone()), vec![Goal::Hold]);

    let mut empty: VecDeque<Goal<f64>> = VecDeque::new();
    advance_goals(&mut empty);
    assert_eq!(Vec::from(empty), vec![Goal::Hold]);
}

#[test]
fn orders_reach_the_queue_of_a_group() {
    let mut unit = group();
    unit.add_order(Goal::Column(v(1.0, 1.0)));
    assert_eq!(goals_of(&unit), vec![Goal::Idle(v(5.0, 5.0)), Goal::Column(v(1.0, 1.0))]);
    unit.new_order(Goal::Hold);
    assert_eq!(goals_of(&unit), vec![Goal::Hold]);
    unit.assign_goals(PlayerAction::Move(v(7.0, 7.0), None));
    assert_eq!(goals_of(&unit), vec![Goal::Move(v(7.0, 7.0), v(1.0, 0.0))]);
    unit.set_direction(v(0.0, 1.0));
    unit.assign_goals(PlayerAction::AddMove(v(8.0, 8.0), None));
    assert_eq!(
        goals_of(&unit),
        vec![Goal::Move(v(7.0, 7.0), v(1.0, 0.0)), Goal::Move(v(8.0, 8.0), v(0.0, 1.0))]
    );
    assert_eq!(unit.len(), 3);
}

#[test]
fn selecting_changes_the_mark_only() {
    let mut unit = group();
    unit.select();
    assert!(unit.selected());
    assert_eq!(goals_of(&unit), vec![Goal::Idle(v(5.0, 5.0))]);
    unit.deselect();
    assert!(!unit.selected());
}

#[test]
fn a_composite_unit_takes_orders_too() {
    let mut unit = CompositeUnit::new(512, v(0.0, 0.0), v(1.0, 0.0), 4.0, vec![group()]);
    assert_eq!(unit.troop_count(), 1);
    assert_eq!(unit.troop(0).len(), 3);
    assert_eq!(unit.goal_count(), 1);
    assert_eq!(unit.goal(0), Goal::Idle(v(0.0, 0.0)));
    unit.assign_goals(PlayerAction::FormUp(v(1.0, 0.0), v(2.0, 0.0), None));
    assert_eq!(unit.goal_count(), 1);
    assert_eq!(unit.goal(0), Goal::Front(v(2.0, 0.0), v(1.0, 0.0), v(1.0, 0.0)));
    unit.select();
    assert!(unit.selected());

    let mut wrapped = Unit::CompositeUnit(unit);
    wrapped.command(false, PlayerAction::Move(v(3.0, 3.0), None));
    match &wrapped {
        Unit::CompositeUnit(c) => {
            assert!(!c.selected());
            assert_eq!(c.goal(0), Goal::Front(v(2.0, 0.0), v(1.0, 0.0), v(1.0, 0.0)));
        }
        Unit::BasicUnit(_) => panic!("the unit changed its kind"),
    }
    assert_eq!(wrapped.plan_step(), None);
}

#[test]
fn a_restored_group_keeps_its_queue_or_holds() {
    let goals = vec![Goal::Move(v(1.0, 1.0), v(0.0, 1.0)), Goal::Column(v(2.0, 2.0))];
    let unit = BasicUnit::restore(
        512,
        v(1.0, 2.0),
        v(0.0, 1.0),
        3.0,
        BoidVec::zeros(2),
        &goals,
        ContainerState::Warm,
    );
    assert_eq!(goals_of(&unit), goals);
    assert_eq!(unit.get_id(), 512);
    assert_eq!(unit.center(), v(1.0, 2.0));
    assert_eq!(unit.direction(), v(0.0, 1.0));
    assert_eq!(unit.radius(), 3.0);
    assert_eq!(unit.formation(), FormationKind::Default);
    assert_eq!(unit.cur_state(), ContainerState::Warm);
    assert!(!unit.selected());
    assert_eq!(unit.len(), 2);

    let unit = BasicUnit::restore(
        256,
        v(0.0, 0.0),
        v(1.0, 0.0),
        0.0,
        BoidVec::<f64>::zeros(0),
        &Vec::new(),
        ContainerState::Cold,
    );
    assert_eq!(goals_of(&unit), vec![Goal::Hold]);
}
