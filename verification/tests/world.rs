use std::collections::HashSet;

use boids::boids::BoidVec;
use boids::ops::Vec2;
use boids::player::PlayerAction;
use boids::units::{AgentStep, BasicUnit, Goal, StepOutcome, Unit};
use boids::world::{Probe, World};

fn v(x: f64, y: f64) -> Vec2<f64> {
    Vec2 { x, y }
}

fn three_units() -> World<f64> {
    let mut world = World::new();
    world.add_company(v(0.0, 0.0), v(1.0, 0.0), 10.0, BoidVec::zeros(4));
    world.add_battalion(v(5.0, 0.0), v(1.0, 0.0), 10.0, Vec::new());
    world.add_company(v(9.0, 0.0), v(0.0, 1.0), 10.0, BoidVec::zeros(2));
    world
}

fn basic(world: &World<f64>, index: usize) -> &BasicUnit<f64> {
    match world.unit(index) {
        Unit::BasicUnit(b) => b,
        Unit::CompositeUnit(_) => panic!("a company was asked for"),
    }
}

fn probe(in_bounds: bool, near: &[bool]) -> Probe {
    Probe { in_bounds, near: near.to_vec() }
}

#[test]
fn a_click_reports_groups_and_the_first_agent_hit() {
    let world = three_units();
    let probes = vec![
        probe(true, &[false, true, true, false]),
        probe(true, &[]),
        probe(true, &[false, false]),
    ];
    assert_eq!(world.get_ids_at(&probes), vec![256, 258, 512, 768]);
}

#[test]
fn a_click_outside_a_group_reports_none_of_its_agents() {
    let world = three_units();
    let probes = vec![
        probe(false, &[true, true, true, true]),
        probe(false, &[]),
        probe(true, &[false, true]),
    ];
    assert_eq!(world.get_ids_at(&probes), vec![768, 770]);
    let nothing = vec![probe(false, &[]), probe(false, &[]), probe(false, &[])];
    assert!(world.get_ids_at(&nothing).is_empty());
}

#[test]
fn units_without_a_probe_and_flags_without_an_agent_count_for_nothing() {
    let world = three_units();
    assert_eq!(world.get_ids_at(&vec![probe(true, &[false, false, false, false, true])]), vec![256]);
    assert!(world.get_ids_at(&Vec::new()).is_empty());
    let long = vec![
        probe(false, &[]),
        probe(false, &[]),
        probe(false, &[]),
        probe(true, &[true]),
    ];
    assert!(world.get_ids_at(&long).is_empty());
}

#[test]
fn a_drag_reports_every_agent_inside() {
    let world = three_units();
    let probes = vec![
        probe(false, &[true, false, true, true]),
        probe(true, &[true]),
        probe(true, &[true, true, true]),
    ];
    assert_eq!(world.get_ids_in_rect(&probes), vec![257, 259, 260, 512, 768, 769, 770]);
    assert!(world.get_ids_in_rect(&Vec::new()).is_empty());
}

#[test]
fn a_single_company_is_the_first_group() {
    let world = World::single_company(v(1.0, 2.0), v(1.0, 0.0), 3.0, BoidVec::zeros(20));
    assert_eq!(world.len(), 1);
    let unit = basic(&world, 0);
    assert_eq!(unit.len(), 20);
    assert_eq!(unit.center(), v(1.0, 2.0));
    assert_eq!(unit.active_goal(), Goal::Idle(v(1.0, 2.0)));
    assert_eq!(unit.agent_id(19), 276);

    let battalion: World<f64> = World::single_battalion(v(0.0, 0.0), v(1.0, 0.0), 0.0, Vec::new());
    assert_eq!(battalion.len(), 1);
    assert!(matches!(battalion.unit(0), Unit::CompositeUnit(_)));
    assert!(World::<f64>::default().len() == 0);
}

#[test]
fn commands_reach_the_selected_units_only() {
    let mut world = three_units();
    let mut selected = HashSet::new();
    selected.insert(768);
    selected.insert(258);

    world.command(&selected, PlayerAction::Move(v(50.0, 50.0), None));

    assert!(!basic(&world, 0).selected());
    assert_eq!(basic(&world, 0).active_goal(), Goal::Idle(v(0.0, 0.0)));
    assert!(basic(&world, 2).selected());
    assert_eq!(basic(&world, 2).goal_count(), 1);
    assert_eq!(basic(&world, 2).active_goal(), Goal::Move(v(50.0, 50.0), v(0.0, 1.0)));

    world.command(&HashSet::new(), PlayerAction::Move(v(1.0, 1.0), None));
    assert!(!basic(&world, 2).selected());
    assert_eq!(basic(&world, 2).active_goal(), Goal::Move(v(50.0, 50.0), v(0.0, 1.0)));
}

#[test]
fn the_world_steps_one_unit_at_a_time() {
    let mut world = three_units();
    let mut selected = HashSet::new();
    selected.insert(768);
    world.command(&selected, PlayerAction::Move(v(50.0, 50.0), None));
    assert!(world.plan_step(2).is_some());
    assert!(world.plan_step(1).is_none());

    let outcome = StepOutcome {
        agents: vec![
            AgentStep::Arrived,
            AgentStep::Marched { vel: v(1.0, 0.0), pos: v(2.0, 0.0), heading: Some(0.0) },
        ],
        center: v(1.0, 0.0),
        radius: 1.0,
        arrived: true,
    };
    world.process_boids(2, &outcome);
    assert_eq!(basic(&world, 2).active_goal(), Goal::Hold);
    assert_eq!(basic(&world, 2).agent(1).pos, v(2.0, 0.0));
    assert_eq!(basic(&world, 0).agent(1).pos, v(0.0, 0.0));
    assert!(world.plan_step(2).is_none());

    let none = StepOutcome { agents: Vec::new(), center: v(0.0, 0.0), radius: 0.0, arrived: true };
    world.process_boids(1, &none);
    assert_eq!(world.len(), 3);
}
