use boids::boids::{Boid, BoidState, BoidVec};
use boids::ops::Vec2;

fn sample(k: f64) -> Boid<f64> {
    Boid {
        pos: Vec2 { x: k, y: k + 1.0 },
        vel: Vec2 { x: -k, y: 0.5 },
        heading: k / 2.0,
        state: BoidState::Marching,
        color: [k, k, k, 1.2 - k],
    }
}

#[test]
fn zeros_makes_agents_at_rest() {
    let store = BoidVec::<f64>::zeros(5);
    assert_eq!(store.len(), 5);
    assert!(!store.is_empty());
    for i in 0..5 {
        let boid = store.get(i);
        assert_eq!(boid.pos, Vec2 { x: 0.0, y: 0.0 });
        assert_eq!(boid.vel, Vec2 { x: 0.0, y: 0.0 });
        assert_eq!(boid.heading, 0.0);
        assert_eq!(boid.state, BoidState::Stationary);
        assert_eq!(boid.color, [0.0; 4]);
        assert_eq!(boid, Boid::default());
    }
    assert!(BoidVec::<f64>::zeros(0).is_empty());
}

#[test]
fn a_new_agent_stands_still() {
    assert_eq!(BoidState::default(), BoidState::Stationary);
}

#[test]
fn push_and_get_keep_the_columns_together() {
    let mut store = BoidVec::with_capacity(3);
    assert!(store.is_empty());
    for k in 0..3 {
        store.push(sample(k as f64));
    }
    assert_eq!(store.len(), 3);
    for k in 0..3 {
        assert_eq!(store.get(k), sample(k as f64));
        assert_eq!(store.pos(k), sample(k as f64).pos);
        assert_eq!(store.vel(k), sample(k as f64).vel);
        assert_eq!(store.heading(k), sample(k as f64).heading);
        assert_eq!(store.state(k), BoidState::Marching);
        assert_eq!(store.color(k), sample(k as f64).color);
    }
}

#[test]
fn column_writes_touch_one_field_of_one_agent() {
    let mut store = BoidVec::filled(4, sample(1.0));
    store.set_pos(2, Vec2 { x: 9.0, y: 9.0 });
    store.set_state(1, BoidState::Idle);
    store.set_heading(0, 3.0);
    store.set_vel(3, Vec2 { x: 0.0, y: 0.0 });
    store.set_color(3, [1.0, 0.0, 0.0, 1.0]);

    assert_eq!(store.get(0), Boid { heading: 3.0, ..sample(1.0) });
    assert_eq!(store.get(1), Boid { state: BoidState::Idle, ..sample(1.0) });
    assert_eq!(store.get(2), Boid { pos: Vec2 { x: 9.0, y: 9.0 }, ..sample(1.0) });
    assert_eq!(
        store.get(3),
        Boid { vel: Vec2 { x: 0.0, y: 0.0 }, color: [1.0, 0.0, 0.0, 1.0], ..sample(1.0) }
    );

    store.set(1, sample(5.0));
    assert_eq!(store.get(1), sample(5.0));
    assert_eq!(store.len(), 4);
}

#[test]
fn to_vec_can_be_asked_for_again() {
    let mut store = BoidVec::new();
    store.push(sample(1.0));
    store.push(sample(2.0));
    let first = store.to_vec();
    let second = store.to_vec();
    assert_eq!(first, vec![sample(1.0), sample(2.0)]);
    assert_eq!(first, second);
    assert_eq!(store.len(), 2);
}
