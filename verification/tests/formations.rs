use boids::formations::{calculate_formation, phalanx_formation, FormationKind};
use boids::ops::Vec2;
use boids::units::{plan_goal, Goal, StepPlan};

#[test]
fn test() {
    let form_width: usize = 0;

    let cur: usize = 1;

    let cell = phalanx_formation(cur, form_width);
    let target_offset = Vec2 { x: cell.x as f64, y: cell.y as f64 };

    assert_eq!(target_offset, Vec2::<f64>::default());

    let form_width: usize = 5;

    let cur: usize = 14;

    let cell = phalanx_formation(cur, form_width);
    let target_offset = Vec2 { x: cell.x as f64, y: cell.y as f64 };
    println!("{:?}", target_offset);

    assert_ne!(target_offset, Vec2::<f64>::default());
    assert_eq!(target_offset, Vec2 { x: 4.0, y: 2.0 });
}

#[test]
fn phalanx_of_no_width_is_the_origin() {
    assert_eq!(phalanx_formation(7, 0), Vec2 { x: 0, y: 0 });
    assert_eq!(phalanx_formation(0, 0), Vec2 { x: 0, y: 0 });
    assert_eq!(phalanx_formation(usize::MAX, 0), Vec2 { x: 0, y: 0 });
}

#[test]
fn phalanx_places_by_remainder_and_quotient() {
    assert_eq!(phalanx_formation(7, 3), Vec2 { x: 1, y: 2 });
    assert_eq!(phalanx_formation(0, 3), Vec2 { x: 0, y: 0 });
    assert_eq!(phalanx_formation(2, 3), Vec2 { x: 2, y: 0 });
    assert_eq!(phalanx_formation(3, 3), Vec2 { x: 0, y: 1 });
    assert_eq!(phalanx_formation(9, 1), Vec2 { x: 0, y: 9 });
    assert_eq!(phalanx_formation(9, 100), Vec2 { x: 9, y: 0 });
}

#[test]
fn phalanx_cells_are_distinct_and_give_the_index_back() {
    for width in 1..9usize {
        let mut seen = Vec::new();
        for index in 0..50usize {
            let cell = phalanx_formation(index, width);
            assert!(cell.x < width);
            assert_eq!(cell.y * width + cell.x, index);
            assert!(!seen.contains(&cell));
            seen.push(cell);
        }
    }
}

#[test]
fn calculate_formation_lists_the_cells_in_order() {
    let cells = calculate_formation(7, 3);
    assert_eq!(
        cells,
        vec![
            Vec2 { x: 0, y: 0 },
            Vec2 { x: 1, y: 0 },
            Vec2 { x: 2, y: 0 },
            Vec2 { x: 0, y: 1 },
            Vec2 { x: 1, y: 1 },
            Vec2 { x: 2, y: 1 },
            Vec2 { x: 0, y: 2 },
        ]
    );
    assert_eq!(calculate_formation(3, 0), vec![Vec2 { x: 0, y: 0 }; 3]);
    assert!(calculate_formation(0, 4).is_empty());
}

#[test]
fn each_goal_asks_for_its_formation() {
    let p = Vec2 { x: 3.0, y: 4.0 };
    let q = Vec2 { x: 30.0, y: 4.0 };
    let d = Vec2 { x: 0.0, y: 1.0 };
    let facing = Vec2 { x: 1.0, y: 0.0 };
    assert_eq!(
        plan_goal(Goal::Idle(p), facing),
        Some(StepPlan { formation: FormationKind::Idle, pos1: p, pos2: p, dir: facing })
    );
    assert_eq!(plan_goal(Goal::<f64>::Hold, facing), None);
    assert_eq!(
        plan_goal(Goal::Move(p, d), facing),
        Some(StepPlan { formation: FormationKind::Default, pos1: p, pos2: p, dir: d })
    );
    assert_eq!(
        plan_goal(Goal::Column(p), facing),
        Some(StepPlan { formation: FormationKind::Default, pos1: p, pos2: p, dir: facing })
    );
    assert_eq!(
        plan_goal(Goal::Front(p, q, d), facing),
        Some(StepPlan { formation: FormationKind::Directional, pos1: p, pos2: q, dir: d })
    );
}
