use boids::ops::Vec2;

#[test]
fn arithmetic_is_component_wise() {
    let a = Vec2 { x: 1.5, y: -2.0 };
    let b = Vec2 { x: 0.25, y: 4.0 };
    assert_eq!(a + b, Vec2 { x: 1.75, y: 2.0 });
    assert_eq!(a - b, Vec2 { x: 1.25, y: -6.0 });
    assert_eq!(-a, Vec2 { x: -1.5, y: 2.0 });
    assert_eq!(a * 2.0, Vec2 { x: 3.0, y: -4.0 });
    assert_eq!(a * 0.0, Vec2 { x: 0.0, y: 0.0 });
}

#[test]
fn arithmetic_works_on_integers_too() {
    let a = Vec2 { x: 1i32, y: 2 };
    let b = Vec2 { x: 3i32, y: 4 };
    assert_eq!(a + b, Vec2 { x: 4, y: 6 });
    assert_eq!(b - a, Vec2 { x: 2, y: 2 });
    assert_eq!(-b, Vec2 { x: -3, y: -4 });
    assert_eq!(b * 3, Vec2 { x: 9, y: 12 });
}

#[test]
fn the_default_vector_is_the_origin() {
    assert_eq!(Vec2::<f64>::default(), Vec2 { x: 0.0, y: 0.0 });
    assert_eq!(Vec2::<usize>::default(), Vec2 { x: 0, y: 0 });
    assert_eq!(Vec2::new(2.0, 3.0), Vec2 { x: 2.0, y: 3.0 });
}

#[test]
fn adding_the_opposite_gives_the_origin() {
    let a = Vec2 { x: 7.0, y: -3.5 };
    assert_eq!(a + (-a), Vec2::default());
    assert_eq!(a - a, Vec2::default());
}
