use gym_rs::spaces::BoxR;
use gym_rs::spaces::Discrete;
use gym_rs::spaces::Space;

#[test]
fn given_value_greater_or_eq_than_upper_bound_when_contains_called_then_returns_false() {
    let obj = Discrete(3);

    assert!(!obj.contains(3));
    assert!(!obj.contains(4));
}

#[test]
fn given_value_less_than_upper_bound_when_contains_then_returns_true() {
    let obj = Discrete(3);

    assert!(obj.contains(1));
    assert!(obj.contains(2));
}

#[test]
fn discrete_boundary_law_over_small_spaces() {
    for n in 1usize..=10 {
        let space = Discrete(n);
        for v in 0usize..=(n + 1) {
            assert_eq!(space.contains(v), v < n);
        }
    }
}

#[test]
fn box_r_keeps_its_bounds() {
    let b = BoxR::new(-3i64, 7i64);
    assert_eq!(b.low, -3);
    assert_eq!(b.high, 7);
}

#[test]
fn box_r_contains_is_inclusive_on_both_bounds() {
    let b = BoxR::new(-2i64, 2i64);
    assert!(b.contains(&-2));
    assert!(b.contains(&0));
    assert!(b.contains(&2));
    assert!(!b.contains(&-3));
    assert!(!b.contains(&3));
}
