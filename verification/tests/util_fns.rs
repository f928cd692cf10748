use gym_rs::utils::util_fns::clip;

#[test]
fn given_bounds_when_value_is_beyond_upper_bound_then_upper_bound_returned() {
    let received_val = clip(2, 0, 1);
    assert_eq!(received_val, 1);
}

#[test]
fn given_bounds_when_value_is_less_than_lower_bound_then_lower_bound_returned() {
    let received_val = clip(-1, 0, 1);
    assert_eq!(received_val, 0);
}

#[test]
fn given_bounds_when_value_is_between_boudns_then_value_returned() {
    let recieved_val = clip(1, -1, 2);
    assert_eq!(recieved_val, 1);
}

#[test]
fn clip_keeps_values_on_the_bounds_themselves() {
    assert_eq!(clip(0, 0, 1), 0);
    assert_eq!(clip(1, 0, 1), 1);
}

#[test]
fn clip_works_on_floats_too() {
    assert_eq!(clip(0.08f64, -0.07, 0.07), 0.07);
    assert_eq!(clip(-0.08f64, -0.07, 0.07), -0.07);
    assert_eq!(clip(0.01f64, -0.07, 0.07), 0.01);
}
