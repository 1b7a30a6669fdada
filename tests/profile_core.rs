use lather::bisector::{find_wings, left_wing_len, locate, min_index, right_wing_len, Wings};
use lather::fit::peak_window;
use lather::order::{order_key, order_keys};
use lather::shift::{check_grid, shift_plan, shift_source, GridError, ShiftSource};

fn keys_of(values: &[f64]) -> Vec<i64> {
    let bits: Vec<u64> = values.iter().map(|v| v.to_bits()).collect();
    order_keys(&bits)
}

fn gaussian_line() -> (Vec<f64>, Vec<f64>) {
    let len = 101;
    let rv: Vec<f64> = (0..len)
        .map(|i| -1.0 + 2.0 * (i as f64) / ((len - 1) as f64))
        .collect();
    let ccf: Vec<f64> = rv.iter().map(|x| -(-(x - 0.5).powi(2)).exp()).collect();
    (rv, ccf)
}

#[test]
fn order_key_follows_numeric_order() {
    let values = [-3.5f64, -1.0, -1e-300, 0.0, 1e-300, 0.5, 2.0, 1e300];
    for pair in values.windows(2) {
        assert!(order_key(pair[0].to_bits()) < order_key(pair[1].to_bits()));
    }
}

#[test]
fn order_key_zeros_are_equal() {
    assert_eq!(order_key(0.0f64.to_bits()), 0);
    assert_eq!(order_key((-0.0f64).to_bits()), 0);
}

#[test]
fn order_key_exact_values() {
    assert_eq!(order_key(5), 5);
    assert_eq!(order_key(0x8000_0000_0000_0005), -5);
    assert_eq!(order_key(0x7FFF_FFFF_FFFF_FFFF), i64::MAX);
    assert_eq!(order_key(u64::MAX), -i64::MAX);
}

#[test]
fn order_keys_keeps_length_and_order() {
    let keys = keys_of(&[1.0, -2.0, 3.0]);
    assert_eq!(keys.len(), 3);
    assert!(keys[1] < keys[0] && keys[0] < keys[2]);
}

#[test]
fn gaussian_line_wings() {
    let (rv, ccf) = gaussian_line();
    let keys = keys_of(&ccf);
    let wings = find_wings(&keys);
    assert_eq!(wings, Wings { bottom: 75, left: 75, right: 25 });
    assert!((rv[wings.bottom] - 0.5).abs() < 1e-12);
}

#[test]
fn gaussian_line_fit_window() {
    let (_, ccf) = gaussian_line();
    let keys = keys_of(&ccf);
    let bottom = min_index(&keys);
    assert_eq!(peak_window(bottom, keys.len()), 72);
}

#[test]
fn wings_stop_where_the_profile_turns_down() {
    let keys = vec![3, 1, 2, 5, 4];
    assert_eq!(find_wings(&keys), Wings { bottom: 1, left: 1, right: 2 });
}

#[test]
fn wings_include_flat_steps() {
    let keys = vec![4, 2, 2, 0, 0, 1, 1, 0];
    assert_eq!(min_index(&keys), 3);
    assert_eq!(left_wing_len(&keys, 3), 3);
    assert_eq!(right_wing_len(&keys, 3), 3);
}

#[test]
fn bottom_at_the_ends() {
    assert_eq!(find_wings(&vec![0, 1, 2]), Wings { bottom: 0, left: 0, right: 2 });
    assert_eq!(find_wings(&vec![2, 1, 0]), Wings { bottom: 2, left: 2, right: 0 });
    assert_eq!(find_wings(&vec![7]), Wings { bottom: 0, left: 0, right: 0 });
}

#[test]
fn min_index_takes_the_first_minimum() {
    assert_eq!(min_index(&vec![2, 1, 1, 3]), 1);
    assert_eq!(min_index(&vec![5, 5, 5]), 0);
}

#[test]
fn locate_finds_or_brackets() {
    let keys = vec![1, 3, 3, 5];
    assert_eq!(locate(&keys, 3), Ok(1));
    assert_eq!(locate(&keys, 5), Ok(3));
    assert_eq!(locate(&keys, 4), Err(3));
    assert_eq!(locate(&keys, 0), Err(0));
    assert_eq!(locate(&keys, 9), Err(4));
    assert_eq!(locate(&vec![], 9), Err(0));
}

#[test]
fn peak_window_is_centred_or_slides_inwards() {
    assert_eq!(peak_window(50, 101), 47);
    assert_eq!(peak_window(1, 101), 0);
    assert_eq!(peak_window(100, 101), 94);
    assert_eq!(peak_window(97, 101), 94);
    assert_eq!(peak_window(3, 7), 0);
}

#[test]
fn positive_shift_duplicates_the_first_sample() {
    assert_eq!(shift_source(0, 2, 5), ShiftSource::Edge(0));
    assert_eq!(shift_source(1, 2, 5), ShiftSource::Edge(0));
    assert_eq!(shift_source(2, 2, 5), ShiftSource::Sample(0));
    assert_eq!(shift_source(4, 2, 5), ShiftSource::Sample(2));
}

#[test]
fn negative_shift_duplicates_the_last_sample() {
    assert_eq!(shift_source(0, -2, 5), ShiftSource::Sample(2));
    assert_eq!(shift_source(2, -2, 5), ShiftSource::Sample(4));
    assert_eq!(shift_source(3, -2, 5), ShiftSource::Edge(4));
    assert_eq!(shift_source(4, -2, 5), ShiftSource::Edge(4));
}

#[test]
fn zero_shift_keeps_every_sample() {
    for i in 0..161 {
        assert_eq!(shift_source(i, 0, 161), ShiftSource::Sample(i));
    }
}

#[test]
fn shift_beyond_the_profile_is_all_edge() {
    for i in 0..5 {
        assert_eq!(shift_source(i, 9, 5), ShiftSource::Edge(0));
        assert_eq!(shift_source(i, -9, 5), ShiftSource::Edge(4));
        assert_eq!(shift_source(i, i64::MAX, 5), ShiftSource::Edge(0));
        assert_eq!(shift_source(i, i64::MIN, 5), ShiftSource::Edge(4));
    }
}

#[test]
fn grid_running_either_way_is_accepted() {
    let (rv, ccf) = gaussian_line();
    assert_eq!(check_grid(&keys_of(&rv), ccf.len()), Ok(()));
    let reversed: Vec<f64> = rv.iter().rev().cloned().collect();
    assert_eq!(check_grid(&keys_of(&reversed), ccf.len()), Ok(()));
}

#[test]
fn grid_errors() {
    assert_eq!(check_grid(&vec![1, 2, 3], 4), Err(GridError::LengthMismatch));
    assert_eq!(check_grid(&vec![1], 1), Err(GridError::TooShort));
    assert_eq!(check_grid(&vec![], 0), Err(GridError::TooShort));
    assert_eq!(check_grid(&vec![1, 2, 2], 3), Err(GridError::NotMonotonic));
    assert_eq!(check_grid(&vec![1, 3, 2], 3), Err(GridError::NotMonotonic));
}

#[test]
fn shift_plan_has_one_source_per_point() {
    let plan = shift_plan(1, 4);
    assert_eq!(
        plan,
        vec![
            ShiftSource::Edge(0),
            ShiftSource::Sample(0),
            ShiftSource::Sample(1),
            ShiftSource::Sample(2)
        ]
    );
    let identity: Vec<ShiftSource> = (0..161).map(ShiftSource::Sample).collect();
    assert_eq!(shift_plan(0, 161), identity);
    assert!(shift_plan(-3, 0).is_empty());
}
