use ann_index::results::{find_truncation_bound, truncate_results, NO_RESULT};

#[test]
fn sentinel_is_minus_one() {
    assert_eq!(NO_RESULT, -1);
}

#[test]
fn trailing_padding_is_cut() {
    let (ids, distances) = truncate_results(vec![5, 3, -1, -1], vec![0.1f32, 0.4, 0.0, 0.0]);
    assert_eq!(ids, vec![5, 3]);
    assert_eq!(distances, vec![0.1f32, 0.4]);
}

#[test]
fn all_padding_gives_nothing() {
    let (ids, distances) = truncate_results(vec![-1, -1, -1], vec![0.0f32, 0.0, 0.0]);
    assert!(ids.is_empty());
    assert!(distances.is_empty());
    assert_eq!(find_truncation_bound(&vec![-1, -1, -1]), 0);
}

#[test]
fn single_slot_buffers() {
    assert_eq!(find_truncation_bound(&vec![-1]), 0);
    assert_eq!(find_truncation_bound(&vec![8]), 1);
    let (ids, distances) = truncate_results(vec![-1], vec![0.0f32]);
    assert!(ids.is_empty());
    assert!(distances.is_empty());
    let (ids, distances) = truncate_results(vec![8], vec![2.5f32]);
    assert_eq!(ids, vec![8]);
    assert_eq!(distances, vec![2.5f32]);
}

#[test]
fn empty_buffers() {
    assert_eq!(find_truncation_bound(&Vec::new()), 0);
    let (ids, distances) = truncate_results(Vec::new(), Vec::<f32>::new());
    assert!(ids.is_empty());
    assert!(distances.is_empty());
}

#[test]
fn a_hit_in_the_first_slot_is_kept() {
    assert_eq!(find_truncation_bound(&vec![5, -1]), 1);
    let (ids, distances) = truncate_results(vec![5, -1, -1], vec![0.25f32, 0.0, 0.0]);
    assert_eq!(ids, vec![5]);
    assert_eq!(distances, vec![0.25f32]);
}

#[test]
fn full_buffer_is_left_alone() {
    let (ids, distances) = truncate_results(vec![1, 2, 3], vec![0.1f32, 0.2, 0.3]);
    assert_eq!(ids, vec![1, 2, 3]);
    assert_eq!(distances, vec![0.1f32, 0.2, 0.3]);
    assert_eq!(find_truncation_bound(&vec![1, 2, 3]), 3);
}

#[test]
fn only_trailing_padding_is_cut() {
    // two queries of three slots each: the padding of the first row stays
    let raw_ids = vec![4, -1, -1, 9, 2, -1];
    let raw_distances = vec![0.5f32, 0.0, 0.0, 0.1, 0.2, 0.0];
    assert_eq!(find_truncation_bound(&raw_ids), 5);
    let (ids, distances) = truncate_results(raw_ids, raw_distances);
    assert_eq!(ids, vec![4, -1, -1, 9, 2]);
    assert_eq!(distances, vec![0.5f32, 0.0, 0.0, 0.1, 0.2]);
}

#[test]
fn other_negative_identifiers_are_hits() {
    let (ids, distances) = truncate_results(vec![7, -2, i64::MIN, -1], vec![1u8, 2, 3, 4]);
    assert_eq!(ids, vec![7, -2, i64::MIN]);
    assert_eq!(distances, vec![1u8, 2, 3]);
}

#[test]
fn cutting_twice_is_cutting_once() {
    let once = truncate_results(vec![3, -1, 6, -1, -1], vec![1.0f64, 2.0, 3.0, 4.0, 5.0]);
    let twice = truncate_results(once.0.clone(), once.1.clone());
    assert_eq!(once, twice);
    assert_eq!(once.0, vec![3, -1, 6]);
}

#[test]
fn a_shorter_parallel_buffer_is_not_lengthened() {
    let (ids, distances) = truncate_results(vec![1, 2, 3, -1], vec![0.5f32, 0.25]);
    assert_eq!(ids, vec![1, 2, 3]);
    assert_eq!(distances, vec![0.5f32, 0.25]);
    let (ids, distances) = truncate_results(vec![1, -1], vec![0.5f32, 0.25, 0.125]);
    assert_eq!(ids, vec![1]);
    assert_eq!(distances, vec![0.5f32]);
}
