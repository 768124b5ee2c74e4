use realtime_backend::sweep::{cascade_pair, clamp_cascade, stage_capacity, SweepStages};

#[test]
fn cascade_defaults() {
    assert_eq!(cascade_pair(0, 0), (10, 10));
    assert_eq!(cascade_pair(4, 0), (4, 4));
    assert_eq!(cascade_pair(0, 6), (10, 6));
    assert_eq!(cascade_pair(3, 7), (3, 7));
}

#[test]
fn capacity_is_larger_count() {
    assert_eq!(stage_capacity(3, 7), 7);
    assert_eq!(stage_capacity(9, 2), 9);
    assert_eq!(stage_capacity(0, 0), 1);
}

#[test]
fn clamp_into_allocated_stages() {
    assert_eq!(clamp_cascade(0, 10), 1);
    assert_eq!(clamp_cascade(5, 10), 5);
    assert_eq!(clamp_cascade(12, 10), 10);
}

#[test]
fn update_within_capacity_is_accepted() {
    let mut st = SweepStages::provision(&vec![(10, 10), (4, 8)]);
    assert_eq!(st.allocated(0), 10);
    assert_eq!(st.allocated(1), 8);
    assert!(st.update(&vec![(5, 5), (0, 0)]) == false);
    assert!(st.update(&vec![(5, 5), (8, 2)]));
    assert_eq!(st.active(0), 5);
    assert_eq!(st.active(1), 8);
    // a bound lowered by an update can be raised again up to the allocation
    assert!(st.update(&vec![(10, 10), (1, 1)]));
    assert_eq!(st.active(0), 10);
    assert_eq!(st.active(1), 1);
}

#[test]
fn update_needing_more_stages_is_refused_whole() {
    let mut st = SweepStages::provision(&vec![(10, 10), (4, 4)]);
    assert!(!st.update(&vec![(2, 2), (4, 5)]));
    assert_eq!(st.active(0), 10);
    assert_eq!(st.active(1), 4);
    assert!(!st.update(&vec![(2, 2)]));
    assert_eq!(st.active(0), 10);
}
