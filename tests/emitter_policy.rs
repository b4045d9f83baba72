use plasma_galaxy::emitter::{arm_for_index, assign_arms, EmitterLatch};

#[test]
fn thousand_particles_split_evenly() {
    let arms = assign_arms(1000);
    assert_eq!(arms.len(), 1000);
    assert!(arms.iter().all(|&a| a == 0 || a == 1));
    assert_eq!(arms.iter().filter(|&&a| a == 0).count(), 500);
    assert_eq!(arms.iter().filter(|&&a| a == 1).count(), 500);
}

#[test]
fn odd_population_favours_arm_zero() {
    let arms = assign_arms(7);
    assert_eq!(arms, vec![0, 1, 0, 1, 0, 1, 0]);
}

#[test]
fn empty_population() {
    assert!(assign_arms(0).is_empty());
}

#[test]
fn arm_alternates_by_index() {
    assert_eq!(arm_for_index(0), 0);
    assert_eq!(arm_for_index(1), 1);
    assert_eq!(arm_for_index(49_999), 1);
    assert_eq!(arm_for_index(usize::MAX), 1);
}

#[test]
fn latch_fires_once() {
    let mut l = EmitterLatch::new();
    assert!(l.fire());
    assert!(!l.fire());
    assert!(!l.fire());
}
