use plasma_galaxy::trail::{Trail, TRAIL_CAPACITY};

#[test]
fn new_trail_is_empty() {
    let t: Trail<(f32, f32, f32)> = Trail::new();
    assert_eq!(t.len(), 0);
    assert!(t.to_vec().is_empty());
    assert!(t.segments().is_empty());
}

#[test]
fn trail_never_exceeds_capacity() {
    let mut t: Trail<(f32, f32, f32)> = Trail::new();
    for i in 0..1000 {
        t.push((i as f32, 0.0, -(i as f32)));
        assert!(t.len() <= 20);
    }
    assert_eq!(t.len(), TRAIL_CAPACITY);
}

#[test]
fn trail_keeps_newest_oldest_first() {
    let mut t: Trail<u32> = Trail::new();
    for i in 0..25u32 {
        t.push(i);
    }
    let expected: Vec<u32> = (5..25).collect();
    assert_eq!(t.to_vec(), expected);
}

#[test]
fn trail_below_capacity_keeps_everything() {
    let mut t: Trail<u32> = Trail::new();
    t.push(7);
    t.push(8);
    t.push(9);
    assert_eq!(t.to_vec(), vec![7, 8, 9]);
}

#[test]
fn trail_evicts_exactly_one_at_capacity() {
    let mut t: Trail<u32> = Trail::new();
    for i in 0..20u32 {
        t.push(i);
    }
    assert_eq!(t.to_vec()[0], 0);
    t.push(20);
    assert_eq!(t.len(), 20);
    assert_eq!(t.to_vec()[0], 1);
    assert_eq!(t.to_vec()[19], 20);
}

#[test]
fn segments_join_consecutive_points() {
    let mut t: Trail<(f32, f32, f32)> = Trail::new();
    t.push((0.0, 0.0, 0.0));
    assert!(t.segments().is_empty());
    t.push((1.0, 0.0, 0.0));
    t.push((1.0, 2.0, 0.0));
    let s = t.segments();
    assert_eq!(s.len(), 2);
    assert_eq!(s[0], ((0.0, 0.0, 0.0), (1.0, 0.0, 0.0)));
    assert_eq!(s[1], ((1.0, 0.0, 0.0), (1.0, 2.0, 0.0)));
}
