use prism_firmware::memory::{size, Arena, MEMORY_BYTES, MEMORY_SIZE};

#[test]
fn size_is_the_region_in_sample_units() {
    assert_eq!(size(), 131072);
    assert_eq!(size(), MEMORY_SIZE);
    assert_eq!(size() * 4, MEMORY_BYTES);
}

#[test]
fn new_arena_has_everything_left() {
    let mut region = vec![1.0f32; 16];
    let arena = Arena::new(&mut region, 0.0f32);
    assert_eq!(arena.capacity(), 16);
    assert_eq!(arena.used(), 0);
    assert_eq!(arena.remaining(), 16);
}

#[test]
fn exact_split_succeeds_and_one_more_unit_fails() {
    let mut region = vec![1.0f32; 16];
    let mut arena = Arena::new(&mut region, 0.0f32);
    let a = arena.allocate_buffer(5);
    let b = arena.allocate_buffer(7);
    let c = arena.allocate_buffer(4);
    assert_eq!(a.map(|s| s.len()), Some(5));
    assert_eq!(b.map(|s| s.len()), Some(7));
    assert_eq!(c.map(|s| s.len()), Some(4));
    assert_eq!(arena.remaining(), 0);
    assert_eq!(arena.used(), 16);
    assert!(arena.allocate_buffer(1).is_none());
    assert_eq!(arena.used(), 16);
}

#[test]
fn another_split_of_the_same_capacity_succeeds() {
    let mut region = vec![0u32; 16];
    let mut arena = Arena::new(&mut region, 0u32);
    for _ in 0..16 {
        assert!(arena.allocate_buffer(1).is_some());
    }
    assert_eq!(arena.remaining(), 0);
    assert!(arena.allocate_buffer(1).is_none());
}

#[test]
fn whole_capacity_in_one_piece() {
    let mut region = vec![0u32; 9];
    let mut arena = Arena::new(&mut region, 0u32);
    assert_eq!(arena.allocate_buffer(9).map(|s| s.len()), Some(9));
    assert!(arena.allocate_buffer(1).is_none());
}

#[test]
fn empty_allocation_always_succeeds() {
    let mut region = vec![0u32; 2];
    let mut arena = Arena::new(&mut region, 0u32);
    assert_eq!(arena.allocate_buffer(2).map(|s| s.len()), Some(2));
    assert_eq!(arena.allocate_buffer(0).map(|s| s.len()), Some(0));
    assert_eq!(arena.remaining(), 0);
}

#[test]
fn buffers_are_filled_with_the_fill_value() {
    let mut region = vec![7.5f32; 8];
    let mut arena = Arena::new(&mut region, 0.0f32);
    let a = arena.allocate_buffer(3).unwrap();
    assert_eq!(a.to_vec(), vec![0.0f32, 0.0, 0.0]);
    let mut other = vec![1u8; 4];
    let mut bytes = Arena::new(&mut other, 9u8);
    assert_eq!(bytes.allocate_buffer(2).unwrap().to_vec(), vec![9u8, 9]);
}

#[test]
fn failed_allocation_changes_nothing() {
    let mut region = vec![0u32; 8];
    let mut arena = Arena::new(&mut region, 0u32);
    assert!(arena.allocate_buffer(3).is_some());
    assert!(arena.allocate_buffer(6).is_none());
    assert_eq!(arena.used(), 3);
    assert_eq!(arena.remaining(), 5);
    assert_eq!(arena.capacity(), 8);
    assert_eq!(arena.allocate_buffer(5).map(|s| s.len()), Some(5));
}

#[test]
fn successive_allocations_are_disjoint() {
    let mut region = vec![0u32; 10];
    {
        let mut arena = Arena::new(&mut region, 0u32);
        let first_start = arena.used();
        let a = arena.allocate_buffer(4).unwrap();
        let second_start = arena.used();
        let b = arena.allocate_buffer(6).unwrap();
        let end = arena.used();
        assert_eq!((first_start, second_start, end), (0, 4, 10));
        for x in a.iter_mut() {
            *x = 1;
        }
        assert_eq!(b.to_vec(), vec![0u32; 6]);
        for x in b.iter_mut() {
            *x = 2;
        }
        assert_eq!(a.to_vec(), vec![1u32; 4]);
    }
    assert_eq!(region, vec![1, 1, 1, 1, 2, 2, 2, 2, 2, 2]);
}
