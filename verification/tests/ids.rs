use speedy_spritesheets::entity::Image;
use speedy_spritesheets::ids::IdAllocator;
use speedy_spritesheets::pixels::Pixels;

#[test]
fn first_id_is_one() {
    let mut ids = IdAllocator::new();
    assert_eq!(ids.next_id(), 1);
}

#[test]
fn ids_grow_by_one_with_every_issue() {
    let mut ids = IdAllocator::new();
    let mut last = 0;
    for expected in 1..=100usize {
        let id = ids.next_id();
        assert_eq!(id, expected);
        assert!(id > last);
        last = id;
    }
}

#[test]
fn fresh_allocator_is_not_exhausted() {
    let mut ids = IdAllocator::new();
    assert!(!ids.exhausted());
    ids.next_id();
    assert!(!ids.exhausted());
}

#[test]
fn two_allocators_do_not_share_state() {
    let mut a = IdAllocator::new();
    let mut b = IdAllocator::new();
    assert_eq!(a.next_id(), 1);
    assert_eq!(a.next_id(), 2);
    assert_eq!(b.next_id(), 1);
}

#[test]
fn every_constructed_image_gets_the_next_id() {
    let mut ids = IdAllocator::new();
    let a = Image::from_raw(&mut ids, "a".to_string(), 1, 1, vec![0, 0, 0, 0]).unwrap();
    let b = Image::from_dynamic(&mut ids, "b".to_string(), Pixels::blank(2, 2));
    let c = Image::from_raw(&mut ids, "c".to_string(), 0, 0, Vec::new()).unwrap();
    assert_eq!((a.id(), b.id(), c.id()), (1, 2, 3));
    assert_eq!(ids.next_id(), 4);
}

#[test]
fn a_failed_construction_uses_up_no_id() {
    let mut ids = IdAllocator::new();
    assert!(Image::from_raw(&mut ids, "bad".to_string(), 2, 2, vec![0; 15]).is_err());
    assert_eq!(ids.next_id(), 1);
}
