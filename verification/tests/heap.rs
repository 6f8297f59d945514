use vihaco::heap::{Heap, HeapError};

#[test]
fn allocate_then_get_returns_the_stored_words() {
    let mut heap = Heap::new();
    assert!(heap.is_empty());
    let a = heap.allocate(vec![1, 2]);
    let b = heap.allocate(vec![3]);
    assert_ne!(a, b);
    assert_eq!(heap.get(a).unwrap(), &[1, 2]);
    assert_eq!(heap.get(b).unwrap(), &[3]);
    assert!(!heap.is_empty());
}

#[test]
fn dealloc_errors_name_the_cause() {
    let mut heap = Heap::new();
    assert_eq!(heap.dealloc(0), Err(HeapError::InvalidId(0)));
    let a = heap.allocate(vec![]);
    heap.dealloc(a).unwrap();
    assert_eq!(heap.dealloc(a), Err(HeapError::DoubleFree(a)));
    assert_eq!(heap.get(a), Err(HeapError::Deallocated(a)));
    assert_eq!(heap.get(a + 1), Err(HeapError::InvalidId(a + 1)));
}

#[test]
fn freed_ids_are_reused_and_other_objects_are_kept() {
    let mut heap = Heap::new();
    let a = heap.allocate(vec![10]);
    let b = heap.allocate(vec![20]);
    heap.dealloc(a).unwrap();
    let c = heap.allocate(vec![30]);
    assert_eq!(c, a);
    assert_eq!(heap.get(b).unwrap(), &[20]);
    assert_eq!(heap.get(c).unwrap(), &[30]);
    heap.clear();
    assert!(heap.is_empty());
    assert_eq!(heap.get(b), Err(HeapError::InvalidId(b)));
}

#[test]
fn reads_follow_the_last_allocation_of_each_id() {
    let mut heap = Heap::new();
    let a = heap.allocate(vec![1]);
    let b = heap.allocate(vec![2]);
    assert_eq!((a, b), (0, 1));
    heap.dealloc(a).unwrap();
    assert_eq!(heap.get(a), Err(HeapError::Deallocated(a)));
    let c = heap.allocate(vec![3]);
    assert_eq!(c, a);
    assert_eq!(heap.get(a).unwrap(), &[3]);
    assert_eq!(heap.dealloc(7), Err(HeapError::InvalidId(7)));
    assert_eq!(heap.get(b).unwrap(), &[2]);
    heap.clear();
    assert_eq!(heap.get(a), Err(HeapError::InvalidId(a)));
    let d = heap.allocate(vec![4]);
    assert_eq!(d, 0);
    assert_eq!(heap.get(d).unwrap(), &[4]);
    assert_eq!(heap.get(1), Err(HeapError::InvalidId(1)));
}
