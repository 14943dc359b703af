use kernel_sync::RecycleAllocator;

#[test]
fn fresh_identifiers_count_up() {
    let mut a = RecycleAllocator::new(0);
    assert_eq!(a.allocate(), 0);
    assert_eq!(a.allocate(), 1);
    assert_eq!(a.allocate(), 2);
}

#[test]
fn fresh_identifiers_start_where_told() {
    let mut a = RecycleAllocator::new(10);
    assert_eq!(a.allocate(), 10);
    assert_eq!(a.allocate(), 11);
}

#[test]
fn recycled_identifiers_come_back_first() {
    let mut a = RecycleAllocator::new(0);
    let x = a.allocate();
    let y = a.allocate();
    assert_eq!((x, y), (0, 1));
    a.dealloc(x);
    assert_eq!(a.allocate(), 0);
    assert_eq!(a.allocate(), 2);
}

#[test]
fn recycling_is_last_in_first_out() {
    let mut a = RecycleAllocator::new(5);
    let x = a.allocate();
    let y = a.allocate();
    let z = a.allocate();
    a.dealloc(x);
    a.dealloc(y);
    a.dealloc(z);
    assert_eq!(a.allocate(), z);
    assert_eq!(a.allocate(), y);
    assert_eq!(a.allocate(), x);
    assert_eq!(a.allocate(), 8);
}
