use kernel_sync::SeqLock;

#[test]
fn scenario_single_writer_then_read() {
    let mut lock = SeqLock::new(0u64);
    let mut guard = lock.write();
    *guard.get_mut() = 5;
    lock.release(guard);
    let seen = lock.read(|v: &u64| *v);
    assert_eq!(seen, 5);
    assert_eq!(lock.sequence_value(), 2);
}

#[test]
fn scenario_twenty_writers_then_try_read() {
    const N: usize = 20;
    let mut lock = SeqLock::new(0usize);
    for _ in 0..N {
        let mut guard = lock.write();
        *guard.get_mut() += 1;
        lock.release(guard);
    }
    let seen = lock.try_read(|v: &usize| *v);
    assert_eq!(seen, Some(N));
}

#[test]
fn scenario_try_read_during_write() {
    let mut lock = SeqLock::new(3i32);
    let guard = lock.write();
    assert_eq!(lock.try_read(|v: &i32| *v), None);
    lock.release(guard);
    assert_eq!(lock.try_read(|v: &i32| *v), Some(3));
}

#[test]
fn scenario_debug_label_during_write() {
    let mut lock = SeqLock::new(9u8);
    let guard = lock.write();
    let label = lock.debug_label();
    assert!(label.contains("Uncertain"));
    lock.release(guard);
    assert_eq!(lock.debug_label(), "Real result");
}

#[test]
fn parity_of_counter_across_write() {
    let mut lock = SeqLock::new(false);
    assert_eq!(lock.sequence_value() % 2, 0);
    let guard = lock.write();
    assert_eq!(lock.sequence_value() % 2, 1);
    lock.release(guard);
    assert_eq!(lock.sequence_value() % 2, 0);
}

#[test]
fn counter_advances_by_one_at_each_step() {
    let mut lock = SeqLock::new(());
    let before = lock.sequence_value();
    let guard = lock.write();
    assert_eq!(lock.sequence_value(), before + 1);
    lock.release(guard);
    assert_eq!(lock.sequence_value(), before + 2);
}

#[test]
fn round_trip_into_inner_returns_last_write() {
    let mut lock = SeqLock::new(String::from("first"));
    let mut guard = lock.write();
    *guard.get_mut() = String::from("second");
    lock.release(guard);
    let mut guard = lock.write();
    *guard.get_mut() = String::from("third");
    lock.release(guard);
    assert_eq!(lock.into_inner(), "third");
}

#[test]
fn read_applies_closure_to_current_value() {
    let lock = SeqLock::new(21u32);
    assert_eq!(lock.read(|v: &u32| *v * 2), 42);
    assert_eq!(lock.try_read(|v: &u32| *v * 2), Some(42));
}

#[test]
fn guard_sees_and_changes_the_payload() {
    let mut lock = SeqLock::new(vec![1, 2]);
    let mut guard = lock.write();
    assert_eq!(guard.get(), &vec![1, 2]);
    guard.get_mut().push(3);
    assert_eq!(guard.get(), &vec![1, 2, 3]);
    lock.release(guard);
    assert_eq!(lock.read(|v: &Vec<i32>| v.len()), 3);
}

#[test]
fn writer_generations_are_seen_once_each_and_in_order() {
    const N: u64 = 20;
    let mut lock = SeqLock::new(Vec::new());
    for generation in 1..=N {
        let mut guard = lock.write();
        guard.get_mut().push(generation);
        lock.release(guard);
    }
    let seen = lock.read(|v: &Vec<u64>| v.clone());
    assert_eq!(seen, (1..=N).collect::<Vec<u64>>());
    assert_eq!(lock.sequence_value() as u64, 2 * N);
}

#[test]
fn conversions_wrap_like_new() {
    let from_lock = SeqLock::from(17u32);
    assert_eq!(from_lock.sequence_value(), 0);
    assert_eq!(from_lock.into_inner(), 17);

    let default_lock: SeqLock<u32> = Default::default();
    assert_eq!(default_lock.sequence_value(), 0);
    assert_eq!(default_lock.into_inner(), 0);
}

#[test]
fn new_lock_starts_at_sequence_zero() {
    let lock = SeqLock::new(77u16);
    assert_eq!(lock.sequence_value(), 0);
    assert_eq!(lock.into_inner(), 77);
}
