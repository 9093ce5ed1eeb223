use clean_rust::UserCounter;

#[test]
fn test_counter_operations() {
    let mut counter = UserCounter::new();
    assert_eq!(counter.count, 0);

    counter.increment().unwrap();
    assert_eq!(counter.count, 1);

    counter.decrement().unwrap();
    assert_eq!(counter.count, 0);
}

#[test]
fn test_counter_overflow() {
    let mut counter = UserCounter { count: u64::MAX };
    assert!(counter.increment().is_err());
}

#[test]
fn test_counter_underflow() {
    let mut counter = UserCounter::new();
    assert!(counter.decrement().is_err());
}

#[test]
fn overflow_keeps_the_count_and_names_the_fault() {
    let mut counter = UserCounter { count: u64::MAX };
    assert_eq!(counter.increment(), Err("Counter overflow"));
    assert_eq!(counter.count, u64::MAX);
}

#[test]
fn underflow_keeps_the_count_and_names_the_fault() {
    let mut counter = UserCounter::new();
    assert_eq!(counter.decrement(), Err("Counter underflow"));
    assert_eq!(counter.count, 0);
}

#[test]
fn counter_steps_at_the_upper_end() {
    let mut counter = UserCounter { count: u64::MAX - 1 };
    assert_eq!(counter.increment(), Ok(()));
    assert_eq!(counter.count, u64::MAX);
    assert_eq!(counter.decrement(), Ok(()));
    assert_eq!(counter.count, u64::MAX - 1);
}
