use spin_sync::LazyLock;

#[test]
fn lazy_lock_test() {
    let mut lazy = LazyLock::new(|| 1 + 3);
    let a = *lazy.force();
    let b = *lazy.force();
    assert_eq!(4, a);
    assert_eq!(4, b);
    assert_eq!(Some(&4), lazy.get());
}

#[test]
fn lazy_lock_single_evaluation() {
    let mut counter = 0;
    let mut lazy = LazyLock::new(|| {
        counter += 1;
        "value"
    });
    assert!(lazy.get().is_none());
    let first = *lazy.force();
    let second = *lazy.force();
    assert_eq!("value", first);
    assert_eq!(first, second);
    drop(lazy);
    assert_eq!(1, counter);
}

#[test]
fn lazy_lock_get_does_not_force() {
    let lazy: LazyLock<u64, _> = LazyLock::new(|| -> u64 { panic!("must not run") });
    assert!(lazy.get().is_none());
}
