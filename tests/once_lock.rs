use spin_sync::OnceLock;

#[test]
fn once_lock_test() {
    let mut once = OnceLock::new();
    let first = *once.get_or_init(|| 1);
    let second = *once.get_or_init(|| 2);
    assert_eq!(1, first);
    assert_eq!(1, second);
    assert_eq!(Some(&1), once.get());
}

#[test]
fn once_lock_get_before_and_after() {
    let mut cell: OnceLock<String> = OnceLock::new();
    assert!(cell.get().is_none());
    assert!(!cell.is_initialized());
    cell.get_or_init(|| String::from("ready"));
    assert_eq!(Some(&String::from("ready")), cell.get());
    assert!(cell.is_initialized());
}

#[test]
fn once_lock_second_closure_not_invoked() {
    let mut cell = OnceLock::new();
    let mut calls = 0;
    let a = *cell.get_or_init(|| {
        calls += 1;
        10
    });
    let b = *cell.get_or_init(|| {
        calls += 1;
        20
    });
    assert_eq!(a, b);
    assert_eq!(10, b);
    assert_eq!(1, calls);
}

#[test]
fn once_lock_set_then_reject() {
    let mut cell = OnceLock::new();
    assert_eq!(Ok(()), cell.set(3));
    assert_eq!(Err((&3, 4)), cell.set(4));
    assert_eq!(Some(&3), cell.get());
}

#[test]
fn once_lock_set_after_get_or_init() {
    let mut cell = OnceLock::new();
    cell.get_or_init(|| 'a');
    match cell.set('b') {
        Err((held, rejected)) => {
            assert_eq!('a', *held);
            assert_eq!('b', rejected);
        }
        Ok(()) => panic!("a filled cell accepted a second value"),
    }
}

#[test]
fn once_lock_failed_init_poisons() {
    let mut cell: OnceLock<u8> = OnceLock::new();
    let r = cell.try_get_or_init(|| Err::<u8, &str>("no value"));
    assert_eq!(Err("no value"), r);
    assert!(cell.is_poisoned());
    assert!(cell.get().is_none());
}

#[test]
fn once_lock_try_get_or_init_ok() {
    let mut cell = OnceLock::new();
    assert_eq!(Ok(&9), cell.try_get_or_init(|| Ok::<i32, ()>(9)));
    assert_eq!(Ok(&9), cell.try_get_or_init(|| Err::<i32, ()>(())));
    assert!(!cell.is_poisoned());
}

#[test]
fn once_lock_get_mut() {
    let mut cell = OnceLock::new();
    assert!(cell.get_mut().is_none());
    cell.get_or_init(|| 5);
    *cell.get_mut().unwrap() += 1;
    assert_eq!(Some(&6), cell.get());
}
