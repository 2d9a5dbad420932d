use spin_sync::Mutex;

#[test]
fn mutex_test() {
    let mut lock = Mutex::new(1);
    for _ in 0..100 {
        let mut locked = lock.lock();
        *locked += 1;
        lock.unlock(locked);
    }
    for _ in 0..100 {
        let mut locked = lock.lock();
        *locked += 1;
        lock.unlock(locked);
    }
    let c = lock.lock();
    assert_eq!(*c, 201)
}

#[test]
fn mutex_counter_reaches_two_hundred() {
    let mut lock = Mutex::new(0u32);
    for _ in 0..200 {
        let mut g = lock.lock();
        *g += 1;
        lock.unlock(g);
    }
    assert_eq!(Some(&mut 200), lock.get_mut());
}

#[test]
fn mutex_refuses_second_holder() {
    let mut lock = Mutex::new(7);
    assert!(!lock.is_locked());
    let g = lock.lock();
    assert!(lock.is_locked());
    assert!(lock.try_lock().is_none());
    assert!(lock.get_mut().is_none());
    assert_eq!(7, *g);
    lock.unlock(g);
    assert!(!lock.is_locked());
    assert!(lock.try_lock().is_some());
}

#[test]
fn mutex_does_not_poison() {
    let mut lock = Mutex::new(10);
    let mut g = lock.lock();
    *g = 11;
    lock.unlock(g);
    let g = lock.try_lock().unwrap();
    assert_eq!(11, *g);
}
