use spin_sync::RWLock;

#[test]
fn test_rw_write_request() {
    let mut m = RWLock::new(0);
    m.write_request();

    assert!(!m.write_request());
}

#[test]
fn test_rw_try_write() {
    let mut m = RWLock::new(0);
    m.write_request();

    assert!(m.try_write().is_none());
}

#[test]
fn test_rw_read_request() {
    let mut m = RWLock::new(0);
    let wlock = m.try_write();

    assert_eq!(-1, m.read_request());
    m.release_write(wlock.unwrap());

    let mut i = 0;
    while i < 100 {
        i += 1;
        assert_eq!(i, m.read_request());
    }

    assert!(!m.write_request());
}

#[test]
fn test_rw_try_read() {
    let mut m = RWLock::new(0);
    let wlock = m.try_write();

    assert!(m.try_read().is_none());
    m.release_write(wlock.unwrap());

    let mut i = 0;
    while i < 100 {
        assert!(m.try_read().is_some());
        i += 1;
    }

    assert!(m.try_write().is_none());
}

#[test]
fn rw_lock_test() {
    let mut data = RWLock::new(0);
    let read_lock1 = data.read();
    let read_lock2 = data.read();

    assert_eq!(0, *data.read_value(&read_lock1));
    assert_eq!(0, *data.read_value(&read_lock2));

    assert!(data.try_write().is_none());

    data.release_read(read_lock1);
    data.release_read(read_lock2);

    let mut write_lock = data.write();
    *write_lock += 1;

    assert!(data.try_write().is_none());
    assert!(data.try_read().is_none());

    assert_eq!(1, *write_lock);
}

#[test]
fn rw_write_refused_while_reader_registered() {
    let mut m = RWLock::new(5);
    let g = m.try_read().unwrap();
    assert!(m.try_write().is_none());
    assert!(!m.write_request());
    m.release_read(g);
    let w = m.try_write();
    assert!(w.is_some());
    assert!(m.try_read().is_none());
    assert_eq!(-1, m.read_request());
}

#[test]
fn rw_release_write_stores_new_value() {
    let mut m = RWLock::new(vec![1, 2]);
    let mut w = m.write();
    w.push(3);
    m.release_write(w);
    let r = m.read();
    assert_eq!(&vec![1, 2, 3], m.read_value(&r));
    m.release_read(r);
    assert!(m.try_write().is_some());
}

#[test]
fn rw_read_request_counts_readers() {
    let mut m = RWLock::new(());
    assert_eq!(1, m.read_request());
    assert_eq!(2, m.read_request());
    let g = m.read();
    m.release_read(g);
    assert_eq!(3, m.read_request());
}
