use spin_mutex::Mutex;
use spin_mutex::SpinMutex;

#[test]
fn alias_names_the_same_lock() {
    let m = Mutex::new(7u32);
    let mut g = m.lock();
    assert_eq!(*g.borrow(), 7);
    g.store(8);
    g.unlock();
    let g = m.lock();
    assert_eq!(*g.borrow(), 8);
    g.unlock();
}

#[test]
fn new_stores_initial_value() {
    let m = SpinMutex::new(42u64);
    let g = m.lock();
    assert_eq!(*g.borrow(), 42);
    g.unlock();
}

#[test]
fn store_overwrites_within_one_guard() {
    let m = SpinMutex::new(1u64);
    let mut g = m.lock();
    g.store(2);
    g.store(3);
    assert_eq!(*g.borrow(), 3);
    g.unlock();
    let g = m.lock();
    assert_eq!(*g.borrow(), 3);
    g.unlock();
}

#[test]
fn serialized_increments_lose_no_update() {
    let rounds: u64 = 100;
    let m = SpinMutex::new(0u64);
    for _ in 0..rounds {
        let mut g = m.lock();
        let v = *g.borrow();
        g.store(v + 1);
        g.unlock();
    }
    let g = m.lock();
    assert_eq!(*g.borrow(), rounds);
    g.unlock();
}

#[test]
fn sequential_reacquisition_keeps_last_write() {
    let m = SpinMutex::new(String::from("a"));
    let mut g = m.lock();
    g.store(String::from("b"));
    g.unlock();
    let mut g = m.lock();
    assert_eq!(g.borrow().as_str(), "b");
    g.store(String::from("c"));
    g.unlock();
    let g = m.lock();
    assert_eq!(g.borrow().as_str(), "c");
    g.unlock();
}
