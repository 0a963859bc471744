use kfs::port::{Manager, PORT_COUNT};
use kfs::spinlock::SpinLock;

#[test]
fn guarded_mutation_is_kept() {
    let mut lock = SpinLock::new(1u32);
    let mut guard = lock.lock();
    assert_eq!(*guard.as_ref(), 1);
    *guard.as_mut() += 41;
    assert!(lock.try_lock().is_none());
    lock.unlock(guard);
    let mut guard = lock.lock();
    assert_eq!(*guard.as_ref(), 42);
    guard.set(7);
    lock.unlock(guard);
    let guard = lock.try_lock().unwrap();
    assert_eq!(*guard.as_ref(), 7);
}

#[test]
fn one_guard_at_a_time() {
    let mut lock = SpinLock::new(String::from("x"));
    let first = lock.try_lock();
    assert!(first.is_some());
    assert!(lock.try_lock().is_none());
    assert!(lock.try_lock().is_none());
    lock.unlock(first.unwrap());
    assert!(lock.try_lock().is_some());
}

#[test]
fn port_claimed_once() {
    let mut manager = Manager::new();
    let handle = manager.try_aquire(0x60).unwrap();
    assert_eq!(handle.id(), 0x60);
    assert!(manager.try_aquire(0x60).is_err());
    let other = manager.try_aquire(0x64).unwrap();
    assert_eq!(other.id(), 0x64);
    manager.release(handle);
    let again = manager.try_aquire(0x60).unwrap();
    assert_eq!(again.id(), 0x60);
    assert!(manager.try_aquire(0x64).is_err());
}

#[test]
fn port_edges() {
    let mut manager = Manager::new();
    assert_eq!(PORT_COUNT, 0x10000);
    let low = manager.try_aquire(0).unwrap();
    let high = manager.try_aquire(0xFFFF).unwrap();
    assert!(manager.try_aquire(0xFFFF).is_err());
    manager.release(high);
    manager.release(low);
    assert!(manager.try_aquire(0).is_ok());
}
