use glock::{GLock, GlobalLock};

#[test]
fn unwrap_without_locking_returns_initial_value() {
    let cell = GLock::new(42u64);
    assert_eq!(cell.into_inner(), 42);
}

#[test]
fn unwrap_returns_initial_string() {
    let cell = GLock::new(String::from("held"));
    assert_eq!(cell.into_inner(), "held");
}

#[test]
fn get_mut_writes_through_to_the_cell() {
    let mut cell = GLock::new(vec![1u8, 2]);
    cell.get_mut().push(3);
    *cell.get_mut() = vec![9u8];
    cell.get_mut()[0] += 1;
    assert_eq!(cell.into_inner(), vec![10u8]);
}

#[test]
fn get_mut_reads_current_value() {
    let mut cell = GLock::new(5i32);
    assert_eq!(*cell.get_mut(), 5);
}

#[test]
fn guard_reads_and_writes_the_cell() {
    let lock = GlobalLock::new();
    let mut cell = GLock::new(1u32);
    {
        let mut guard = cell.guard(lock.acquire());
        assert_eq!(*guard, 1);
        *guard += 10;
        assert_eq!(*guard, 11);
    }
    assert_eq!(cell.into_inner(), 11);
}

#[test]
fn lock_is_free_again_after_guard_scope_ends() {
    let lock = GlobalLock::new();
    let mut a = GLock::new(0u8);
    let mut b = GLock::new(0u8);
    {
        let mut guard = a.guard(lock.acquire());
        *guard = 1;
    }
    {
        let mut guard = b.guard(lock.acquire());
        *guard = 2;
    }
    {
        let mut guard = a.guard(lock.acquire());
        *guard += 2;
    }
    assert_eq!(a.into_inner(), 3);
    assert_eq!(b.into_inner(), 2);
}

#[test]
fn permit_drop_releases_lock() {
    let lock = GlobalLock::new();
    for _ in 0..1000 {
        let permit = lock.acquire();
        drop(permit);
    }
    let _last = lock.acquire();
}
