use std::cell::Cell;

use spinsync::DeferGuard;

#[test]
fn armed_guard_runs_action_once_with_its_value() {
    let hit = Cell::new(0i32);
    let g = DeferGuard::new(5i32, |v: i32| hit.set(hit.get() + v));
    g.run();
    assert_eq!(hit.get(), 5);
}

#[test]
fn forgotten_guard_never_runs_action() {
    let hit = Cell::new(0i32);
    let mut g = DeferGuard::new(5i32, |v: i32| hit.set(hit.get() + v));
    g.forget();
    g.run();
    assert_eq!(hit.get(), 0);
}

#[test]
fn guard_gives_access_to_wrapped_value() {
    let hit = Cell::new(0i32);
    let mut g = DeferGuard::new(5i32, |v: i32| hit.set(v));
    assert_eq!(*g.get(), 5);
    *g.get_mut() = 6;
    assert_eq!(*g.get(), 6);
    g.run();
    assert_eq!(hit.get(), 6);
}
