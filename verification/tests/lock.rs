use spinsync::sync::{
    exclusive_acquire_step, shared_acquire_step, shared_release_step, upgradable_acquire_step,
    upgradable_downgrade_step, upgradable_release_step, upgrade_step,
};
use spinsync::RawSpinLock;

#[test]
fn scenario_shared_then_upgradable_then_upgrade() {
    // lock starts unlocked
    let mut l = RawSpinLock::new();
    assert_eq!(l.load(), 0);
    // thread A takes a shared lock
    l.lock_shared();
    assert_eq!(l.load(), 1);
    // thread B takes the upgradable lock
    l.lock_upgradable();
    assert_eq!(l.load(), -2);
    // thread C's shared attempt now fails
    assert!(!l.try_lock_shared());
    assert_eq!(l.load(), -2);
    // thread A releases its shared lock
    l.unlock_shared();
    assert_eq!(l.load(), -1);
    // thread B's upgrade now succeeds
    assert!(l.try_upgrade());
    assert_eq!(l.load(), i32::MIN);
}

#[test]
fn exclusive_excludes_everyone() {
    let mut l = RawSpinLock::new();
    assert!(l.try_lock_exclusive());
    assert_eq!(l.load(), i32::MIN);
    assert!(l.is_locked());
    assert!(l.is_locked_exclusive());
    assert!(!l.try_lock_shared());
    assert!(!l.try_lock_upgradable());
    assert!(!l.try_lock_exclusive());
    assert_eq!(l.load(), i32::MIN);
    l.unlock_exclusive();
    assert_eq!(l.load(), 0);
    assert!(!l.is_locked());
}

#[test]
fn lock_exclusive_from_unlocked() {
    let mut l = RawSpinLock::new();
    l.lock_exclusive();
    assert!(l.is_locked_exclusive());
    l.unlock_exclusive();
    assert!(!l.is_locked());
}

#[test]
fn reader_count_matches_unreleased_acquisitions() {
    let mut l = RawSpinLock::new();
    for i in 1..=5i32 {
        assert!(l.try_lock_shared());
        assert_eq!(l.load(), i);
    }
    assert!(l.is_locked());
    assert!(!l.is_locked_exclusive());
    for i in (0..5i32).rev() {
        l.unlock_shared();
        assert_eq!(l.load(), i);
    }
    assert!(!l.is_locked());
}

#[test]
fn upgradable_blocks_new_readers_only() {
    let mut l = RawSpinLock::new();
    l.lock_shared();
    l.lock_shared();
    l.lock_upgradable();
    assert_eq!(l.load(), -3);
    // new readers are blocked from this moment on
    assert!(!l.try_lock_shared());
    assert!(!l.try_lock_upgradable());
    // readers from before the upgradable acquisition still release normally
    l.unlock_shared();
    assert_eq!(l.load(), -2);
    l.unlock_shared();
    assert_eq!(l.load(), -1);
    l.unlock_upgradable();
    assert_eq!(l.load(), 0);
}

#[test]
fn upgrade_waits_for_readers_to_drain() {
    let mut l = RawSpinLock::new();
    l.lock_shared();
    l.lock_upgradable();
    assert!(!l.try_upgrade());
    assert_eq!(l.load(), -2);
    l.unlock_shared();
    assert!(l.try_upgrade());
    assert_eq!(l.load(), i32::MIN);
    l.unlock_exclusive();
    assert_eq!(l.load(), 0);
}

#[test]
fn upgrade_spins_until_sole_holder() {
    let mut l = RawSpinLock::new();
    l.lock_upgradable();
    assert_eq!(l.load(), -1);
    l.upgrade();
    assert_eq!(l.load(), i32::MIN);
}

#[test]
fn downgrade_round_trip_via_shared() {
    let mut l = RawSpinLock::new();
    l.lock_exclusive();
    l.downgrade();
    assert_eq!(l.load(), 1);
    l.unlock_shared();
    assert_eq!(l.load(), 0);
}

#[test]
fn downgrade_round_trip_via_upgradable() {
    let mut l = RawSpinLock::new();
    l.lock_exclusive();
    l.downgrade_to_upgradable();
    assert_eq!(l.load(), -1);
    l.downgrade_upgradable();
    assert_eq!(l.load(), 1);
    l.unlock_shared();
    assert_eq!(l.load(), 0);
}

#[test]
fn unlock_upgradable_keeps_remaining_readers() {
    let mut l = RawSpinLock::new();
    l.lock_shared();
    l.lock_shared();
    l.lock_upgradable();
    assert_eq!(l.load(), -3);
    l.unlock_upgradable();
    assert_eq!(l.load(), 2);
    l.unlock_shared();
    l.unlock_shared();
    assert_eq!(l.load(), 0);
}

#[test]
fn downgrade_upgradable_keeps_co_resident_readers() {
    let mut l = RawSpinLock::new();
    l.lock_shared();
    l.lock_upgradable();
    assert_eq!(l.load(), -2);
    l.downgrade_upgradable();
    assert_eq!(l.load(), 2);
}

#[test]
fn default_lock_is_unlocked() {
    let l = RawSpinLock::default();
    assert_eq!(l.load(), 0);
    assert!(!l.is_locked());
}

#[test]
fn exclusive_acquire_step_table() {
    assert_eq!(exclusive_acquire_step(0), Some(i32::MIN));
    assert_eq!(exclusive_acquire_step(1), None);
    assert_eq!(exclusive_acquire_step(-1), None);
    assert_eq!(exclusive_acquire_step(i32::MIN), None);
}

#[test]
fn upgrade_step_table() {
    assert_eq!(upgrade_step(-1), Some(i32::MIN));
    assert_eq!(upgrade_step(-2), None);
    assert_eq!(upgrade_step(0), None);
    assert_eq!(upgrade_step(1), None);
}

#[test]
fn shared_acquire_step_table() {
    assert_eq!(shared_acquire_step(0), Some(1));
    assert_eq!(shared_acquire_step(41), Some(42));
    assert_eq!(shared_acquire_step(-1), None);
    assert_eq!(shared_acquire_step(i32::MIN), None);
    assert_eq!(shared_acquire_step(i32::MAX), None);
}

#[test]
fn upgradable_acquire_step_table() {
    assert_eq!(upgradable_acquire_step(0), Some(-1));
    assert_eq!(upgradable_acquire_step(2), Some(-3));
    assert_eq!(upgradable_acquire_step(-1), None);
    assert_eq!(upgradable_acquire_step(i32::MIN), None);
    assert_eq!(upgradable_acquire_step(i32::MAX), None);
}

#[test]
fn shared_release_step_table() {
    assert_eq!(shared_release_step(3), Some(2));
    assert_eq!(shared_release_step(1), Some(0));
    assert_eq!(shared_release_step(-3), Some(-2));
    assert_eq!(shared_release_step(0), None);
    assert_eq!(shared_release_step(-1), None);
    assert_eq!(shared_release_step(i32::MIN), None);
}

#[test]
fn upgradable_release_step_table() {
    assert_eq!(upgradable_release_step(-1), Some(0));
    assert_eq!(upgradable_release_step(-3), Some(2));
    assert_eq!(upgradable_release_step(0), None);
    assert_eq!(upgradable_release_step(5), None);
    assert_eq!(upgradable_release_step(i32::MIN), None);
}

#[test]
fn upgradable_downgrade_step_table() {
    assert_eq!(upgradable_downgrade_step(-1), Some(1));
    assert_eq!(upgradable_downgrade_step(-4), Some(4));
    assert_eq!(upgradable_downgrade_step(0), None);
    assert_eq!(upgradable_downgrade_step(2), None);
    assert_eq!(upgradable_downgrade_step(i32::MIN), None);
}
