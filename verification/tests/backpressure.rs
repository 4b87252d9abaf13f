use procwire_client::backpressure::{
    admits, reservation, room_left, wait_step, BackpressureController, BackpressureGuard,
    WaitStep, DEFAULT_MAX_PENDING,
};
use procwire_client::ProcwireError;
use std::sync::atomic::{AtomicUsize, Ordering};
use std::sync::Arc;
use std::time::Duration;

#[test]
fn test_controller_creation() {
    let ctrl = BackpressureController::new(100);
    assert_eq!(ctrl.max_pending(), 100);
    assert_eq!(ctrl.pending_count(), 0);
    assert!(ctrl.can_accept());
    assert!(!ctrl.is_active());
}

#[test]
fn test_controller_default() {
    let ctrl = BackpressureController::default();
    assert_eq!(ctrl.max_pending(), DEFAULT_MAX_PENDING);
}

#[test]
fn test_try_reserve_success() {
    let ctrl = BackpressureController::new(10);

    for _ in 0..10 {
        assert!(ctrl.try_reserve().is_ok());
    }

    assert_eq!(ctrl.pending_count(), 10);
    assert!(ctrl.is_active());
}

#[test]
fn test_try_reserve_at_capacity() {
    let ctrl = BackpressureController::new(5);

    for _ in 0..5 {
        ctrl.try_reserve().unwrap();
    }

    let result = ctrl.try_reserve();
    assert!(matches!(result, Err(ProcwireError::BackpressureTimeout)));
}

#[test]
fn test_release() {
    let ctrl = BackpressureController::new(10);

    ctrl.try_reserve().unwrap();
    ctrl.try_reserve().unwrap();
    assert_eq!(ctrl.pending_count(), 2);

    ctrl.release();
    assert_eq!(ctrl.pending_count(), 1);

    ctrl.release();
    assert_eq!(ctrl.pending_count(), 0);
}

#[test]
fn test_release_many() {
    let ctrl = BackpressureController::new(100);

    for _ in 0..50 {
        ctrl.try_reserve().unwrap();
    }
    assert_eq!(ctrl.pending_count(), 50);

    ctrl.release_many(30);
    assert_eq!(ctrl.pending_count(), 20);
}

#[test]
fn test_available_capacity() {
    let ctrl = BackpressureController::new(100);

    assert_eq!(ctrl.available_capacity(), 100);

    ctrl.try_reserve().unwrap();
    assert_eq!(ctrl.available_capacity(), 99);

    for _ in 0..50 {
        ctrl.try_reserve().unwrap();
    }
    assert_eq!(ctrl.available_capacity(), 49);
}

#[test]
fn test_clone_shares_state() {
    let ctrl1 = BackpressureController::new(10);
    let ctrl2 = ctrl1.clone();

    ctrl1.try_reserve().unwrap();
    assert_eq!(ctrl2.pending_count(), 1);

    ctrl2.try_reserve().unwrap();
    assert_eq!(ctrl1.pending_count(), 2);
}

#[test]
fn test_from_shared() {
    let pending = Arc::new(AtomicUsize::new(5));
    let ctrl = BackpressureController::from_shared(pending.clone(), 10, Duration::from_secs(1));

    assert_eq!(ctrl.pending_count(), 5);
    assert!(!ctrl.is_active());

    pending.store(10, Ordering::SeqCst);
    assert!(ctrl.is_active());
}

#[test]
fn test_reset() {
    let ctrl = BackpressureController::new(100);

    for _ in 0..50 {
        ctrl.try_reserve().unwrap();
    }
    assert_eq!(ctrl.pending_count(), 50);

    ctrl.reset();
    assert_eq!(ctrl.pending_count(), 0);
}

#[test]
fn test_guard_release_on_drop() {
    let ctrl = BackpressureController::new(10);
    ctrl.try_reserve().unwrap();

    {
        let _guard = BackpressureGuard::new(ctrl.clone());
        assert_eq!(ctrl.pending_count(), 1);
    }

    assert_eq!(ctrl.pending_count(), 0);
}

#[test]
fn test_guard_manual_release() {
    let ctrl = BackpressureController::new(10);
    ctrl.try_reserve().unwrap();

    let guard = BackpressureGuard::new(ctrl.clone());
    assert_eq!(ctrl.pending_count(), 1);

    guard.release();
    assert_eq!(ctrl.pending_count(), 0);
}

#[test]
fn test_guard_disarm() {
    let ctrl = BackpressureController::new(10);
    ctrl.try_reserve().unwrap();

    {
        let mut guard = BackpressureGuard::new(ctrl.clone());
        guard.disarm();
    }

    assert_eq!(ctrl.pending_count(), 1);
}

#[test]
fn decisions_on_observed_counts() {
    assert!(admits(0, 1));
    assert!(!admits(1, 1));
    assert!(!admits(5, 0));
    assert_eq!(room_left(3, 10), 7);
    assert_eq!(room_left(10, 10), 0);
    assert_eq!(room_left(12, 10), 0);
    assert!(reservation(9, 10).is_ok());
    assert!(matches!(reservation(10, 10), Err(ProcwireError::BackpressureTimeout)));
}

#[test]
fn pending_counter_is_shared() {
    let ctrl = BackpressureController::new(3);
    let counter = ctrl.pending_counter();
    counter.store(3, Ordering::SeqCst);
    assert!(ctrl.is_active());
    assert_eq!(ctrl.available_capacity(), 0);
}

#[test]
fn failed_reservation_leaves_count_alone() {
    let ctrl = BackpressureController::with_timeout(1, Duration::from_millis(5));
    ctrl.try_reserve().unwrap();
    assert!(ctrl.try_reserve().is_err());
    assert_eq!(ctrl.pending_count(), 1);
}

#[test]
fn test_wait_step() {
    assert_eq!(wait_step(true, true), WaitStep::Proceed);
    assert_eq!(wait_step(true, false), WaitStep::Proceed);
    assert_eq!(wait_step(false, true), WaitStep::GiveUp);
    assert_eq!(wait_step(false, false), WaitStep::Retry);
}
