use selection_watcher::gesture::observe;
use selection_watcher::gesture::observe_hook;
use selection_watcher::gesture::should_dispatch;
use selection_watcher::PointerEvent;
use selection_watcher::PressState;
use selection_watcher::DRAG_THRESHOLD_MS;
use selection_watcher::SETTLE_DELAY_MS;

#[test]
fn constants_are_fixed() {
    assert_eq!(DRAG_THRESHOLD_MS, 200);
    assert_eq!(SETTLE_DELAY_MS, 50);
}

#[test]
fn short_press_is_not_dispatched() {
    let mut s = PressState::new();
    assert_eq!(observe(&mut s, PointerEvent::PrimaryDown, 0), None);
    assert_eq!(observe(&mut s, PointerEvent::PrimaryUp, 150), None);
}

#[test]
fn long_press_is_dispatched() {
    let mut s = PressState::new();
    assert_eq!(observe(&mut s, PointerEvent::PrimaryDown, 0), None);
    assert_eq!(observe(&mut s, PointerEvent::PrimaryUp, 250), Some(250));
}

#[test]
fn threshold_is_inclusive() {
    let mut s = PressState::new();
    observe(&mut s, PointerEvent::PrimaryDown, 0);
    assert_eq!(observe(&mut s, PointerEvent::PrimaryUp, 200), Some(200));

    let mut s = PressState::new();
    observe(&mut s, PointerEvent::PrimaryDown, 0);
    assert_eq!(observe(&mut s, PointerEvent::PrimaryUp, 199), None);

    assert!(should_dispatch(200));
    assert!(!should_dispatch(199));
    assert!(should_dispatch(u64::MAX));
    assert!(!should_dispatch(0));
}

#[test]
fn release_without_press_is_a_no_op() {
    let mut s = PressState::new();
    assert_eq!(observe(&mut s, PointerEvent::PrimaryUp, 500), None);
    assert_eq!(s.last_press_ms, None);
}

#[test]
fn press_is_consumed_exactly_once() {
    let mut s = PressState::new();
    observe(&mut s, PointerEvent::PrimaryDown, 0);
    let first = observe(&mut s, PointerEvent::PrimaryUp, 300);
    let second = observe(&mut s, PointerEvent::PrimaryUp, 600);
    assert_eq!(first, Some(300));
    assert_eq!(second, None);
}

#[test]
fn rapid_double_gesture_measures_each_press() {
    let mut s = PressState::new();
    observe(&mut s, PointerEvent::PrimaryDown, 0);
    let first = observe(&mut s, PointerEvent::PrimaryUp, 300);
    observe(&mut s, PointerEvent::PrimaryDown, 310);
    let second = observe(&mut s, PointerEvent::PrimaryUp, 600);
    assert_eq!(first, Some(300));
    assert_eq!(second, Some(290));
}

#[test]
fn stale_press_is_overwritten() {
    let mut s = PressState::new();
    observe(&mut s, PointerEvent::PrimaryDown, 0);
    observe(&mut s, PointerEvent::PrimaryDown, 1000);
    assert_eq!(observe(&mut s, PointerEvent::PrimaryUp, 1250), Some(250));
}

#[test]
fn clock_skew_saturates_to_zero() {
    let mut s = PressState::new();
    observe(&mut s, PointerEvent::PrimaryDown, 100);
    let d = s.on_up(40);
    assert_eq!(d, Some(0));
}

#[test]
fn other_events_are_ignored() {
    let mut s = PressState::new();
    observe(&mut s, PointerEvent::PrimaryDown, 0);
    assert_eq!(observe(&mut s, PointerEvent::Other, 10), None);
    assert_eq!(s.last_press_ms, Some(0));
    assert_eq!(observe(&mut s, PointerEvent::PrimaryUp, 250), Some(250));
}

#[test]
fn negative_hook_code_passes_through_untouched() {
    let mut s = PressState::new();
    observe(&mut s, PointerEvent::PrimaryDown, 0);
    assert_eq!(observe_hook(&mut s, -1, PointerEvent::PrimaryUp, 250), None);
    assert_eq!(s.last_press_ms, Some(0));
    assert_eq!(observe_hook(&mut s, 0, PointerEvent::PrimaryUp, 250), Some(250));
}
