//! The gesture classifier: a single shared press slot, written on
//! button-down and drained on button-up, and the threshold rule that decides
//! which press/release pairs count as a selection drag.

use vstd::prelude::*;

verus! {

/// Minimum press-to-release duration, in milliseconds, that distinguishes a
/// text-selection drag from an ordinary click. The comparison is inclusive:
/// a gap of exactly this many milliseconds triggers detection.
pub const DRAG_THRESHOLD_MS: u64 = 200;

/// Pause, in milliseconds, between a qualifying release and the selection
/// query, so the target application can finish updating its selection state.
pub const SETTLE_DELAY_MS: u64 = 50;

/// The process-wide press slot: the timestamp (in milliseconds) of the
/// outstanding press, or `None` when no press is outstanding. At most one
/// press is outstanding at a time; a new press overwrites a stale one.
pub struct PressState {
    pub last_press_ms: Option<u64>,
}

/// A pointer button event as the observer sees it: the primary button went
/// down, the primary button went up, or something the watcher ignores.
#[derive(Clone, Copy, PartialEq, Eq, Structural, Debug)]
pub enum PointerEvent {
    PrimaryDown,
    PrimaryUp,
    Other,
}

/// `a - b` saturated at zero, guarding against clock skew.
pub open spec fn sat_sub(a: u64, b: u64) -> u64 {
    if a >= b {
        (a - b) as u64
    } else {
        0
    }
}

/// A duration qualifies as a drag exactly when it reaches the threshold.
pub open spec fn crosses_threshold(d: u64) -> bool {
    d >= DRAG_THRESHOLD_MS
}

/// The press slot after a button-down at `now`: the timestamp is stored,
/// overwriting any stale press.
pub open spec fn spec_on_down(s: PressState, now: u64) -> PressState {
    PressState { last_press_ms: Some(now) }
}

/// The press slot after a button-up: always drained.
pub open spec fn spec_on_up_state(s: PressState) -> PressState {
    PressState { last_press_ms: None }
}

/// What a button-up at `now` measures: the saturated gap since the recorded
/// press, or nothing when no press was outstanding.
pub open spec fn spec_on_up_duration(s: PressState, now: u64) -> Option<u64> {
    match s.last_press_ms {
        Some(t) => Some(sat_sub(now, t)),
        None => None,
    }
}

/// One step of the observer: the press slot afterwards, and the duration to
/// hand to the dispatcher (only durations that cross the threshold are
/// dispatched).
pub open spec fn spec_observe(s: PressState, event: PointerEvent, now: u64) -> (PressState, Option<
    u64,
>) {
    match event {
        PointerEvent::PrimaryDown => (spec_on_down(s, now), None),
        PointerEvent::PrimaryUp => (
            spec_on_up_state(s),
            match s.last_press_ms {
                Some(t) => if crosses_threshold(sat_sub(now, t)) {
                    Some(sat_sub(now, t))
                } else {
                    None
                },
                None => None,
            },
        ),
        PointerEvent::Other => (s, None),
    }
}

impl PressState {
    /// An empty slot: no press outstanding.
    pub fn new() -> (s: PressState)
        ensures
            s.last_press_ms is None,
    {
        PressState { last_press_ms: None }
    }

    /// Record a press at `now`, discarding any stale press.
    pub fn on_down(&mut self, now: u64)
        ensures
            *final(self) == spec_on_down(*old(self), now),
    {
        self.last_press_ms = Some(now);
    }

    /// Drain the slot and measure the press: returns the saturated gap since
    /// the recorded press, or `None` when the slot was already empty (a
    /// release with no preceding press is a no-op). Either way the slot is
    /// empty afterwards, so each press is measured at most once.
    pub fn on_up(&mut self, now: u64) -> (d: Option<u64>)
        ensures
            *final(self) == spec_on_up_state(*old(self)),
            d == spec_on_up_duration(*old(self), now),
    {
        let prev = self.last_press_ms;
        self.last_press_ms = None;
        match prev {
            Some(t) => if now >= t {
                Some(now - t)
            } else {
                Some(0)
            },
            None => None,
        }
    }
}

/// The dispatcher's gate: detection is triggered exactly when the measured
/// duration reaches the drag threshold.
pub fn should_dispatch(duration_ms: u64) -> (r: bool)
    ensures
        r == crosses_threshold(duration_ms),
{
    duration_ms >= DRAG_THRESHOLD_MS
}

/// One step of the observer on a button event: updates the press slot and
/// returns the duration to dispatch, if the release qualified.
pub fn observe(state: &mut PressState, event: PointerEvent, now: u64) -> (dispatch: Option<u64>)
    ensures
        *final(state) == spec_observe(*old(state), event, now).0,
        dispatch == spec_observe(*old(state), event, now).1,
{
    match event {
        PointerEvent::PrimaryDown => {
            state.on_down(now);
            None
        },
        PointerEvent::PrimaryUp => {
            match state.on_up(now) {
                Some(d) => if should_dispatch(d) {
                    Some(d)
                } else {
                    None
                },
                None => None,
            }
        },
        PointerEvent::Other => None,
    }
}

/// The observer as the interception chain calls it: an event tagged with a
/// negative code is not for this hook and is passed through untouched, before
/// any inspection; otherwise the event is observed as usual. The caller
/// forwards every event to the next handler regardless of the result.
pub fn observe_hook(state: &mut PressState, code: i32, event: PointerEvent, now: u64) -> (dispatch:
    Option<u64>)
    ensures
        code < 0 ==> *final(state) == *old(state) && dispatch is None,
        code >= 0 ==> *final(state) == spec_observe(*old(state), event, now).0 && dispatch
            == spec_observe(*old(state), event, now).1,
{
    if code < 0 {
        None
    } else {
        observe(state, event, now)
    }
}

/// Detection is triggered iff the measured gap reaches the drag threshold,
/// and the boundary gap itself triggers: the threshold is inclusive.
pub proof fn lemma_threshold_inclusive(d: u64)
    ensures
        crosses_threshold(d) <==> d >= DRAG_THRESHOLD_MS,
        crosses_threshold(DRAG_THRESHOLD_MS),
{
}

/// A release with no preceding recorded press is a no-op: the slot stays
/// empty and nothing is dispatched.
pub proof fn lemma_release_without_press(now: u64)
    ensures
        ({
            let s = PressState { last_press_ms: None };
            spec_observe(s, PointerEvent::PrimaryUp, now).0 == s && spec_observe(
                s,
                PointerEvent::PrimaryUp,
                now,
            ).1 is None
        }),
{
}

/// Draining the slot is exactly-once per press: after one release consumes a
/// press, a second release dispatches nothing, whatever the timestamps.
pub proof fn lemma_press_consumed_once(s: PressState, t_down: u64, t_up1: u64, t_up2: u64)
    ensures
        ({
            let s1 = spec_observe(s, PointerEvent::PrimaryDown, t_down).0;
            let s2 = spec_observe(s1, PointerEvent::PrimaryUp, t_up1).0;
            spec_observe(s2, PointerEvent::PrimaryUp, t_up2).1 is None
        }),
{
}

/// Two gestures in sequence are independent: each release measures the gap
/// from its own press, with no cross-contamination through the shared slot.
pub proof fn lemma_gestures_independent(s: PressState, down1: u64, up1: u64, down2: u64, up2: u64)
    ensures
        ({
            let s1 = spec_observe(s, PointerEvent::PrimaryDown, down1).0;
            let r1 = spec_observe(s1, PointerEvent::PrimaryUp, up1);
            let s2 = spec_observe(r1.0, PointerEvent::PrimaryDown, down2).0;
            let r2 = spec_observe(s2, PointerEvent::PrimaryUp, up2);
            r1.1 == (if crosses_threshold(sat_sub(up1, down1)) {
                Some(sat_sub(up1, down1))
            } else {
                None::<u64>
            }) && r2.1 == (if crosses_threshold(sat_sub(up2, down2)) {
                Some(sat_sub(up2, down2))
            } else {
                None::<u64>
            })
        }),
{
}

} // verus!
