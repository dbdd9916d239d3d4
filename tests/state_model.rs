use caffeine::countdown::{countdown_running, countdown_tick, Tick};
use caffeine::state::{CaffeineState, TimerSelection};

#[test]
fn labels_name_each_selection() {
    assert_eq!(TimerSelection::Infinity.label(), "Infinity");
    assert_eq!(TimerSelection::OneHour.label(), "1 Hour");
    assert_eq!(TimerSelection::TwoHours.label(), "2 Hours");
    assert_eq!(TimerSelection::Manual.label(), "Manual");
}

#[test]
fn durations_of_each_selection() {
    assert_eq!(TimerSelection::Infinity.duration_secs(None), None);
    assert_eq!(TimerSelection::Infinity.duration_secs(Some(10)), None);
    assert_eq!(TimerSelection::OneHour.duration_secs(None), Some(3600));
    assert_eq!(TimerSelection::TwoHours.duration_secs(Some(5)), Some(7200));
    assert_eq!(TimerSelection::Manual.duration_secs(Some(5)), Some(300));
    assert_eq!(TimerSelection::Manual.duration_secs(None), None);
}

#[test]
fn duration_is_deterministic() {
    for m in [None, Some(0u64), Some(1), Some(45), Some(1000)] {
        for sel in [
            TimerSelection::Infinity,
            TimerSelection::OneHour,
            TimerSelection::TwoHours,
            TimerSelection::Manual,
        ] {
            assert_eq!(sel.duration_secs(m), sel.duration_secs(m));
        }
        assert_eq!(TimerSelection::Infinity.duration_secs(m), None);
    }
}

#[test]
fn default_selection_is_infinity() {
    assert_eq!(TimerSelection::default(), TimerSelection::Infinity);
}

#[test]
fn selection_wire_indices() {
    assert_eq!(TimerSelection::from_index(0), TimerSelection::Infinity);
    assert_eq!(TimerSelection::from_index(1), TimerSelection::OneHour);
    assert_eq!(TimerSelection::from_index(2), TimerSelection::TwoHours);
    assert_eq!(TimerSelection::from_index(3), TimerSelection::Manual);
    assert_eq!(TimerSelection::from_index(99), TimerSelection::Manual);
    assert_eq!(TimerSelection::TwoHours.index(), 2);
    assert_eq!(TimerSelection::Manual.index(), 3);
}

#[test]
fn inactive_is_canonical() {
    let s = CaffeineState::inactive();
    assert!(!s.active);
    assert!(!s.is_active());
    assert_eq!(s.selection, TimerSelection::Infinity);
    assert_eq!(s.expiry_ts, -1);
}

#[test]
fn active_with_and_without_expiry() {
    let s = CaffeineState::active(TimerSelection::OneHour, Some(5000));
    assert!(s.is_active());
    assert_eq!(s.selection, TimerSelection::OneHour);
    assert_eq!(s.expiry_ts, 5000);
    let t = CaffeineState::active(TimerSelection::Infinity, None);
    assert!(t.is_active());
    assert_eq!(t.expiry_ts, -1);
}

#[test]
fn inactive_never_has_remaining_time() {
    let residual = CaffeineState { active: false, selection: TimerSelection::OneHour, expiry_ts: 500 };
    for now in [0u64, 1, 499, 500, 501, u64::MAX] {
        assert_eq!(CaffeineState::inactive().remaining_secs_at(now), None);
        assert_eq!(residual.remaining_secs_at(now), None);
    }
    assert_eq!(residual.remaining_secs(), None);
}

#[test]
fn remaining_counts_down_and_clamps() {
    let s = CaffeineState::active(TimerSelection::OneHour, Some(1000));
    assert_eq!(s.remaining_secs_at(400), Some(600));
    assert_eq!(s.remaining_secs_at(999), Some(1));
    assert_eq!(s.remaining_secs_at(1000), Some(0));
    assert_eq!(s.remaining_secs_at(5000), Some(0));
    let mut last = u64::MAX;
    for now in 0u64..1200 {
        let r = s.remaining_secs_at(now).unwrap();
        assert!(r <= last);
        last = r;
    }
}

#[test]
fn unbounded_state_has_no_remaining_time() {
    let s = CaffeineState::active(TimerSelection::Infinity, None);
    assert_eq!(s.remaining_secs_at(0), None);
    assert_eq!(s.remaining_secs(), None);
}

#[test]
fn remaining_from_the_clock() {
    let far = CaffeineState::active(TimerSelection::Manual, Some(i64::MAX as u64));
    assert!(far.remaining_secs().unwrap() > 0);
    let past = CaffeineState::active(TimerSelection::OneHour, Some(10));
    assert_eq!(past.remaining_secs(), Some(0));
}

#[test]
fn countdown_runs_only_with_expiry() {
    assert!(!countdown_running(&CaffeineState::inactive()));
    assert!(!countdown_running(&CaffeineState::active(TimerSelection::Infinity, None)));
    assert!(countdown_running(&CaffeineState::active(TimerSelection::OneHour, Some(10))));
}

#[test]
fn countdown_ticks() {
    let s = CaffeineState::active(TimerSelection::OneHour, Some(1000));
    assert_eq!(countdown_tick(&s, 990), Tick::Remaining(10));
    assert_eq!(countdown_tick(&s, 1000), Tick::Expired);
    assert_eq!(countdown_tick(&s, 2000), Tick::Expired);
    assert_eq!(countdown_tick(&CaffeineState::inactive(), 2000), Tick::Idle);
}
