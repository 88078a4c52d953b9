use lumicontrol::control::TransitionSpec;
use lumicontrol::monitor::{
    BrightnessRange, DueWrite, MonitorDescriptor, MonitorError, MonitorIdentity,
    MonitorWorkerState, WorkerNotice,
};

fn identity() -> MonitorIdentity {
    MonitorIdentity {
        display_path: r"\\.\DISPLAY2".to_string(),
        device_id: "MONITOR\\DEL1234\\A".to_string(),
        edid: vec![1, 2, 3, 4],
        physical_index: 0,
    }
}

#[test]
fn stable_identity_is_independent_of_enumeration_order() {
    let left = identity();
    let mut equivalent = left.clone();
    equivalent.display_path = r"\\.\display2".to_string();
    assert_eq!(left.stable_id(), equivalent.stable_id());

    let mut other = left.clone();
    other.physical_index = 1;
    assert_ne!(left.stable_id(), other.stable_id());
}

#[test]
fn stable_id_is_the_hex_fnv_hash_of_the_identity() {
    assert_eq!(identity().stable_id(), "monitor-91b2fe29437a2c39");
}

#[test]
fn brightness_ranges_are_normalized_both_directions() {
    let range = BrightnessRange {
        minimum_raw: 20,
        current_raw: 60,
        maximum_raw: 220,
    };
    assert_eq!(range.current_percent().unwrap(), 20);
    assert_eq!(range.raw_for_percent(20).unwrap(), 60);
    assert_eq!(range.raw_for_percent(150).unwrap(), 220);
}

#[test]
fn brightness_ranges_round_and_clamp() {
    let range = BrightnessRange { minimum_raw: 0, current_raw: 1, maximum_raw: 8 };
    assert_eq!(range.current_percent().unwrap(), 13);
    let below = BrightnessRange { minimum_raw: 10, current_raw: 5, maximum_raw: 20 };
    assert_eq!(below.current_percent().unwrap(), 0);
    let above = BrightnessRange { minimum_raw: 10, current_raw: 50, maximum_raw: 20 };
    assert_eq!(above.current_percent().unwrap(), 100);
    assert_eq!(below.raw_for_percent(-5).unwrap(), 10);
    assert_eq!(below.raw_for_percent(55).unwrap(), 16);
}

#[test]
fn empty_ranges_are_invalid() {
    let flat = BrightnessRange { minimum_raw: 50, current_raw: 50, maximum_raw: 50 };
    assert!(matches!(flat.validate(), Err(MonitorError::InvalidRange { minimum: 50, maximum: 50 })));
    assert!(flat.current_percent().is_err());
    assert!(flat.raw_for_percent(10).is_err());
    let descriptor = MonitorDescriptor {
        id: "m".to_string(),
        display_name: "M".to_string(),
        display_path: "p".to_string(),
        device_id: "d".to_string(),
        brightness: Some(flat),
        qualification_error: None,
    };
    assert_eq!(descriptor.current_percent(), None);
    let mut good = descriptor.clone();
    good.brightness = Some(BrightnessRange { minimum_raw: 0, current_raw: 30, maximum_raw: 100 });
    assert_eq!(good.current_percent(), Some(30));
}

#[test]
fn worker_runs_a_transition_to_completion() {
    let mut state = MonitorWorkerState::online(40);
    assert!(matches!(state.retarget(0, 60, TransitionSpec::default()), WorkerNotice::Quiet));
    assert_eq!(state.write_interval_ms(), Some(100));
    let write = state.due_write(750).unwrap();
    assert_eq!(write, DueWrite { percent: 50, complete: false });
    let notices = state.write_succeeded(write);
    assert_eq!(notices.len(), 1);
    assert!(matches!(notices[0], WorkerNotice::Applied { percent: 50 }));
    assert_eq!(state.due_write(750), None);
    let last = state.due_write(1_500).unwrap();
    assert!(last.complete);
    let notices = state.write_succeeded(last);
    assert!(matches!(notices[0], WorkerNotice::Applied { percent: 60 }));
    assert!(matches!(notices[1], WorkerNotice::Complete { percent: 60 }));
    assert!(state.plan.is_none());
    assert_eq!(state.current, 60);
}

#[test]
fn worker_reports_targets_it_already_holds_and_bad_specs() {
    let mut state = MonitorWorkerState::online(40);
    assert!(matches!(state.retarget(0, 40, TransitionSpec::default()), WorkerNotice::Complete { percent: 40 }));
    let bad = TransitionSpec { duration_ms: 1, max_writes_per_second: 10 };
    match state.retarget(0, 80, bad) {
        WorkerNotice::Failed { message } => {
            assert_eq!(message, "transition duration_ms must be in 100..=30000")
        }
        other => panic!("unexpected {other:?}"),
    }
    assert!(state.plan.is_none());
    state.retarget(0, 80, TransitionSpec::default());
    assert!(matches!(state.write_failed("gone".to_string()), WorkerNotice::Failed { .. }));
    assert!(state.plan.is_none());
    state.observed(12);
    assert_eq!(state.current, 12);
}
