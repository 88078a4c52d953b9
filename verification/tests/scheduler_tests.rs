use lumicontrol::control::{LightCondition, TransitionSpec};
use lumicontrol::dashboard::{default_light_rule_condition, light_rule_condition_kind};
use lumicontrol::monitor::{
    controllable_monitor_ids, prepare_retarget, removed_monitor_ids, BrightnessRange,
    MonitorDescriptor, MonitorError,
};

fn descriptor(id: &str, controllable: bool) -> MonitorDescriptor {
    MonitorDescriptor {
        id: id.to_string(),
        display_name: id.to_string(),
        display_path: id.to_string(),
        device_id: id.to_string(),
        brightness: controllable.then_some(BrightnessRange {
            minimum_raw: 0,
            current_raw: 10,
            maximum_raw: 100,
        }),
        qualification_error: None,
    }
}

#[test]
fn retargets_clamp_the_target_and_check_the_spec() {
    let spec = TransitionSpec { duration_ms: 1500, max_writes_per_second: 10 };
    let (target, checked) = prepare_retarget(140, spec).unwrap();
    assert_eq!(target, 100);
    assert_eq!(checked.duration_ms, 1500);
    assert_eq!(prepare_retarget(-5, spec).unwrap().0, 0);
    let bad = TransitionSpec { duration_ms: 50, max_writes_per_second: 10 };
    match prepare_retarget(50, bad) {
        Err(MonitorError::InvalidTransitionConfiguration(message)) => {
            assert_eq!(message, "transition duration_ms must be in 100..=30000")
        }
        _ => panic!("expected a configuration error"),
    }
}

#[test]
fn only_controllable_monitors_get_workers() {
    let descriptors = vec![descriptor("a", true), descriptor("b", false), descriptor("c", true)];
    assert_eq!(controllable_monitor_ids(&descriptors), vec!["a".to_string(), "c".to_string()]);
    let workers = vec!["a".to_string(), "b".to_string(), "z".to_string()];
    assert_eq!(removed_monitor_ids(&workers, &descriptors), vec!["b".to_string(), "z".to_string()]);
}

#[test]
fn rule_editor_defaults_have_their_kind() {
    for kind in 0..14usize {
        let condition = default_light_rule_condition(kind);
        assert_eq!(light_rule_condition_kind(&condition), kind.min(11));
    }
    assert!(matches!(default_light_rule_condition(0), LightCondition::TimeAfter { minutes: 1140 }));
    assert!(matches!(default_light_rule_condition(5), LightCondition::LuxBelow { lux } if f64::from_bits(lux.bits) == 30.0));
}
