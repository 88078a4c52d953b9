use lumicontrol::agent::{
    agent_discovery_policy, cpu_usage_basis_points, expression_uses_weather, mean_brightness,
    pause_label, wire_error,
};
use lumicontrol::console::{parse_arguments_from, Arguments};
use lumicontrol::control::{ConditionExpression, LightCondition, RelayContactMode, WeatherKind};
use lumicontrol::dashboard::{
    initial_viewport_resizable, initial_viewport_visible_on_launch, light_rule_condition_kind,
    minutes_label, normalize_settings_brightness, pause_menu_label, settings_brightness_range,
    theme_label, visible_error, window_height, window_open_after_action, AppEvent,
    COMPACT_WINDOW_HEIGHT, ONBOARDING_WINDOW_HEIGHT,
};
use lumicontrol::device::{PortCandidate, PortKind, UsbId};
use lumicontrol::ipc::{IpcErrorCode, MonitorSnapshot};
use lumicontrol::legacy::{
    brightness_transition_points, monitor_brightness_range, normalize_monitor_brightness,
    normalize_monitor_brightness_bounds, parse_args_from, parse_usize, smooth_brightness_step,
    BrightnessPolicy, Mode, RelayState,
};
use lumicontrol::protocol::Capability;
use lumicontrol::simulator::{SimulatedProfile, SimulatorFaults};

fn args(items: &[&str]) -> Vec<String> {
    items.iter().map(|item| item.to_string()).collect()
}

#[test]
fn parse_args_defaults_to_gui_mode() {
    let (mode, config_path) = parse_args_from(&Vec::<String>::new()).expect("parse should succeed");
    assert_eq!(mode, Mode::Gui);
    assert!(config_path.is_none());
}

#[test]
fn parse_args_accepts_sensor_test_mode_with_defaults() {
    let (mode, config_path) = parse_args_from(&args(&["sensor-test"])).expect("parse should succeed");
    assert_eq!(mode, Mode::SensorTest { port: "COM3".to_string(), samples: 5 });
    assert!(config_path.is_none());
}

#[test]
fn parse_args_accepts_sensor_test_port_and_sample_options() {
    let (mode, config_path) =
        parse_args_from(&args(&["sensor-test", "--port", "COM7", "--samples", "3"]))
            .expect("parse should succeed");
    assert_eq!(mode, Mode::SensorTest { port: "COM7".to_string(), samples: 3 });
    assert!(config_path.is_none());
}

#[test]
fn parse_args_accepts_sensor_dry_run_mode() {
    let (mode, config_path) =
        parse_args_from(&args(&["sensor-dry-run", "--port", "COM7", "--samples", "3"]))
            .expect("parse should succeed");
    assert_eq!(mode, Mode::SensorDryRun { port: "COM7".to_string(), samples: 3 });
    assert!(config_path.is_none());
}

#[test]
fn parse_args_accepts_sensor_oneshot_mode() {
    let (mode, config_path) =
        parse_args_from(&args(&["sensor-oneshot", "--port", "COM7", "--samples", "3"]))
            .expect("parse should succeed");
    assert_eq!(mode, Mode::SensorOneshot { port: "COM7".to_string(), samples: 3 });
    assert!(config_path.is_none());
}

#[test]
fn parse_args_reports_bad_arguments() {
    let (mode, config) = parse_args_from(&args(&["--config", "c.json", "daemon"])).unwrap();
    assert_eq!(mode, Mode::Daemon);
    assert_eq!(config.as_deref(), Some("c.json"));
    assert_eq!(parse_args_from(&args(&["--config"])).unwrap_err(), "--config requires a path");
    let usage = parse_args_from(&args(&["-h"])).unwrap_err();
    assert!(usage.starts_with("usage: screen-brightness"));
    assert!(parse_args_from(&args(&["bogus"])).unwrap_err().starts_with("unknown argument: bogus\nusage:"));
    assert_eq!(
        parse_args_from(&args(&["sensor-test", "--samples", "x"])).unwrap_err(),
        "--samples requires a positive integer"
    );
    let (mode, _) = parse_args_from(&args(&["sensor-test", "--samples", "0"])).unwrap();
    assert_eq!(mode, Mode::SensorTest { port: "COM3".to_string(), samples: 1 });
}

#[test]
fn numbers_parse_like_usize_from_str() {
    assert_eq!(parse_usize("+3"), Some(3));
    assert_eq!(parse_usize("007"), Some(7));
    assert_eq!(parse_usize(""), None);
    assert_eq!(parse_usize("+"), None);
    assert_eq!(parse_usize("-1"), None);
    assert_eq!(parse_usize("1 "), None);
    assert_eq!(parse_usize("18446744073709551615"), Some(usize::MAX));
    assert_eq!(parse_usize("18446744073709551616"), None);
}

#[test]
fn relay_contact_mode_maps_light_state_to_relay_state() {
    assert_eq!(RelayContactMode::No.relay_state_for_light(true), RelayState::On);
    assert_eq!(RelayContactMode::No.relay_state_for_light(false), RelayState::Off);
    assert_eq!(RelayContactMode::Nc.relay_state_for_light(true), RelayState::Off);
    assert_eq!(RelayContactMode::Nc.relay_state_for_light(false), RelayState::On);
}

#[test]
fn relay_states_read_back_the_light_state() {
    for mode in [RelayContactMode::No, RelayContactMode::Nc] {
        for light in [true, false] {
            assert_eq!(mode.relay_state_for_light(light).light_on(mode), light);
        }
    }
    assert_eq!(RelayContactMode::Nc.label(), "NC");
    assert_eq!(RelayState::On.label(), "On");
}

#[test]
fn monitor_brightness_normalization_uses_full_ddc_percent_range() {
    assert_eq!(monitor_brightness_range(), 0..=100);
    assert_eq!(normalize_monitor_brightness(-1), 0);
    assert_eq!(normalize_monitor_brightness(0), 0);
    assert_eq!(normalize_monitor_brightness(100), 100);
    assert_eq!(normalize_monitor_brightness(101), 100);
    assert_eq!(normalize_monitor_brightness_bounds(-20, 140), (0, 100));
    assert_eq!(normalize_monitor_brightness_bounds(95, 5), (5, 95));
}

#[test]
fn brightness_transition_reaches_target_without_tick_step_limit() {
    let policy = BrightnessPolicy {
        brightness_min: 10,
        brightness_max: 90,
        deadband: 2,
        maximum_step: 4,
    };
    assert_eq!(smooth_brightness_step(40, 41, policy), 40);
    assert_eq!(smooth_brightness_step(40, 60, policy), 60);
    assert_eq!(smooth_brightness_step(40, 20, policy), 20);
    assert_eq!(smooth_brightness_step(0, 10, policy), 10);
    assert_eq!(smooth_brightness_step(95, 90, policy), 90);

    let points = brightness_transition_points(10, 90, policy);
    assert!(points.len() > 8, "{points:?}");
    assert_eq!(points.last(), Some(&90));
    assert!(points.iter().any(|point| *point > 14));
    assert!(points.windows(2).all(|pair| pair[0] < pair[1]));
}

#[test]
fn brightness_transition_honors_deadband_and_bounds() {
    let policy = BrightnessPolicy {
        brightness_min: 10,
        brightness_max: 90,
        deadband: 2,
        maximum_step: 4,
    };
    assert!(brightness_transition_points(40, 41, policy).is_empty());
    assert_eq!(brightness_transition_points(95, 0, policy).last(), Some(&10));
}

#[test]
fn short_transitions_still_take_eight_eased_steps() {
    let policy = BrightnessPolicy { brightness_min: 0, brightness_max: 100, deadband: 0, maximum_step: 1 };
    assert_eq!(brightness_transition_points(0, 2, policy), vec![1, 2]);
    assert_eq!(brightness_transition_points(50, 50, policy), vec![50]);
}

#[test]
fn hidden_window_tray_actions_do_not_wait_for_egui_repaint() {
    assert!(AppEvent::Show.opens_window_before_egui_update());
    assert!(AppEvent::RunNow.opens_window_before_egui_update());
    assert!(AppEvent::TogglePause.opens_window_before_egui_update());
    assert!(AppEvent::Calibration.opens_window_before_egui_update());
    assert!(AppEvent::Settings.opens_window_before_egui_update());
    assert!(!AppEvent::Quit.opens_window_before_egui_update());
    assert!(AppEvent::Quit.exits_without_egui_update());
}

#[test]
fn initial_viewport_is_visible_on_launch() {
    assert!(initial_viewport_visible_on_launch());
}

#[test]
fn initial_viewport_is_resizable() {
    assert!(initial_viewport_resizable());
}

#[test]
fn settings_brightness_controls_allow_full_monitor_range() {
    assert_eq!(settings_brightness_range(), 0..=100);
}

#[test]
fn theme_labels_include_system_mode() {
    assert_eq!(theme_label("system"), "System");
    assert_eq!(theme_label("light"), "Light");
    assert_eq!(theme_label("dark"), "Dark");
    assert_eq!(theme_label("unknown"), "Dark");
}

#[test]
fn saved_settings_brightness_uses_full_monitor_range() {
    assert_eq!(normalize_settings_brightness(0), 0);
    assert_eq!(normalize_settings_brightness(100), 100);
    assert_eq!(normalize_settings_brightness(-1), 0);
    assert_eq!(normalize_settings_brightness(101), 100);
}

#[test]
fn settings_save_and_cancel_close_the_window_even_when_native_open_flag_stays_true() {
    assert!(!window_open_after_action(true, true));
    assert!(window_open_after_action(true, false));
    assert!(!window_open_after_action(false, false));
}

#[test]
fn pause_menu_label_matches_current_state() {
    assert_eq!(pause_menu_label(false), "Pause");
    assert_eq!(pause_menu_label(true), "Resume");
}

#[test]
fn visible_error_keeps_action_errors_separate_from_worker_errors() {
    let action_error = Some("save failed".to_string());
    let worker_error = Some("sensor failed".to_string());
    assert_eq!(visible_error(&action_error, &worker_error), Some("save failed"));
    assert_eq!(visible_error(&None, &worker_error), Some("sensor failed"));
    assert_eq!(visible_error(&None, &None), None);
}

#[test]
fn clock_labels_wrap_around_the_day() {
    assert_eq!(minutes_label(0), "00:00");
    assert_eq!(minutes_label(61), "01:01");
    assert_eq!(minutes_label(-1), "23:59");
    assert_eq!(minutes_label(1440 + 605), "10:05");
    assert_eq!(light_rule_condition_kind(&LightCondition::WeatherIs { weather: WeatherKind::Rain }), 11);
    assert_eq!(light_rule_condition_kind(&LightCondition::TimeAfter { minutes: 3 }), 0);
}

#[test]
fn onboarding_and_compact_window_heights_are_distinct() {
    assert_eq!(f64::from_bits(COMPACT_WINDOW_HEIGHT), 352.0);
    assert_eq!(f64::from_bits(ONBOARDING_WINDOW_HEIGHT), 520.0);
    assert!(f64::from_bits(ONBOARDING_WINDOW_HEIGHT) > f64::from_bits(COMPACT_WINDOW_HEIGHT));
    assert_eq!(window_height(true), ONBOARDING_WINDOW_HEIGHT);
}

#[test]
fn cpu_usage_is_reported_as_percent_of_one_logical_core() {
    assert_eq!(cpu_usage_basis_points(100, 101, 1_000), 10);
    assert_eq!(cpu_usage_basis_points(100, 200, 1_000), 1_000);
    assert_eq!(cpu_usage_basis_points(100, 2_100, 1_000), 20_000);
}

#[test]
fn cpu_usage_handles_counter_resets_and_zero_intervals() {
    assert_eq!(cpu_usage_basis_points(200, 100, 1_000), 0);
    assert_eq!(cpu_usage_basis_points(0, 1, 0), 10_000);
    assert_eq!(cpu_usage_basis_points(0, u64::MAX, 1), u32::MAX);
}

#[test]
fn agent_discovery_does_not_probe_unrelated_usb_serial_devices() {
    let policy = agent_discovery_policy();
    let unrelated = PortCandidate {
        name: "COM9".to_string(),
        kind: PortKind::Usb {
            id: UsbId { vid: 0x1a86, pid: 0x7523 },
            serial_number: None,
            manufacturer: None,
            product: None,
        },
    };
    assert!(!policy.accepts(&unrelated));
    let sensor = PortCandidate {
        name: "COM4".to_string(),
        kind: PortKind::Usb {
            id: UsbId { vid: 0x303a, pid: 0x1001 },
            serial_number: None,
            manufacturer: None,
            product: None,
        },
    };
    assert!(policy.accepts(&sensor));
}

fn monitor(current_percent: Option<i32>) -> MonitorSnapshot {
    MonitorSnapshot {
        id: "m".to_string(),
        display_name: "M".to_string(),
        display_path: "p".to_string(),
        qualified: true,
        current_percent,
        target_percent: None,
        transition_active: false,
        manual_override_remaining_ms: None,
        ddc_error_count: 0,
        last_error: None,
    }
}

#[test]
fn mean_brightness_skips_unknown_monitors() {
    assert_eq!(mean_brightness(&[]), None);
    assert_eq!(mean_brightness(&[monitor(None)]), None);
    assert_eq!(mean_brightness(&[monitor(Some(40)), monitor(None), monitor(Some(61))]), Some(50));
    assert_eq!(mean_brightness(&[monitor(Some(-3)), monitor(Some(0))]), Some(-1));
}

#[test]
fn weather_dependence_is_found_in_nested_rules() {
    let plain = ConditionExpression::condition(LightCondition::TimeAfter { minutes: 1 });
    assert!(!expression_uses_weather(&plain));
    let nested = ConditionExpression::And {
        conditions: vec![
            ConditionExpression::condition(LightCondition::TimeAfter { minutes: 1 }),
            ConditionExpression::Or {
                conditions: vec![ConditionExpression::condition(LightCondition::WeatherIs {
                    weather: WeatherKind::Fog,
                })],
            },
        ],
    };
    assert!(expression_uses_weather(&nested));
    assert_eq!(pause_label(true), "Resume automatic control");
    assert_eq!(wire_error(IpcErrorCode::Internal, "x".to_string()).message, "x");
}

#[test]
fn defaults_request_a_short_non_destructive_probe() {
    let arguments = Arguments {
        port: None,
        samples: 3,
        relay: None,
    };
    assert_eq!(arguments.samples, 3);
    assert!(arguments.relay.is_none());
}

#[test]
fn console_arguments_are_read_with_defaults() {
    let parsed = parse_arguments_from(&[]).unwrap().unwrap();
    assert_eq!(parsed.samples, 3);
    assert!(parsed.port.is_none() && parsed.relay.is_none());
    let parsed = parse_arguments_from(&args(&["--port", "COM5", "--relay", "on", "--samples", "9"]))
        .unwrap()
        .unwrap();
    assert_eq!(parsed.port.as_deref(), Some("COM5"));
    assert_eq!(parsed.relay, Some(true));
    assert_eq!(parsed.samples, 9);
    assert!(parse_arguments_from(&args(&["--help"])).unwrap().is_none());
    assert_eq!(parse_arguments_from(&args(&["--samples", "0"])).unwrap_err(), "--samples must be positive");
    assert_eq!(parse_arguments_from(&args(&["--relay", "maybe"])).unwrap_err(), "--relay must be on or off");
    assert_eq!(parse_arguments_from(&args(&["-x"])).unwrap_err(), "unknown argument: -x");
}

#[test]
fn simulated_profiles_advertise_their_capabilities() {
    assert_eq!(SimulatedProfile::Sensor.product_id(), "lumi-sensor");
    assert_eq!(SimulatedProfile::SensorRelay.capabilities(), vec![Capability::AmbientLux, Capability::Relay]);
    assert_eq!(SimulatedProfile::Sensor.capabilities(), vec![Capability::AmbientLux]);
    assert_eq!(SimulatorFaults::default().response_delay, 0);
}
