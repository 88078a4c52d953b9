use lumicontrol::calendar::{
    civil_from_days, is_leap_year, local_time_minutes, timezone_offset_minutes, LocalDateTime,
};
use lumicontrol::control::{LightAction, RelayContactMode, WeatherKind};
use lumicontrol::float_bits::F64Bits;
use lumicontrol::legacy_rules::{
    evaluate_light_rules, light_rules_need_weather, normalize_day_minutes, time_is_after,
    time_is_before, LegacyRuleContext, LegacyRuleDecision,
};
use lumicontrol::legacy::{
    adapt_brightness_target, smooth_brightness_step,
    check_relay_response, check_sensor_reading, classify_weather_snapshot, normalize_runtime_config,
    policy_from_config, relay_action_matches, relay_command_line, AppConfig, RelayState,
    RuntimeConfig, SensorReadingError, WeatherCache, applied_brightness, calibration_summary,
    transition_end, BrightnessPolicy, relay_switch_for_action,
};
use lumicontrol::migrate::{LegacyCondition, LegacyLightRule};

fn lux(value: f64) -> F64Bits {
    F64Bits { bits: value.to_bits() }
}

#[test]
fn light_rules_use_first_matching_priority_rule() {
    let context = LegacyRuleContext {
        now: LocalDateTime {
            year: 2026,
            month: 6,
            day: 29,
            hour: 21,
            minute: 15,
            second: 0,
            utc_offset_minutes: 8 * 60,
        },
        sunrise_minutes: Some(300),
        sunset_minutes: Some(1140),
        weather_kind: Some(WeatherKind::Clear),
        lux: Some(lux(12.0)),
        current_brightness: Some(70),
        target_brightness: Some(68),
    };
    let rules = vec![
        LegacyLightRule {
            name: "late bright monitor wins".to_string(),
            enabled: true,
            all: vec![
                LegacyCondition::TimeAfter { minutes: 21 * 60 },
                LegacyCondition::CurrentBrightnessAbove { brightness: 60 },
            ],
            any: Vec::new(),
            then_action: LightAction::Off,
        },
        LegacyLightRule {
            name: "dark room would turn on".to_string(),
            enabled: true,
            all: vec![LegacyCondition::LuxBelow { lux: lux(30.0) }],
            any: Vec::new(),
            then_action: LightAction::On,
        },
    ];

    let decision = evaluate_light_rules(&rules, LightAction::Keep, &context);

    assert_eq!(
        decision,
        LegacyRuleDecision {
            action: LightAction::Off,
            matched_rule: Some("late bright monitor wins".to_string()),
        }
    );
}

#[test]
fn light_rules_use_sunset_lux_and_fallback() {
    let mut context = LegacyRuleContext {
        now: LocalDateTime {
            year: 2026,
            month: 6,
            day: 29,
            hour: 20,
            minute: 0,
            second: 0,
            utc_offset_minutes: 8 * 60,
        },
        sunrise_minutes: Some(300),
        sunset_minutes: Some(1140),
        weather_kind: Some(WeatherKind::Cloudy),
        lux: Some(lux(18.0)),
        current_brightness: Some(56),
        target_brightness: Some(60),
    };
    let rules = vec![LegacyLightRule {
        name: "after sunset and dim room".to_string(),
        enabled: true,
        all: vec![
            LegacyCondition::AfterSunset { offset_minutes: -30 },
            LegacyCondition::LuxBelow { lux: lux(30.0) },
        ],
        any: Vec::new(),
        then_action: LightAction::On,
    }];

    assert_eq!(
        evaluate_light_rules(&rules, LightAction::Off, &context),
        LegacyRuleDecision {
            action: LightAction::On,
            matched_rule: Some("after sunset and dim room".to_string()),
        }
    );

    context.lux = Some(lux(80.0));
    assert_eq!(
        evaluate_light_rules(&rules, LightAction::Off, &context),
        LegacyRuleDecision { action: LightAction::Off, matched_rule: None }
    );
}

#[test]
fn weather_fetch_is_needed_only_for_enabled_weather_rules() {
    let time_rule = LegacyLightRule {
        name: "time only".to_string(),
        enabled: true,
        all: vec![LegacyCondition::TimeAfter { minutes: 19 * 60 }],
        any: Vec::new(),
        then_action: LightAction::On,
    };
    let disabled_weather_rule = LegacyLightRule {
        name: "disabled weather".to_string(),
        enabled: false,
        all: vec![LegacyCondition::WeatherIs { kind: WeatherKind::Rain }],
        any: Vec::new(),
        then_action: LightAction::Off,
    };
    let weather_rule = LegacyLightRule {
        name: "weather".to_string(),
        enabled: true,
        all: Vec::new(),
        any: vec![LegacyCondition::WeatherIs { kind: WeatherKind::Cloudy }],
        then_action: LightAction::Off,
    };

    assert!(!light_rules_need_weather(std::slice::from_ref(&time_rule)));
    assert!(!light_rules_need_weather(&[time_rule, disabled_weather_rule]));
    assert!(light_rules_need_weather(&[weather_rule]));
}

#[test]
fn day_minutes_wrap_and_compare() {
    assert_eq!(normalize_day_minutes(-30), 1410);
    assert_eq!(normalize_day_minutes(1500), 60);
    assert!(time_is_after(1200, 1140 - 30));
    assert!(!time_is_after(1000, -60));
    assert!(time_is_before(10, -60));
}

#[test]
fn civil_dates_from_day_counts() {
    assert_eq!(civil_from_days(0), (1970, 1, 1));
    assert_eq!(civil_from_days(-1), (1969, 12, 31));
    assert_eq!(civil_from_days(19_723), (2024, 1, 1));
    assert_eq!(civil_from_days(11_016), (2000, 2, 29));
    assert_eq!(civil_from_days(-719_468), (0, 3, 1));
    assert!(is_leap_year(2000));
    assert!(!is_leap_year(1900));
    assert!(is_leap_year(-4));
}

#[test]
fn local_times_from_unix_seconds() {
    let t = LocalDateTime::from_unix_seconds_with_offset(1_782_738_900, 480);
    assert_eq!((t.year, t.month, t.day, t.hour, t.minute, t.second), (2026, 6, 29, 21, 15, 0));
    assert_eq!(t.iso8601(), "2026-06-29T21:15:00+08:00");
    assert_eq!(t.day_of_year(), 180);
    assert_eq!(local_time_minutes(t), 21 * 60 + 15);
    let west = LocalDateTime::from_unix_seconds_with_offset(0, -330);
    assert_eq!(west.iso8601(), "1969-12-31T18:30:00-05:30");
    let ancient = LocalDateTime { year: -5, month: 1, day: 2, hour: 3, minute: 4, second: 5, utc_offset_minutes: 0 };
    assert_eq!(ancient.iso8601(), "-005-01-02T03:04:05+00:00");
    assert_eq!(timezone_offset_minutes("UTC"), 0);
    assert_eq!(timezone_offset_minutes("Asia/Shanghai"), 480);
    assert_eq!(timezone_offset_minutes("Europe/Paris"), 480);
}

#[test]
fn default_config_matches_original_requirements() {
    let config = AppConfig::default();
    assert_eq!(config.location_name, "Shanghai");
    assert_eq!(f64::from_bits(config.latitude.bits), 31.2304);
    assert_eq!(f64::from_bits(config.longitude.bits), 121.4737);
    assert_eq!(config.brightness_min, 0);
    assert_eq!(config.brightness_max, 100);
    assert_eq!(config.weather_refresh_seconds, 300);
    assert_eq!(config.control_tick_seconds, 30);
    assert_eq!(config.brightness_deadband, 2);
    assert_eq!(config.maximum_step_per_tick, 4);
    assert_eq!(config.sensor_port, "COM3");
}

#[test]
fn policy_from_config_normalizes_user_edited_values() {
    let mut config = AppConfig::default();
    config.brightness_min = 120;
    config.brightness_max = -10;
    config.brightness_deadband = -3;
    config.maximum_step_per_tick = 0;
    let policy = policy_from_config(&config);
    assert_eq!(policy.brightness_min, 0);
    assert_eq!(policy.brightness_max, 100);
    assert_eq!(policy.deadband, 0);
    assert_eq!(policy.maximum_step, 1);
}

#[test]
fn runtime_config_normalization_handles_manual_edits() {
    let mut runtime = RuntimeConfig::default();
    runtime.daytime_peak_brightness = 160;
    runtime.night_target_brightness = -25;
    runtime.theme_mode = "sepia".to_string();
    let curve = runtime.sensor_calibration_curve.clone();
    normalize_runtime_config(&mut runtime, curve);
    assert_eq!(runtime.daytime_peak_brightness, 100);
    assert_eq!(runtime.night_target_brightness, 0);
    assert_eq!(runtime.theme_mode, "dark");
}

#[test]
fn runtime_config_normalization_accepts_system_theme() {
    let mut runtime = RuntimeConfig::default();
    runtime.theme_mode = "system".to_string();
    let curve = runtime.sensor_calibration_curve.clone();
    normalize_runtime_config(&mut runtime, curve);
    assert_eq!(runtime.theme_mode, "system");
}

#[test]
fn first_version_weather_and_serial_lines() {
    assert_eq!(classify_weather_snapshot(0, lux(20.0), lux(0.35)), WeatherKind::Rain);
    assert_eq!(classify_weather_snapshot(90, lux(3.0), lux(0.1)), WeatherKind::Fog);
    assert_eq!(classify_weather_snapshot(60, lux(20.0), lux(0.1)), WeatherKind::Cloudy);
    assert_eq!(classify_weather_snapshot(10, lux(20.0), lux(0.1)), WeatherKind::Clear);
    match check_sensor_reading("other", lux(34.17)) {
        Err(SensorReadingError::UnexpectedSensor(message)) => {
            assert!(message.contains("unexpected sensor"));
            assert_eq!(message, "unexpected sensor: other");
        }
        _ => panic!("expected a refusal"),
    }
    assert!(matches!(check_sensor_reading("bh1750", lux(-1.0)), Err(SensorReadingError::InvalidLux)));
    assert!(matches!(check_sensor_reading("bh1750", lux(f64::INFINITY)), Err(SensorReadingError::InvalidLux)));
    assert!(check_sensor_reading("bh1750", lux(34.17)).is_ok());
    assert!(check_relay_response("relay").is_ok());
    assert_eq!(check_relay_response("sensor").unwrap_err(), "unexpected command response: sensor");
    assert_eq!(relay_command_line(RelayState::On), "relay on\n");
    assert_eq!(relay_command_line(RelayState::Off), "relay off\n");
    assert!(relay_action_matches("off", RelayState::Off));
    assert!(!relay_action_matches("on", RelayState::Off));
}

#[test]
fn runtime_peak_and_target_can_reach_full_range() {
    let config = AppConfig::default();
    let policy = policy_from_config(&config);
    let mut runtime = RuntimeConfig::default();
    runtime.daytime_peak_brightness = 100;
    runtime.night_target_brightness = 0;
    let day_target = adapt_brightness_target(100, lux(1.0), &runtime);
    let night_target = adapt_brightness_target(0, lux(0.0), &runtime);
    assert_eq!(smooth_brightness_step(100, day_target, policy), 100);
    assert_eq!(smooth_brightness_step(0, night_target, policy), 0);
}

fn json_line(line: &str) -> serde_json::Value {
    serde_json::from_str(line.trim()).expect("the line is JSON")
}

#[test]
fn sensor_reading_parses_json_line_from_esp32() {
    let reading = json_line(r#"{"sensor":"bh1750","lux":34.17,"addr":"0x23","sda":4,"scl":5}"#);
    let sensor = reading["sensor"].as_str().unwrap();
    let value = reading["lux"].as_f64().unwrap();
    check_sensor_reading(sensor, lux(value)).expect("sensor JSON should parse");
    assert_eq!(sensor, "bh1750");
    assert!((value - 34.17).abs() < 0.001);
}

#[test]
fn sensor_reading_rejects_wrong_sensor_name() {
    let reading = json_line(r#"{"sensor":"other","lux":34.17,"addr":"0x23","sda":4,"scl":5}"#);
    let sensor = reading["sensor"].as_str().unwrap();
    let value = reading["lux"].as_f64().unwrap();
    match check_sensor_reading(sensor, lux(value)) {
        Err(SensorReadingError::UnexpectedSensor(message)) => {
            assert!(message.contains("unexpected sensor"))
        }
        _ => panic!("wrong sensor should be rejected"),
    }
}

#[test]
fn relay_response_parses_serial_ack() {
    let response = json_line(
        r#"{"command":"relay","action":"on","relay":"on","relay_gpio":10,"relay_active_low":true}"#,
    );
    let command = response["command"].as_str().unwrap();
    check_relay_response(command).expect("relay response should parse");
    assert_eq!(command, "relay");
    assert!(relay_action_matches(response["action"].as_str().unwrap(), RelayState::On));
    assert_eq!(response["relay_gpio"].as_u64(), Some(10));
}

#[test]
fn weather_is_reused_until_the_refresh_period_passes() {
    let mut cache: WeatherCache<u32> = WeatherCache::new();
    assert_eq!(cache.fresh(0, 300), None);
    assert_eq!(cache.fallback(), None);
    cache.store(7, 10_000);
    assert_eq!(cache.fresh(10_000, 300), Some(7));
    assert_eq!(cache.fresh(309_999, 300), Some(7));
    assert_eq!(cache.fresh(310_000, 300), None);
    assert_eq!(cache.fresh(5_000, 300), Some(7));
    assert_eq!(cache.fallback(), Some(7));
}

#[test]
fn transitions_end_at_their_last_point() {
    let policy = BrightnessPolicy { brightness_min: 10, brightness_max: 90, deadband: 0, maximum_step: 4 };
    assert_eq!(transition_end(&[40, 44, 48], 40, policy), 48);
    assert_eq!(transition_end(&[], 95, policy), 90);
    assert_eq!(transition_end(&[], 5, policy), 10);
    assert_eq!(applied_brightness(&[40, 44, 48], 0), None);
    assert_eq!(applied_brightness(&[40, 44, 48], 2), Some(44));
    assert_eq!(applied_brightness(&[40, 44, 48], 9), Some(48));
    assert_eq!(applied_brightness(&[], 3), None);
}

#[test]
fn calibration_samples_give_least_greatest_and_rounded_mean() {
    assert_eq!(calibration_summary(&[]), (0, 0, 0));
    assert_eq!(calibration_summary(&[50]), (50, 50, 50));
    assert_eq!(calibration_summary(&[10, 11]), (10, 11, 11));
    assert_eq!(calibration_summary(&[10, 11, 11]), (10, 11, 11));
    assert_eq!(calibration_summary(&[-3, -4]), (-4, -3, -4));
    assert_eq!(calibration_summary(&[30, 70, 52]), (30, 70, 51));
    assert_eq!(calibration_summary(&[i32::MAX, i32::MAX]), (i32::MAX, i32::MAX, i32::MAX));
}

#[test]
fn rules_switch_the_relay_only_when_the_light_differs() {
    let (no, nc) = (RelayContactMode::No, RelayContactMode::Nc);
    assert_eq!(relay_switch_for_action(LightAction::Keep, None, no), None);
    assert_eq!(relay_switch_for_action(LightAction::On, None, no), Some(RelayState::On));
    assert_eq!(relay_switch_for_action(LightAction::On, Some(RelayState::On), no), None);
    assert_eq!(relay_switch_for_action(LightAction::On, Some(RelayState::On), nc), Some(RelayState::Off));
    assert_eq!(relay_switch_for_action(LightAction::Off, Some(RelayState::On), nc), None);
    assert_eq!(relay_switch_for_action(LightAction::Off, Some(RelayState::On), no), Some(RelayState::Off));
}
