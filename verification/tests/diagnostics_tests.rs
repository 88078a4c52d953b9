use lumicontrol::diagnostics::{
    log_file_name, log_rotation_plan, sanitized_crash_record, sanitized_log_records,
    should_rotate_log,
    redact_device, redact_environment_texts, redact_monitors, redact_relay, sanitized_settings,
};
use lumicontrol::float_bits::F64Bits;
use lumicontrol::ipc::{DeviceSnapshot, MonitorSnapshot, RelaySnapshot};
use lumicontrol::store::{MonitorCalibration, MonitorProfile, SettingsDocument};

#[test]
fn sanitized_settings_hide_place_paths_and_warnings() {
    let mut document = SettingsDocument::default();
    document.settings.weather.location_name = "Private home".to_string();
    document.settings.weather.latitude = F64Bits { bits: 31.2304f64.to_bits() };
    document.settings.weather.longitude = F64Bits { bits: 121.4737f64.to_bits() };
    document.settings.weather.timezone = "Private/Timezone".to_string();
    document.migration.source_path = Some("C:\\Users\\Private\\config.json".to_string());
    document.migration.warnings = vec!["Private migration detail".to_string()];
    document.settings.monitors = vec![(
        "DEL-1234".to_string(),
        MonitorProfile {
            display_name: "Private desk".to_string(),
            enabled: false,
            calibration: MonitorCalibration {
                minimum_raw: Some(3),
                maximum_raw: None,
                perceptual_points: Vec::new(),
            },
        },
    )];
    let sanitized = sanitized_settings(document);
    assert_eq!(sanitized.settings.weather.location_name, "<redacted>");
    assert_eq!(sanitized.settings.weather.timezone, "<redacted>");
    assert_eq!(sanitized.settings.weather.latitude.bits, 0);
    assert_eq!(sanitized.settings.weather.longitude.bits, 0);
    assert_eq!(sanitized.migration.source_path, None);
    assert_eq!(sanitized.migration.warnings, vec!["Migration warnings were present".to_string()]);
    assert_eq!(sanitized.settings.monitors.len(), 1);
    assert_eq!(sanitized.settings.monitors[0].0, "monitor-1");
    assert_eq!(sanitized.settings.monitors[0].1.display_name, "<redacted monitor>");
    assert!(!sanitized.settings.monitors[0].1.enabled);
    assert_eq!(sanitized.settings.monitors[0].1.calibration.minimum_raw, Some(3));
}

#[test]
fn empty_place_and_time_zone_stay_empty() {
    let mut document = SettingsDocument::default();
    document.settings.weather.location_name = String::new();
    document.settings.weather.timezone = String::new();
    let sanitized = sanitized_settings(document);
    assert_eq!(sanitized.settings.weather.location_name, "");
    assert_eq!(sanitized.settings.weather.timezone, "");
    assert!(sanitized.migration.warnings.is_empty());
}

#[test]
fn sanitized_snapshot_parts_hide_identities() {
    let mut device = DeviceSnapshot::default();
    device.serial_number = Some("SECRET-SERIAL".to_string());
    device.port_name = Some("COM77".to_string());
    device.last_error = Some("C:\\Users\\Private".to_string());
    redact_device(&mut device);
    assert_eq!(device.serial_number.as_deref(), Some("<redacted>"));
    assert_eq!(device.port_name.as_deref(), Some("<redacted>"));
    assert_eq!(device.last_error.as_deref(), Some("A device error was present"));

    let mut relay = RelaySnapshot::default();
    relay.matched_rule_id = Some("private-rule-id".to_string());
    relay.matched_rule_name = Some("Private bedtime".to_string());
    redact_relay(&mut relay);
    assert_eq!(relay.matched_rule_id.as_deref(), Some("<redacted>"));
    assert_eq!(relay.matched_rule_name.as_deref(), Some("<redacted rule>"));
    assert_eq!(relay.last_error, None);

    let (timezone, error, warning) =
        redact_environment_texts(&Some("Private/Timezone".to_string()), &None, &Some("x".to_string()));
    assert_eq!(timezone.as_deref(), Some("<redacted>"));
    assert_eq!(error, None);
    assert_eq!(warning.as_deref(), Some("A settings recovery warning was present"));

    let mut monitors = vec![MonitorSnapshot {
        id: "DEL-1234".to_string(),
        display_name: "Private desk".to_string(),
        display_path: r"\\.\DISPLAY1".to_string(),
        qualified: true,
        current_percent: Some(40),
        target_percent: Some(45),
        transition_active: true,
        manual_override_remaining_ms: None,
        ddc_error_count: 2,
        last_error: Some("private".to_string()),
    }];
    redact_monitors(&mut monitors);
    assert_eq!(monitors[0].id, "monitor-1");
    assert_eq!(monitors[0].display_name, "<redacted monitor>");
    assert_eq!(monitors[0].display_path, "<redacted>");
    assert_eq!(monitors[0].last_error.as_deref(), Some("A monitor error was present"));
    assert_eq!(monitors[0].current_percent, Some(40));
    assert_eq!(monitors[0].ddc_error_count, 2);
}

#[test]
fn logs_rotate_past_one_mebibyte() {
    assert!(!should_rotate_log(None, 10));
    assert!(!should_rotate_log(Some(1_048_000), 576));
    assert!(should_rotate_log(Some(1_048_000), 577));
    assert!(should_rotate_log(Some(u64::MAX), 1));
}

#[test]
fn rotation_moves_each_log_one_generation_older() {
    assert_eq!(log_file_name(0), "agent.log");
    assert_eq!(log_file_name(2), "agent.2.log");
    let plan = log_rotation_plan();
    let expected = vec![
        ("agent.2.log".to_string(), "agent.3.log".to_string()),
        ("agent.1.log".to_string(), "agent.2.log".to_string()),
        ("agent.log".to_string(), "agent.1.log".to_string()),
    ];
    assert_eq!(plan, expected);
}

#[test]
fn log_records_keep_their_shape_and_lose_their_messages() {
    let mut content = String::new();
    content.push_str(r#"{"timestamp_unix_ms":17,"level":"warn","event":"device","message":"COM7 serial LC24","version":"0.2.0"}"#);
    content.push_str("\nnot json\n");
    content.push_str(r#"{"level":3,"message":"x"}"#);
    content.push('\n');
    let out = String::from_utf8(sanitized_log_records(content.as_bytes())).unwrap();
    let lines: Vec<&str> = out.lines().collect();
    assert_eq!(lines.len(), 2);
    let first: serde_json::Value = serde_json::from_str(lines[0]).unwrap();
    assert_eq!(first["timestamp_unix_ms"], 17);
    assert_eq!(first["level"], "warn");
    assert_eq!(first["event"], "device");
    assert_eq!(first["version"], "0.2.0");
    assert_eq!(first["message"], "<redacted>");
    assert!(!out.contains("COM7"));
    let second: serde_json::Value = serde_json::from_str(lines[1]).unwrap();
    assert!(second["level"].is_null());
    assert!(second["timestamp_unix_ms"].is_null());
    assert!(out.ends_with('\n'));
    assert!(sanitized_log_records(b"").is_empty());
}

#[test]
fn crash_records_keep_only_time_and_process() {
    let content = br#"{"timestamp_unix_ms":5,"process_id":42,"message":"panicked at C:\\Users\\me","location":"src/lib.rs:1"}"#;
    let out = sanitized_crash_record(content, "0.2.0");
    let record: serde_json::Value = serde_json::from_slice(&out).unwrap();
    assert_eq!(record["timestamp_unix_ms"], 5);
    assert_eq!(record["process_id"], 42);
    assert_eq!(record["version"], "0.2.0");
    assert_eq!(record["message"], "A panic was recorded; details remain local");
    assert_eq!(record["location"], "<redacted>");
    let garbage: serde_json::Value =
        serde_json::from_slice(&sanitized_crash_record(b"oops", "0.2.0")).unwrap();
    assert!(garbage["timestamp_unix_ms"].is_null() && garbage["process_id"].is_null());
}
