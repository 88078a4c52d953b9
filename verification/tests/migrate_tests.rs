use lumicontrol::control::{
    ConditionExpression, LightAction, RelayContactMode, SensorCurvePoint,
};
use lumicontrol::float_bits::F64Bits;
use lumicontrol::migrate::{
    convert_legacy_rule, import_legacy_config, legacy_theme, LegacyCondition, LegacyConfig,
    LegacyLightRule,
};
use lumicontrol::store::{ThemeMode, SETTINGS_SCHEMA_VERSION};

fn lux(value: f64) -> F64Bits {
    F64Bits { bits: value.to_bits() }
}

fn legacy_rule() -> LegacyLightRule {
    let mut rule = LegacyLightRule::default();
    rule.name = "Dark evening".to_string();
    rule.all = vec![LegacyCondition::AfterSunset { offset_minutes: 0 }];
    rule.any = vec![LegacyCondition::LuxBelow { lux: lux(30.0) }];
    rule.then_action = LightAction::On;
    rule
}

#[test]
fn legacy_import_keeps_curve_rules_relay_and_source() {
    let mut legacy = LegacyConfig::default();
    legacy.sensor_port = "COM7".to_string();
    legacy.paused = true;
    legacy.theme_mode = "light".to_string();
    legacy.relay_contact_mode = RelayContactMode::Nc;
    legacy.light_rules_enabled = true;
    legacy.light_rules_fallback_action = LightAction::Off;
    legacy.sensor_calibration_curve = vec![
        SensorCurvePoint { lux: lux(10.0), brightness: 20 },
        SensorCurvePoint { lux: lux(100.0), brightness: 70 },
    ];
    legacy.light_rules = vec![legacy_rule()];
    let calibrations = serde_json::from_str::<serde_json::Value>(
        r#"{"monitor-1":{"manual_0":{"average_raw":0}}}"#,
    )
    .unwrap();
    let imported = import_legacy_config(legacy, "C:/Lumi/config.json".to_string(), 1_700_000_000, Some(calibrations));
    assert_eq!(imported.schema_version, SETTINGS_SCHEMA_VERSION);
    assert!(imported.settings.paused);
    assert!(imported.settings.onboarding_completed);
    assert_eq!(imported.settings.theme, ThemeMode::Light);
    assert_eq!(imported.settings.relay.contact_mode, RelayContactMode::Nc);
    assert!(imported.settings.relay.rules_enabled);
    assert_eq!(imported.settings.relay.fallback_action, LightAction::Off);
    assert_eq!(imported.settings.relay.rules.len(), 1);
    assert_eq!(imported.settings.relay.rules[0].when.condition_count(), 2);
    assert_eq!(imported.settings.relay.rules[0].id, "legacy-rule-1");
    assert!(imported.settings.relay.rules[0].enabled);
    assert_eq!(imported.settings.control.sensor_curve.len(), 2);
    assert!(!imported.settings.weather.enabled);
    assert_eq!(imported.settings.weather.location_name, "Shanghai");
    assert_eq!(imported.settings.weather.refresh_seconds, 300);
    assert_eq!(imported.migration.legacy_device_port.as_deref(), Some("COM7"));
    assert_eq!(imported.migration.source_path.as_deref(), Some("C:/Lumi/config.json"));
    assert_eq!(imported.migration.imported_at_unix_seconds, Some(1_700_000_000));
    assert!(imported.migration.imported_from_v1);
    assert!(imported.migration.legacy_monitor_calibrations.is_some());
    assert!(imported.migration.warnings.is_empty());
}

#[test]
fn a_rule_without_conditions_is_disabled_with_a_warning() {
    let mut warnings = Vec::new();
    let rule = convert_legacy_rule(4, LegacyLightRule::default(), &mut warnings);
    assert_eq!(rule.id, "legacy-rule-5");
    assert!(!rule.enabled);
    assert!(matches!(&rule.when, ConditionExpression::Or { conditions } if conditions.is_empty()));
    assert_eq!(
        warnings,
        vec!["legacy rule 'Imported rule' had no conditions and was disabled".to_string()]
    );
}

#[test]
fn a_single_group_stands_alone() {
    let mut warnings = Vec::new();
    let mut legacy = legacy_rule();
    legacy.any.clear();
    let rule = convert_legacy_rule(0, legacy, &mut warnings);
    assert!(matches!(&rule.when, ConditionExpression::And { conditions } if conditions.len() == 1));
    assert!(rule.enabled);
    assert!(warnings.is_empty());
}

#[test]
fn legacy_theme_names() {
    assert_eq!(legacy_theme("light"), ThemeMode::Light);
    assert_eq!(legacy_theme("dark"), ThemeMode::Dark);
    assert_eq!(legacy_theme("sepia"), ThemeMode::System);
}
