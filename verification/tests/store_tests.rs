use lumicontrol::control::{
    ConditionExpression, LightAction, LightCondition, LightRule, SensorCurvePoint,
};
use lumicontrol::float_bits::F64Bits;
use lumicontrol::store::{
    loaded_outcome, recovered_outcome, recovery_candidate, validate_expression, MonitorCalibration, MonitorProfile, SettingsDocument, StateDocument,
    StoreError, ThemeMode, MAX_MANUAL_OVERRIDE_MS, MAX_WEATHER_REFRESH_SECONDS,
};

fn bits(value: f64) -> F64Bits {
    F64Bits::from_bits(value.to_bits())
}

fn problems(document: &SettingsDocument) -> Vec<String> {
    match document.validate() {
        Ok(()) => Vec::new(),
        Err(StoreError::Validation(problems)) => problems,
    }
}

fn rule(id: &str, when: ConditionExpression) -> LightRule {
    LightRule {
        id: id.to_string(),
        name: "Rule".to_string(),
        enabled: true,
        when,
        action: LightAction::On,
    }
}

#[test]
fn default_settings_are_valid() {
    let document = SettingsDocument::default();
    assert!(document.validate().is_ok());
    assert_eq!(document.settings.theme, ThemeMode::System);
    assert_eq!(document.settings.locale, "system");
    assert_eq!(StateDocument::default().schema_version, 1);
}

#[test]
fn every_problem_is_listed_in_order() {
    let mut document = SettingsDocument::default();
    document.schema_version = 7;
    document.settings.control.target_deadband = 21;
    document.settings.control.sensor_curve = vec![SensorCurvePoint { lux: bits(-1.0), brightness: 50 }];
    document.settings.locale = " ".to_string();
    document.settings.weather.enabled = true;
    document.settings.weather.latitude = bits(f64::NAN);
    assert_eq!(
        problems(&document),
        vec![
            "unsupported settings schema 7; expected 2".to_string(),
            "sensor curve lux values must be finite and positive".to_string(),
            "target_deadband must be in 0..=20".to_string(),
            "weather latitude must be in -90..=90".to_string(),
            "locale must not be empty".to_string(),
        ]
    );
}

#[test]
fn rules_are_checked_for_ids_names_and_shape() {
    let mut document = SettingsDocument::default();
    document.settings.relay.rules = vec![
        rule("a", ConditionExpression::condition(LightCondition::TimeAfter { minutes: 1440 })),
        rule("a", ConditionExpression::And { conditions: vec![] }),
        rule(" ", ConditionExpression::condition(LightCondition::LuxBelow { lux: bits(-2.0) })),
    ];
    assert_eq!(
        problems(&document),
        vec![
            "rule clock times must be in 0..1439 minutes".to_string(),
            "duplicate rule ID: a".to_string(),
            "enabled rule a must contain a condition".to_string(),
            "rule IDs must not be empty".to_string(),
            "rule lux thresholds must be finite and non-negative".to_string(),
        ]
    );
}

#[test]
fn monitor_profiles_are_checked() {
    let mut document = SettingsDocument::default();
    document.settings.monitors = vec![(
        "monitor-1".to_string(),
        MonitorProfile {
            display_name: "".to_string(),
            enabled: true,
            calibration: MonitorCalibration {
                minimum_raw: None,
                maximum_raw: None,
                perceptual_points: vec![],
            },
        },
    )];
    assert_eq!(problems(&document), vec!["monitor monitor-1 must have a display name".to_string()]);
}

#[test]
fn expressions_report_count_depth_and_problems_last_member_first() {
    let expression = ConditionExpression::Or {
        conditions: vec![
            ConditionExpression::condition(LightCondition::CurrentBrightnessBelow { brightness: 101 }),
            ConditionExpression::And {
                conditions: vec![ConditionExpression::condition(LightCondition::AfterSunset {
                    offset_minutes: 2000,
                })],
            },
        ],
    };
    let mut found = Vec::new();
    assert_eq!(validate_expression(&expression, &mut found), (2, 3));
    assert_eq!(
        found,
        vec![
            "rule solar offsets must be in -1440..=1440 minutes".to_string(),
            "rule brightness thresholds must be in 0..=100".to_string(),
        ]
    );
}

#[test]
fn deep_rules_are_refused() {
    let mut expression = ConditionExpression::condition(LightCondition::TimeAfter { minutes: 1 });
    for _ in 0..8 {
        expression = ConditionExpression::And { conditions: vec![expression] };
    }
    let mut document = SettingsDocument::default();
    document.settings.relay.rules = vec![rule("deep", expression)];
    assert_eq!(problems(&document), vec!["rule deep nesting must not exceed 8 levels".to_string()]);
}

#[test]
fn normalize_clamps_ranges() {
    let mut document = SettingsDocument::default();
    document.settings.control.target_deadband = 99;
    document.settings.control.daytime_peak_brightness = 140;
    document.settings.control.manual_override.grace_period_ms = 5;
    document.settings.weather.refresh_seconds = 1;
    document.normalize(vec![SensorCurvePoint { lux: bits(10.0), brightness: 10 }]);
    assert_eq!(document.settings.control.target_deadband, 20);
    assert_eq!(document.settings.control.daytime_peak_brightness, 100);
    assert_eq!(document.settings.control.manual_override.grace_period_ms, 60_000);
    assert_eq!(document.settings.weather.refresh_seconds, 60);
    assert_eq!(document.settings.control.sensor_curve.len(), 1);
    assert!(document.validate().is_ok());
}

#[test]
fn invalid_enabled_rule_is_rejected_before_save() {
    let mut settings = SettingsDocument::default();
    settings.settings.relay.rules.push(LightRule {
        id: "empty".to_string(),
        name: "Empty".to_string(),
        enabled: true,
        when: ConditionExpression::Or { conditions: Vec::new() },
        action: LightAction::On,
    });
    assert!(matches!(settings.validate(), Err(StoreError::Validation(_))));
    assert!(!problems(&settings).is_empty());
}

#[test]
fn normalization_caps_settings_that_drive_runtime_work() {
    let mut document = SettingsDocument::default();
    document.settings.weather.refresh_seconds = u64::MAX;
    document.settings.control.manual_override.grace_period_ms = u64::MAX;
    document.settings.control.manual_override.detection_threshold = -1;
    let curve = document.settings.control.sensor_curve.clone();
    document.normalize(curve);
    assert_eq!(document.settings.weather.refresh_seconds, MAX_WEATHER_REFRESH_SECONDS);
    assert_eq!(document.settings.control.manual_override.grace_period_ms, MAX_MANUAL_OVERRIDE_MS);
    assert_eq!(document.settings.control.manual_override.detection_threshold, 1);
    document.validate().unwrap();
}

#[test]
fn invalid_settings_recover_from_a_valid_backup() {
    let mut backup = SettingsDocument::default();
    backup.settings.paused = true;
    let (document, from_backup) = recovery_candidate(Some(backup));
    assert!(from_backup);
    assert!(document.settings.paused);
    let outcome = recovered_outcome(document, true, "backups/settings-previous.json".to_string(), None);
    assert!(outcome.document.settings.paused);
    assert_eq!(outcome.recovered_from.as_deref(), Some("backups/settings-previous.json"));
    assert_eq!(
        outcome.warning.as_deref(),
        Some("Current settings are invalid; recovered backups/settings-previous.json")
    );
}

#[test]
fn invalid_settings_without_a_valid_backup_restore_defaults_with_a_warning() {
    let mut broken = SettingsDocument::default();
    broken.schema_version = 99;
    let (document, from_backup) = recovery_candidate(Some(broken));
    assert!(!from_backup);
    assert!(document.validate().is_ok());
    let (_, from_backup) = recovery_candidate(None);
    assert!(!from_backup);
    let outcome = recovered_outcome(document, false, "unused".to_string(), Some("disk full".to_string()));
    assert!(outcome.recovered_from.is_none());
    assert_eq!(
        outcome.warning.as_deref(),
        Some(
            "Current settings are invalid and no valid backup exists; defaults were restored; \
             the primary settings file could not be repaired: disk full"
        )
    );
    let loaded = loaded_outcome(SettingsDocument::default());
    assert!(loaded.warning.is_none() && loaded.recovered_from.is_none());
}
