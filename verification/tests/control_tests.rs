use lumicontrol::control::{
    evaluate_rules, normalize_brightness, normalize_minutes, ConditionExpression, CoreError,
    LightAction, LightCondition, LightRule, LogLuxFilterConfig, ManualOverrideConfig,
    ManualOverrideGuard, RelayContactMode, RuleContext, TargetStabilizer, TransitionPlan,
    TransitionSpec, WeatherKind, eased_value, default_sensor_curve,
};
use lumicontrol::float_bits::F64Bits;

fn lux(value: f64) -> F64Bits {
    F64Bits::from_bits(value.to_bits())
}

fn message(error: CoreError) -> String {
    match error {
        CoreError::InvalidConfiguration(message) => message,
    }
}

#[test]
fn target_stabilizer_holds_values_inside_deadband() {
    let mut stabilizer = TargetStabilizer::new(2);
    assert_eq!(stabilizer.update(60), 60);
    assert_eq!(stabilizer.update(62), 60);
    assert_eq!(stabilizer.update(63), 63);
}

#[test]
fn transition_is_eased_retargetable_and_reaches_endpoint() {
    let plan = TransitionPlan::new(0, 100, 1_000, TransitionSpec::default()).unwrap();
    assert_eq!(plan.value_at(1_000), 0);
    assert_eq!(plan.value_at(2_500), 100);
    let midpoint = plan.value_at(1_750);
    assert_eq!(midpoint, 50);
    let retargeted = plan.retarget(1_750, 20).unwrap();
    assert_eq!(retargeted.value_at(1_750), midpoint);
    assert_eq!(retargeted.value_at(3_250), 20);
}

#[test]
fn relay_contact_mode_maps_logical_light_state() {
    assert!(RelayContactMode::No.energized_for_light(true));
    assert!(!RelayContactMode::Nc.energized_for_light(true));
    assert!(RelayContactMode::Nc.light_on(false));
}

#[test]
fn manual_override_starts_and_expires_grace_period() {
    let mut guard = ManualOverrideGuard::new(ManualOverrideConfig {
        detection_threshold: 4,
        grace_period_ms: 1_000,
    });
    assert!(guard.observe(5_000, 70, 60, false));
    assert!(guard.is_suppressed(5_999));
    assert_eq!(guard.remaining_ms(1_000), Some(5_000));
    assert!(!guard.is_suppressed(6_000));
    assert_eq!(guard.remaining_ms(6_000), None);
}

#[test]
fn nested_and_or_rules_use_first_matching_priority() {
    let rules = vec![
        LightRule {
            id: "evening-dark".to_string(),
            name: "Evening and dark".to_string(),
            enabled: true,
            when: ConditionExpression::And {
                conditions: vec![
                    ConditionExpression::condition(LightCondition::AfterSunset { offset_minutes: 0 }),
                    ConditionExpression::Or {
                        conditions: vec![
                            ConditionExpression::condition(LightCondition::LuxBelow { lux: lux(30.0) }),
                            ConditionExpression::condition(LightCondition::WeatherIs {
                                weather: WeatherKind::Rain,
                            }),
                        ],
                    },
                ],
            },
            action: LightAction::On,
        },
        LightRule {
            id: "late".to_string(),
            name: "Late".to_string(),
            enabled: true,
            when: ConditionExpression::condition(LightCondition::TimeAfter { minutes: 60 }),
            action: LightAction::Off,
        },
    ];
    let mut context = RuleContext::default();
    context.now_minutes = 20 * 60;
    context.sunset_minutes = Some(18 * 60);
    context.lux = Some(lux(12.0));
    let decision = evaluate_rules(&rules, LightAction::Keep, &context);
    assert_eq!(decision.action, LightAction::On);
    assert_eq!(decision.matched_rule_id.as_deref(), Some("evening-dark"));
    assert_eq!(decision.matched_rule_name.as_deref(), Some("Evening and dark"));
}

#[test]
fn disabled_and_failing_rules_fall_through_to_the_fallback() {
    let rules = vec![LightRule {
        id: "off".to_string(),
        name: "Off".to_string(),
        enabled: false,
        when: ConditionExpression::condition(LightCondition::TimeAfter { minutes: 0 }),
        action: LightAction::Off,
    }];
    let decision = evaluate_rules(&rules, LightAction::Keep, &RuleContext::default());
    assert_eq!(decision.action, LightAction::Keep);
    assert!(decision.matched_rule_id.is_none());
    assert!(decision.matched_rule_name.is_none());
}

#[test]
fn empty_groups_do_not_accidentally_match() {
    let context = RuleContext::default();
    assert!(!ConditionExpression::And { conditions: vec![] }.matches(&context));
    assert!(!ConditionExpression::Or { conditions: vec![] }.matches(&context));
}

#[test]
fn conditions_on_missing_context_values_do_not_hold() {
    let context = RuleContext::default();
    assert!(!LightCondition::LuxBelow { lux: lux(30.0) }.matches(&context));
    assert!(!LightCondition::AfterSunset { offset_minutes: 0 }.matches(&context));
    assert!(!LightCondition::WeatherIs { weather: WeatherKind::Fog }.matches(&context));
    assert!(LightCondition::TimeBefore { minutes: 1440 + 5 }.matches(&context));
    let nan = LightCondition::LuxAbove { lux: lux(f64::NAN) };
    let mut lit = RuleContext::default();
    lit.lux = Some(lux(100.0));
    assert!(!nan.matches(&lit));
}

#[test]
fn condition_count_sums_nested_groups() {
    let expression = ConditionExpression::Or {
        conditions: vec![
            ConditionExpression::condition(LightCondition::TimeAfter { minutes: 1 }),
            ConditionExpression::And {
                conditions: vec![
                    ConditionExpression::condition(LightCondition::TimeAfter { minutes: 2 }),
                    ConditionExpression::condition(LightCondition::TimeAfter { minutes: 3 }),
                ],
            },
        ],
    };
    assert_eq!(expression.condition_count(), 3);
}

#[test]
fn minutes_wrap_around_the_day() {
    assert_eq!(normalize_minutes(-1), 1439);
    assert_eq!(normalize_minutes(1440), 0);
    assert_eq!(normalize_minutes(61), 61);
}

#[test]
fn brightness_is_clamped_to_percent() {
    assert_eq!(normalize_brightness(-5), 0);
    assert_eq!(normalize_brightness(50), 50);
    assert_eq!(normalize_brightness(150), 100);
}

#[test]
fn transition_spec_reports_each_field_out_of_range() {
    let short = TransitionSpec { duration_ms: 99, max_writes_per_second: 10 };
    assert_eq!(
        message(short.validate().unwrap_err()),
        "transition duration_ms must be in 100..=30000"
    );
    let fast = TransitionSpec { duration_ms: 1500, max_writes_per_second: 21 };
    assert_eq!(message(fast.validate().unwrap_err()), "max_writes_per_second must be in 1..=20");
    assert!(TransitionPlan::new(0, 100, 0, short).is_err());
    assert_eq!(TransitionSpec::default().minimum_write_interval_ms(), 100);
    assert_eq!(TransitionSpec { duration_ms: 1500, max_writes_per_second: 0 }.minimum_write_interval_ms(), 1000);
}

#[test]
fn transition_plan_clamps_endpoints_and_completes() {
    let plan = TransitionPlan::new(-20, 140, 0, TransitionSpec::default()).unwrap();
    assert_eq!(plan.value_at(0), 0);
    assert_eq!(plan.target(), 100);
    assert!(!plan.is_complete(1_499));
    assert!(plan.is_complete(1_500));
    assert_eq!(plan.value_at(10_000), 100);
    assert_eq!(plan.minimum_write_interval_ms(), 100);
}

#[test]
fn eased_value_follows_smootherstep() {
    assert_eq!(eased_value(0, 100, 0, 1000), 0);
    assert_eq!(eased_value(0, 100, 500, 1000), 50);
    assert_eq!(eased_value(0, 100, 250, 1000), 10);
    assert_eq!(eased_value(0, 100, 1000, 1000), 100);
    assert_eq!(eased_value(100, 0, 250, 1000), 90);
}

#[test]
fn stabilizer_reset_forgets_the_target() {
    let mut stabilizer = TargetStabilizer::new(5);
    assert_eq!(stabilizer.update(50), 50);
    stabilizer.reset();
    assert_eq!(stabilizer.update(52), 52);
}

#[test]
fn manual_override_ignores_small_changes_and_transitions() {
    let mut guard = ManualOverrideGuard::new(ManualOverrideConfig::default());
    assert!(!guard.observe(0, 50, 47, false));
    assert!(!guard.observe(0, 50, 10, true));
    assert!(!guard.is_suppressed(0));
    assert!(guard.observe(0, 50, 46, false));
    assert_eq!(guard.remaining_ms(0), Some(900_000));
    guard.clear();
    assert!(!guard.is_suppressed(1));
    assert_eq!(guard.remaining_ms(1), None);
}

#[test]
fn lux_filter_config_rejects_each_setting_out_of_range() {
    assert!(LogLuxFilterConfig::default().validate().is_ok());
    let mut wide = LogLuxFilterConfig::default();
    wide.median_window = 32;
    assert_eq!(message(wide.validate().unwrap_err()), "median_window must be in 1..=31");
    let mut zero = LogLuxFilterConfig::default();
    zero.rise_alpha = lux(0.0);
    assert_eq!(message(zero.validate().unwrap_err()), "rise_alpha must be in (0, 1]");
    let mut nan = LogLuxFilterConfig::default();
    nan.fall_alpha = lux(f64::NAN);
    assert_eq!(message(nan.validate().unwrap_err()), "fall_alpha must be in (0, 1]");
    let mut one = LogLuxFilterConfig::default();
    one.fall_alpha = lux(1.0);
    assert!(one.validate().is_ok());
}

#[test]
fn default_curve_has_three_points() {
    let curve = default_sensor_curve();
    assert_eq!(curve.len(), 3);
    assert_eq!(f64::from_bits(curve[0].lux.bits), 20.0);
    assert_eq!(curve[2].brightness, 88);
}

#[test]
fn float_comparisons_follow_ieee() {
    assert!(lux(-0.0).equals(&lux(0.0)));
    assert!(!lux(f64::NAN).equals(&lux(f64::NAN)));
    assert!(lux(-1.0).lt(&lux(0.5)));
    assert!(lux(f64::INFINITY).le(&lux(f64::INFINITY)));
    assert!(!lux(f64::INFINITY).is_finite());
    assert!(lux(f64::NAN).is_nan());
}
