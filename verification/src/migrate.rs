//! Settings of the first version of the program, and how they become a
//! settings document of the current schema.

use vstd::prelude::*;
use crate::control::{
    default_sensor_curve, ConditionExpression, LightAction, LightCondition, LightRule,
    RelayContactMode, SensorCurvePoint, WeatherKind,
};
use crate::float_bits::F64Bits;
use crate::store::{
    ControlSettings, MigrationMetadata, RelaySettings, Settings, SettingsDocument, ThemeMode,
    WeatherSettings, SETTINGS_SCHEMA_VERSION,
};
use crate::store::texts;
use crate::text::{decimal, push_decimal};

verus! {

/// A condition of a rule of the first version.
#[derive(Clone, Copy, Debug)]
pub enum LegacyCondition {
    TimeAfter { minutes: i32 },
    TimeBefore { minutes: i32 },
    AfterSunrise { offset_minutes: i32 },
    BeforeSunset { offset_minutes: i32 },
    AfterSunset { offset_minutes: i32 },
    LuxBelow { lux: F64Bits },
    LuxAbove { lux: F64Bits },
    CurrentBrightnessBelow { brightness: i32 },
    CurrentBrightnessAbove { brightness: i32 },
    TargetBrightnessBelow { brightness: i32 },
    TargetBrightnessAbove { brightness: i32 },
    WeatherIs { kind: WeatherKind },
}

/// The current condition that a condition of the first version means.
pub open spec fn condition_of(c: LegacyCondition) -> LightCondition {
    match c {
        LegacyCondition::TimeAfter { minutes } => LightCondition::TimeAfter { minutes },
        LegacyCondition::TimeBefore { minutes } => LightCondition::TimeBefore { minutes },
        LegacyCondition::AfterSunrise { offset_minutes } => LightCondition::AfterSunrise {
            offset_minutes,
        },
        LegacyCondition::BeforeSunset { offset_minutes } => LightCondition::BeforeSunset {
            offset_minutes,
        },
        LegacyCondition::AfterSunset { offset_minutes } => LightCondition::AfterSunset {
            offset_minutes,
        },
        LegacyCondition::LuxBelow { lux } => LightCondition::LuxBelow { lux },
        LegacyCondition::LuxAbove { lux } => LightCondition::LuxAbove { lux },
        LegacyCondition::CurrentBrightnessBelow { brightness } => {
            LightCondition::CurrentBrightnessBelow { brightness }
        },
        LegacyCondition::CurrentBrightnessAbove { brightness } => {
            LightCondition::CurrentBrightnessAbove { brightness }
        },
        LegacyCondition::TargetBrightnessBelow { brightness } => {
            LightCondition::TargetBrightnessBelow { brightness }
        },
        LegacyCondition::TargetBrightnessAbove { brightness } => {
            LightCondition::TargetBrightnessAbove { brightness }
        },
        LegacyCondition::WeatherIs { kind } => LightCondition::WeatherIs { weather: kind },
    }
}

impl LegacyCondition {
    /// The current condition this one means.
    pub fn to_condition(self) -> (r: LightCondition)
        ensures
            r == condition_of(self),
    {
        match self {
            LegacyCondition::TimeAfter { minutes } => LightCondition::TimeAfter { minutes },
            LegacyCondition::TimeBefore { minutes } => LightCondition::TimeBefore { minutes },
            LegacyCondition::AfterSunrise { offset_minutes } => LightCondition::AfterSunrise {
                offset_minutes,
            },
            LegacyCondition::BeforeSunset { offset_minutes } => LightCondition::BeforeSunset {
                offset_minutes,
            },
            LegacyCondition::AfterSunset { offset_minutes } => LightCondition::AfterSunset {
                offset_minutes,
            },
            LegacyCondition::LuxBelow { lux } => LightCondition::LuxBelow { lux },
            LegacyCondition::LuxAbove { lux } => LightCondition::LuxAbove { lux },
            LegacyCondition::CurrentBrightnessBelow { brightness } => {
                LightCondition::CurrentBrightnessBelow { brightness }
            },
            LegacyCondition::CurrentBrightnessAbove { brightness } => {
                LightCondition::CurrentBrightnessAbove { brightness }
            },
            LegacyCondition::TargetBrightnessBelow { brightness } => {
                LightCondition::TargetBrightnessBelow { brightness }
            },
            LegacyCondition::TargetBrightnessAbove { brightness } => {
                LightCondition::TargetBrightnessAbove { brightness }
            },
            LegacyCondition::WeatherIs { kind } => LightCondition::WeatherIs { weather: kind },
        }
    }
}

/// A rule of the first version: every condition of `all` and at least one
/// of `any`.
#[derive(Clone, Debug)]
pub struct LegacyLightRule {
    pub name: String,
    pub enabled: bool,
    pub all: Vec<LegacyCondition>,
    pub any: Vec<LegacyCondition>,
    pub then_action: LightAction,
}

impl LegacyLightRule {
    /// An unnamed imported rule, on, with no condition, keeping the light.
    pub fn default() -> (r: Self)
        ensures
            r.name@ == "Imported rule"@,
            r.enabled,
            r.all@.len() == 0 && r.any@.len() == 0,
            r.then_action == LightAction::Keep,
    {
        LegacyLightRule {
            name: "Imported rule".to_string(),
            enabled: true,
            all: Vec::new(),
            any: Vec::new(),
            then_action: LightAction::Keep,
        }
    }
}

/// The member of a group that a condition of the first version becomes.
pub open spec fn member_of() -> spec_fn(LegacyCondition) -> ConditionExpression {
    |c: LegacyCondition| ConditionExpression::Condition { condition: condition_of(c) }
}

/// Whether `e` is the all-of group of `all`.
pub open spec fn is_all_group(e: ConditionExpression, all: Seq<LegacyCondition>) -> bool {
    e matches ConditionExpression::And { conditions } && conditions@ == all.map_values(member_of())
}

/// Whether `e` is the any-of group of `any`.
pub open spec fn is_any_group(e: ConditionExpression, any: Seq<LegacyCondition>) -> bool {
    e matches ConditionExpression::Or { conditions } && conditions@ == any.map_values(member_of())
}

/// Whether `when` is what a rule with the conditions `all` and `any`
/// becomes: both groups joined by all-of; the one group there is; or an
/// empty any-of group, which never holds.
pub open spec fn converted_expression(
    when: ConditionExpression,
    all: Seq<LegacyCondition>,
    any: Seq<LegacyCondition>,
) -> bool {
    if all.len() > 0 && any.len() > 0 {
        when matches ConditionExpression::And { conditions } && conditions@.len() == 2
            && is_all_group(conditions@[0], all) && is_any_group(conditions@[1], any)
    } else if all.len() > 0 {
        is_all_group(when, all)
    } else if any.len() > 0 {
        is_any_group(when, any)
    } else {
        when matches ConditionExpression::Or { conditions } && conditions@.len() == 0
    }
}

/// The id of the imported rule at `index`.
pub open spec fn legacy_rule_id(index: nat) -> Seq<char> {
    "legacy-rule-"@ + decimal(index + 1)
}

/// The warning for an imported rule without conditions.
pub open spec fn no_conditions_warning(name: Seq<char>) -> Seq<char> {
    "legacy rule '"@ + name + "' had no conditions and was disabled"@
}

/// Whether a rule of the first version has no condition.
pub open spec fn without_conditions() -> spec_fn(LegacyLightRule) -> bool {
    |rule: LegacyLightRule| rule.all@.len() == 0 && rule.any@.len() == 0
}

/// The warning for a rule of the first version without conditions.
pub open spec fn warning_for() -> spec_fn(LegacyLightRule) -> Seq<char> {
    |rule: LegacyLightRule| no_conditions_warning(rule.name@)
}

/// The members of a group, one for each condition.
fn members(conditions: Vec<LegacyCondition>) -> (r: Vec<ConditionExpression>)
    ensures
        r@ == conditions@.map_values(member_of()),
{
    let mut out: Vec<ConditionExpression> = Vec::new();
    let mut i: usize = 0;
    while i < conditions.len()
        invariant
            0 <= i <= conditions@.len(),
            out@ == conditions@.subrange(0, i as int).map_values(member_of()),
        decreases conditions@.len() - i,
    {
        out.push(ConditionExpression::Condition { condition: conditions[i].to_condition() });
        i += 1;
        assert(out@ =~= conditions@.subrange(0, i as int).map_values(member_of()));
    }
    assert(conditions@.subrange(0, conditions@.len() as int) =~= conditions@);
    out
}

/// Turns the rule at `index` of the first version into a current rule: its
/// groups of conditions joined, an id from its position, on only when it
/// was on and has a condition. A rule without conditions adds a warning.
pub fn convert_legacy_rule(index: usize, rule: LegacyLightRule, warnings: &mut Vec<String>) -> (r:
    LightRule)
    requires
        index < u64::MAX,
    ensures
        r.id@ == legacy_rule_id(index as nat),
        r.name == rule.name,
        r.enabled == (rule.enabled && (rule.all@.len() > 0 || rule.any@.len() > 0)),
        converted_expression(r.when, rule.all@, rule.any@),
        r.action == rule.then_action,
        rule.all@.len() == 0 && rule.any@.len() == 0 ==> texts(final(warnings)@) == texts(
            old(warnings)@,
        ).push(no_conditions_warning(rule.name@)),
        rule.all@.len() > 0 || rule.any@.len() > 0 ==> final(warnings)@ == old(warnings)@,
{
    let has_all = rule.all.len() > 0;
    let has_any = rule.any.len() > 0;
    let when = if has_all && has_any {
        let mut groups: Vec<ConditionExpression> = Vec::new();
        groups.push(ConditionExpression::And { conditions: members(rule.all) });
        groups.push(ConditionExpression::Or { conditions: members(rule.any) });
        ConditionExpression::And { conditions: groups }
    } else if has_all {
        ConditionExpression::And { conditions: members(rule.all) }
    } else if has_any {
        ConditionExpression::Or { conditions: members(rule.any) }
    } else {
        let mut warning = "legacy rule '".to_string();
        warning.append(rule.name.as_str());
        warning.append("' had no conditions and was disabled");
        proof {
            reveal_strlit("legacy rule '");
            reveal_strlit("' had no conditions and was disabled");
        }
        warnings.push(warning);
        proof {
            assert(texts(warnings@) =~= texts(old(warnings)@).push(
                no_conditions_warning(rule.name@),
            ));
        }
        ConditionExpression::Or { conditions: Vec::new() }
    };
    let mut id = "legacy-rule-".to_string();
    push_decimal(&mut id, (index as u64) + 1);
    proof {
        reveal_strlit("legacy-rule-");
    }
    LightRule {
        id,
        name: rule.name,
        enabled: rule.enabled && (has_all || has_any),
        when,
        action: rule.then_action,
    }
}

/// The theme a theme name of the first version means.
pub open spec fn theme_of(name: Seq<char>) -> ThemeMode {
    if name == "light"@ {
        ThemeMode::Light
    } else if name == "dark"@ {
        ThemeMode::Dark
    } else {
        ThemeMode::System
    }
}

/// The theme a theme name of the first version means: light, dark, or
/// that of the system.
pub fn legacy_theme(name: &str) -> (r: ThemeMode)
    ensures
        r == theme_of(name@),
{
    proof {
        reveal_strlit("light");
        reveal_strlit("dark");
    }
    if crate::text::text_equals(name, "light") {
        ThemeMode::Light
    } else if crate::text::text_equals(name, "dark") {
        ThemeMode::Dark
    } else {
        ThemeMode::System
    }
}

/// The settings file of the first version, with the defaults it had for
/// what a file leaves out.
#[derive(Clone, Debug)]
pub struct LegacyConfig {
    pub location_name: String,
    pub latitude: F64Bits,
    pub longitude: F64Bits,
    pub timezone_name: String,
    pub weather_refresh_seconds: u64,
    pub brightness_deadband: i32,
    pub sensor_port: String,
    pub daytime_peak_brightness: i32,
    pub night_target_brightness: i32,
    pub theme_mode: String,
    pub paused: bool,
    pub relay_contact_mode: RelayContactMode,
    pub light_rules_enabled: bool,
    pub light_rules: Vec<LegacyLightRule>,
    pub light_rules_fallback_action: LightAction,
    pub sensor_calibration_curve: Vec<SensorCurvePoint>,
}

impl LegacyConfig {
    /// Shanghai, refreshed every five minutes, a deadband of 2, port COM3,
    /// 90 % by day and 18 % at night, the dark theme, running, normally
    /// open, no rules, and the built-in curve.
    pub fn default() -> (r: Self)
        ensures
            r.location_name@ == "Shanghai"@,
            r.latitude.bits == 0x403f3afb7e90ff97,
            r.longitude.bits == 0x405e5e5119ce075f,
            r.timezone_name@ == "Asia/Shanghai"@,
            r.weather_refresh_seconds == 300,
            r.brightness_deadband == 2,
            r.sensor_port@ == "COM3"@,
            r.daytime_peak_brightness == 90,
            r.night_target_brightness == 18,
            r.theme_mode@ == "dark"@,
            !r.paused,
            r.relay_contact_mode == RelayContactMode::No,
            !r.light_rules_enabled,
            r.light_rules@.len() == 0,
            r.light_rules_fallback_action == LightAction::Keep,
            r.sensor_calibration_curve@.len() == 3,
    {
        LegacyConfig {
            location_name: "Shanghai".to_string(),
            latitude: F64Bits { bits: 0x403f3afb7e90ff97 },
            longitude: F64Bits { bits: 0x405e5e5119ce075f },
            timezone_name: "Asia/Shanghai".to_string(),
            weather_refresh_seconds: 300,
            brightness_deadband: 2,
            sensor_port: "COM3".to_string(),
            daytime_peak_brightness: 90,
            night_target_brightness: 18,
            theme_mode: "dark".to_string(),
            paused: false,
            relay_contact_mode: RelayContactMode::No,
            light_rules_enabled: false,
            light_rules: Vec::new(),
            light_rules_fallback_action: LightAction::Keep,
            sensor_calibration_curve: default_sensor_curve(),
        }
    }
}

/// Turns a settings file of the first version into a settings document of
/// the current schema. Its pause, theme, curve, levels, relay wiring and
/// rules, and place carry over; weather stays off until turned on;
/// onboarding counts as done; the migration records where the file was,
/// when it was imported, the sensor's port, the monitor calibrations it
/// held (when `legacy_monitor_calibrations` is some), and the warnings.
pub fn import_legacy_config(
    legacy: LegacyConfig,
    source_path: String,
    imported_at_unix_seconds: u64,
    legacy_monitor_calibrations: Option<serde_json::Value>,
) -> (r: SettingsDocument)
    requires
        legacy.light_rules@.len() < u64::MAX,
    ensures
        r.schema_version == SETTINGS_SCHEMA_VERSION,
        r.settings.paused == legacy.paused,
        r.settings.onboarding_completed,
        !r.settings.start_at_login,
        r.settings.locale@ == "system"@,
        r.settings.theme == theme_of(legacy.theme_mode@),
        r.settings.control.sensor_curve@ == legacy.sensor_calibration_curve@,
        r.settings.control.target_deadband == legacy.brightness_deadband,
        r.settings.control.daytime_peak_brightness == legacy.daytime_peak_brightness,
        r.settings.control.night_target_brightness == legacy.night_target_brightness,
        r.settings.control.transition.duration_ms == 1500,
        r.settings.control.manual_override.grace_period_ms == 900_000,
        r.settings.relay.contact_mode == legacy.relay_contact_mode,
        r.settings.relay.rules_enabled == legacy.light_rules_enabled,
        r.settings.relay.fallback_action == legacy.light_rules_fallback_action,
        r.settings.relay.rules@.len() == legacy.light_rules@.len(),
        forall|i: int|
            0 <= i < legacy.light_rules@.len() ==> {
                let rule = #[trigger] r.settings.relay.rules@[i];
                let old_rule = legacy.light_rules@[i];
                &&& rule.id@ == legacy_rule_id(i as nat)
                &&& rule.name == old_rule.name
                &&& rule.enabled == (old_rule.enabled && (old_rule.all@.len() > 0
                    || old_rule.any@.len() > 0))
                &&& converted_expression(rule.when, old_rule.all@, old_rule.any@)
                &&& rule.action == old_rule.then_action
            },
        !r.settings.weather.enabled,
        r.settings.weather.location_name == legacy.location_name,
        r.settings.weather.latitude == legacy.latitude,
        r.settings.weather.longitude == legacy.longitude,
        r.settings.weather.timezone == legacy.timezone_name,
        r.settings.weather.refresh_seconds == legacy.weather_refresh_seconds,
        r.settings.monitors@.len() == 0,
        r.migration.imported_from_v1,
        r.migration.source_path == Some(source_path),
        r.migration.imported_at_unix_seconds == Some(imported_at_unix_seconds),
        r.migration.legacy_device_port == Some(legacy.sensor_port),
        r.migration.legacy_monitor_calibrations == legacy_monitor_calibrations,
        texts(r.migration.warnings@) == legacy.light_rules@.filter(without_conditions()).map_values(
            warning_for(),
        ),
{
    let ghost all_rules = legacy.light_rules@;
    let ghost empty_rule = without_conditions();
    let ghost warn_of = warning_for();
    let mut warnings: Vec<String> = Vec::new();
    let mut rules: Vec<LightRule> = Vec::new();
    let mut pending = legacy.light_rules;
    let n = pending.len();
    let mut i: usize = 0;
    while i < n
        invariant
            n == all_rules.len() < u64::MAX,
            empty_rule == without_conditions(),
            warn_of == warning_for(),
            0 <= i <= n,
            pending@ == all_rules.subrange(i as int, n as int),
            rules@.len() == i,
            forall|k: int|
                0 <= k < i ==> {
                    let rule = #[trigger] rules@[k];
                    let old_rule = all_rules[k];
                    &&& rule.id@ == legacy_rule_id(k as nat)
                    &&& rule.name == old_rule.name
                    &&& rule.enabled == (old_rule.enabled && (old_rule.all@.len() > 0
                        || old_rule.any@.len() > 0))
                    &&& converted_expression(rule.when, old_rule.all@, old_rule.any@)
                    &&& rule.action == old_rule.then_action
                },
            texts(warnings@) == all_rules.subrange(0, i as int).filter(empty_rule).map_values(
                warn_of,
            ),
        decreases n - i,
    {
        let rule = pending.remove(0);
        let ghost this_rule = rule;
        let ghost before = texts(warnings@);
        let ghost prefix = all_rules.subrange(0, i as int);
        proof {
            assert(all_rules.subrange(0, i + 1) =~= prefix.push(rule));
            prefix.lemma_filter_push(rule, empty_rule);
        }
        let converted = convert_legacy_rule(i, rule, &mut warnings);
        rules.push(converted);
        i += 1;
        proof {
            assert(pending@ =~= all_rules.subrange(i as int, n as int));
            if empty_rule(this_rule) {
                assert(this_rule.all@.len() == 0 && this_rule.any@.len() == 0);
                assert(texts(warnings@) == before.push(no_conditions_warning(this_rule.name@)));
                assert(texts(warnings@) == before.push(warn_of(this_rule)));
                assert(prefix.push(this_rule).filter(empty_rule) == prefix.filter(empty_rule).push(
                    this_rule,
                ));
                assert(prefix.filter(empty_rule).push(this_rule).map_values(warn_of)
                    =~= prefix.filter(empty_rule).map_values(warn_of).push(warn_of(this_rule)));
            } else {
                assert(prefix.push(this_rule).filter(empty_rule) == prefix.filter(empty_rule));
            }
        }
    }
    proof {
        assert(all_rules.subrange(0, n as int) =~= all_rules);
    }
    let theme = legacy_theme(legacy.theme_mode.as_str());
    let mut control = ControlSettings::default();
    control.sensor_curve = legacy.sensor_calibration_curve;
    control.target_deadband = legacy.brightness_deadband;
    control.daytime_peak_brightness = legacy.daytime_peak_brightness;
    control.night_target_brightness = legacy.night_target_brightness;
    let mut settings = Settings::default();
    settings.paused = legacy.paused;
    settings.onboarding_completed = true;
    settings.theme = theme;
    settings.control = control;
    settings.relay = RelaySettings {
        contact_mode: legacy.relay_contact_mode,
        rules_enabled: legacy.light_rules_enabled,
        rules,
        fallback_action: legacy.light_rules_fallback_action,
    };
    settings.weather = WeatherSettings {
        enabled: false,
        location_name: legacy.location_name,
        latitude: legacy.latitude,
        longitude: legacy.longitude,
        timezone: legacy.timezone_name,
        refresh_seconds: legacy.weather_refresh_seconds,
    };
    SettingsDocument {
        schema_version: SETTINGS_SCHEMA_VERSION,
        settings,
        migration: MigrationMetadata {
            imported_from_v1: true,
            source_path: Some(source_path),
            imported_at_unix_seconds: Some(imported_at_unix_seconds),
            legacy_device_port: Some(legacy.sensor_port),
            legacy_monitor_calibrations,
            warnings,
        },
    }
}

} // verus!
