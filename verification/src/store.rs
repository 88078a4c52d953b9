use vstd::prelude::*;
use crate::control::{
    alpha_in_range, clamp, ConditionExpression, LightAction, LightCondition, LightRule,
    LogLuxFilterConfig, ManualOverrideConfig, RelayContactMode, SensorCurvePoint,
    TransitionSpec, default_sensor_curve, normalize_brightness,
};
use crate::float_bits::F64Bits;
use crate::text::{blank, char_count, decimal, is_blank, push_decimal, text_equals, text_of};

verus! {

/// The version of the settings file this library reads and writes.
pub const SETTINGS_SCHEMA_VERSION: u32 = 2;

/// The version of the state file this library reads and writes.
pub const STATE_SCHEMA_VERSION: u32 = 1;

/// The most points a brightness curve may hold.
pub const MAX_SENSOR_CURVE_POINTS: usize = 64;

/// The most light rules.
pub const MAX_LIGHT_RULES: usize = 64;

/// The most single conditions in one rule.
pub const MAX_RULE_CONDITIONS: usize = 32;

/// The deepest nesting of one rule.
pub const MAX_RULE_DEPTH: usize = 8;

/// The most monitor profiles.
pub const MAX_MONITOR_PROFILES: usize = 32;

/// The longest name or id, in characters.
pub const MAX_TEXT_CHARS: usize = 128;

/// The longest weather refresh period: a day, in seconds.
pub const MAX_WEATHER_REFRESH_SECONDS: u64 = 86_400;

/// The longest manual-override grace period: a day, in milliseconds.
pub const MAX_MANUAL_OVERRIDE_MS: u64 = 86_400_000;

/// The colour scheme of the user interface.
#[derive(Clone, Copy, Debug, PartialEq, Eq, Structural)]
pub enum ThemeMode {
    Light,
    Dark,
    System,
}

impl ThemeMode {
    /// Follow the system.
    pub fn default() -> (r: Self)
        ensures
            r == ThemeMode::System,
    {
        ThemeMode::System
    }
}

/// How brightness is controlled.
#[derive(Clone, Debug)]
pub struct ControlSettings {
    pub sensor_curve: Vec<SensorCurvePoint>,
    pub filter: LogLuxFilterConfig,
    pub target_deadband: i32,
    pub transition: TransitionSpec,
    pub manual_override: ManualOverrideConfig,
    pub daytime_peak_brightness: i32,
    pub night_target_brightness: i32,
}

/// How the relay is driven.
#[derive(Debug)]
pub struct RelaySettings {
    pub contact_mode: RelayContactMode,
    pub rules_enabled: bool,
    pub rules: Vec<LightRule>,
    pub fallback_action: LightAction,
}

/// Where and how often weather is fetched.
#[derive(Clone, Debug)]
pub struct WeatherSettings {
    pub enabled: bool,
    pub location_name: String,
    pub latitude: F64Bits,
    pub longitude: F64Bits,
    pub timezone: String,
    pub refresh_seconds: u64,
}

/// The raw range and perceptual curve measured for one monitor.
#[derive(Clone, Debug)]
pub struct MonitorCalibration {
    pub minimum_raw: Option<u32>,
    pub maximum_raw: Option<u32>,
    pub perceptual_points: Vec<SensorCurvePoint>,
}

/// The settings kept for one monitor.
#[derive(Clone, Debug)]
pub struct MonitorProfile {
    pub display_name: String,
    pub enabled: bool,
    pub calibration: MonitorCalibration,
}

/// All user settings. The monitor profiles are pairs of a monitor id and
/// its profile, in the order the settings file lists them.
#[derive(Debug)]
pub struct Settings {
    pub paused: bool,
    pub start_at_login: bool,
    pub onboarding_completed: bool,
    pub locale: String,
    pub theme: ThemeMode,
    pub control: ControlSettings,
    pub relay: RelaySettings,
    pub weather: WeatherSettings,
    pub monitors: Vec<(String, MonitorProfile)>,
}

/// Where the settings came from when they were imported.
#[derive(Debug)]
pub struct MigrationMetadata {
    pub imported_from_v1: bool,
    pub source_path: Option<String>,
    pub imported_at_unix_seconds: Option<u64>,
    pub legacy_device_port: Option<String>,
    pub legacy_monitor_calibrations: Option<serde_json::Value>,
    pub warnings: Vec<String>,
}

/// The settings file.
#[derive(Debug)]
pub struct SettingsDocument {
    pub schema_version: u32,
    pub settings: Settings,
    pub migration: MigrationMetadata,
}

/// What the last run left behind.
#[derive(Clone, Debug)]
pub struct StateDocument {
    pub schema_version: u32,
    pub last_device_serial: Option<String>,
    pub last_monitor_ids: Vec<String>,
    pub last_clean_shutdown: bool,
}

impl StateDocument {
    /// The current schema, nothing remembered, and a clean shutdown.
    pub fn default() -> (r: Self)
        ensures
            r.schema_version == STATE_SCHEMA_VERSION,
            r.last_device_serial is None,
            r.last_monitor_ids@.len() == 0,
            r.last_clean_shutdown,
    {
        StateDocument {
            schema_version: STATE_SCHEMA_VERSION,
            last_device_serial: None,
            last_monitor_ids: Vec::new(),
            last_clean_shutdown: true,
        }
    }
}

/// The problem of an unsupported state schema `v`.
pub open spec fn state_schema_message(v: nat) -> Seq<char> {
    "unsupported state schema "@ + decimal(v) + "; expected "@ + decimal(STATE_SCHEMA_VERSION as nat)
}

impl StateDocument {
    /// Accepts the current state schema only.
    pub fn check_schema(&self) -> (r: Result<(), StoreError>)
        ensures
            r is Ok <==> self.schema_version == STATE_SCHEMA_VERSION,
            r matches Err(e) ==> listed_problems(e) == seq![
                state_schema_message(self.schema_version as nat),
            ],
    {
        if self.schema_version == STATE_SCHEMA_VERSION {
            return Ok(());
        }
        let mut message = String::from_str("unsupported state schema ");
        push_decimal(&mut message, self.schema_version as u64);
        message.append("; expected ");
        push_decimal(&mut message, STATE_SCHEMA_VERSION as u64);
        proof {
            reveal_strlit("unsupported state schema ");
            reveal_strlit("; expected ");
        }
        let mut problems: Vec<String> = Vec::new();
        problems.push(message);
        assert(texts(problems@) =~= seq![state_schema_message(self.schema_version as nat)]);
        Err(StoreError::Validation(problems))
    }
}

/// A settings or state document that breaks the rules.
#[derive(Debug)]
pub enum StoreError {
    Validation(Vec<String>),
}

/// The texts of a list of strings.
pub open spec fn texts(v: Seq<String>) -> Seq<Seq<char>> {
    v.map_values(|s: String| s@)
}

/// The problems listed by a validation error.
pub open spec fn listed_problems(e: StoreError) -> Seq<Seq<char>> {
    match e {
        StoreError::Validation(v) => texts(v@),
    }
}

/// `message` when `condition` holds, else nothing.
pub open spec fn problem_if(condition: bool, message: Seq<char>) -> Seq<Seq<char>> {
    if condition {
        seq![message]
    } else {
        Seq::empty()
    }
}

/// Appends `message` to `problems` when `condition` holds.
fn add_when(problems: &mut Vec<String>, condition: bool, message: String)
    ensures
        texts(final(problems)@) == texts(old(problems)@) + problem_if(condition, message@),
{
    if condition {
        problems.push(message);
        assert(texts(problems@) =~= texts(old(problems)@) + problem_if(condition, message@));
    } else {
        assert(texts(problems@) =~= texts(old(problems)@) + problem_if(condition, message@));
    }
}

/// `"prefix" + text + "suffix"` as a string.
fn framed(prefix: &str, text: &str, suffix: &str) -> (r: String)
    ensures
        r@ == prefix@ + text@ + suffix@,
{
    String::from_str(prefix).concat(text).concat(suffix)
}

/// The problem of an unsupported schema version `v`.
pub open spec fn schema_message(v: nat, expected: nat) -> Seq<char> {
    "unsupported settings schema "@ + decimal(v) + "; expected "@ + decimal(expected)
}

/// The problem of one condition, if any.
pub open spec fn condition_problem(c: LightCondition) -> Seq<Seq<char>> {
    match c {
        LightCondition::TimeAfter { minutes } | LightCondition::TimeBefore { minutes } => problem_if(
            !(0 <= minutes < 1440),
            "rule clock times must be in 0..1439 minutes"@,
        ),
        LightCondition::AfterSunrise { offset_minutes }
        | LightCondition::BeforeSunset { offset_minutes }
        | LightCondition::AfterSunset { offset_minutes } => problem_if(
            !(-1440 <= offset_minutes <= 1440),
            "rule solar offsets must be in -1440..=1440 minutes"@,
        ),
        LightCondition::LuxBelow { lux } | LightCondition::LuxAbove { lux } => problem_if(
            !lux.finite() || lux.less_than(F64Bits { bits: 0 }),
            "rule lux thresholds must be finite and non-negative"@,
        ),
        LightCondition::CurrentBrightnessBelow { brightness }
        | LightCondition::CurrentBrightnessAbove { brightness }
        | LightCondition::TargetBrightnessBelow { brightness }
        | LightCondition::TargetBrightnessAbove { brightness } => problem_if(
            !(0 <= brightness <= 100),
            "rule brightness thresholds must be in 0..=100"@,
        ),
        LightCondition::WeatherIs { .. } => Seq::empty(),
    }
}

/// The problems of an expression, depth first, the members of a group from
/// the last to the first.
pub open spec fn expression_problems(e: ConditionExpression) -> Seq<Seq<char>>
    decreases e, 1nat,
{
    match e {
        ConditionExpression::Condition { condition } => condition_problem(condition),
        ConditionExpression::And { conditions } => members_problems(
            conditions@,
            conditions@.len() as int,
        ),
        ConditionExpression::Or { conditions } => members_problems(
            conditions@,
            conditions@.len() as int,
        ),
    }
}

/// The problems of the first `n` members of `s`, from member `n - 1` down.
pub open spec fn members_problems(s: Seq<ConditionExpression>, n: int) -> Seq<Seq<char>>
    decreases s, n,
{
    if n <= 0 || n > s.len() {
        Seq::empty()
    } else {
        expression_problems(s[n - 1]) + members_problems(s, n - 1)
    }
}

/// The number of single conditions of an expression.
pub open spec fn leaf_count(e: ConditionExpression) -> nat
    decreases e, 1nat,
{
    match e {
        ConditionExpression::Condition { .. } => 1,
        ConditionExpression::And { conditions } => members_leaves(
            conditions@,
            conditions@.len() as int,
        ),
        ConditionExpression::Or { conditions } => members_leaves(
            conditions@,
            conditions@.len() as int,
        ),
    }
}

/// The number of single conditions of the first `n` members of `s`.
pub open spec fn members_leaves(s: Seq<ConditionExpression>, n: int) -> nat
    decreases s, n,
{
    if n <= 0 || n > s.len() {
        0
    } else {
        leaf_count(s[n - 1]) + members_leaves(s, n - 1)
    }
}

/// The number of levels of an expression: one for a single condition, one
/// more than its deepest member for a group.
pub open spec fn nesting_depth(e: ConditionExpression) -> nat
    decreases e, 1nat,
{
    match e {
        ConditionExpression::Condition { .. } => 1,
        ConditionExpression::And { conditions } => 1 + members_depth(
            conditions@,
            conditions@.len() as int,
        ),
        ConditionExpression::Or { conditions } => 1 + members_depth(
            conditions@,
            conditions@.len() as int,
        ),
    }
}

/// The deepest of the first `n` members of `s`, or 0.
pub open spec fn members_depth(s: Seq<ConditionExpression>, n: int) -> nat
    decreases s, n,
{
    if n <= 0 || n > s.len() {
        0
    } else {
        let d = nesting_depth(s[n - 1]);
        let rest = members_depth(s, n - 1);
        if d > rest {
            d
        } else {
            rest
        }
    }
}

/// `n`, or `usize::MAX` where `n` does not fit.
pub open spec fn capped(n: nat) -> nat {
    if n > usize::MAX {
        usize::MAX as nat
    } else {
        n
    }
}

/// Whether a clock threshold lies in a day.
fn clock_ok(minutes: i32) -> (r: bool)
    ensures
        r == (0 <= minutes < 1440),
{
    0 <= minutes && minutes < 1440
}

/// Appends the problem of one condition.
fn check_condition(condition: &LightCondition, problems: &mut Vec<String>)
    ensures
        texts(final(problems)@) == texts(old(problems)@) + condition_problem(*condition),
{
    match condition {
        LightCondition::TimeAfter { minutes } | LightCondition::TimeBefore { minutes } => {
            add_when(
                problems,
                !clock_ok(*minutes),
                String::from_str("rule clock times must be in 0..1439 minutes"),
            );
        },
        LightCondition::AfterSunrise { offset_minutes }
        | LightCondition::BeforeSunset { offset_minutes }
        | LightCondition::AfterSunset { offset_minutes } => {
            add_when(
                problems,
                !(-1440 <= *offset_minutes && *offset_minutes <= 1440),
                String::from_str("rule solar offsets must be in -1440..=1440 minutes"),
            );
        },
        LightCondition::LuxBelow { lux } | LightCondition::LuxAbove { lux } => {
            let zero = F64Bits::from_bits(0);
            add_when(
                problems,
                !lux.is_finite() || lux.lt(&zero),
                String::from_str("rule lux thresholds must be finite and non-negative"),
            );
        },
        LightCondition::CurrentBrightnessBelow { brightness }
        | LightCondition::CurrentBrightnessAbove { brightness }
        | LightCondition::TargetBrightnessBelow { brightness }
        | LightCondition::TargetBrightnessAbove { brightness } => {
            add_when(
                problems,
                !(0 <= *brightness && *brightness <= 100),
                String::from_str("rule brightness thresholds must be in 0..=100"),
            );
        },
        LightCondition::WeatherIs { .. } => {
            assert(texts(problems@) =~= texts(old(problems)@) + condition_problem(*condition));
        },
    }
}

/// Appends the problems of `expression` to `problems`, and returns its
/// number of single conditions and its depth, each capped at `usize::MAX`.
pub fn validate_expression(expression: &ConditionExpression, problems: &mut Vec<String>) -> (r: (
    usize,
    usize,
))
    ensures
        texts(final(problems)@) == texts(old(problems)@) + expression_problems(*expression),
        r.0 == capped(leaf_count(*expression)),
        r.1 == capped(nesting_depth(*expression)),
    decreases expression,
{
    match expression {
        ConditionExpression::Condition { condition } => {
            check_condition(condition, problems);
            (1, 1)
        },
        ConditionExpression::And { conditions } | ConditionExpression::Or { conditions } => {
            let ghost start = texts(problems@);
            let mut count: usize = 0;
            let mut depth: usize = 0;
            let mut i: usize = conditions.len();
            while i > 0
                invariant
                    0 <= i <= conditions@.len(),
                    *expression == (ConditionExpression::And { conditions: *conditions })
                        || *expression == (ConditionExpression::Or { conditions: *conditions }),
                    texts(problems@) + members_problems(conditions@, i as int) == start
                        + members_problems(conditions@, conditions@.len() as int),
                    capped(members_leaves(conditions@, conditions@.len() as int)) == capped(
                        count as nat + members_leaves(conditions@, i as int),
                    ),
                    count <= usize::MAX,
                    capped(members_depth(conditions@, conditions@.len() as int)) == capped(
                        if depth > members_depth(conditions@, i as int) {
                            depth as nat
                        } else {
                            members_depth(conditions@, i as int)
                        },
                    ),
                decreases i,
            {
                proof {
                    if *expression is And {
                        assert(decreases_to!(*expression => (*expression)->And_conditions));
                    } else {
                        assert(decreases_to!(*expression => (*expression)->Or_conditions));
                    }
                    assert(decreases_to!(*expression => conditions@[i - 1]));
                }
                let ghost before = texts(problems@);
                let (c, d) = validate_expression(&conditions[i - 1], problems);
                proof {
                    assert(texts(problems@) + members_problems(conditions@, i - 1) =~= before
                        + members_problems(conditions@, i as int));
                }
                count = count.saturating_add(c);
                if d > depth {
                    depth = d;
                }
                i -= 1;
            }
            assert(texts(problems@) =~= start + members_problems(
                conditions@,
                conditions@.len() as int,
            ));
            (count, depth.saturating_add(1))
        },
    }
}

/// The problem of the first point of a curve that breaks the rules, if any:
/// lux must be finite and positive, brightness in `0..=100`.
pub open spec fn curve_problem(points: Seq<SensorCurvePoint>, from: int) -> Seq<Seq<char>>
    decreases points.len() - from,
{
    if from < 0 || from >= points.len() {
        Seq::empty()
    } else {
        let p = points[from];
        if !p.lux.finite() || !(F64Bits { bits: 0 }).less_than(p.lux) {
            seq!["sensor curve lux values must be finite and positive"@]
        } else if !(0 <= p.brightness <= 100) {
            seq!["sensor curve brightness values must be in 0..=100"@]
        } else {
            curve_problem(points, from + 1)
        }
    }
}

/// Whether `v` lies in `lo..=hi`, as IEEE 754 compares.
pub open spec fn within(v: F64Bits, lo: F64Bits, hi: F64Bits) -> bool {
    lo.at_most(v) && v.at_most(hi)
}

/// The problem of an unsupported schema.
#[verifier::opaque]
pub open spec fn schema_problems(d: SettingsDocument) -> Seq<Seq<char>> {
    problem_if(
        d.schema_version != SETTINGS_SCHEMA_VERSION,
        schema_message(d.schema_version as nat, SETTINGS_SCHEMA_VERSION as nat),
    )
}

/// The problems of the filter and transition settings.
#[verifier::opaque]
pub open spec fn tuning_problems(c: ControlSettings) -> Seq<Seq<char>> {
    problem_if(
        !(1 <= c.filter.median_window <= 31 && alpha_in_range(c.filter.rise_alpha)
            && alpha_in_range(c.filter.fall_alpha)),
        "invalid lux filter configuration"@,
    ) + problem_if(!c.transition.valid(), "invalid transition configuration"@)
}

/// The problems of the brightness curve.
#[verifier::opaque]
pub open spec fn curve_problems(c: ControlSettings) -> Seq<Seq<char>> {
    problem_if(c.sensor_curve@.len() == 0, "sensor curve must contain at least one point"@)
        + problem_if(
        c.sensor_curve@.len() > MAX_SENSOR_CURVE_POINTS,
        "sensor curve must contain at most 64 points"@,
    ) + curve_problem(c.sensor_curve@, 0)
}

/// The problems of the brightness levels and the manual-override settings.
#[verifier::opaque]
pub open spec fn level_problems(c: ControlSettings) -> Seq<Seq<char>> {
    let m = c.manual_override;
    problem_if(!(0 <= c.target_deadband <= 20), "target_deadband must be in 0..=20"@) + problem_if(
        !(0 <= c.daytime_peak_brightness <= 100) || !(0 <= c.night_target_brightness <= 100),
        "day and night brightness must be in 0..=100"@,
    ) + problem_if(
        !(1 <= m.detection_threshold <= 100),
        "manual override detection_threshold must be in 1..=100"@,
    ) + problem_if(
        !(60_000 <= m.grace_period_ms <= MAX_MANUAL_OVERRIDE_MS),
        "manual override grace period must be between 1 minute and 24 hours"@,
    )
}

/// The problems of the control settings and the document's schema.
pub open spec fn control_problems(d: SettingsDocument) -> Seq<Seq<char>> {
    let c = d.settings.control;
    schema_problems(d) + tuning_problems(c) + curve_problems(c) + level_problems(c)
}

/// The problems of the weather settings.
#[verifier::opaque]
pub open spec fn weather_problems(w: WeatherSettings) -> Seq<Seq<char>> {
    problem_if(
        w.enabled && !within(
            w.latitude,
            F64Bits { bits: 0xc056800000000000 },
            F64Bits { bits: 0x4056800000000000 },
        ),
        "weather latitude must be in -90..=90"@,
    ) + problem_if(
        w.enabled && !within(
            w.longitude,
            F64Bits { bits: 0xc066800000000000 },
            F64Bits { bits: 0x4066800000000000 },
        ),
        "weather longitude must be in -180..=180"@,
    ) + problem_if(w.enabled && blank(w.timezone@), "weather timezone must not be empty"@)
        + problem_if(
        !(60 <= w.refresh_seconds <= MAX_WEATHER_REFRESH_SECONDS),
        "weather refresh_seconds must be in 60..=86400"@,
    ) + problem_if(
        w.location_name@.len() > MAX_TEXT_CHARS || w.timezone@.len() > MAX_TEXT_CHARS,
        "weather location and timezone must be at most 128 characters"@,
    )
}

/// The problems of the locale and of the number of rules.
pub open spec fn locale_problems(d: SettingsDocument) -> Seq<Seq<char>> {
    problem_if(blank(d.settings.locale@), "locale must not be empty"@) + problem_if(
        d.settings.locale@.len() > 32,
        "locale must be at most 32 characters"@,
    ) + problem_if(
        d.settings.relay.rules@.len() > MAX_LIGHT_RULES,
        "at most 64 light rules are supported"@,
    )
}

/// The problems of the weather settings, the locale and the number of rules.
pub open spec fn general_problems(d: SettingsDocument) -> Seq<Seq<char>> {
    weather_problems(d.settings.weather) + locale_problems(d)
}

/// Whether an earlier rule than `i` has the id of rule `i`.
pub open spec fn id_seen_before(rules: Seq<LightRule>, i: int) -> bool {
    exists|j: int| 0 <= j < i && #[trigger] rules[j].id@ == rules[i].id@
}

/// The problems of the id and the name of rule `i`.
#[verifier::opaque]
pub open spec fn rule_name_problems(rules: Seq<LightRule>, i: int) -> Seq<Seq<char>> {
    let rule = rules[i];
    let id = rule.id@;
    (if blank(id) {
        seq!["rule IDs must not be empty"@]
    } else if id_seen_before(rules, i) {
        seq!["duplicate rule ID: "@ + id]
    } else {
        Seq::empty()
    }) + problem_if(blank(rule.name@), "rule "@ + id + " must have a name"@) + problem_if(
        id.len() > MAX_TEXT_CHARS || rule.name@.len() > MAX_TEXT_CHARS,
        "rule "@ + id + " ID and name must be at most 128 characters"@,
    )
}

/// The problems of the condition of a rule.
#[verifier::opaque]
pub open spec fn rule_body_problems(rule: LightRule) -> Seq<Seq<char>> {
    let id = rule.id@;
    let count = capped(leaf_count(rule.when));
    let depth = capped(nesting_depth(rule.when));
    expression_problems(rule.when) + problem_if(
        rule.enabled && count == 0,
        "enabled rule "@ + id + " must contain a condition"@,
    ) + problem_if(
        count > MAX_RULE_CONDITIONS,
        "rule "@ + id + " must contain at most 32 conditions"@,
    ) + problem_if(depth > MAX_RULE_DEPTH, "rule "@ + id + " nesting must not exceed 8 levels"@)
}

/// The problems of rule `i`.
pub open spec fn rule_problems(rules: Seq<LightRule>, i: int) -> Seq<Seq<char>> {
    rule_name_problems(rules, i) + rule_body_problems(rules[i])
}

/// The problems of the first `n` rules.
pub open spec fn rules_problems(rules: Seq<LightRule>, n: int) -> Seq<Seq<char>>
    decreases n,
{
    if n <= 0 || n > rules.len() {
        Seq::empty()
    } else {
        rules_problems(rules, n - 1) + rule_problems(rules, n - 1)
    }
}

/// The problems of one monitor profile.
#[verifier::opaque]
pub open spec fn monitor_problems(id: Seq<char>, m: MonitorProfile) -> Seq<Seq<char>> {
    problem_if(blank(id), "monitor profile ID must not be empty"@) + problem_if(
        blank(m.display_name@),
        "monitor "@ + id + " must have a display name"@,
    ) + problem_if(
        id.len() > MAX_TEXT_CHARS || m.display_name@.len() > MAX_TEXT_CHARS,
        "monitor "@ + id + " ID and name must be at most 128 characters"@,
    ) + problem_if(
        m.calibration.perceptual_points@.len() > MAX_SENSOR_CURVE_POINTS,
        "monitor "@ + id + " calibration must contain at most 64 points"@,
    )
}

/// The problems of the first `n` monitor profiles.
pub open spec fn monitors_problems(monitors: Seq<(String, MonitorProfile)>, n: int) -> Seq<
    Seq<char>,
>
    decreases n,
{
    if n <= 0 || n > monitors.len() {
        Seq::empty()
    } else {
        monitors_problems(monitors, n - 1) + monitor_problems(monitors[n - 1].0@, monitors[n - 1].1)
    }
}

/// Every problem of a settings document, in the order they are reported.
pub open spec fn settings_problems(d: SettingsDocument) -> Seq<Seq<char>> {
    let rules = d.settings.relay.rules@;
    let monitors = d.settings.monitors@;
    control_problems(d) + general_problems(d) + rules_problems(rules, rules.len() as int) + problem_if(
        monitors.len() > MAX_MONITOR_PROFILES,
        "at most 32 monitor profiles are supported"@,
    ) + monitors_problems(monitors, monitors.len() as int)
}

} // verus!

verus! {

/// The problem of the first point from `from` on that breaks the curve rules.
fn check_curve(points: &Vec<SensorCurvePoint>, problems: &mut Vec<String>)
    ensures
        texts(final(problems)@) == texts(old(problems)@) + curve_problem(points@, 0),
{
    let zero = F64Bits::from_bits(0);
    let mut i: usize = 0;
    while i < points.len()
        invariant
            0 <= i <= points@.len(),
            zero.bits == 0,
            curve_problem(points@, 0) == curve_problem(points@, i as int),
            problems@ == old(problems)@,
        decreases points@.len() - i,
    {
        let p = points[i];
        if !p.lux.is_finite() || !zero.lt(&p.lux) {
            add_when(
                problems,
                true,
                String::from_str("sensor curve lux values must be finite and positive"),
            );
            return;
        }
        if !(0 <= p.brightness && p.brightness <= 100) {
            add_when(
                problems,
                true,
                String::from_str("sensor curve brightness values must be in 0..=100"),
            );
            return;
        }
        i += 1;
    }
    assert(texts(problems@) =~= texts(old(problems)@) + curve_problem(points@, 0));
}

/// Whether `v` lies in `lo..=hi`, as IEEE 754 compares.
fn in_range(v: F64Bits, lo: u64, hi: u64) -> (r: bool)
    ensures
        r == within(v, F64Bits { bits: lo }, F64Bits { bits: hi }),
{
    F64Bits::from_bits(lo).le(&v) && v.le(&F64Bits::from_bits(hi))
}

/// Whether `alpha` lies in `(0, 1]`.
fn alpha_fits(alpha: F64Bits) -> (r: bool)
    ensures
        r == alpha_in_range(alpha),
{
    let zero = F64Bits::from_bits(0);
    zero.le(&alpha) && alpha.le(&F64Bits::from_bits(0x3ff0000000000000)) && !alpha.equals(&zero)
}

impl SettingsDocument {
    /// Appends the problems of the control settings and of the schema.
    fn check_control(&self, problems: &mut Vec<String>)
        ensures
            texts(final(problems)@) == texts(old(problems)@) + control_problems(*self),
    {
        let ghost start = texts(problems@);
        check_schema(self, problems);
        let ghost a = texts(problems@);
        check_tuning(&self.settings.control, problems);
        let ghost b = texts(problems@);
        check_curve_shape(&self.settings.control, problems);
        let ghost c = texts(problems@);
        check_levels(&self.settings.control, problems);
        assert(texts(problems@) =~= start + control_problems(*self));
    }

    /// Appends the problems of the weather settings, the locale and the
    /// number of rules.
    fn check_general(&self, problems: &mut Vec<String>)
        ensures
            texts(final(problems)@) == texts(old(problems)@) + general_problems(*self),
    {
        let ghost start = texts(problems@);
        check_weather(&self.settings.weather, problems);
        let ghost a = texts(problems@);
        let locale_blank = is_blank(self.settings.locale.as_str());
        add_when(problems, locale_blank, String::from_str("locale must not be empty"));
        let locale_long = char_count(self.settings.locale.as_str()) > 32;
        add_when(problems, locale_long, String::from_str("locale must be at most 32 characters"));
        let many_rules = self.settings.relay.rules.len() > MAX_LIGHT_RULES;
        add_when(problems, many_rules, String::from_str("at most 64 light rules are supported"));
        assert(texts(problems@) =~= start + general_problems(*self));
    }
}

/// Appends the problem of an unsupported schema.
fn check_schema(d: &SettingsDocument, problems: &mut Vec<String>)
    ensures
        texts(final(problems)@) == texts(old(problems)@) + schema_problems(*d),
{
    let version = d.schema_version;
    let mut schema = String::from_str("unsupported settings schema ");
    push_decimal(&mut schema, version as u64);
    schema.append("; expected ");
    push_decimal(&mut schema, SETTINGS_SCHEMA_VERSION as u64);
    proof {
        reveal_strlit("unsupported settings schema ");
        reveal_strlit("; expected ");
    }
    add_when(problems, version != SETTINGS_SCHEMA_VERSION, schema);
    proof {
        reveal(schema_problems);
    }
}

/// Appends the problems of the filter and transition settings.
fn check_tuning(c: &ControlSettings, problems: &mut Vec<String>)
    ensures
        texts(final(problems)@) == texts(old(problems)@) + tuning_problems(*c),
{
    let ghost start = texts(problems@);
    let filter_ok = 1 <= c.filter.median_window && c.filter.median_window <= 31 && alpha_fits(
        c.filter.rise_alpha,
    ) && alpha_fits(c.filter.fall_alpha);
    add_when(problems, !filter_ok, String::from_str("invalid lux filter configuration"));
    let transition_ok = c.transition.validate().is_ok();
    add_when(problems, !transition_ok, String::from_str("invalid transition configuration"));
    reveal(tuning_problems);
    assert(texts(problems@) =~= start + tuning_problems(*c));
}

/// Appends the problems of the brightness curve.
fn check_curve_shape(c: &ControlSettings, problems: &mut Vec<String>)
    ensures
        texts(final(problems)@) == texts(old(problems)@) + curve_problems(*c),
{
    let ghost start = texts(problems@);
    add_when(
        problems,
        c.sensor_curve.len() == 0,
        String::from_str("sensor curve must contain at least one point"),
    );
    add_when(
        problems,
        c.sensor_curve.len() > MAX_SENSOR_CURVE_POINTS,
        String::from_str("sensor curve must contain at most 64 points"),
    );
    check_curve(&c.sensor_curve, problems);
    reveal(curve_problems);
    assert(texts(problems@) =~= start + curve_problems(*c));
}

/// Appends the problems of the brightness levels and the manual-override
/// settings.
fn check_levels(c: &ControlSettings, problems: &mut Vec<String>)
    ensures
        texts(final(problems)@) == texts(old(problems)@) + level_problems(*c),
{
    let ghost start = texts(problems@);
    let m = c.manual_override;
    add_when(
        problems,
        !(0 <= c.target_deadband && c.target_deadband <= 20),
        String::from_str("target_deadband must be in 0..=20"),
    );
    add_when(
        problems,
        !(0 <= c.daytime_peak_brightness && c.daytime_peak_brightness <= 100) || !(0
            <= c.night_target_brightness && c.night_target_brightness <= 100),
        String::from_str("day and night brightness must be in 0..=100"),
    );
    add_when(
        problems,
        !(1 <= m.detection_threshold && m.detection_threshold <= 100),
        String::from_str("manual override detection_threshold must be in 1..=100"),
    );
    add_when(
        problems,
        !(60_000 <= m.grace_period_ms && m.grace_period_ms <= MAX_MANUAL_OVERRIDE_MS),
        String::from_str("manual override grace period must be between 1 minute and 24 hours"),
    );
    reveal(level_problems);
    assert(texts(problems@) =~= start + level_problems(*c));
}

/// Appends the problems of the weather settings.
fn check_weather(w: &WeatherSettings, problems: &mut Vec<String>)
    ensures
        texts(final(problems)@) == texts(old(problems)@) + weather_problems(*w),
{
    let ghost start = texts(problems@);
    let lat_bad = w.enabled && !in_range(w.latitude, 0xc056800000000000, 0x4056800000000000);
    add_when(problems, lat_bad, String::from_str("weather latitude must be in -90..=90"));
    let lon_bad = w.enabled && !in_range(w.longitude, 0xc066800000000000, 0x4066800000000000);
    add_when(problems, lon_bad, String::from_str("weather longitude must be in -180..=180"));
    let tz_bad = w.enabled && is_blank(w.timezone.as_str());
    add_when(problems, tz_bad, String::from_str("weather timezone must not be empty"));
    let refresh_bad = !(60 <= w.refresh_seconds && w.refresh_seconds
        <= MAX_WEATHER_REFRESH_SECONDS);
    add_when(problems, refresh_bad, String::from_str("weather refresh_seconds must be in 60..=86400"));
    let long_bad = char_count(w.location_name.as_str()) > MAX_TEXT_CHARS || char_count(
        w.timezone.as_str(),
    ) > MAX_TEXT_CHARS;
    add_when(
        problems,
        long_bad,
        String::from_str("weather location and timezone must be at most 128 characters"),
    );
    reveal(weather_problems);
    assert(texts(problems@) =~= start + weather_problems(*w));
}

} // verus!

verus! {

/// Whether an earlier rule than `i` has the id of rule `i`.
fn seen_before(rules: &Vec<LightRule>, i: usize) -> (r: bool)
    requires
        i < rules@.len(),
    ensures
        r == id_seen_before(rules@, i as int),
{
    let mut j: usize = 0;
    while j < i
        invariant
            i < rules@.len(),
            0 <= j <= i,
            forall|k: int| 0 <= k < j ==> rules@[k].id@ != rules@[i as int].id@,
        decreases i - j,
    {
        if text_equals(rules[j].id.as_str(), rules[i].id.as_str()) {
            return true;
        }
        j += 1;
    }
    false
}

/// Appends the problems of the id and the name of rule `i`.
fn check_rule_names(rules: &Vec<LightRule>, i: usize, problems: &mut Vec<String>)
    requires
        i < rules@.len(),
    ensures
        texts(final(problems)@) == texts(old(problems)@) + rule_name_problems(rules@, i as int),
{
    let ghost start = texts(problems@);
    let rule = &rules[i];
    let id = rule.id.as_str();
    proof {
        reveal_strlit("rule IDs must not be empty");
        reveal_strlit("duplicate rule ID: ");
        reveal_strlit("");
        reveal_strlit("rule ");
        reveal_strlit(" must have a name");
        reveal_strlit(" ID and name must be at most 128 characters");
    }
    if is_blank(id) {
        add_when(problems, true, String::from_str("rule IDs must not be empty"));
    } else if seen_before(rules, i) {
        add_when(problems, true, framed("duplicate rule ID: ", id, ""));
    }
    let ghost mid = texts(problems@);
    add_when(problems, is_blank(rule.name.as_str()), framed("rule ", id, " must have a name"));
    add_when(
        problems,
        char_count(id) > MAX_TEXT_CHARS || char_count(rule.name.as_str()) > MAX_TEXT_CHARS,
        framed("rule ", id, " ID and name must be at most 128 characters"),
    );
    reveal(rule_name_problems);
    assert(texts(problems@) =~= start + rule_name_problems(rules@, i as int));
}

/// Appends the problems of the condition of `rule`.
fn check_rule_body(rule: &LightRule, problems: &mut Vec<String>)
    ensures
        texts(final(problems)@) == texts(old(problems)@) + rule_body_problems(*rule),
{
    let ghost start = texts(problems@);
    let id = rule.id.as_str();
    proof {
        reveal_strlit("enabled rule ");
        reveal_strlit(" must contain a condition");
        reveal_strlit("rule ");
        reveal_strlit(" must contain at most 32 conditions");
        reveal_strlit(" nesting must not exceed 8 levels");
    }
    let (count, depth) = validate_expression(&rule.when, problems);
    add_when(
        problems,
        rule.enabled && count == 0,
        framed("enabled rule ", id, " must contain a condition"),
    );
    add_when(
        problems,
        count > MAX_RULE_CONDITIONS,
        framed("rule ", id, " must contain at most 32 conditions"),
    );
    add_when(problems, depth > MAX_RULE_DEPTH, framed("rule ", id, " nesting must not exceed 8 levels"));
    reveal(rule_body_problems);
    assert(texts(problems@) =~= start + rule_body_problems(*rule));
}

/// Appends the problems of all rules.
fn check_rules(rules: &Vec<LightRule>, problems: &mut Vec<String>)
    ensures
        texts(final(problems)@) == texts(old(problems)@) + rules_problems(
            rules@,
            rules@.len() as int,
        ),
{
    let ghost start = texts(problems@);
    let mut i: usize = 0;
    while i < rules.len()
        invariant
            0 <= i <= rules@.len(),
            texts(problems@) == start + rules_problems(rules@, i as int),
        decreases rules@.len() - i,
    {
        check_rule_names(rules, i, problems);
        check_rule_body(&rules[i], problems);
        i += 1;
        assert(texts(problems@) =~= start + rules_problems(rules@, i as int));
    }
}

/// Appends the problems of one monitor profile.
fn check_monitor(id: &str, monitor: &MonitorProfile, problems: &mut Vec<String>)
    ensures
        texts(final(problems)@) == texts(old(problems)@) + monitor_problems(id@, *monitor),
{
    let ghost start = texts(problems@);
    proof {
        reveal_strlit("monitor ");
        reveal_strlit(" must have a display name");
        reveal_strlit(" ID and name must be at most 128 characters");
        reveal_strlit(" calibration must contain at most 64 points");
    }
    add_when(problems, is_blank(id), String::from_str("monitor profile ID must not be empty"));
    add_when(
        problems,
        is_blank(monitor.display_name.as_str()),
        framed("monitor ", id, " must have a display name"),
    );
    add_when(
        problems,
        char_count(id) > MAX_TEXT_CHARS || char_count(monitor.display_name.as_str())
            > MAX_TEXT_CHARS,
        framed("monitor ", id, " ID and name must be at most 128 characters"),
    );
    add_when(
        problems,
        monitor.calibration.perceptual_points.len() > MAX_SENSOR_CURVE_POINTS,
        framed("monitor ", id, " calibration must contain at most 64 points"),
    );
    reveal(monitor_problems);
    assert(texts(problems@) =~= start + monitor_problems(id@, *monitor));
}

/// Appends the problems of all monitor profiles.
fn check_monitors(monitors: &Vec<(String, MonitorProfile)>, problems: &mut Vec<String>)
    ensures
        texts(final(problems)@) == texts(old(problems)@) + monitors_problems(
            monitors@,
            monitors@.len() as int,
        ),
{
    let ghost start = texts(problems@);
    let mut i: usize = 0;
    while i < monitors.len()
        invariant
            0 <= i <= monitors@.len(),
            texts(problems@) == start + monitors_problems(monitors@, i as int),
        decreases monitors@.len() - i,
    {
        let entry = &monitors[i];
        check_monitor(entry.0.as_str(), &entry.1, problems);
        i += 1;
        assert(texts(problems@) =~= start + monitors_problems(monitors@, i as int));
    }
}

impl SettingsDocument {
    /// Checks the whole document and lists every problem found, in a fixed
    /// order: schema, control settings, weather, locale, each rule, each
    /// monitor profile. No problem means success.
    pub fn validate(&self) -> (r: Result<(), StoreError>)
        ensures
            r is Ok <==> settings_problems(*self).len() == 0,
            r matches Err(e) ==> listed_problems(e) == settings_problems(*self),
    {
        let mut problems: Vec<String> = Vec::new();
        assert(texts(problems@) =~= Seq::<Seq<char>>::empty());
        self.check_control(&mut problems);
        self.check_general(&mut problems);
        check_rules(&self.settings.relay.rules, &mut problems);
        let ghost before = texts(problems@);
        add_when(
            &mut problems,
            self.settings.monitors.len() > MAX_MONITOR_PROFILES,
            String::from_str("at most 32 monitor profiles are supported"),
        );
        check_monitors(&self.settings.monitors, &mut problems);
        assert(texts(problems@) =~= settings_problems(*self));
        if problems.len() == 0 {
            Ok(())
        } else {
            Err(StoreError::Validation(problems))
        }
    }
}

} // verus!

verus! {

/// The built-in brightness curve: 20 lux at 40 %, 80 lux at 72 % and
/// 250 lux at 88 %.
pub open spec fn default_curve_points() -> Seq<SensorCurvePoint> {
    seq![
        SensorCurvePoint { lux: F64Bits { bits: 0x4034000000000000 }, brightness: 40 },
        SensorCurvePoint { lux: F64Bits { bits: 0x4054000000000000 }, brightness: 72 },
        SensorCurvePoint { lux: F64Bits { bits: 0x406f400000000000 }, brightness: 88 },
    ]
}

/// Whether `c` holds the default control settings.
pub open spec fn is_default_control(c: ControlSettings) -> bool {
    &&& c.sensor_curve@ == default_curve_points()
    &&& c.filter.median_window == 3
    &&& c.filter.rise_alpha.bits == 0x3fd6666666666666
    &&& c.filter.fall_alpha.bits == 0x3fcc28f5c28f5c29
    &&& c.target_deadband == 2
    &&& c.transition.duration_ms == 1500 && c.transition.max_writes_per_second == 10
    &&& c.manual_override.detection_threshold == 4
    &&& c.manual_override.grace_period_ms == 900_000
    &&& c.daytime_peak_brightness == 90
    &&& c.night_target_brightness == 18
}

/// Whether `r` holds the default relay settings.
pub open spec fn is_default_relay(r: RelaySettings) -> bool {
    &&& r.contact_mode == RelayContactMode::No
    &&& !r.rules_enabled
    &&& r.rules@.len() == 0
    &&& r.fallback_action == LightAction::Keep
}

/// Whether `w` holds the default weather settings.
pub open spec fn is_default_weather(w: WeatherSettings) -> bool {
    &&& !w.enabled
    &&& w.location_name@.len() == 0
    &&& w.latitude.bits == 0 && w.longitude.bits == 0
    &&& w.timezone@ == "system"@
    &&& w.refresh_seconds == 300
}

/// Whether `m` records that nothing was imported.
pub open spec fn is_default_migration(m: MigrationMetadata) -> bool {
    &&& !m.imported_from_v1
    &&& m.source_path is None
    &&& m.imported_at_unix_seconds is None
    &&& m.legacy_device_port is None
    &&& m.legacy_monitor_calibrations is None
    &&& m.warnings@.len() == 0
}

/// Whether `s` holds the default settings.
pub open spec fn is_default_settings(s: Settings) -> bool {
    &&& !s.paused && !s.start_at_login && !s.onboarding_completed
    &&& s.locale@ == "system"@
    &&& s.theme == ThemeMode::System
    &&& is_default_control(s.control)
    &&& is_default_relay(s.relay)
    &&& is_default_weather(s.weather)
    &&& s.monitors@.len() == 0
}

/// Whether `d` is the default settings document of the current schema.
pub open spec fn is_default_document(d: SettingsDocument) -> bool {
    &&& d.schema_version == SETTINGS_SCHEMA_VERSION
    &&& is_default_settings(d.settings)
    &&& is_default_migration(d.migration)
}

impl ControlSettings {
    /// The built-in curve and filter, a deadband of 2, the default
    /// transition and override, 90 % by day and 18 % at night.
    pub fn default() -> (r: Self)
        ensures
            r.sensor_curve@.len() == 3,
            r.target_deadband == 2,
            r.daytime_peak_brightness == 90,
            r.night_target_brightness == 18,
            r.transition.duration_ms == 1500 && r.transition.max_writes_per_second == 10,
            r.manual_override.detection_threshold == 4,
            r.manual_override.grace_period_ms == 900_000,
            is_default_control(r),
            level_problems(r).len() == 0,
            tuning_problems(r).len() == 0,
            curve_problems(r).len() == 0,
    {
        let r = ControlSettings {
            sensor_curve: default_sensor_curve(),
            filter: LogLuxFilterConfig::default(),
            target_deadband: 2,
            transition: TransitionSpec::default(),
            manual_override: ManualOverrideConfig::default(),
            daytime_peak_brightness: 90,
            night_target_brightness: 18,
        };
        proof {
            assert(r.sensor_curve@ =~= default_curve_points());
            reveal(level_problems);
            reveal(tuning_problems);
            reveal(curve_problems);
            reveal_with_fuel(curve_problem, 4);
            crate::float_bits::lemma_default_alphas_in_range();
            crate::float_bits::lemma_default_curve_lux_positive();
        }
        r
    }

    /// Brings the clamped fields into their ranges and takes `sensor_curve`
    /// as the curve, which the caller has already normalized.
    pub fn normalize(&mut self, sensor_curve: Vec<SensorCurvePoint>)
        ensures
            final(self).sensor_curve@ == sensor_curve@,
            final(self).daytime_peak_brightness == clamp(
                old(self).daytime_peak_brightness as int,
                0,
                100,
            ),
            final(self).night_target_brightness == clamp(
                old(self).night_target_brightness as int,
                0,
                100,
            ),
            final(self).target_deadband == clamp(old(self).target_deadband as int, 0, 20),
            final(self).manual_override.detection_threshold == clamp(
                old(self).manual_override.detection_threshold as int,
                1,
                100,
            ),
            final(self).manual_override.grace_period_ms == clamp(
                old(self).manual_override.grace_period_ms as int,
                60_000,
                MAX_MANUAL_OVERRIDE_MS as int,
            ),
            final(self).filter == old(self).filter,
            final(self).transition == old(self).transition,
            level_problems(*final(self)).len() == 0,
    {
        self.sensor_curve = sensor_curve;
        self.daytime_peak_brightness = normalize_brightness(self.daytime_peak_brightness);
        self.night_target_brightness = normalize_brightness(self.night_target_brightness);
        self.target_deadband = clamp_i32(self.target_deadband, 0, 20);
        self.manual_override.detection_threshold = clamp_i32(
            self.manual_override.detection_threshold,
            1,
            100,
        );
        self.manual_override.grace_period_ms = clamp_u64(
            self.manual_override.grace_period_ms,
            60_000,
            MAX_MANUAL_OVERRIDE_MS,
        );
        proof {
            reveal(level_problems);
        }
    }
}

/// `value.clamp(lo, hi)`.
fn clamp_i32(value: i32, lo: i32, hi: i32) -> (r: i32)
    requires
        lo <= hi,
    ensures
        r == clamp(value as int, lo as int, hi as int),
{
    if value < lo {
        lo
    } else if value > hi {
        hi
    } else {
        value
    }
}

/// `value.clamp(lo, hi)`.
fn clamp_u64(value: u64, lo: u64, hi: u64) -> (r: u64)
    requires
        lo <= hi,
    ensures
        r == clamp(value as int, lo as int, hi as int),
{
    if value < lo {
        lo
    } else if value > hi {
        hi
    } else {
        value
    }
}

impl WeatherSettings {
    /// Weather off, no location, the system time zone, refreshed every
    /// five minutes.
    pub fn default() -> (r: Self)
        ensures
            !r.enabled,
            r.location_name@.len() == 0,
            r.latitude.bits == 0 && r.longitude.bits == 0,
            r.timezone@ == "system"@,
            r.refresh_seconds == 300,
            is_default_weather(r),
            weather_problems(r).len() == 0,
    {
        proof {
            reveal_strlit("system");
        }
        let r = WeatherSettings {
            enabled: false,
            location_name: String::new(),
            latitude: F64Bits::from_bits(0),
            longitude: F64Bits::from_bits(0),
            timezone: String::from_str("system"),
            refresh_seconds: 300,
        };
        proof {
            reveal(weather_problems);
        }
        r
    }

    /// Brings the refresh period into `60..=86400` seconds.
    pub fn normalize(&mut self)
        ensures
            final(self).refresh_seconds == clamp(
                old(self).refresh_seconds as int,
                60,
                MAX_WEATHER_REFRESH_SECONDS as int,
            ),
            final(self).enabled == old(self).enabled,
            final(self).latitude == old(self).latitude,
            final(self).longitude == old(self).longitude,
            final(self).location_name@ == old(self).location_name@,
            final(self).timezone@ == old(self).timezone@,
    {
        self.refresh_seconds = clamp_u64(self.refresh_seconds, 60, MAX_WEATHER_REFRESH_SECONDS);
    }
}

impl RelaySettings {
    /// Normally open, rules off, no rules, and keep the light as it is.
    pub fn default() -> (r: Self)
        ensures
            r.contact_mode == RelayContactMode::No,
            !r.rules_enabled,
            r.rules@.len() == 0,
            r.fallback_action == LightAction::Keep,
            is_default_relay(r),
    {
        RelaySettings {
            contact_mode: RelayContactMode::No,
            rules_enabled: false,
            rules: Vec::new(),
            fallback_action: LightAction::Keep,
        }
    }
}

impl MigrationMetadata {
    /// Nothing imported.
    pub fn default() -> (r: Self)
        ensures
            !r.imported_from_v1,
            r.source_path is None,
            r.imported_at_unix_seconds is None,
            r.legacy_device_port is None,
            r.legacy_monitor_calibrations is None,
            r.warnings@.len() == 0,
            is_default_migration(r),
    {
        MigrationMetadata {
            imported_from_v1: false,
            source_path: None,
            imported_at_unix_seconds: None,
            legacy_device_port: None,
            legacy_monitor_calibrations: None,
            warnings: Vec::new(),
        }
    }
}

impl Settings {
    /// Running, not started at login, onboarding pending, the system
    /// locale and theme, and the defaults of each group of settings.
    pub fn default() -> (r: Self)
        ensures
            !r.paused && !r.start_at_login && !r.onboarding_completed,
            r.locale@ == "system"@,
            r.theme == ThemeMode::System,
            r.monitors@.len() == 0,
            r.relay.rules@.len() == 0,
            level_problems(r.control).len() == 0,
            tuning_problems(r.control).len() == 0,
            curve_problems(r.control).len() == 0,
            weather_problems(r.weather).len() == 0,
            is_default_settings(r),
    {
        proof {
            reveal_strlit("system");
        }
        Settings {
            paused: false,
            start_at_login: false,
            onboarding_completed: false,
            locale: String::from_str("system"),
            theme: ThemeMode::System,
            control: ControlSettings::default(),
            relay: RelaySettings::default(),
            weather: WeatherSettings::default(),
            monitors: Vec::new(),
        }
    }
}

impl SettingsDocument {
    /// The current schema with default settings; it has no problems.
    pub fn default() -> (r: Self)
        ensures
            r.schema_version == SETTINGS_SCHEMA_VERSION,
            is_default_document(r),
            settings_problems(r).len() == 0,
    {
        let r = SettingsDocument {
            schema_version: SETTINGS_SCHEMA_VERSION,
            settings: Settings::default(),
            migration: MigrationMetadata::default(),
        };
        proof {
            reveal(schema_problems);
            reveal_strlit("system");
            assert(!blank(r.settings.locale@)) by {
                assert(!crate::text::is_white_space(r.settings.locale@[0]));
            }
            assert(locale_problems(r) =~= Seq::<Seq<char>>::empty());
            assert(settings_problems(r) =~= Seq::<Seq<char>>::empty());
        }
        r
    }

    /// Normalizes every clamped field, and takes `sensor_curve` as the
    /// curve, which the caller has already normalized.
    pub fn normalize(&mut self, sensor_curve: Vec<SensorCurvePoint>)
        ensures
            final(self).schema_version == old(self).schema_version,
            final(self).settings.control.sensor_curve@ == sensor_curve@,
            level_problems(final(self).settings.control).len() == 0,
            final(self).settings.weather.refresh_seconds == clamp(
                old(self).settings.weather.refresh_seconds as int,
                60,
                MAX_WEATHER_REFRESH_SECONDS as int,
            ),
            final(self).settings.control.daytime_peak_brightness == clamp(
                old(self).settings.control.daytime_peak_brightness as int,
                0,
                100,
            ),
            final(self).settings.control.night_target_brightness == clamp(
                old(self).settings.control.night_target_brightness as int,
                0,
                100,
            ),
            final(self).settings.control.target_deadband == clamp(
                old(self).settings.control.target_deadband as int,
                0,
                20,
            ),
            final(self).settings.control.manual_override.detection_threshold == clamp(
                old(self).settings.control.manual_override.detection_threshold as int,
                1,
                100,
            ),
            final(self).settings.control.manual_override.grace_period_ms == clamp(
                old(self).settings.control.manual_override.grace_period_ms as int,
                60_000,
                MAX_MANUAL_OVERRIDE_MS as int,
            ),
            final(self).settings.control.filter == old(self).settings.control.filter,
            final(self).settings.control.transition == old(self).settings.control.transition,
            final(self).settings.weather.enabled == old(self).settings.weather.enabled,
            final(self).settings.weather.latitude == old(self).settings.weather.latitude,
            final(self).settings.weather.longitude == old(self).settings.weather.longitude,
            final(self).settings.weather.location_name@ == old(
                self,
            ).settings.weather.location_name@,
            final(self).settings.weather.timezone@ == old(self).settings.weather.timezone@,
            final(self).settings.paused == old(self).settings.paused,
            final(self).settings.start_at_login == old(self).settings.start_at_login,
            final(self).settings.onboarding_completed == old(self).settings.onboarding_completed,
            final(self).settings.locale == old(self).settings.locale,
            final(self).settings.theme == old(self).settings.theme,
            final(self).settings.relay == old(self).settings.relay,
            final(self).settings.monitors == old(self).settings.monitors,
            final(self).migration == old(self).migration,
    {
        self.settings.control.normalize(sensor_curve);
        self.settings.weather.normalize();
    }
}

/// What loading the settings gave: the document, the backup it was
/// recovered from, if any, and a warning for the user, if any.
#[derive(Debug)]
pub struct SettingsLoadOutcome {
    pub document: SettingsDocument,
    pub recovered_from: Option<String>,
    pub warning: Option<String>,
}

/// The warning after the current settings proved invalid: which backup
/// replaced them (the defaults when none did), and why writing the
/// replacement back failed, when it did.
pub open spec fn recovery_text(recovered_from: Option<Seq<char>>, repair_error: Option<Seq<char>>) -> Seq<
    char,
> {
    let base = match recovered_from {
        Some(path) => "Current settings are invalid; recovered "@ + path,
        None => "Current settings are invalid and no valid backup exists; defaults were restored"@,
    };
    match repair_error {
        Some(error) => base + "; the primary settings file could not be repaired: "@ + error,
        None => base,
    }
}

/// The settings that replace invalid current settings: the backup when it
/// could be read and holds valid settings, the defaults otherwise. The
/// flag tells which.
pub fn recovery_candidate(backup: Option<SettingsDocument>) -> (r: (SettingsDocument, bool))
    ensures
        r.1 <==> (backup matches Some(d) && settings_problems(d).len() == 0),
        r.1 ==> backup == Some(r.0),
        !r.1 ==> is_default_document(r.0),
        settings_problems(r.0).len() == 0,
{
    match backup {
        Some(document) => {
            if document.validate().is_ok() {
                (document, true)
            } else {
                (SettingsDocument::default(), false)
            }
        },
        None => (SettingsDocument::default(), false),
    }
}

/// Settings that loaded as they are: no recovery and no warning.
pub fn loaded_outcome(document: SettingsDocument) -> (r: SettingsLoadOutcome)
    ensures
        r.document == document,
        r.recovered_from is None,
        r.warning is None,
{
    SettingsLoadOutcome { document, recovered_from: None, warning: None }
}

/// The outcome of a recovery once the replacement was written back:
/// `from_backup` tells whether the backup at `backup_path` replaced the
/// settings, `repair_error` why writing it back failed, if it did.
pub fn recovered_outcome(
    document: SettingsDocument,
    from_backup: bool,
    backup_path: String,
    repair_error: Option<String>,
) -> (r: SettingsLoadOutcome)
    ensures
        r.document == document,
        from_backup ==> r.recovered_from == Some(backup_path),
        !from_backup ==> r.recovered_from is None,
        r.warning matches Some(w) && w@ == recovery_text(
            if from_backup {
                Some(backup_path@)
            } else {
                None
            },
            text_of(repair_error),
        ),
{
    proof {
        reveal_strlit("Current settings are invalid; recovered ");
        reveal_strlit(
            "Current settings are invalid and no valid backup exists; defaults were restored",
        );
        reveal_strlit("; the primary settings file could not be repaired: ");
    }
    let mut warning = if from_backup {
        let mut w = String::from_str("Current settings are invalid; recovered ");
        w.append(backup_path.as_str());
        w
    } else {
        String::from_str(
            "Current settings are invalid and no valid backup exists; defaults were restored",
        )
    };
    match &repair_error {
        Some(error) => {
            warning.append("; the primary settings file could not be repaired: ");
            warning.append(error.as_str());
        },
        None => {},
    }
    let recovered_from = if from_backup {
        Some(backup_path)
    } else {
        None
    };
    SettingsLoadOutcome { document, recovered_from, warning: Some(warning) }
}

} // verus!
