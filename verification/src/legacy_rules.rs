//! The light rules of the first version of the program: a rule holds when
//! all its `all` conditions and at least one of its `any` conditions hold,
//! and the first enabled rule that holds decides.

use vstd::prelude::*;
use crate::calendar::{local_time_minutes, LocalDateTime};
use crate::control::{LightAction, WeatherKind};
use crate::float_bits::F64Bits;
use crate::migrate::{LegacyCondition, LegacyLightRule};
use crate::text::text_of;

verus! {

/// What the rules of the first version are evaluated against.
#[derive(Clone, Copy, Debug)]
pub struct LegacyRuleContext {
    pub now: LocalDateTime,
    pub sunrise_minutes: Option<i32>,
    pub sunset_minutes: Option<i32>,
    pub weather_kind: Option<WeatherKind>,
    pub lux: Option<F64Bits>,
    pub current_brightness: Option<i32>,
    pub target_brightness: Option<i32>,
}

/// The outcome of the rules: the action, and the name of the rule that
/// chose it.
#[derive(Debug, PartialEq, Eq)]
pub struct LegacyRuleDecision {
    pub action: LightAction,
    pub matched_rule: Option<String>,
}

/// `minutes` taken modulo a day, in `0..1440`.
pub open spec fn day_minute(minutes: int) -> int {
    minutes % 1440
}

/// `minutes` taken modulo a day, in `0..1440`.
pub fn normalize_day_minutes(minutes: i32) -> (r: i32)
    ensures
        r == day_minute(minutes as int),
        0 <= r < 1440,
{
    let q = minutes % 1440;
    if q < 0 {
        q + 1440
    } else {
        q
    }
}

/// Whether the minute `now_minutes` is at or after the minute of the day
/// `threshold_minutes` names.
pub fn time_is_after(now_minutes: i32, threshold_minutes: i32) -> (r: bool)
    ensures
        r == (now_minutes >= day_minute(threshold_minutes as int)),
{
    now_minutes >= normalize_day_minutes(threshold_minutes)
}

/// Whether the minute `now_minutes` is before the minute of the day
/// `threshold_minutes` names.
pub fn time_is_before(now_minutes: i32, threshold_minutes: i32) -> (r: bool)
    ensures
        r == (now_minutes < day_minute(threshold_minutes as int)),
{
    now_minutes < normalize_day_minutes(threshold_minutes)
}

/// The minute of the day of the context's time.
pub open spec fn now_minute(context: LegacyRuleContext) -> int {
    let m = context.now.hour * 60 + context.now.minute;
    if m > 1439 {
        1439
    } else {
        m
    }
}

/// Whether the time of the context allows its minute of the day to be
/// computed.
pub open spec fn context_fits(context: LegacyRuleContext) -> bool {
    context.now.hour * 60 + context.now.minute <= i32::MAX
}

/// Whether a condition of the first version holds in the context. The sun's
/// events with their offsets are taken modulo a day; a condition on a value
/// the context lacks does not hold.
pub open spec fn legacy_condition_holds(c: LegacyCondition, context: LegacyRuleContext) -> bool {
    let now = now_minute(context);
    match c {
        LegacyCondition::TimeAfter { minutes } => now >= day_minute(minutes as int),
        LegacyCondition::TimeBefore { minutes } => now < day_minute(minutes as int),
        LegacyCondition::AfterSunrise { offset_minutes } => match context.sunrise_minutes {
            Some(m) => now >= day_minute(m + offset_minutes),
            None => false,
        },
        LegacyCondition::BeforeSunset { offset_minutes } => match context.sunset_minutes {
            Some(m) => now < day_minute(m + offset_minutes),
            None => false,
        },
        LegacyCondition::AfterSunset { offset_minutes } => match context.sunset_minutes {
            Some(m) => now >= day_minute(m + offset_minutes),
            None => false,
        },
        LegacyCondition::LuxBelow { lux } => match context.lux {
            Some(v) => v.less_than(lux),
            None => false,
        },
        LegacyCondition::LuxAbove { lux } => match context.lux {
            Some(v) => lux.less_than(v),
            None => false,
        },
        LegacyCondition::CurrentBrightnessBelow { brightness } => match context.current_brightness {
            Some(v) => v < brightness,
            None => false,
        },
        LegacyCondition::CurrentBrightnessAbove { brightness } => match context.current_brightness {
            Some(v) => v > brightness,
            None => false,
        },
        LegacyCondition::TargetBrightnessBelow { brightness } => match context.target_brightness {
            Some(v) => v < brightness,
            None => false,
        },
        LegacyCondition::TargetBrightnessAbove { brightness } => match context.target_brightness {
            Some(v) => v > brightness,
            None => false,
        },
        LegacyCondition::WeatherIs { kind } => context.weather_kind == Some(kind),
    }
}

/// The minute of the day an offset from an event falls on.
fn offset_minute(event_minutes: i32, offset_minutes: i32) -> (r: i32)
    ensures
        r == day_minute(event_minutes + offset_minutes),
{
    let q = (event_minutes as i64 + offset_minutes as i64) % 1440;
    let r = if q < 0 {
        q + 1440
    } else {
        q
    };
    r as i32
}

/// Whether a condition of the first version holds in the context.
pub fn light_rule_condition_matches(
    condition: &LegacyCondition,
    context: &LegacyRuleContext,
) -> (r: bool)
    requires
        context_fits(*context),
    ensures
        r == legacy_condition_holds(*condition, *context),
{
    let now_minutes = local_time_minutes(context.now);
    match *condition {
        LegacyCondition::TimeAfter { minutes } => time_is_after(now_minutes, minutes),
        LegacyCondition::TimeBefore { minutes } => time_is_before(now_minutes, minutes),
        LegacyCondition::AfterSunrise { offset_minutes } => match context.sunrise_minutes {
            Some(m) => now_minutes >= offset_minute(m, offset_minutes),
            None => false,
        },
        LegacyCondition::BeforeSunset { offset_minutes } => match context.sunset_minutes {
            Some(m) => now_minutes < offset_minute(m, offset_minutes),
            None => false,
        },
        LegacyCondition::AfterSunset { offset_minutes } => match context.sunset_minutes {
            Some(m) => now_minutes >= offset_minute(m, offset_minutes),
            None => false,
        },
        LegacyCondition::LuxBelow { lux } => match context.lux {
            Some(v) => v.lt(&lux),
            None => false,
        },
        LegacyCondition::LuxAbove { lux } => match context.lux {
            Some(v) => lux.lt(&v),
            None => false,
        },
        LegacyCondition::CurrentBrightnessBelow { brightness } => match context.current_brightness {
            Some(v) => v < brightness,
            None => false,
        },
        LegacyCondition::CurrentBrightnessAbove { brightness } => match context.current_brightness {
            Some(v) => v > brightness,
            None => false,
        },
        LegacyCondition::TargetBrightnessBelow { brightness } => match context.target_brightness {
            Some(v) => v < brightness,
            None => false,
        },
        LegacyCondition::TargetBrightnessAbove { brightness } => match context.target_brightness {
            Some(v) => v > brightness,
            None => false,
        },
        LegacyCondition::WeatherIs { kind } => match context.weather_kind {
            Some(w) => w == kind,
            None => false,
        },
    }
}

/// Whether a rule of the first version holds: it is on, has a condition,
/// all its `all` conditions hold and, when it has `any` conditions, one of
/// them holds.
pub open spec fn legacy_rule_holds(rule: LegacyLightRule, context: LegacyRuleContext) -> bool {
    &&& rule.enabled
    &&& (rule.all@.len() > 0 || rule.any@.len() > 0)
    &&& forall|i: int|
        0 <= i < rule.all@.len() ==> #[trigger] legacy_condition_holds(rule.all@[i], context)
    &&& (rule.any@.len() == 0 || exists|i: int|
        0 <= i < rule.any@.len() && #[trigger] legacy_condition_holds(rule.any@[i], context))
}

/// Whether a rule of the first version holds in the context.
pub fn light_rule_matches(rule: &LegacyLightRule, context: &LegacyRuleContext) -> (r: bool)
    requires
        context_fits(*context),
    ensures
        r == legacy_rule_holds(*rule, *context),
{
    if !rule.enabled || (rule.all.len() == 0 && rule.any.len() == 0) {
        return false;
    }
    let mut i: usize = 0;
    while i < rule.all.len()
        invariant
            0 <= i <= rule.all@.len(),
            context_fits(*context),
            forall|k: int|
                0 <= k < i ==> #[trigger] legacy_condition_holds(rule.all@[k], *context),
        decreases rule.all@.len() - i,
    {
        if !light_rule_condition_matches(&rule.all[i], context) {
            return false;
        }
        i += 1;
    }
    if rule.any.len() == 0 {
        return true;
    }
    let mut j: usize = 0;
    while j < rule.any.len()
        invariant
            0 <= j <= rule.any@.len(),
            context_fits(*context),
            rule.enabled,
            forall|k: int|
                0 <= k < rule.all@.len() ==> #[trigger] legacy_condition_holds(
                    rule.all@[k],
                    *context,
                ),
            forall|k: int|
                0 <= k < j ==> !#[trigger] legacy_condition_holds(rule.any@[k], *context),
        decreases rule.any@.len() - j,
    {
        if light_rule_condition_matches(&rule.any[j], context) {
            assert(legacy_condition_holds(rule.any@[j as int], *context));
            return true;
        }
        j += 1;
    }
    false
}

/// The index of the first rule from `start` on that holds, or the number
/// of rules when none does.
pub open spec fn first_holding(
    rules: Seq<LegacyLightRule>,
    context: LegacyRuleContext,
    start: int,
) -> int
    decreases rules.len() - start,
{
    if start < 0 || start >= rules.len() {
        rules.len() as int
    } else if legacy_rule_holds(rules[start], context) {
        start
    } else {
        first_holding(rules, context, start + 1)
    }
}

/// Evaluates the rules in order: the first that holds decides, and is
/// named; when none does, `fallback_action` applies.
pub fn evaluate_light_rules(
    rules: &[LegacyLightRule],
    fallback_action: LightAction,
    context: &LegacyRuleContext,
) -> (r: LegacyRuleDecision)
    requires
        context_fits(*context),
    ensures
        ({
            let k = first_holding(rules@, *context, 0);
            if k < rules@.len() {
                r.action == rules@[k].then_action && text_of(r.matched_rule) == Some(
                    rules@[k].name@,
                )
            } else {
                r.action == fallback_action && r.matched_rule is None
            }
        }),
{
    let mut i: usize = 0;
    while i < rules.len()
        invariant
            0 <= i <= rules@.len(),
            context_fits(*context),
            first_holding(rules@, *context, 0) == first_holding(rules@, *context, i as int),
        decreases rules@.len() - i,
    {
        if light_rule_matches(&rules[i], context) {
            return LegacyRuleDecision {
                action: rules[i].then_action,
                matched_rule: Some(rules[i].name.clone()),
            };
        }
        i += 1;
    }
    LegacyRuleDecision { action: fallback_action, matched_rule: None }
}

/// Whether a condition asks about the weather.
pub fn light_rule_condition_needs_weather(condition: &LegacyCondition) -> (r: bool)
    ensures
        r == (*condition matches LegacyCondition::WeatherIs { .. }),
{
    match condition {
        LegacyCondition::WeatherIs { .. } => true,
        _ => false,
    }
}

/// Whether a list of conditions asks about the weather.
pub open spec fn asks_weather(conditions: Seq<LegacyCondition>) -> bool {
    exists|i: int|
        0 <= i < conditions.len() && (#[trigger] conditions[i] matches LegacyCondition::WeatherIs {
            ..
        })
}

/// Whether any list of conditions asks about the weather.
fn conditions_need_weather(conditions: &Vec<LegacyCondition>) -> (r: bool)
    ensures
        r == asks_weather(conditions@),
{
    let mut i: usize = 0;
    while i < conditions.len()
        invariant
            0 <= i <= conditions@.len(),
            forall|k: int|
                0 <= k < i ==> !(#[trigger] conditions@[k] matches LegacyCondition::WeatherIs {
                    ..
                }),
        decreases conditions@.len() - i,
    {
        if light_rule_condition_needs_weather(&conditions[i]) {
            return true;
        }
        i += 1;
    }
    false
}

/// Whether the weather must be fetched: a rule that is on asks about it in
/// its `all` or its `any` conditions.
pub fn light_rules_need_weather(rules: &[LegacyLightRule]) -> (r: bool)
    ensures
        r == exists|i: int|
            0 <= i < rules@.len() && #[trigger] rules@[i].enabled && (asks_weather(
                rules@[i].all@,
            ) || asks_weather(rules@[i].any@)),
{
    let mut i: usize = 0;
    while i < rules.len()
        invariant
            0 <= i <= rules@.len(),
            forall|k: int|
                0 <= k < i ==> !(#[trigger] rules@[k].enabled && (asks_weather(rules@[k].all@)
                    || asks_weather(rules@[k].any@))),
        decreases rules@.len() - i,
    {
        let rule = &rules[i];
        if rule.enabled && (conditions_need_weather(&rule.all) || conditions_need_weather(
            &rule.any,
        )) {
            assert(rules@[i as int].enabled);
            return true;
        }
        i += 1;
    }
    false
}

} // verus!
