use vstd::prelude::*;
use core::ops::RangeInclusive;
use crate::control::{
    clamp, default_sensor_curve, eased_brightness, eased_value, normalize_brightness, LightAction,
    RelayContactMode, SensorCurvePoint, WeatherKind,
};
use crate::float_bits::F64Bits;
use crate::migrate::LegacyLightRule;
use crate::text::{text_equals, text_of};

verus! {

/// The state of the relay contact.
#[derive(Clone, Copy, Debug, PartialEq, Eq, Structural)]
pub enum RelayState {
    On,
    Off,
}

/// The relay state that puts the light in state `light_on` under `mode`.
pub open spec fn relay_state_for(mode: RelayContactMode, light_on: bool) -> RelayState {
    if (mode == RelayContactMode::No) == light_on {
        RelayState::On
    } else {
        RelayState::Off
    }
}

impl RelayState {
    /// `On` or `Off`.
    pub fn label(self) -> (r: &'static str)
        ensures
            r@ == (if self == RelayState::On {
                "On"@
            } else {
                "Off"@
            }),
    {
        proof {
            reveal_strlit("On");
            reveal_strlit("Off");
        }
        match self {
            RelayState::On => "On",
            RelayState::Off => "Off",
        }
    }

    /// Whether the light is on when the contact is in this state.
    pub fn light_on(self, contact_mode: RelayContactMode) -> (r: bool)
        ensures
            r == (relay_state_for(contact_mode, true) == self),
    {
        match contact_mode {
            RelayContactMode::No => self == RelayState::On,
            RelayContactMode::Nc => self == RelayState::Off,
        }
    }
}

impl RelayContactMode {
    /// `NO` or `NC`.
    pub fn label(self) -> (r: &'static str)
        ensures
            r@ == (if self == RelayContactMode::No {
                "NO"@
            } else {
                "NC"@
            }),
    {
        proof {
            reveal_strlit("NO");
            reveal_strlit("NC");
        }
        match self {
            RelayContactMode::No => "NO",
            RelayContactMode::Nc => "NC",
        }
    }

    /// The contact state that puts the light in state `light_on`.
    pub fn relay_state_for_light(self, light_on: bool) -> (r: RelayState)
        ensures
            r == relay_state_for(self, light_on),
    {
        match (self, light_on) {
            (RelayContactMode::No, true) | (RelayContactMode::Nc, false) => RelayState::On,
            (RelayContactMode::No, false) | (RelayContactMode::Nc, true) => RelayState::Off,
        }
    }
}

/// The contact state that makes the light `light_on`, unless the reported
/// state already does.
pub open spec fn relay_switch(light_on: bool, reported: Option<RelayState>, contact_mode: RelayContactMode) -> Option<
    RelayState,
> {
    if reported matches Some(state) && (relay_state_for(contact_mode, true) == state) == light_on {
        None
    } else {
        Some(relay_state_for(contact_mode, light_on))
    }
}

/// The contact state to switch the relay to after the rules chose
/// `action`, given the state it reported (if any): none when the action
/// keeps the light or the light already is so.
pub fn relay_switch_for_action(
    action: LightAction,
    reported: Option<RelayState>,
    contact_mode: RelayContactMode,
) -> (r: Option<RelayState>)
    ensures
        r == match action {
            LightAction::Keep => None,
            LightAction::On => relay_switch(true, reported, contact_mode),
            LightAction::Off => relay_switch(false, reported, contact_mode),
        },
{
    match action.light_on() {
        None => None,
        Some(light_on) => {
            let already = match reported {
                Some(state) => state.light_on(contact_mode) == light_on,
                None => false,
            };
            if already {
                None
            } else {
                Some(contact_mode.relay_state_for_light(light_on))
            }
        },
    }
}

/// Setting the contact for a light state and reading the light back gives
/// that state, under either wiring.
pub proof fn lemma_relay_state_round_trips(mode: RelayContactMode, light_on: bool)
    ensures
        (relay_state_for(mode, true) == relay_state_for(mode, light_on)) == light_on,
{
}

/// The brightness range of a monitor: `0..=100` percent.
pub fn monitor_brightness_range() -> (r: RangeInclusive<i32>)
    ensures
        r@.start == 0,
        r@.end == 100,
        !r@.exhausted,
{
    0..=100
}

/// A brightness clamped into `0..=100`.
pub fn normalize_monitor_brightness(value: i32) -> (r: i32)
    ensures
        r == clamp(value as int, 0, 100),
{
    normalize_brightness(value)
}

/// Two bounds clamped into `0..=100` and put in order.
pub fn normalize_monitor_brightness_bounds(min: i32, max: i32) -> (r: (i32, i32))
    ensures
        r.0 <= r.1,
        r.0 == if clamp(min as int, 0, 100) <= clamp(max as int, 0, 100) {
            clamp(min as int, 0, 100)
        } else {
            clamp(max as int, 0, 100)
        },
        r.1 == if clamp(min as int, 0, 100) <= clamp(max as int, 0, 100) {
            clamp(max as int, 0, 100)
        } else {
            clamp(min as int, 0, 100)
        },
{
    let min = normalize_monitor_brightness(min);
    let max = normalize_monitor_brightness(max);
    if min <= max {
        (min, max)
    } else {
        (max, min)
    }
}

/// The bounds and deadband that brightness changes obey.
#[derive(Clone, Copy, Debug, PartialEq, Eq, Structural)]
pub struct BrightnessPolicy {
    pub brightness_min: i32,
    pub brightness_max: i32,
    pub deadband: i32,
    pub maximum_step: i32,
}

/// `|x|`.
pub open spec fn abs(x: int) -> int {
    if x < 0 {
        -x
    } else {
        x
    }
}

/// The brightness to move to from `current` towards `target`: the target,
/// unless it lies within the deadband of the current value, in which case
/// the current value stays; clamped into the policy's bounds either way.
pub fn smooth_brightness_step(current: i32, target: i32, policy: BrightnessPolicy) -> (r: i32)
    requires
        policy.brightness_min <= policy.brightness_max,
        i32::MIN < target - current <= i32::MAX,
    ensures
        r == if abs(target - current) < policy.deadband {
            clamp(current as int, policy.brightness_min as int, policy.brightness_max as int)
        } else {
            clamp(target as int, policy.brightness_min as int, policy.brightness_max as int)
        },
{
    let delta = target - current;
    let distance = if delta < 0 {
        -delta
    } else {
        delta
    };
    let value = if distance < policy.deadband {
        current
    } else {
        target
    };
    if value < policy.brightness_min {
        policy.brightness_min
    } else if value > policy.brightness_max {
        policy.brightness_max
    } else {
        value
    }
}

/// The number of steps of a transition over `distance` points: the
/// distance, at least 8 and at most 24.
pub open spec fn step_count(distance: int) -> int {
    if distance < 8 {
        8
    } else if distance > 24 {
        24
    } else {
        distance
    }
}

/// The value at step `step` of `steps` from `from` to `to`, on the
/// smootherstep curve, rounded and clamped into `lo..=hi`.
pub open spec fn point_value(from: int, to: int, step: int, steps: int, lo: int, hi: int) -> int {
    clamp(eased_brightness(from, to, step, steps), lo, hi)
}

/// The points of the first `k` steps: each step's value, unless it repeats
/// the point before it or equals the start.
pub open spec fn points_upto(from: int, to: int, steps: int, k: int, lo: int, hi: int) -> Seq<i32>
    decreases k,
{
    if k <= 0 {
        Seq::empty()
    } else {
        let prev = points_upto(from, to, steps, k - 1, lo, hi);
        let v = point_value(from, to, k, steps, lo, hi);
        if (prev.len() > 0 && prev.last() == v) || v == from {
            prev
        } else {
            prev.push(v as i32)
        }
    }
}

/// The brightness values to write, in order, to move from `current` to
/// `target` under `policy`: none within the deadband; otherwise the eased
/// points, ending with the target.
pub open spec fn transition_points(current: int, target: int, policy: BrightnessPolicy) -> Seq<
    i32,
> {
    let lo = policy.brightness_min as int;
    let hi = policy.brightness_max as int;
    let from = clamp(current, lo, hi);
    let to = clamp(target, lo, hi);
    if abs(to - from) < policy.deadband {
        Seq::empty()
    } else {
        let pts = points_upto(from, to, step_count(abs(to - from)), step_count(abs(to - from)), lo, hi);
        if pts.len() > 0 && pts.last() == to {
            pts
        } else {
            pts.push(to as i32)
        }
    }
}

/// Every point lies in `lo..=hi`.
proof fn lemma_points_within(from: int, to: int, steps: int, k: int, lo: int, hi: int)
    requires
        lo <= hi,
        i32::MIN <= lo,
        hi <= i32::MAX,
    ensures
        forall|i: int|
            0 <= i < points_upto(from, to, steps, k, lo, hi).len() ==> lo <= #[trigger] points_upto(
                from,
                to,
                steps,
                k,
                lo,
                hi,
            )[i] <= hi,
    decreases k,
{
    if k > 0 {
        lemma_points_within(from, to, steps, k - 1, lo, hi);
        let prev = points_upto(from, to, steps, k - 1, lo, hi);
        let v = point_value(from, to, k, steps, lo, hi);
        assert(lo <= v <= hi);
        if !((prev.len() > 0 && prev.last() == v) || v == from) {
            assert(points_upto(from, to, steps, k, lo, hi) == prev.push(v as i32));
            assert forall|i: int|
                0 <= i < prev.push(v as i32).len() implies lo <= #[trigger] prev.push(
                v as i32,
            )[i] <= hi by {
                if i < prev.len() {
                    assert(prev.push(v as i32)[i] == prev[i]);
                }
            }
        }
    }
}

/// The brightness values to write to move from `current` to `target`.
pub fn brightness_transition_points(current: i32, target: i32, policy: BrightnessPolicy) -> (r: Vec<
    i32,
>)
    requires
        policy.brightness_min <= policy.brightness_max,
    ensures
        r@ == transition_points(current as int, target as int, policy),
        r@.len() > 0 ==> r@.last() == clamp(
            target as int,
            policy.brightness_min as int,
            policy.brightness_max as int,
        ),
        forall|i: int|
            0 <= i < r@.len() ==> policy.brightness_min <= #[trigger] r@[i]
                <= policy.brightness_max,
{
    let lo = policy.brightness_min;
    let hi = policy.brightness_max;
    let from = if current < lo {
        lo
    } else if current > hi {
        hi
    } else {
        current
    };
    let to = if target < lo {
        lo
    } else if target > hi {
        hi
    } else {
        target
    };
    let delta: i64 = to as i64 - from as i64;
    let distance: i64 = if delta < 0 {
        -delta
    } else {
        delta
    };
    if distance < policy.deadband as i64 {
        return Vec::new();
    }
    let steps: u64 = if distance < 8 {
        8
    } else if distance > 24 {
        24
    } else {
        distance as u64
    };
    let mut points: Vec<i32> = Vec::new();
    let mut step: u64 = 1;
    while step <= steps
        invariant
            8 <= steps <= 24,
            1 <= step <= steps + 1,
            lo <= from <= hi,
            lo <= to <= hi,
            steps == step_count(abs(to - from)),
            points@ == points_upto(from as int, to as int, steps as int, step - 1, lo as int, hi as int),
        decreases steps + 1 - step,
    {
        let eased = eased_value(from, to, step, steps);
        let value: i32 = if eased < lo as i64 {
            lo
        } else if eased > hi as i64 {
            hi
        } else {
            eased as i32
        };
        let repeats = points.len() > 0 && points[points.len() - 1] == value;
        if !repeats && value != from {
            points.push(value);
        }
        step += 1;
    }
    proof {
        lemma_points_within(from as int, to as int, steps as int, steps as int, lo as int, hi as int);
    }
    let ends_at_target = points.len() > 0 && points[points.len() - 1] == to;
    if !ends_at_target {
        points.push(to);
    }
    points
}

/// What the command line asks for.
#[derive(Clone, Debug, PartialEq, Eq)]
pub enum Mode {
    Oneshot,
    DryRun,
    Daemon,
    Gui,
    SensorTest { port: String, samples: usize },
    SensorDryRun { port: String, samples: usize },
    SensorOneshot { port: String, samples: usize },
}

/// A mode as a number (its position in the list of modes), the port and the
/// sample count; the last two are empty and zero for modes without them.
pub open spec fn mode_view(m: Mode) -> (int, Seq<char>, int) {
    match m {
        Mode::Oneshot => (0, Seq::empty(), 0),
        Mode::DryRun => (1, Seq::empty(), 0),
        Mode::Daemon => (2, Seq::empty(), 0),
        Mode::Gui => (3, Seq::empty(), 0),
        Mode::SensorTest { port, samples } => (4, port@, samples as int),
        Mode::SensorDryRun { port, samples } => (5, port@, samples as int),
        Mode::SensorOneshot { port, samples } => (6, port@, samples as int),
    }
}

/// The usage text.
pub open spec fn usage_text() -> Seq<char> {
    "usage: screen-brightness <oneshot|dry-run|daemon|gui|sensor-test|sensor-dry-run|sensor-oneshot> [--config PATH] [--port COM3] [--samples N]"@
}

/// The usage text.
pub fn usage() -> (r: String)
    ensures
        r@ == usage_text(),
{
    String::from_str(
        "usage: screen-brightness <oneshot|dry-run|daemon|gui|sensor-test|sensor-dry-run|sensor-oneshot> [--config PATH] [--port COM3] [--samples N]",
    )
}

/// The value of a string of decimal digits.
pub open spec fn digits_value(s: Seq<char>) -> int
    decreases s.len(),
{
    if s.len() == 0 {
        0
    } else {
        digits_value(s.drop_last()) * 10 + (s.last() as int - '0' as int)
    }
}

/// Whether every character of `s` is an ASCII digit.
pub open spec fn all_digits(s: Seq<char>) -> bool {
    forall|i: int| 0 <= i < s.len() ==> '0' <= #[trigger] s[i] <= '9'
}

/// The digits of a number: the text without one leading `+`.
pub open spec fn unsigned_digits(s: Seq<char>) -> Seq<char> {
    if s.len() > 0 && s[0] == '+' {
        s.drop_first()
    } else {
        s
    }
}

/// What parsing an unsigned integer of at most `max` gives, as
/// `str::parse` does for the unsigned types: an optional `+` and at least
/// one ASCII digit, with a value that fits.
pub open spec fn parsed_natural(s: Seq<char>, max: int) -> Option<int> {
    let digits = unsigned_digits(s);
    if digits.len() > 0 && all_digits(digits) && digits_value(digits) <= max {
        Some(digits_value(digits))
    } else {
        None
    }
}

/// What `str::parse::<usize>` gives.
pub open spec fn parsed_usize(s: Seq<char>) -> Option<usize> {
    match parsed_natural(s, usize::MAX as int) {
        Some(v) => Some(v as usize),
        None => None,
    }
}

/// What `str::parse::<u64>` gives.
pub open spec fn parsed_u64(s: Seq<char>) -> Option<u64> {
    match parsed_natural(s, u64::MAX as int) {
        Some(v) => Some(v as u64),
        None => None,
    }
}

proof fn lemma_digits_value_nonneg(s: Seq<char>)
    requires
        all_digits(s),
    ensures
        digits_value(s) >= 0,
        forall|k: int| 0 <= k <= s.len() ==> digits_value(#[trigger] s.subrange(0, k))
            <= digits_value(s),
    decreases s.len(),
{
    if s.len() > 0 {
        lemma_digits_value_nonneg(s.drop_last());
        assert forall|k: int| 0 <= k <= s.len() implies digits_value(#[trigger] s.subrange(0, k))
            <= digits_value(s) by {
            if k == s.len() {
                assert(s.subrange(0, k) =~= s);
            } else {
                assert(s.subrange(0, k) =~= s.drop_last().subrange(0, k));
            }
        }
    }
}

/// Parses an unsigned integer of at most `max`, as `str::parse` does.
fn parse_bounded(s: &str, max: u128) -> (r: Option<u128>)
    requires
        max <= u64::MAX,
    ensures
        match r {
            Some(v) => parsed_natural(s@, max as int) == Some(v as int),
            None => parsed_natural(s@, max as int) is None,
        },
{
    let n = s.unicode_len();
    let mut start: usize = 0;
    if n > 0 && s.get_char(0) == '+' {
        start = 1;
    }
    let ghost digits = if s@.len() > 0 && s@[0] == '+' {
        s@.drop_first()
    } else {
        s@
    };
    assert(digits =~= s@.subrange(start as int, n as int));
    if start == n {
        return None;
    }
    let mut value: u128 = 0;
    let mut i: usize = start;
    while i < n
        invariant
            n == s@.len(),
            start <= i <= n,
            start < n,
            digits == s@.subrange(start as int, n as int),
            digits == (if s@.len() > 0 && s@[0] == '+' {
                s@.drop_first()
            } else {
                s@
            }),
            all_digits(s@.subrange(start as int, i as int)),
            value == digits_value(s@.subrange(start as int, i as int)),
            value <= max,
            max <= u64::MAX,
        decreases n - i,
    {
        let c = s.get_char(i);
        let ghost prefix = s@.subrange(start as int, i as int);
        assert(s@.subrange(start as int, i + 1).drop_last() =~= prefix);
        if !('0' <= c && c <= '9') {
            assert(!all_digits(digits)) by {
                assert(digits[i - start] == c);
            }
            return None;
        }
        let d = (c as u32 - '0' as u32) as u128;
        value = value * 10 + d;
        i += 1;
        if value > max {
            proof {
                let ghost p = s@.subrange(start as int, i as int);
                assert(all_digits(p));
                if all_digits(digits) {
                    lemma_digits_value_nonneg(digits);
                    assert(digits.subrange(0, i - start) =~= p);
                }
            }
            return None;
        }
    }
    assert(s@.subrange(start as int, n as int) =~= digits);
    Some(value)
}

/// `str::parse::<usize>`.
pub fn parse_usize(s: &str) -> (r: Option<usize>)
    ensures
        r == parsed_usize(s@),
{
    match parse_bounded(s, usize::MAX as u128) {
        Some(v) => Some(v as usize),
        None => None,
    }
}

/// `str::parse::<u64>`.
pub fn parse_u64(s: &str) -> (r: Option<u64>)
    ensures
        r == parsed_u64(s@),
{
    match parse_bounded(s, u64::MAX as u128) {
        Some(v) => Some(v as u64),
        None => None,
    }
}

/// Whether `arg` is `text`.
fn is_arg(arg: &String, text: &str) -> (r: bool)
    ensures
        r == (arg@ == text@),
{
    text_equals(arg.as_str(), text)
}

/// The outcome of reading the options of a sensor mode from index `i` on:
/// the port, the sample count and the configuration path, or the error.
pub open spec fn sensor_options(
    args: Seq<Seq<char>>,
    i: int,
    port: Seq<char>,
    samples: int,
    config: Option<Seq<char>>,
) -> Result<(Seq<char>, int, Option<Seq<char>>), Seq<char>>
    decreases args.len() - i,
{
    if i < 0 || i >= args.len() {
        Ok((port, samples, config))
    } else if args[i] == "--config"@ {
        if i + 1 >= args.len() {
            Err("--config requires a path"@)
        } else {
            sensor_options(args, i + 2, port, samples, Some(args[i + 1]))
        }
    } else if args[i] == "--port"@ {
        if i + 1 >= args.len() {
            Err("--port requires a value"@)
        } else {
            sensor_options(args, i + 2, args[i + 1], samples, config)
        }
    } else if args[i] == "--samples"@ {
        if i + 1 >= args.len() {
            Err("--samples requires a value"@)
        } else {
            match parsed_usize(args[i + 1]) {
                None => Err("--samples requires a positive integer"@),
                Some(n) => sensor_options(
                    args,
                    i + 2,
                    port,
                    if n < 1 {
                        1
                    } else {
                        n as int
                    },
                    config,
                ),
            }
        }
    } else {
        Err("unknown sensor-test argument: "@ + args[i] + "\n"@ + usage_text())
    }
}

/// The number of a sensor mode name, or -1.
pub open spec fn sensor_mode_number(arg: Seq<char>) -> int {
    if arg == "sensor-test"@ {
        4
    } else if arg == "sensor-dry-run"@ {
        5
    } else if arg == "sensor-oneshot"@ {
        6
    } else {
        -1
    }
}

/// The outcome of reading the command line from index `i` on, with the mode
/// and configuration path found so far.
pub open spec fn parse_from(
    args: Seq<Seq<char>>,
    i: int,
    mode: (int, Seq<char>, int),
    config: Option<Seq<char>>,
) -> Result<((int, Seq<char>, int), Option<Seq<char>>), Seq<char>>
    decreases args.len() - i,
{
    if i < 0 || i >= args.len() {
        Ok((mode, config))
    } else {
        let a = args[i];
        if a == "oneshot"@ {
            parse_from(args, i + 1, (0, Seq::empty(), 0), config)
        } else if a == "dry-run"@ {
            parse_from(args, i + 1, (1, Seq::empty(), 0), config)
        } else if a == "daemon"@ {
            parse_from(args, i + 1, (2, Seq::empty(), 0), config)
        } else if a == "gui"@ {
            parse_from(args, i + 1, (3, Seq::empty(), 0), config)
        } else if sensor_mode_number(a) >= 0 {
            match sensor_options(args, i + 1, "COM3"@, 5, config) {
                Err(e) => Err(e),
                Ok((port, samples, cfg)) => Ok(((sensor_mode_number(a), port, samples), cfg)),
            }
        } else if a == "--config"@ {
            if i + 1 >= args.len() {
                Err("--config requires a path"@)
            } else {
                parse_from(args, i + 2, mode, Some(args[i + 1]))
            }
        } else if a == "--help"@ || a == "-h"@ {
            Err(usage_text())
        } else {
            Err("unknown argument: "@ + a + "\n"@ + usage_text())
        }
    }
}

/// The texts of a list of arguments.
pub open spec fn arg_texts(args: Seq<String>) -> Seq<Seq<char>> {
    args.map_values(|s: String| s@)
}

/// Reads the options of a sensor mode from index `i` on.
fn parse_sensor_options(args: &[String], i: usize, initial_config: Option<String>) -> (r: Result<
    (String, usize, Option<String>),
    String,
>)
    requires
        i <= args@.len(),
    ensures
        match sensor_options(
            arg_texts(args@),
            i as int,
            "COM3"@,
            5,
            text_of(initial_config),
        ) {
            Ok((port, samples, cfg)) => r matches Ok((p, n, c)) && p@ == port && n == samples && (
            text_of(c)) == cfg,
            Err(e) => r matches Err(m) && m@ == e,
        },
{
    proof {
        reveal_strlit("COM3");
        reveal_strlit("--config");
        reveal_strlit("--port");
        reveal_strlit("--samples");
        reveal_strlit("--config requires a path");
        reveal_strlit("--port requires a value");
        reveal_strlit("--samples requires a value");
        reveal_strlit("--samples requires a positive integer");
        reveal_strlit("unknown sensor-test argument: ");
        reveal_strlit("\n");
    }
    let ghost texts = arg_texts(args@);
    let mut port = String::from_str("COM3");
    let mut samples: usize = 5;
    let ghost cfg0 = text_of(initial_config);
    let mut config = initial_config;
    let mut j: usize = i;
    while j < args.len()
        invariant
            i <= j <= args@.len(),
            texts == arg_texts(args@),
            cfg0 == text_of(initial_config),
            sensor_options(texts, i as int, "COM3"@, 5, cfg0) == sensor_options(
                texts,
                j as int,
                port@,
                samples as int,
                text_of(config),
            ),
        decreases args@.len() - j,
    {
        let arg = &args[j];
        assert(texts[j as int] == arg@);
        if is_arg(arg, "--config") {
            if j + 1 >= args.len() {
                return Err(String::from_str("--config requires a path"));
            }
            assert(texts[j + 1] == args@[j + 1]@);
            config = Some(args[j + 1].clone());
            j += 2;
        } else if is_arg(arg, "--port") {
            if j + 1 >= args.len() {
                return Err(String::from_str("--port requires a value"));
            }
            assert(texts[j + 1] == args@[j + 1]@);
            port = args[j + 1].clone();
            j += 2;
        } else if is_arg(arg, "--samples") {
            if j + 1 >= args.len() {
                return Err(String::from_str("--samples requires a value"));
            }
            assert(texts[j + 1] == args@[j + 1]@);
            match parse_usize(args[j + 1].as_str()) {
                None => {
                    return Err(String::from_str("--samples requires a positive integer"));
                },
                Some(n) => {
                    samples = if n < 1 {
                        1
                    } else {
                        n
                    };
                },
            }
            j += 2;
        } else {
            let message = String::from_str("unknown sensor-test argument: ").concat(
                arg.as_str(),
            ).concat("\n").concat(usage().as_str());
            return Err(message);
        }
    }
    Ok((port, samples, config))
}

/// Reads the command line: the mode (the GUI when none is named) and the
/// configuration path, or the message to show. The options of a sensor mode
/// take all the arguments after it.
pub fn parse_args_from(args: &[String]) -> (r: Result<(Mode, Option<String>), String>)
    ensures
        match parse_from(arg_texts(args@), 0, (-1, Seq::empty(), 0), None) {
            Ok((mode, cfg)) => r matches Ok((m, c)) && mode_view(m) == (if mode.0 < 0 {
                (3, Seq::<char>::empty(), 0)
            } else {
                mode
            }) && (text_of(c)) == cfg,
            Err(e) => r matches Err(m) && m@ == e,
        },
{
    proof {
        reveal_strlit("oneshot");
        reveal_strlit("dry-run");
        reveal_strlit("daemon");
        reveal_strlit("gui");
        reveal_strlit("sensor-test");
        reveal_strlit("sensor-dry-run");
        reveal_strlit("sensor-oneshot");
        reveal_strlit("--config");
        reveal_strlit("--help");
        reveal_strlit("-h");
        reveal_strlit("--config requires a path");
        reveal_strlit("unknown argument: ");
        reveal_strlit("\n");
    }
    let ghost texts = arg_texts(args@);
    let mut mode: Option<Mode> = None;
    let mut config: Option<String> = None;
    let mut i: usize = 0;
    while i < args.len()
        invariant
            0 <= i <= args@.len(),
            texts == arg_texts(args@),
            parse_from(texts, 0, (-1, Seq::empty(), 0), None) == parse_from(
                texts,
                i as int,
                match mode {
                    Some(m) => mode_view(m),
                    None => (-1, Seq::empty(), 0),
                },
                text_of(config),
            ),
        decreases args@.len() - i,
    {
        let arg = &args[i];
        assert(texts[i as int] == arg@);
        if is_arg(arg, "oneshot") {
            mode = Some(Mode::Oneshot);
            i += 1;
        } else if is_arg(arg, "dry-run") {
            mode = Some(Mode::DryRun);
            i += 1;
        } else if is_arg(arg, "daemon") {
            mode = Some(Mode::Daemon);
            i += 1;
        } else if is_arg(arg, "gui") {
            mode = Some(Mode::Gui);
            i += 1;
        } else if is_arg(arg, "sensor-test") || is_arg(arg, "sensor-dry-run") || is_arg(
            arg,
            "sensor-oneshot",
        ) {
            let (port, samples, cfg) = match parse_sensor_options(args, i + 1, config) {
                Ok(found) => found,
                Err(e) => {
                    return Err(e);
                },
            };
            let m = if is_arg(arg, "sensor-test") {
                Mode::SensorTest { port, samples }
            } else if is_arg(arg, "sensor-dry-run") {
                Mode::SensorDryRun { port, samples }
            } else {
                Mode::SensorOneshot { port, samples }
            };
            return Ok((m, cfg));
        } else if is_arg(arg, "--config") {
            if i + 1 >= args.len() {
                return Err(String::from_str("--config requires a path"));
            }
            assert(texts[i + 1] == args@[i + 1]@);
            config = Some(args[i + 1].clone());
            i += 2;
        } else if is_arg(arg, "--help") || is_arg(arg, "-h") {
            return Err(usage());
        } else {
            let message = String::from_str("unknown argument: ").concat(arg.as_str()).concat(
                "\n",
            ).concat(usage().as_str());
            return Err(message);
        }
    }
    let m = match mode {
        Some(m) => m,
        None => Mode::Gui,
    };
    Ok((m, config))
}

} // verus!

verus! {

/// The settings file of the first version's controller.
#[derive(Clone, Debug)]
pub struct AppConfig {
    pub location_name: String,
    pub latitude: F64Bits,
    pub longitude: F64Bits,
    pub timezone_name: String,
    pub brightness_min: i32,
    pub brightness_max: i32,
    pub weather_refresh_seconds: u64,
    pub control_tick_seconds: u64,
    pub brightness_deadband: i32,
    pub maximum_step_per_tick: i32,
    pub sensor_port: String,
}

/// The serial port the sensor is looked for on by default.
pub fn default_sensor_port() -> (r: String)
    ensures
        r@ == "COM3"@,
{
    "COM3".to_string()
}

impl AppConfig {
    /// Shanghai, the full brightness range, weather every five minutes, a
    /// control tick every thirty seconds, a deadband of 2, steps of at most
    /// 4, and the default port.
    pub fn default() -> (r: Self)
        ensures
            r.location_name@ == "Shanghai"@,
            r.latitude.bits == 0x403f3afb7e90ff97,
            r.longitude.bits == 0x405e5e5119ce075f,
            r.timezone_name@ == "Asia/Shanghai"@,
            r.brightness_min == 0 && r.brightness_max == 100,
            r.weather_refresh_seconds == 300,
            r.control_tick_seconds == 30,
            r.brightness_deadband == 2,
            r.maximum_step_per_tick == 4,
            r.sensor_port@ == "COM3"@,
    {
        AppConfig {
            location_name: "Shanghai".to_string(),
            latitude: F64Bits { bits: 0x403f3afb7e90ff97 },
            longitude: F64Bits { bits: 0x405e5e5119ce075f },
            timezone_name: "Asia/Shanghai".to_string(),
            brightness_min: 0,
            brightness_max: 100,
            weather_refresh_seconds: 300,
            control_tick_seconds: 30,
            brightness_deadband: 2,
            maximum_step_per_tick: 4,
            sensor_port: default_sensor_port(),
        }
    }
}

/// The brightness policy the configuration asks for: its bounds brought
/// into `0..=100` and ordered, a deadband of at least zero and steps of at
/// least one.
pub fn policy_from_config(config: &AppConfig) -> (r: BrightnessPolicy)
    ensures
        (r.brightness_min as int, r.brightness_max as int) == (if clamp(
            config.brightness_min as int,
            0,
            100,
        ) <= clamp(config.brightness_max as int, 0, 100) {
            (clamp(config.brightness_min as int, 0, 100), clamp(config.brightness_max as int, 0, 100))
        } else {
            (clamp(config.brightness_max as int, 0, 100), clamp(config.brightness_min as int, 0, 100))
        }),
        r.deadband == if config.brightness_deadband < 0 {
            0
        } else {
            config.brightness_deadband
        },
        r.maximum_step == if config.maximum_step_per_tick < 1 {
            1
        } else {
            config.maximum_step_per_tick
        },
{
    let (brightness_min, brightness_max) = normalize_monitor_brightness_bounds(
        config.brightness_min,
        config.brightness_max,
    );
    BrightnessPolicy {
        brightness_min,
        brightness_max,
        deadband: if config.brightness_deadband < 0 {
            0
        } else {
            config.brightness_deadband
        },
        maximum_step: if config.maximum_step_per_tick < 1 {
            1
        } else {
            config.maximum_step_per_tick
        },
    }
}

/// One calibration reading of a monitor.
#[derive(Clone, Debug)]
pub struct CalibrationPoint {
    pub label: String,
    pub samples: Vec<i32>,
    pub average_raw: i32,
    pub min_raw: i32,
    pub max_raw: i32,
    pub captured_at: String,
}

/// The brightness a transition ends at: its last point, or the current
/// brightness clamped into the policy's range when there is none.
pub fn transition_end(points: &[i32], current: i32, policy: BrightnessPolicy) -> (r: i32)
    requires
        policy.brightness_min <= policy.brightness_max,
    ensures
        points@.len() > 0 ==> r == points@.last(),
        points@.len() == 0 ==> r == clamp(
            current as int,
            policy.brightness_min as int,
            policy.brightness_max as int,
        ),
{
    let n = points.len();
    if n > 0 {
        points[n - 1]
    } else if current < policy.brightness_min {
        policy.brightness_min
    } else if current > policy.brightness_max {
        policy.brightness_max
    } else {
        current
    }
}

/// The brightness a monitor holds after `applied` points of a transition
/// were written: the last point written, none when none was.
pub fn applied_brightness(points: &[i32], applied: usize) -> (r: Option<i32>)
    ensures
        applied == 0 || points@.len() == 0 ==> r is None,
        applied > 0 && points@.len() > 0 ==> r == Some(
            points@[(if applied < points@.len() {
                applied as int
            } else {
                points@.len() as int
            }) - 1],
        ),
{
    let n = points.len();
    if applied == 0 || n == 0 {
        return None;
    }
    let written = if applied < n {
        applied
    } else {
        n
    };
    Some(points[written - 1])
}

/// The sum of `samples`.
pub open spec fn sample_sum(samples: Seq<i32>) -> int
    decreases samples.len(),
{
    if samples.len() == 0 {
        0
    } else {
        sample_sum(samples.drop_last()) + samples.last()
    }
}

/// `s / n` rounded to the nearest integer, halves away from zero.
pub open spec fn rounded_quotient(s: int, n: int) -> int {
    if s >= 0 {
        (2 * s + n) / (2 * n)
    } else {
        -((-2 * s + n) / (2 * n))
    }
}

proof fn lemma_half_rounding_of_multiple(n: int, m: int)
    requires
        n > 0,
        m >= 0,
    ensures
        (2 * (n * m) + n) / (2 * n) == m,
{
    assert((2 * (n * m) + n) / (2 * n) == m) by (nonlinear_arith)
        requires
            n > 0,
            m >= 0,
    ;
}

/// The rounded mean of `n` values between `lo` and `hi` lies between them.
proof fn lemma_rounded_mean_within(s: int, n: int, lo: int, hi: int)
    requires
        n > 0,
        lo <= hi,
        n * lo <= s <= n * hi,
    ensures
        lo <= rounded_quotient(s, n) <= hi,
{
    assert(n * (-lo) == -(n * lo) && n * (-hi) == -(n * hi)) by (nonlinear_arith);
    if s >= 0 {
        assert(hi >= 0) by (nonlinear_arith)
            requires
                n > 0,
                s >= 0,
                s <= n * hi,
        ;
        lemma_half_rounding_of_multiple(n, hi);
        vstd::arithmetic::div_mod::lemma_div_is_ordered(2 * s + n, 2 * (n * hi) + n, 2 * n);
        if lo >= 0 {
            lemma_half_rounding_of_multiple(n, lo);
            vstd::arithmetic::div_mod::lemma_div_is_ordered(2 * (n * lo) + n, 2 * s + n, 2 * n);
        } else {
            vstd::arithmetic::div_mod::lemma_div_is_ordered(0, 2 * s + n, 2 * n);
        }
    } else {
        assert(lo < 0) by (nonlinear_arith)
            requires
                n > 0,
                s < 0,
                n * lo <= s,
        ;
        lemma_half_rounding_of_multiple(n, -lo);
        vstd::arithmetic::div_mod::lemma_div_is_ordered(-2 * s + n, 2 * (n * (-lo)) + n, 2 * n);
        if hi < 0 {
            lemma_half_rounding_of_multiple(n, -hi);
            vstd::arithmetic::div_mod::lemma_div_is_ordered(2 * (n * (-hi)) + n, -2 * s + n, 2 * n);
        } else {
            vstd::arithmetic::div_mod::lemma_div_is_ordered(0, -2 * s + n, 2 * n);
        }
    }
}

/// Adding one more sample keeps the running sum between the running least
/// and greatest, times the count, and within the range of `i32` sums.
proof fn lemma_sum_step(i: int, sum: int, v: int, lo: int, hi: int, lo2: int, hi2: int)
    requires
        i >= 0,
        i * lo <= sum <= i * hi,
        lo2 <= lo,
        hi <= hi2,
        lo2 <= v <= hi2,
        -0x8000_0000 <= lo2,
        hi2 <= 0x7fff_ffff,
    ensures
        (i + 1) * lo2 <= sum + v <= (i + 1) * hi2,
        -0x8000_0000 * (i + 1) <= sum + v <= 0x8000_0000 * (i + 1),
{
    assert((i + 1) * lo2 <= sum + v <= (i + 1) * hi2) by (nonlinear_arith)
        requires
            i >= 0,
            i * lo <= sum <= i * hi,
            lo2 <= lo,
            hi <= hi2,
            lo2 <= v <= hi2,
    ;
    assert(-0x8000_0000 * (i + 1) <= (i + 1) * lo2 && (i + 1) * hi2 <= 0x8000_0000 * (i + 1))
        by (nonlinear_arith)
        requires
            i >= 0,
            -0x8000_0000 <= lo2,
            hi2 <= 0x7fff_ffff,
    ;
}

/// The least sample, the greatest and their rounded mean (halves away from
/// zero), as a calibration reading records them; all zero without samples.
pub fn calibration_summary(samples: &[i32]) -> (r: (i32, i32, i32))
    ensures
        samples@.len() == 0 ==> r == (0i32, 0i32, 0i32),
        samples@.len() > 0 ==> {
            &&& samples@.contains(r.0)
            &&& forall|j: int| 0 <= j < samples@.len() ==> r.0 <= #[trigger] samples@[j]
            &&& samples@.contains(r.1)
            &&& forall|j: int| 0 <= j < samples@.len() ==> #[trigger] samples@[j] <= r.1
            &&& r.2 == rounded_quotient(sample_sum(samples@), samples@.len() as int)
        },
{
    let n = samples.len();
    if n == 0 {
        return (0, 0, 0);
    }
    let mut least = samples[0];
    let mut greatest = samples[0];
    let mut sum: i128 = 0;
    let mut i: usize = 0;
    while i < n
        invariant
            n == samples@.len(),
            n > 0,
            0 <= i <= n,
            samples@.contains(least),
            samples@.contains(greatest),
            least <= greatest,
            forall|j: int| 0 <= j < i ==> least <= #[trigger] samples@[j],
            forall|j: int| 0 <= j < i ==> #[trigger] samples@[j] <= greatest,
            sum == sample_sum(samples@.subrange(0, i as int)),
            i * least <= sum <= i * greatest,
            -0x8000_0000 * i <= sum <= 0x8000_0000 * i,
        decreases n - i,
    {
        let v = samples[i];
        assert(samples@.subrange(0, i + 1).drop_last() =~= samples@.subrange(0, i as int));
        let ghost old_least = least;
        let ghost old_greatest = greatest;
        if v < least {
            least = v;
        }
        if v > greatest {
            greatest = v;
        }
        proof {
            lemma_sum_step(
                i as int,
                sum as int,
                v as int,
                old_least as int,
                old_greatest as int,
                least as int,
                greatest as int,
            );
            assert(0x8000_0000 * (i + 1) <= 0x8000_0000 * 0x1_0000_0000_0000_0000int) by (nonlinear_arith)
                requires
                    i + 1 <= 0x1_0000_0000_0000_0000int,
            ;
        }
        sum = sum + v as i128;
        i += 1;
    }
    assert(samples@.subrange(0, n as int) =~= samples@);
    let count = n as i128;
    proof {
        lemma_rounded_mean_within(sum as int, n as int, least as int, greatest as int);
        assert(0x8000_0000 * n <= 0x8000_0000 * 0x1_0000_0000_0000_0000int) by (nonlinear_arith)
            requires
                n <= 0x1_0000_0000_0000_0000int,
        ;
    }
    let mean = if sum >= 0 {
        (2 * sum + count) / (2 * count)
    } else {
        -((-2 * sum + count) / (2 * count))
    };
    (least, greatest, mean as i32)
}

/// What the first version's user changes at run time.
#[derive(Clone, Debug)]
pub struct RuntimeConfig {
    pub daytime_peak_brightness: i32,
    pub night_target_brightness: i32,
    pub theme_mode: String,
    pub paused: bool,
    pub relay_contact_mode: RelayContactMode,
    pub light_rules_enabled: bool,
    pub light_rules: Vec<LegacyLightRule>,
    pub light_rules_fallback_action: LightAction,
    pub sensor_calibration_curve: Vec<SensorCurvePoint>,
    pub monitor_calibrations: Vec<(String, Vec<(String, CalibrationPoint)>)>,
}

impl RuntimeConfig {
    /// 90 % by day, 18 % at night, the dark theme, running, normally open,
    /// no rules, keeping the light, the built-in curve, no calibrations.
    pub fn default() -> (r: Self)
        ensures
            r.daytime_peak_brightness == 90,
            r.night_target_brightness == 18,
            r.theme_mode@ == "dark"@,
            !r.paused,
            r.relay_contact_mode == RelayContactMode::No,
            !r.light_rules_enabled,
            r.light_rules@.len() == 0,
            r.light_rules_fallback_action == LightAction::Keep,
            r.sensor_calibration_curve@.len() == 3,
            r.monitor_calibrations@.len() == 0,
    {
        RuntimeConfig {
            daytime_peak_brightness: 90,
            night_target_brightness: 18,
            theme_mode: "dark".to_string(),
            paused: false,
            relay_contact_mode: RelayContactMode::No,
            light_rules_enabled: false,
            light_rules: Vec::new(),
            light_rules_fallback_action: LightAction::Keep,
            sensor_calibration_curve: default_sensor_curve(),
            monitor_calibrations: Vec::new(),
        }
    }
}

/// Whether the first version knows a theme name.
pub open spec fn known_theme(name: Seq<char>) -> bool {
    name == "dark"@ || name == "light"@ || name == "system"@
}

/// Repairs hand-edited run-time settings: the levels brought into
/// `0..=100`, `curve` (the normalized form of the curve) taken as the
/// curve, and an unknown theme replaced by the dark one.
pub fn normalize_runtime_config(runtime: &mut RuntimeConfig, curve: Vec<SensorCurvePoint>)
    ensures
        final(runtime).daytime_peak_brightness == clamp(
            old(runtime).daytime_peak_brightness as int,
            0,
            100,
        ),
        final(runtime).night_target_brightness == clamp(
            old(runtime).night_target_brightness as int,
            0,
            100,
        ),
        final(runtime).sensor_calibration_curve@ == curve@,
        final(runtime).theme_mode@ == if known_theme(old(runtime).theme_mode@) {
            old(runtime).theme_mode@
        } else {
            "dark"@
        },
        final(runtime).paused == old(runtime).paused,
        final(runtime).light_rules@ == old(runtime).light_rules@,
{
    runtime.daytime_peak_brightness = normalize_monitor_brightness(runtime.daytime_peak_brightness);
    runtime.night_target_brightness = normalize_monitor_brightness(runtime.night_target_brightness);
    runtime.sensor_calibration_curve = curve;
    proof {
        reveal_strlit("dark");
        reveal_strlit("light");
        reveal_strlit("system");
    }
    let known = text_equals(runtime.theme_mode.as_str(), "dark") || text_equals(
        runtime.theme_mode.as_str(),
        "light",
    ) || text_equals(runtime.theme_mode.as_str(), "system");
    if !known {
        runtime.theme_mode = "dark".to_string();
    }
}

/// The weather class the first version derives: rain from a precipitation
/// probability of at least 35 %, else fog from a visibility of at most
/// 3 km, else clouds from a cloud cover of at least 60 %, else clear.
pub open spec fn legacy_weather(
    cloud_cover: i32,
    visibility_km: F64Bits,
    precipitation_probability: F64Bits,
) -> WeatherKind {
    if (F64Bits { bits: 0x3fd6666666666666 }).at_most(precipitation_probability) {
        WeatherKind::Rain
    } else if visibility_km.at_most(F64Bits { bits: 0x4008000000000000 }) {
        WeatherKind::Fog
    } else if cloud_cover >= 60 {
        WeatherKind::Cloudy
    } else {
        WeatherKind::Clear
    }
}

/// The first version's last weather and when it was fetched, in
/// milliseconds of a clock that does not go back.
#[derive(Clone, Copy, Debug)]
pub struct WeatherCache<T> {
    pub snapshot: Option<T>,
    pub fetched_at_ms: Option<u64>,
}

/// The whole seconds from `earlier` to `later`, none when `later` comes
/// first.
pub open spec fn seconds_since(later: u64, earlier: u64) -> int {
    if later <= earlier {
        0
    } else {
        (later - earlier) / 1000
    }
}

impl<T: Copy> WeatherCache<T> {
    /// Nothing fetched yet.
    pub fn new() -> (r: Self)
        ensures
            r.snapshot is None,
            r.fetched_at_ms is None,
    {
        WeatherCache { snapshot: None, fetched_at_ms: None }
    }

    /// The cached weather while it is younger than `refresh_seconds`
    /// whole seconds at `now_ms`; `None` when it must be fetched again.
    pub fn fresh(&self, now_ms: u64, refresh_seconds: u64) -> (r: Option<T>)
        ensures
            r == (if self.snapshot is Some && self.fetched_at_ms is Some && seconds_since(
                now_ms,
                self.fetched_at_ms->0,
            ) < refresh_seconds {
                self.snapshot
            } else {
                None
            }),
    {
        match (self.snapshot, self.fetched_at_ms) {
            (Some(snapshot), Some(fetched_at_ms)) => {
                let elapsed = if now_ms <= fetched_at_ms {
                    0
                } else {
                    (now_ms - fetched_at_ms) / 1000
                };
                if elapsed < refresh_seconds {
                    Some(snapshot)
                } else {
                    None
                }
            },
            _ => None,
        }
    }

    /// Keeps weather fetched at `now_ms`.
    pub fn store(&mut self, snapshot: T, now_ms: u64)
        ensures
            final(self).snapshot == Some(snapshot),
            final(self).fetched_at_ms == Some(now_ms),
    {
        self.snapshot = Some(snapshot);
        self.fetched_at_ms = Some(now_ms);
    }

    /// The weather to use when fetching failed: the last one, however old.
    pub fn fallback(&self) -> (r: Option<T>)
        ensures
            r == self.snapshot,
    {
        self.snapshot
    }
}

/// The weather class of the first version's weather snapshot.
pub fn classify_weather_snapshot(
    cloud_cover: i32,
    visibility_km: F64Bits,
    precipitation_probability: F64Bits,
) -> (r: WeatherKind)
    ensures
        r == legacy_weather(cloud_cover, visibility_km, precipitation_probability),
{
    let rain_threshold = F64Bits { bits: 0x3fd6666666666666 };
    let fog_threshold = F64Bits { bits: 0x4008000000000000 };
    if rain_threshold.le(&precipitation_probability) {
        WeatherKind::Rain
    } else if visibility_km.le(&fog_threshold) {
        WeatherKind::Fog
    } else if cloud_cover >= 60 {
        WeatherKind::Cloudy
    } else {
        WeatherKind::Clear
    }
}

/// Why a reading line of the sensor is refused.
#[derive(Debug)]
pub enum SensorReadingError {
    /// Another sensor answered; the message names it.
    UnexpectedSensor(String),
    /// The lux value is not a finite non-negative number.
    InvalidLux,
}

/// Checks a reading of the first version's sensor: it comes from the
/// BH1750 and its lux value is finite and not negative.
pub fn check_sensor_reading(sensor: &str, lux: F64Bits) -> (r: Result<(), SensorReadingError>)
    ensures
        sensor@ != "bh1750"@ ==> (r matches Err(SensorReadingError::UnexpectedSensor(message))
            && message@ == "unexpected sensor: "@ + sensor@),
        sensor@ == "bh1750"@ && !(lux.finite() && !lux.less_than(F64Bits { bits: 0 })) ==> (r matches Err(
            SensorReadingError::InvalidLux,
        )),
        sensor@ == "bh1750"@ && lux.finite() && !lux.less_than(F64Bits { bits: 0 }) ==> r is Ok,
{
    proof {
        reveal_strlit("bh1750");
        reveal_strlit("unexpected sensor: ");
    }
    if !text_equals(sensor, "bh1750") {
        let mut message = "unexpected sensor: ".to_string();
        message.append(sensor);
        return Err(SensorReadingError::UnexpectedSensor(message));
    }
    let zero = F64Bits { bits: 0 };
    if !lux.is_finite() || lux.lt(&zero) {
        return Err(SensorReadingError::InvalidLux);
    }
    Ok(())
}

/// Checks that a response line of the sensor answers a relay command.
pub fn check_relay_response(command: &str) -> (r: Result<(), String>)
    ensures
        r is Ok <==> command@ == "relay"@,
        r matches Err(message) ==> message@ == "unexpected command response: "@ + command@,
{
    proof {
        reveal_strlit("relay");
        reveal_strlit("unexpected command response: ");
    }
    if text_equals(command, "relay") {
        Ok(())
    } else {
        let mut message = "unexpected command response: ".to_string();
        message.append(command);
        Err(message)
    }
}

/// The action word of a relay state on the serial line.
pub open spec fn relay_word(state: RelayState) -> Seq<char> {
    match state {
        RelayState::On => "on"@,
        RelayState::Off => "off"@,
    }
}

/// The line that asks the sensor to switch its relay.
pub fn relay_command_line(state: RelayState) -> (r: String)
    ensures
        r@ == "relay "@ + relay_word(state) + "\n"@,
{
    proof {
        reveal_strlit("relay on\n");
        reveal_strlit("relay off\n");
        reveal_strlit("relay ");
        reveal_strlit("on");
        reveal_strlit("off");
        reveal_strlit("\n");
    }
    match state {
        RelayState::On => "relay on\n".to_string(),
        RelayState::Off => "relay off\n".to_string(),
    }
}

/// Whether a relay response reports the state asked for.
pub fn relay_action_matches(action: &str, desired: RelayState) -> (r: bool)
    ensures
        r == (action@ == relay_word(desired)),
{
    proof {
        reveal_strlit("on");
        reveal_strlit("off");
    }
    match desired {
        RelayState::On => text_equals(action, "on"),
        RelayState::Off => text_equals(action, "off"),
    }
}

/// The target after the run-time limits: by day (a daylight factor of at
/// least one half) at most the daytime peak, by night (at most one tenth)
/// at least the night target, in between unchanged.
pub open spec fn adapted_target(target: i32, daylight_factor: F64Bits, runtime: RuntimeConfig) -> i32 {
    if (F64Bits { bits: 0x3fe0000000000000 }).at_most(daylight_factor) {
        if target < runtime.daytime_peak_brightness {
            target
        } else {
            runtime.daytime_peak_brightness
        }
    } else if daylight_factor.at_most(F64Bits { bits: 0x3fb999999999999a }) {
        if target > runtime.night_target_brightness {
            target
        } else {
            runtime.night_target_brightness
        }
    } else {
        target
    }
}

/// Applies the run-time limits of day and night to a target.
pub fn adapt_brightness_target(target: i32, daylight_factor: F64Bits, runtime: &RuntimeConfig) -> (r:
    i32)
    ensures
        r == adapted_target(target, daylight_factor, *runtime),
{
    let half = F64Bits { bits: 0x3fe0000000000000 };
    let tenth = F64Bits { bits: 0x3fb999999999999a };
    if half.le(&daylight_factor) {
        if target < runtime.daytime_peak_brightness {
            target
        } else {
            runtime.daytime_peak_brightness
        }
    } else if daylight_factor.le(&tenth) {
        if target > runtime.night_target_brightness {
            target
        } else {
            runtime.night_target_brightness
        }
    } else {
        target
    }
}

} // verus!
