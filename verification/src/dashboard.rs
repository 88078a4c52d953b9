use vstd::prelude::*;
use core::ops::RangeInclusive;
use crate::control::{
    clamp, day_minutes, normalize_brightness, normalize_minutes, LightCondition, SensorCurvePoint,
    WeatherKind,
};
use crate::float_bits::F64Bits;
use crate::text::{decimal, hex_char, push_decimal, text_equals};

verus! {

/// What the tray menu asks the window for.
#[derive(Clone, Copy, Debug, PartialEq, Eq, Structural)]
pub enum AppEvent {
    Show,
    RunNow,
    TogglePause,
    Calibration,
    Settings,
    Quit,
}

impl AppEvent {
    /// Whether the window is shown before the interface handles the event:
    /// every event but quitting.
    pub fn opens_window_before_egui_update(self) -> (r: bool)
        ensures
            r == (self != AppEvent::Quit),
    {
        match self {
            AppEvent::Show | AppEvent::RunNow | AppEvent::TogglePause | AppEvent::Calibration
            | AppEvent::Settings => true,
            AppEvent::Quit => false,
        }
    }

    /// Whether the event ends the program without the interface handling
    /// it: quitting only.
    pub fn exits_without_egui_update(self) -> (r: bool)
        ensures
            r == (self == AppEvent::Quit),
    {
        match self {
            AppEvent::Quit => true,
            _ => false,
        }
    }
}

/// Every event either shows the window or ends the program, never both.
pub proof fn lemma_events_show_or_exit(event: AppEvent)
    ensures
        (event != AppEvent::Quit) != (event == AppEvent::Quit),
{
}

/// Where the brightness comes from.
#[derive(Clone, Copy, Debug, PartialEq, Eq, Structural)]
pub enum ControlSource {
    Sensor,
}

impl ControlSource {
    /// The name of the source.
    pub fn label(self) -> (r: &'static str)
        ensures
            r@ == "Sensor"@,
    {
        "Sensor"
    }

    /// What the source measures with.
    pub fn detail(self) -> (r: &'static str)
        ensures
            r@ == "BH1750 lux curve"@,
    {
        "BH1750 lux curve"
    }
}

/// The height of the compact window, as the bits of a binary64 number:
/// 352.0.
pub const COMPACT_WINDOW_HEIGHT: u64 = 0x4076000000000000;

/// The height of the onboarding window, as the bits of a binary64 number:
/// 520.0.
pub const ONBOARDING_WINDOW_HEIGHT: u64 = 0x4080400000000000;

/// The onboarding window is taller than the compact one.
pub proof fn lemma_onboarding_window_is_taller()
    ensures
        (F64Bits { bits: COMPACT_WINDOW_HEIGHT }).less_than(
            F64Bits { bits: ONBOARDING_WINDOW_HEIGHT },
        ),
{
}

/// The height of the window in the given mode, as binary64 bits.
pub fn window_height(onboarding: bool) -> (r: u64)
    ensures
        r == if onboarding {
            ONBOARDING_WINDOW_HEIGHT
        } else {
            COMPACT_WINDOW_HEIGHT
        },
{
    if onboarding {
        ONBOARDING_WINDOW_HEIGHT
    } else {
        COMPACT_WINDOW_HEIGHT
    }
}

/// The main window is shown when the program starts.
pub fn initial_viewport_visible_on_launch() -> (r: bool)
    ensures
        r,
{
    true
}

/// The main window can be resized.
pub fn initial_viewport_resizable() -> (r: bool)
    ensures
        r,
{
    true
}

/// The size the main window opens with, in logical points: width, then
/// height.
pub fn initial_viewport_size() -> (r: [u32; 2])
    ensures
        r[0] == 520 && r[1] == 300,
{
    [520, 300]
}

/// A monitor as the dashboard lists it.
#[derive(Clone, Debug, PartialEq, Eq)]
pub struct MonitorInfo {
    pub identifier: String,
    pub description: String,
}

/// The monitors and their brightness, as one complete report of the
/// control worker: the monitors, and the brightness read from each monitor
/// that answered, as pairs of its identifier and percent.
#[derive(Clone, Debug)]
pub struct MonitorSnapshot {
    pub monitors: Vec<MonitorInfo>,
    pub monitor_brightness: Vec<(String, i32)>,
}

/// Takes over a complete monitor report: the list and the brightness are
/// replaced, and the selection stays where it was unless it now lies past
/// the end, in which case it moves to the last monitor (to the first
/// place when there is none).
pub fn apply_monitor_snapshot(
    current_monitors: &mut Vec<MonitorInfo>,
    current_brightness: &mut Vec<(String, i32)>,
    selected_monitor: &mut usize,
    snapshot: MonitorSnapshot,
)
    ensures
        final(current_monitors)@ == snapshot.monitors@,
        final(current_brightness)@ == snapshot.monitor_brightness@,
        snapshot.monitors@.len() == 0 ==> *final(selected_monitor) == 0,
        snapshot.monitors@.len() > 0 ==> *final(selected_monitor) == (if *old(selected_monitor)
            < snapshot.monitors@.len() {
            *old(selected_monitor) as int
        } else {
            snapshot.monitors@.len() - 1
        }),
{
    *current_monitors = snapshot.monitors;
    *current_brightness = snapshot.monitor_brightness;
    if current_monitors.len() == 0 {
        *selected_monitor = 0;
    } else if *selected_monitor > current_monitors.len() - 1 {
        *selected_monitor = current_monitors.len() - 1;
    }
}

/// The brightness range the settings offer: the full monitor range.
pub fn settings_brightness_range() -> (r: RangeInclusive<i32>)
    ensures
        r@.start == 0,
        r@.end == 100,
        !r@.exhausted,
{
    0..=100
}

/// The label of a theme setting: `Light`, `System`, and `Dark` for anything
/// else.
pub fn theme_label(theme_mode: &str) -> (r: &'static str)
    ensures
        r@ == (if theme_mode@ == "light"@ {
            "Light"@
        } else if theme_mode@ == "system"@ {
            "System"@
        } else {
            "Dark"@
        }),
{
    if text_equals(theme_mode, "light") {
        "Light"
    } else if text_equals(theme_mode, "system") {
        "System"
    } else {
        "Dark"
    }
}

/// A brightness entered in the settings, clamped into `0..=100`.
pub fn normalize_settings_brightness(value: i32) -> (r: i32)
    ensures
        r == clamp(value as int, 0, 100),
{
    normalize_brightness(value)
}

/// Whether a window stays open: it was open and no action closed it.
pub fn window_open_after_action(open: bool, close_requested: bool) -> (r: bool)
    ensures
        r == (open && !close_requested),
{
    open && !close_requested
}

/// The label of the pause item of the tray menu.
pub fn pause_menu_label(paused: bool) -> (r: &'static str)
    ensures
        r@ == (if paused {
            "Resume"@
        } else {
            "Pause"@
        }),
{
    if paused {
        "Resume"
    } else {
        "Pause"
    }
}

/// The error to show: the one of the last action, else the one of the
/// background worker.
pub fn visible_error<'a>(action_error: &'a Option<String>, worker_error: &'a Option<String>) -> (r:
    Option<&'a str>)
    ensures
        match action_error {
            Some(a) => r matches Some(s) && s@ == a@,
            None => match worker_error {
                Some(w) => r matches Some(s) && s@ == w@,
                None => r is None,
            },
        },
{
    match action_error {
        Some(a) => Some(a.as_str()),
        None => match worker_error {
            Some(w) => Some(w.as_str()),
            None => None,
        },
    }
}

/// The position of a condition's kind in the list the rule editor offers.
pub open spec fn condition_kind(c: LightCondition) -> int {
    match c {
        LightCondition::TimeAfter { .. } => 0,
        LightCondition::TimeBefore { .. } => 1,
        LightCondition::AfterSunrise { .. } => 2,
        LightCondition::BeforeSunset { .. } => 3,
        LightCondition::AfterSunset { .. } => 4,
        LightCondition::LuxBelow { .. } => 5,
        LightCondition::LuxAbove { .. } => 6,
        LightCondition::CurrentBrightnessBelow { .. } => 7,
        LightCondition::CurrentBrightnessAbove { .. } => 8,
        LightCondition::TargetBrightnessBelow { .. } => 9,
        LightCondition::TargetBrightnessAbove { .. } => 10,
        LightCondition::WeatherIs { .. } => 11,
    }
}

/// The position of a condition's kind in the list the rule editor offers.
pub fn light_rule_condition_kind(condition: &LightCondition) -> (r: usize)
    ensures
        r == condition_kind(*condition),
{
    match condition {
        LightCondition::TimeAfter { .. } => 0,
        LightCondition::TimeBefore { .. } => 1,
        LightCondition::AfterSunrise { .. } => 2,
        LightCondition::BeforeSunset { .. } => 3,
        LightCondition::AfterSunset { .. } => 4,
        LightCondition::LuxBelow { .. } => 5,
        LightCondition::LuxAbove { .. } => 6,
        LightCondition::CurrentBrightnessBelow { .. } => 7,
        LightCondition::CurrentBrightnessAbove { .. } => 8,
        LightCondition::TargetBrightnessBelow { .. } => 9,
        LightCondition::TargetBrightnessAbove { .. } => 10,
        LightCondition::WeatherIs { .. } => 11,
    }
}

/// The condition the rule editor starts with for the kind at `kind`: seven
/// in the evening, seven in the morning, the sun's events without offset,
/// 30 and 80 lux, 40 % and 60 %, and cloudy weather for the last kind and
/// beyond.
pub open spec fn default_condition(kind: int) -> LightCondition {
    if kind == 0 {
        LightCondition::TimeAfter { minutes: 1140 }
    } else if kind == 1 {
        LightCondition::TimeBefore { minutes: 420 }
    } else if kind == 2 {
        LightCondition::AfterSunrise { offset_minutes: 0 }
    } else if kind == 3 {
        LightCondition::BeforeSunset { offset_minutes: 0 }
    } else if kind == 4 {
        LightCondition::AfterSunset { offset_minutes: 0 }
    } else if kind == 5 {
        LightCondition::LuxBelow { lux: F64Bits { bits: 0x403e000000000000 } }
    } else if kind == 6 {
        LightCondition::LuxAbove { lux: F64Bits { bits: 0x4054000000000000 } }
    } else if kind == 7 {
        LightCondition::CurrentBrightnessBelow { brightness: 40 }
    } else if kind == 8 {
        LightCondition::CurrentBrightnessAbove { brightness: 60 }
    } else if kind == 9 {
        LightCondition::TargetBrightnessBelow { brightness: 40 }
    } else if kind == 10 {
        LightCondition::TargetBrightnessAbove { brightness: 60 }
    } else {
        LightCondition::WeatherIs { weather: WeatherKind::Cloudy }
    }
}

/// The condition the rule editor starts with for the kind at `kind`.
pub fn default_light_rule_condition(kind: usize) -> (r: LightCondition)
    ensures
        r == default_condition(kind as int),
{
    match kind {
        0 => LightCondition::TimeAfter { minutes: 19 * 60 },
        1 => LightCondition::TimeBefore { minutes: 7 * 60 },
        2 => LightCondition::AfterSunrise { offset_minutes: 0 },
        3 => LightCondition::BeforeSunset { offset_minutes: 0 },
        4 => LightCondition::AfterSunset { offset_minutes: 0 },
        5 => LightCondition::LuxBelow { lux: F64Bits { bits: 0x403e000000000000 } },
        6 => LightCondition::LuxAbove { lux: F64Bits { bits: 0x4054000000000000 } },
        7 => LightCondition::CurrentBrightnessBelow { brightness: 40 },
        8 => LightCondition::CurrentBrightnessAbove { brightness: 60 },
        9 => LightCondition::TargetBrightnessBelow { brightness: 40 },
        10 => LightCondition::TargetBrightnessAbove { brightness: 60 },
        _ => LightCondition::WeatherIs { weather: WeatherKind::Cloudy },
    }
}

/// Choosing a kind in the rule editor gives a condition of that kind; the
/// kinds past the last give the last.
pub proof fn lemma_default_condition_has_its_kind(kind: int)
    requires
        kind >= 0,
    ensures
        condition_kind(default_condition(kind)) == if kind <= 11 {
            kind
        } else {
            11
        },
{
}

/// `n` in two decimal digits (`n < 100`).
pub open spec fn two_digits(n: int) -> Seq<char> {
    seq![hex_char((n / 10) as nat), hex_char((n % 10) as nat)]
}

/// A clock time as `HH:MM`, the minutes taken modulo a day.
pub open spec fn clock_text(minutes: int) -> Seq<char> {
    let m = day_minutes(minutes);
    two_digits(m / 60) + ":"@ + two_digits(m % 60)
}

/// Appends `n` in two decimal digits.
fn push_two_digits(out: &mut String, n: u64)
    requires
        n < 100,
    ensures
        final(out)@ == old(out)@ + two_digits(n as int),
{
    proof {
        reveal_strlit("0");
        reveal_with_fuel(decimal, 3);
    }
    if n < 10 {
        out.append("0");
    }
    push_decimal(out, n);
    assert(final(out)@ =~= old(out)@ + two_digits(n as int));
}

/// A clock time as `HH:MM`.
pub fn minutes_label(minutes: i32) -> (r: String)
    ensures
        r@ == clock_text(minutes as int),
{
    let m = normalize_minutes(minutes as i64);
    let mut out = String::new();
    push_two_digits(&mut out, (m / 60) as u64);
    out.append(":");
    push_two_digits(&mut out, (m % 60) as u64);
    proof {
        reveal_strlit(":");
    }
    assert(out@ =~= clock_text(minutes as int));
    out
}

/// How many curves the calibration editor can undo.
pub const SENSOR_CURVE_HISTORY_LIMIT: usize = 3;

/// Whether two curve points are equal, the lux values compared as numbers.
pub open spec fn same_point(a: SensorCurvePoint, b: SensorCurvePoint) -> bool {
    a.lux.same_value(b.lux) && a.brightness == b.brightness
}

/// Whether two curves are equal point by point.
pub open spec fn same_curve(a: Seq<SensorCurvePoint>, b: Seq<SensorCurvePoint>) -> bool {
    a.len() == b.len() && forall|i: int| 0 <= i < a.len() ==> #[trigger] same_point(a[i], b[i])
}

/// The curves of a history.
pub open spec fn curve_views(history: Seq<Vec<SensorCurvePoint>>) -> Seq<Seq<SensorCurvePoint>> {
    history.map_values(|v: Vec<SensorCurvePoint>| v@)
}

/// The history after remembering `curve`: unchanged when it equals the
/// last curve; otherwise with `curve` added, keeping the last three.
pub open spec fn remembered(
    history: Seq<Seq<SensorCurvePoint>>,
    curve: Seq<SensorCurvePoint>,
) -> Seq<Seq<SensorCurvePoint>> {
    if history.len() > 0 && same_curve(history.last(), curve) {
        history
    } else {
        let grown = history.push(curve);
        if grown.len() > SENSOR_CURVE_HISTORY_LIMIT {
            grown.subrange(grown.len() - SENSOR_CURVE_HISTORY_LIMIT, grown.len() as int)
        } else {
            grown
        }
    }
}

/// Whether two curves are equal point by point.
pub fn curves_equal(a: &Vec<SensorCurvePoint>, b: &Vec<SensorCurvePoint>) -> (r: bool)
    ensures
        r == same_curve(a@, b@),
{
    if a.len() != b.len() {
        return false;
    }
    let mut i: usize = 0;
    while i < a.len()
        invariant
            a@.len() == b@.len(),
            0 <= i <= a@.len(),
            forall|k: int| 0 <= k < i ==> #[trigger] same_point(a@[k], b@[k]),
        decreases a@.len() - i,
    {
        if !(a[i].lux.equals(&b[i].lux) && a[i].brightness == b[i].brightness) {
            assert(!same_point(a@[i as int], b@[i as int]));
            return false;
        }
        i += 1;
    }
    true
}

/// Remembers a curve, already normalized, for undo: nothing happens when
/// it equals the last one; otherwise it is added and only the last three
/// curves are kept.
pub fn remember_sensor_curve_history(
    history: &mut Vec<Vec<SensorCurvePoint>>,
    curve: Vec<SensorCurvePoint>,
)
    ensures
        curve_views(final(history)@) == remembered(curve_views(old(history)@), curve@),
{
    let n = history.len();
    if n > 0 && curves_equal(&history[n - 1], &curve) {
        proof {
            assert(curve_views(old(history)@).last() == old(history)@[n - 1]@);
        }
        return;
    }
    proof {
        if n > 0 {
            assert(curve_views(old(history)@).last() == old(history)@[n - 1]@);
        }
    }
    history.push(curve);
    let ghost grown = curve_views(history@);
    proof {
        assert(grown =~= curve_views(old(history)@).push(curve@));
        assert(grown.subrange(0, grown.len() as int) =~= grown);
    }
    while history.len() > SENSOR_CURVE_HISTORY_LIMIT
        invariant
            history@.len() <= grown.len(),
            history@.len() >= if grown.len() > SENSOR_CURVE_HISTORY_LIMIT {
                SENSOR_CURVE_HISTORY_LIMIT as int
            } else {
                grown.len() as int
            },
            curve_views(history@) == grown.subrange(
                grown.len() - history@.len(),
                grown.len() as int,
            ),
        decreases history@.len(),
    {
        let ghost before = history@;
        let _oldest = history.remove(0);
        proof {
            assert forall|k: int| 0 <= k < history@.len() implies #[trigger] curve_views(
                history@,
            )[k] == grown.subrange(grown.len() - history@.len(), grown.len() as int)[k] by {
                assert(history@[k] == before[k + 1]);
                assert(curve_views(before)[k + 1] == before[k + 1]@);
            }
            assert(curve_views(history@) =~= grown.subrange(
                grown.len() - history@.len(),
                grown.len() as int,
            ));
        }
    }
}

/// Takes back the last curve remembered, if any.
pub fn pop_sensor_curve_history(history: &mut Vec<Vec<SensorCurvePoint>>) -> (r: Option<
    Vec<SensorCurvePoint>,
>)
    ensures
        old(history)@.len() == 0 ==> r is None && final(history)@ == old(history)@,
        old(history)@.len() > 0 ==> r == Some(old(history)@.last()) && final(history)@
            == old(history)@.drop_last(),
{
    history.pop()
}

/// The undo history never holds more than three curves, and after a curve
/// without a NaN is remembered the last one equals it.
pub proof fn lemma_history_holds_at_most_three(
    history: Seq<Seq<SensorCurvePoint>>,
    curve: Seq<SensorCurvePoint>,
)
    requires
        history.len() <= SENSOR_CURVE_HISTORY_LIMIT,
        forall|i: int| 0 <= i < curve.len() ==> !(#[trigger] curve[i]).lux.nan(),
    ensures
        remembered(history, curve).len() <= SENSOR_CURVE_HISTORY_LIMIT,
        remembered(history, curve).len() > 0,
        same_curve(remembered(history, curve).last(), curve),
{
    if !(history.len() > 0 && same_curve(history.last(), curve)) {
        let grown = history.push(curve);
        assert forall|i: int| 0 <= i < curve.len() implies #[trigger] same_point(curve[i], curve[i]) by {
        }
    }
}

/// The first place at or after `from` that holds `a` or `b`; the length
/// of `s` when there is none.
pub open spec fn scan_to(s: Seq<char>, from: int, a: char, b: char) -> int
    decreases s.len() - from,
{
    if from >= s.len() || from < 0 {
        s.len() as int
    } else if s[from] == a || s[from] == b {
        from
    } else {
        scan_to(s, from + 1, a, b)
    }
}

proof fn lemma_scan_to_bounds(s: Seq<char>, from: int, a: char, b: char)
    requires
        0 <= from <= s.len(),
    ensures
        from <= scan_to(s, from, a, b) <= s.len(),
        scan_to(s, from, a, b) < s.len() ==> (s[scan_to(s, from, a, b)] == a || s[scan_to(
            s,
            from,
            a,
            b,
        )] == b),
    decreases s.len() - from,
{
    if from < s.len() && !(s[from] == a || s[from] == b) {
        lemma_scan_to_bounds(s, from + 1, a, b);
    }
}

/// The time of day in a timestamp such as `2026-05-01T08:30:00+08:00`:
/// what follows the first `T` up to the next `T` or `+`. The whole text
/// when it has no `T` or that part is empty.
pub open spec fn run_time_text(s: Seq<char>) -> Seq<char> {
    let t = scan_to(s, 0, 'T', 'T');
    if t >= s.len() {
        s
    } else {
        let end = scan_to(s, t + 1, 'T', '+');
        if end == t + 1 {
            s
        } else {
            s.subrange(t + 1, end)
        }
    }
}

/// The first place at or after `from` that holds `a` or `b`.
fn find_either(s: &str, from: usize, a: char, b: char) -> (r: usize)
    requires
        from <= s@.len(),
    ensures
        r == scan_to(s@, from as int, a, b),
{
    let n = s.unicode_len();
    let mut i = from;
    while i < n
        invariant
            n == s@.len(),
            from <= i <= n,
            scan_to(s@, i as int, a, b) == scan_to(s@, from as int, a, b),
        decreases n - i,
    {
        let c = s.get_char(i);
        if c == a || c == b {
            return i;
        }
        i += 1;
    }
    i
}

/// The time of the last run as the dashboard shows it: `Waiting` before
/// the first run, then the time of day of the timestamp.
pub fn compact_run_time(last_run: Option<&str>) -> (r: String)
    ensures
        last_run is None ==> r@ == "Waiting"@,
        last_run matches Some(s) ==> r@ == run_time_text(s@),
{
    match last_run {
        None => "Waiting".to_string(),
        Some(text) => {
            proof {
                lemma_scan_to_bounds(text@, 0, 'T', 'T');
            }
            let t = find_either(text, 0, 'T', 'T');
            if t >= text.unicode_len() {
                return text.to_string();
            }
            proof {
                lemma_scan_to_bounds(text@, t + 1, 'T', '+');
            }
            let end = find_either(text, t + 1, 'T', '+');
            if end == t + 1 {
                text.to_string()
            } else {
                text.substring_char(t + 1, end).to_string()
            }
        },
    }
}

/// How long ago the last update was, from the whole seconds since then:
/// `Waiting` before any, seconds under a minute, whole minutes after.
pub open spec fn elapsed_text(seconds: Option<u64>) -> Seq<char> {
    match seconds {
        None => "Waiting"@,
        Some(s) => if s < 60 {
            decimal(s as nat) + "s ago"@
        } else {
            decimal((s / 60) as nat) + "m ago"@
        },
    }
}

/// The label of how long ago the last update was; `seconds` is the time
/// since then in whole seconds, `None` before the first update.
pub fn elapsed_update_label(seconds: Option<u64>) -> (r: String)
    ensures
        r@ == elapsed_text(seconds),
{
    match seconds {
        None => "Waiting".to_string(),
        Some(s) => {
            let mut label = String::new();
            if s < 60 {
                push_decimal(&mut label, s);
                label.append("s ago");
            } else {
                push_decimal(&mut label, s / 60);
                label.append("m ago");
            }
            label
        },
    }
}

/// The word and colour (red, green, blue) that show the light strip:
/// `On` in amber, `Off` in orange, `Unknown` in red.
pub fn light_strip_status_text(light_on: Option<bool>) -> (r: (&'static str, (u8, u8, u8)))
    ensures
        light_on == Some(true) ==> r.0@ == "On"@ && r.1 == (255u8, 207u8, 92u8),
        light_on == Some(false) ==> r.0@ == "Off"@ && r.1 == (255u8, 164u8, 92u8),
        light_on is None ==> r.0@ == "Unknown"@ && r.1 == (255u8, 100u8, 116u8),
{
    match light_on {
        Some(true) => ("On", (255, 207, 92)),
        Some(false) => ("Off", (255, 164, 92)),
        None => ("Unknown", (255, 100, 116)),
    }
}

/// The point a new curve point starts from: a copy of the last point, or
/// 80 lux at 72 % when the curve is empty.
pub fn sensor_curve_editor_default_point(points: &[SensorCurvePoint]) -> (r: SensorCurvePoint)
    ensures
        points@.len() > 0 ==> r == points@.last(),
        points@.len() == 0 ==> r.lux.bits == 0x4054000000000000 && r.brightness == 72,
{
    let n = points.len();
    if n > 0 {
        points[n - 1]
    } else {
        SensorCurvePoint { lux: F64Bits { bits: 0x4054000000000000 }, brightness: 72 }
    }
}

} // verus!
