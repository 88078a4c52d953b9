use vstd::prelude::*;
use crate::float_bits::F64Bits;
use crate::text::text_of;

verus! {

/// Lowest monitor brightness, in percent.
pub const MIN_BRIGHTNESS: i32 = 0;

/// Highest monitor brightness, in percent.
pub const MAX_BRIGHTNESS: i32 = 100;

/// `value` clamped into `lo..=hi`.
pub open spec fn clamp(value: int, lo: int, hi: int) -> int {
    if value < lo {
        lo
    } else if value > hi {
        hi
    } else {
        value
    }
}

/// Clamps a brightness into the percent range `0..=100`.
pub fn normalize_brightness(value: i32) -> (r: i32)
    ensures
        r == clamp(value as int, MIN_BRIGHTNESS as int, MAX_BRIGHTNESS as int),
{
    if value < MIN_BRIGHTNESS {
        MIN_BRIGHTNESS
    } else if value > MAX_BRIGHTNESS {
        MAX_BRIGHTNESS
    } else {
        value
    }
}

} // verus!

verus! {

/// An error in a control configuration.
#[derive(Debug)]
pub enum CoreError {
    InvalidConfiguration(String),
}

/// The text of a configuration error, if `e` is one.
pub open spec fn configuration_message(e: CoreError) -> Seq<char> {
    match e {
        CoreError::InvalidConfiguration(message) => message@,
    }
}

/// Holds a brightness target steady while new candidates stay within a
/// deadband of it.
#[derive(Debug)]
pub struct TargetStabilizer {
    deadband: i32,
    target: Option<i32>,
}

impl TargetStabilizer {
    #[verifier::type_invariant]
    closed spec fn inv(self) -> bool {
        &&& self.deadband >= 0
        &&& self.target matches Some(t) ==> MIN_BRIGHTNESS <= t <= MAX_BRIGHTNESS
    }

    /// The deadband, never negative.
    pub closed spec fn deadband_width(self) -> int {
        self.deadband as int
    }

    /// The target currently held, if any.
    pub closed spec fn held_target(self) -> Option<i32> {
        self.target
    }

    /// A stabilizer holding no target, with `deadband` (negative values
    /// count as zero).
    pub fn new(deadband: i32) -> (r: Self)
        ensures
            r.deadband_width() == if deadband < 0 { 0 } else { deadband as int },
            r.held_target() == None::<i32>,
    {
        TargetStabilizer { deadband: if deadband < 0 { 0 } else { deadband }, target: None }
    }

    /// Offers a new candidate (clamped to `0..=100`). A held target within
    /// the deadband of the candidate is kept and returned; otherwise the
    /// candidate becomes the target and is returned.
    pub fn update(&mut self, candidate: i32) -> (r: i32)
        ensures
            final(self).deadband_width() == old(self).deadband_width(),
            ({
                let c = clamp(candidate as int, 0, 100);
                match old(self).held_target() {
                    Some(current) if -old(self).deadband_width() <= c - current
                        <= old(self).deadband_width() => {
                        r == current && final(self).held_target() == Some(current)
                    },
                    _ => r == c && final(self).held_target() == Some(r),
                }
            }),
            MIN_BRIGHTNESS <= r <= MAX_BRIGHTNESS,
    {
        proof {
            use_type_invariant(&*self);
        }
        let candidate = normalize_brightness(candidate);
        match self.target {
            Some(current) => {
                let difference = candidate - current;
                if -self.deadband <= difference && difference <= self.deadband {
                    return current;
                }
            },
            None => {},
        }
        self.target = Some(candidate);
        candidate
    }

    /// Forgets the held target.
    pub fn reset(&mut self)
        ensures
            final(self).deadband_width() == old(self).deadband_width(),
            final(self).held_target() == None::<i32>,
    {
        proof {
            use_type_invariant(&*self);
        }
        self.target = None;
    }
}

impl Clone for TargetStabilizer {
    fn clone(&self) -> (r: Self)
        ensures
            r.deadband_width() == self.deadband_width(),
            r.held_target() == self.held_target(),
    {
        proof {
            use_type_invariant(self);
        }
        TargetStabilizer { deadband: self.deadband, target: self.target }
    }
}

/// How long a brightness transition lasts and how often it may write.
#[derive(Clone, Copy, Debug, PartialEq, Eq, Structural)]
pub struct TransitionSpec {
    pub duration_ms: u64,
    pub max_writes_per_second: u16,
}

/// The message for a transition duration out of range.
pub open spec fn duration_message() -> Seq<char> {
    "transition duration_ms must be in 100..=30000"@
}

/// The message for a write rate out of range.
pub open spec fn write_rate_message() -> Seq<char> {
    "max_writes_per_second must be in 1..=20"@
}

impl TransitionSpec {
    /// The duration lies in `100..=30000` ms and the write rate in `1..=20`.
    pub open spec fn valid(self) -> bool {
        &&& 100 <= self.duration_ms <= 30_000
        &&& 1 <= self.max_writes_per_second <= 20
    }

    /// 1500 ms at most 10 writes per second.
    pub fn default() -> (r: Self)
        ensures
            r.duration_ms == 1500,
            r.max_writes_per_second == 10,
    {
        TransitionSpec { duration_ms: 1500, max_writes_per_second: 10 }
    }

    /// Returns the spec unchanged when it is valid; otherwise the error for
    /// the first field out of range, the duration first.
    pub fn validate(self) -> (r: Result<Self, CoreError>)
        ensures
            r is Ok <==> self.valid(),
            r matches Ok(v) ==> v == self,
            !(100 <= self.duration_ms <= 30_000) ==> (r matches Err(e) && configuration_message(e)
                == duration_message()),
            (100 <= self.duration_ms <= 30_000) && !(1 <= self.max_writes_per_second <= 20) ==> (
            r matches Err(e) && configuration_message(e) == write_rate_message()),
    {
        if !(100 <= self.duration_ms && self.duration_ms <= 30_000) {
            return Err(
                CoreError::InvalidConfiguration(
                    String::from_str("transition duration_ms must be in 100..=30000"),
                ),
            );
        }
        if !(1 <= self.max_writes_per_second && self.max_writes_per_second <= 20) {
            return Err(
                CoreError::InvalidConfiguration(
                    String::from_str("max_writes_per_second must be in 1..=20"),
                ),
            );
        }
        Ok(self)
    }

    /// The shortest interval between two writes: `1000 / rate` ms (a rate
    /// of 0 counts as 1), and at least 1 ms.
    pub fn minimum_write_interval_ms(self) -> (r: u64)
        ensures
            r == write_interval(self.max_writes_per_second as int),
    {
        let rate: u64 = if self.max_writes_per_second == 0 {
            1
        } else {
            self.max_writes_per_second as u64
        };
        let interval = 1000 / rate;
        if interval == 0 {
            1
        } else {
            interval
        }
    }
}

/// `max(1000 / max(rate, 1), 1)`.
pub open spec fn write_interval(rate: int) -> int {
    let r = if rate < 1 { 1 } else { rate };
    let i = 1000int / r;
    if i < 1 { 1 } else { i }
}

/// Numerator of the smootherstep easing `s(e/d) = e^3 (6e^2 - 15ed + 10d^2) / d^5`.
pub open spec fn ease_numerator(e: int, d: int) -> int {
    e * e * e * (6 * e * e - 15 * e * d + 10 * d * d)
}

/// Denominator of the smootherstep easing: `d^5`.
pub open spec fn ease_denominator(d: int) -> int {
    d * d * d * d * d
}

/// The brightness a transition from `from` to `to` of `duration` ms shows
/// `elapsed` ms after it started: `from + (to - from) * s(t)` with
/// `t = min(elapsed / duration, 1)` and `s` the smootherstep easing, taken
/// exactly and rounded to the nearest integer, halves away from zero.
pub open spec fn eased_brightness(from: int, to: int, elapsed: int, duration: int) -> int {
    let e = if elapsed < duration { elapsed } else { duration };
    let total = from * ease_denominator(duration) + (to - from) * ease_numerator(e, duration);
    round_half_away(total, ease_denominator(duration))
}

/// `n / m` rounded to the nearest integer, halves away from zero (`m > 0`).
pub open spec fn round_half_away(n: int, m: int) -> int {
    if n >= 0 {
        (2 * n + m) / (2 * m)
    } else {
        -((-2 * n + m) / (2 * m))
    }
}

proof fn lemma_ease_bounds(e: int, d: int)
    requires
        0 <= e <= d,
        0 < d,
    ensures
        0 <= ease_numerator(e, d) <= 10 * ease_denominator(d),
        ease_denominator(d) > 0,
{
    let p = 6 * e * e - 15 * e * d + 10 * d * d;
    let e3 = e * e * e;
    let d3 = d * d * d;
    let d2 = d * d;
    assert(8 * p == 3 * (4 * e - 5 * d) * (4 * e - 5 * d) + 5 * d * d) by (nonlinear_arith)
        requires
            p == 6 * e * e - 15 * e * d + 10 * d * d,
    ;
    assert(3 * (4 * e - 5 * d) * (4 * e - 5 * d) + 5 * d * d >= 0) by (nonlinear_arith);
    assert(p <= 10 * d2) by (nonlinear_arith)
        requires
            p == 6 * e * e - 15 * e * d + 10 * d * d,
            d2 == d * d,
            0 <= e <= d,
    ;
    assert(0 <= e3 <= d3) by (nonlinear_arith)
        requires
            e3 == e * e * e,
            d3 == d * d * d,
            0 <= e <= d,
    ;
    assert(0 <= e3 * p) by (nonlinear_arith)
        requires
            0 <= e3,
            0 <= p,
    ;
    assert(e3 * p <= d3 * (10 * d2)) by (nonlinear_arith)
        requires
            0 <= e3 <= d3,
            0 <= p <= 10 * d2,
    ;
    assert(d3 * (10 * d2) == 10 * (d * d * d * d * d)) by (nonlinear_arith)
        requires
            d3 == d * d * d,
            d2 == d * d,
    ;
    assert(d * d * d * d * d > 0) by (nonlinear_arith)
        requires
            d > 0,
    ;
}

proof fn lemma_ease_endpoints(d: int)
    requires
        0 < d,
    ensures
        ease_numerator(0, d) == 0,
        ease_numerator(d, d) == ease_denominator(d),
{
    assert(ease_numerator(0, d) == 0) by (nonlinear_arith);
    assert(6 * d * d - 15 * d * d + 10 * d * d == d * d) by (nonlinear_arith);
    assert(d * d * d * (d * d) == d * d * d * d * d) by (nonlinear_arith);
}

proof fn lemma_round_exact(v: int, m: int)
    requires
        m > 0,
    ensures
        (2 * (v * m) + m) / (2 * m) == v,
{
    assert(2 * (v * m) + m == v * (2 * m) + m) by (nonlinear_arith);
    assert(0 <= m < 2 * m);
    vstd::arithmetic::div_mod::lemma_fundamental_div_mod_converse(
        2 * (v * m) + m,
        2 * m,
        v,
        m,
    );
}

} // verus!

verus! {

/// The exact eased value of a transition, for durations up to 30 s.
pub fn eased_value(from: i32, to: i32, elapsed: u64, duration: u64) -> (r: i64)
    requires
        0 < duration <= 30_000,
    ensures
        r == eased_brightness(from as int, to as int, elapsed as int, duration as int),
{
    let e: u64 = if elapsed < duration { elapsed } else { duration };
    proof {
        lemma_ease_bounds(e as int, duration as int);
    }
    let d = duration as i128;
    let x = e as i128;
    assert(d * d <= 900_000_000) by (nonlinear_arith)
        requires
            0 < d <= 30_000,
    ;
    assert(d * d * d <= 27_000_000_000_000) by (nonlinear_arith)
        requires
            0 < d <= 30_000,
            d * d <= 900_000_000,
    ;
    assert(d * d * d * d <= 810_000_000_000_000_000) by (nonlinear_arith)
        requires
            0 < d <= 30_000,
            d * d * d <= 27_000_000_000_000,
    ;
    assert(d * d * d * d * d <= 24_300_000_000_000_000_000_000) by (nonlinear_arith)
        requires
            0 < d <= 30_000,
            d * d * d * d <= 810_000_000_000_000_000,
    ;
    assert(0 <= x * x <= d * d && 0 <= x * x * x <= d * d * d) by (nonlinear_arith)
        requires
            0 <= x <= d,
    ;
    assert(0 <= 15 * x * d <= 13_500_000_000 && 0 <= 6 * x * x <= 5_400_000_000 && 0 <= 10 * d
        * d <= 9_000_000_000) by (nonlinear_arith)
        requires
            0 <= x <= d,
            d <= 30_000,
    ;
    let den = d * d * d * d * d;
    let poly = 6 * x * x - 15 * x * d + 10 * d * d;
    let num = x * x * x * poly;
    assert(num == ease_numerator(e as int, duration as int));
    let f = from as i128;
    let delta = (to as i128) - f;
    assert(-2_147_483_648 * den <= f * den <= 2_147_483_647 * den) by (nonlinear_arith)
        requires
            -2_147_483_648 <= f <= 2_147_483_647,
            den > 0,
    ;
    assert(-4_294_967_295 * (10 * den) <= delta * num <= 4_294_967_295 * (10 * den)) by (
    nonlinear_arith)
        requires
            -4_294_967_295 <= delta <= 4_294_967_295,
            0 <= num <= 10 * den,
    ;
    let total = f * den + delta * num;
    let value = if total >= 0 {
        (2 * total + den) / (2 * den)
    } else {
        -((-2 * total + den) / (2 * den))
    };
    assert(-2_147_483_648 * den - 4_294_967_295 * (10 * den) <= total <= 2_147_483_647 * den
        + 4_294_967_295 * (10 * den));
    assert(-50_000_000_000 <= value <= 50_000_000_000) by (nonlinear_arith)
        requires
            den > 0,
            -2_147_483_648 * den - 4_294_967_295 * (10 * den) <= total <= 2_147_483_647 * den
                + 4_294_967_295 * (10 * den),
            total >= 0 ==> value == (2 * total + den) / (2 * den),
            total < 0 ==> value == -((-2 * total + den) / (2 * den)),
    ;
    value as i64
}

/// A brightness transition in progress, retargetable at any time.
#[derive(Clone, Copy, Debug)]
pub struct TransitionPlan {
    from: i32,
    to: i32,
    started_at_ms: u64,
    spec: TransitionSpec,
}

impl TransitionPlan {
    #[verifier::type_invariant]
    closed spec fn inv(self) -> bool {
        self.wf()
    }

    /// Start and end values lie in `0..=100` and the spec is valid: true of
    /// every plan this module builds.
    pub closed spec fn wf(self) -> bool {
        &&& MIN_BRIGHTNESS <= self.from <= MAX_BRIGHTNESS
        &&& MIN_BRIGHTNESS <= self.to <= MAX_BRIGHTNESS
        &&& self.spec.valid()
    }

    /// The brightness the transition starts from.
    pub closed spec fn start_value(self) -> int {
        self.from as int
    }

    /// The brightness the transition ends at.
    pub closed spec fn end_value(self) -> int {
        self.to as int
    }

    /// When the transition started, in ms.
    pub closed spec fn started_at(self) -> int {
        self.started_at_ms as int
    }

    /// The duration and write rate of the transition.
    pub closed spec fn transition_spec(self) -> TransitionSpec {
        self.spec
    }

    /// What `value_at(now_ms)` returns.
    pub closed spec fn brightness_at(self, now_ms: u64) -> int {
        if self.from == self.to {
            self.to as int
        } else {
            let elapsed = if now_ms >= self.started_at_ms {
                now_ms - self.started_at_ms
            } else {
                0
            };
            clamp(
                eased_brightness(
                    self.from as int,
                    self.to as int,
                    elapsed,
                    self.spec.duration_ms as int,
                ),
                MIN_BRIGHTNESS as int,
                MAX_BRIGHTNESS as int,
            )
        }
    }

    /// A plan from `from` to `to` (both clamped to `0..=100`) starting at
    /// `started_at_ms`; an error when `spec` is invalid.
    pub fn new(from: i32, to: i32, started_at_ms: u64, spec: TransitionSpec) -> (r: Result<
        Self,
        CoreError,
    >)
        ensures
            r is Ok <==> spec.valid(),
            r matches Ok(plan) ==> {
                &&& plan.wf()
                &&& plan.start_value() == clamp(from as int, 0, 100)
                &&& plan.end_value() == clamp(to as int, 0, 100)
                &&& plan.started_at() == started_at_ms
                &&& plan.transition_spec() == spec
            },
            r matches Err(e) ==> (spec.validate_error_message() == configuration_message(e)),
    {
        let spec = match spec.validate() {
            Ok(spec) => spec,
            Err(error) => return Err(error),
        };
        Ok(
            TransitionPlan {
                from: normalize_brightness(from),
                to: normalize_brightness(to),
                started_at_ms,
                spec,
            },
        )
    }

    /// The brightness at `now_ms`: the smootherstep easing from the start
    /// value to the end value, reaching the end value once the duration has
    /// elapsed; before the start it shows the start value.
    pub fn value_at(self, now_ms: u64) -> (r: i32)
        ensures
            r == self.brightness_at(now_ms),
    {
        proof {
            use_type_invariant(&self);
        }
        if self.from == self.to {
            return self.to;
        }
        let elapsed = if now_ms >= self.started_at_ms {
            now_ms - self.started_at_ms
        } else {
            0
        };
        let value = eased_value(self.from, self.to, elapsed, self.spec.duration_ms);
        if value < 0 {
            0
        } else if value > 100 {
            100
        } else {
            value as i32
        }
    }

    /// Whether the duration has elapsed by `now_ms`.
    pub fn is_complete(self, now_ms: u64) -> (r: bool)
        ensures
            r == (now_ms >= self.started_at() && now_ms - self.started_at()
                >= self.transition_spec().duration_ms),
    {
        now_ms >= self.started_at_ms && now_ms - self.started_at_ms >= self.spec.duration_ms
    }

    /// A new plan that starts at `now_ms` from the brightness this plan shows
    /// then, towards `new_target`, with the same spec.
    pub fn retarget(self, now_ms: u64, new_target: i32) -> (r: Result<Self, CoreError>)
        ensures
            r matches Ok(plan) && plan.wf() && plan.start_value() == self.brightness_at(now_ms)
                && plan.end_value() == clamp(new_target as int, 0, 100) && plan.started_at()
                == now_ms && plan.transition_spec() == self.transition_spec(),
    {
        proof {
            use_type_invariant(&self);
        }
        let current = self.value_at(now_ms);
        Self::new(current, new_target, now_ms, self.spec)
    }

    /// The brightness the transition ends at.
    pub fn target(self) -> (r: i32)
        ensures
            r == self.end_value(),
    {
        self.to
    }

    /// The shortest interval between two writes of this transition.
    pub fn minimum_write_interval_ms(self) -> (r: u64)
        ensures
            r == write_interval(self.transition_spec().max_writes_per_second as int),
    {
        self.spec.minimum_write_interval_ms()
    }

    /// Every plan shows a brightness in `0..=100`, and its start and end
    /// values lie there too.
    pub proof fn lemma_in_range(self, now_ms: u64)
        requires
            self.wf(),
        ensures
            0 <= self.brightness_at(now_ms) <= 100,
            0 <= self.start_value() <= 100,
            0 <= self.end_value() <= 100,
            self.transition_spec().valid(),
    {
    }
}

impl TransitionSpec {
    /// The message `validate` reports for this spec when it is invalid.
    pub open spec fn validate_error_message(self) -> Seq<char> {
        if !(100 <= self.duration_ms <= 30_000) {
            duration_message()
        } else {
            write_rate_message()
        }
    }
}

/// A transition shows its start value at the moment it starts.
pub proof fn lemma_transition_starts_at_start_value(plan: TransitionPlan)
    requires
        plan.wf(),
    ensures
        plan.brightness_at(plan.started_at() as u64) == plan.start_value(),
{
    plan.lemma_in_range(0);
    let d = plan.transition_spec().duration_ms as int;
    let from = plan.start_value();
    let to = plan.end_value();
    let m = ease_denominator(d);
    lemma_ease_endpoints(d);
    lemma_ease_bounds(0, d);
    assert((to - from) * ease_numerator(0, d) == 0) by (nonlinear_arith)
        requires
            ease_numerator(0, d) == 0,
    ;
    lemma_round_exact(from, m);
    assert(from * m >= 0) by (nonlinear_arith)
        requires
            from >= 0,
            m > 0,
    ;
    assert(eased_brightness(from, to, 0, d) == from);
}

/// Once its duration has elapsed, a transition shows its end value.
pub proof fn lemma_transition_reaches_end_value(plan: TransitionPlan, now_ms: u64)
    requires
        plan.wf(),
        now_ms >= plan.started_at() + plan.transition_spec().duration_ms,
    ensures
        plan.brightness_at(now_ms) == plan.end_value(),
{
    plan.lemma_in_range(now_ms);
    let d = plan.transition_spec().duration_ms as int;
    let from = plan.start_value();
    let to = plan.end_value();
    lemma_ease_endpoints(d);
    lemma_ease_bounds(d, d);
    let m = ease_denominator(d);
    assert(from * m + (to - from) * m == to * m) by (nonlinear_arith);
    lemma_round_exact(to, m);
    assert(to * m >= 0) by (nonlinear_arith)
        requires
            to >= 0,
            m > 0,
    ;
}

/// Retargeting is continuous: the new plan shows, at the moment of the
/// retarget, exactly what the old plan showed then.
pub proof fn lemma_retarget_is_continuous(plan: TransitionPlan, now_ms: u64, next: TransitionPlan)
    requires
        plan.wf(),
        next.wf(),
        next.start_value() == plan.brightness_at(now_ms),
        next.started_at() == now_ms,
    ensures
        next.brightness_at(now_ms) == plan.brightness_at(now_ms),
{
    lemma_transition_starts_at_start_value(next);
}

} // verus!

verus! {

/// How the relay contact is wired: normally open (the light is on while the
/// coil is energized) or normally closed (the light is on while it is not).
#[derive(Clone, Copy, Debug, PartialEq, Eq, Structural)]
pub enum RelayContactMode {
    No,
    Nc,
}

/// Whether the coil is energized when the light should be `light_on`.
pub open spec fn energized_for(mode: RelayContactMode, light_on: bool) -> bool {
    match mode {
        RelayContactMode::No => light_on,
        RelayContactMode::Nc => !light_on,
    }
}

/// Whether the light is on while the coil is `energized`.
pub open spec fn light_on_for(mode: RelayContactMode, energized: bool) -> bool {
    match mode {
        RelayContactMode::No => energized,
        RelayContactMode::Nc => !energized,
    }
}

impl RelayContactMode {
    /// Normally open.
    pub fn default() -> (r: Self)
        ensures
            r == RelayContactMode::No,
    {
        RelayContactMode::No
    }

    /// Whether the coil must be energized for the light to be `light_on`.
    pub fn energized_for_light(self, light_on: bool) -> (r: bool)
        ensures
            r == energized_for(self, light_on),
    {
        match self {
            RelayContactMode::No => light_on,
            RelayContactMode::Nc => !light_on,
        }
    }

    /// Whether the light is on while the coil is `energized`.
    pub fn light_on(self, energized: bool) -> (r: bool)
        ensures
            r == light_on_for(self, energized),
    {
        match self {
            RelayContactMode::No => energized,
            RelayContactMode::Nc => !energized,
        }
    }
}

/// For either wiring, the coil state chosen for a light state gives that
/// light state back, and the light state read from a coil state asks for
/// that coil state again.
pub proof fn lemma_relay_mapping_round_trips(mode: RelayContactMode, light_on: bool, energized: bool)
    ensures
        light_on_for(mode, energized_for(mode, light_on)) == light_on,
        energized_for(mode, light_on_for(mode, energized)) == energized,
{
}

/// What a light rule asks of the light strip.
#[derive(Clone, Copy, Debug, PartialEq, Eq, Structural)]
pub enum LightAction {
    Keep,
    On,
    Off,
}

impl LightAction {
    /// Keep.
    pub fn default() -> (r: Self)
        ensures
            r == LightAction::Keep,
    {
        LightAction::Keep
    }

    /// `None` to keep the light as it is, otherwise whether it should be on.
    pub fn light_on(self) -> (r: Option<bool>)
        ensures
            r == match self {
                LightAction::Keep => None,
                LightAction::On => Some(true),
                LightAction::Off => Some(false),
            },
    {
        match self {
            LightAction::Keep => None,
            LightAction::On => Some(true),
            LightAction::Off => Some(false),
        }
    }
}

/// A coarse weather class.
#[derive(Clone, Copy, Debug, PartialEq, Eq, Structural)]
pub enum WeatherKind {
    Clear,
    Cloudy,
    Rain,
    Fog,
}

/// One test of a light rule. Clock values are minutes of the day; lux
/// thresholds are binary64 values compared as IEEE 754 does.
#[derive(Clone, Copy, Debug)]
pub enum LightCondition {
    TimeAfter { minutes: i32 },
    TimeBefore { minutes: i32 },
    AfterSunrise { offset_minutes: i32 },
    BeforeSunset { offset_minutes: i32 },
    AfterSunset { offset_minutes: i32 },
    LuxBelow { lux: F64Bits },
    LuxAbove { lux: F64Bits },
    CurrentBrightnessBelow { brightness: i32 },
    CurrentBrightnessAbove { brightness: i32 },
    TargetBrightnessBelow { brightness: i32 },
    TargetBrightnessAbove { brightness: i32 },
    WeatherIs { weather: WeatherKind },
}

/// What the light rules are evaluated against.
#[derive(Clone, Copy, Debug)]
pub struct RuleContext {
    pub now_minutes: i32,
    pub sunrise_minutes: Option<i32>,
    pub sunset_minutes: Option<i32>,
    pub weather: Option<WeatherKind>,
    pub lux: Option<F64Bits>,
    pub current_brightness: Option<i32>,
    pub target_brightness: Option<i32>,
}

impl RuleContext {
    /// Midnight, with nothing else known.
    pub fn default() -> (r: Self)
        ensures
            r.now_minutes == 0,
            r.sunrise_minutes is None,
            r.sunset_minutes is None,
            r.weather is None,
            r.lux is None,
            r.current_brightness is None,
            r.target_brightness is None,
    {
        RuleContext {
            now_minutes: 0,
            sunrise_minutes: None,
            sunset_minutes: None,
            weather: None,
            lux: None,
            current_brightness: None,
            target_brightness: None,
        }
    }
}

/// `minutes` taken modulo a day, in `0..1440`.
pub open spec fn day_minutes(minutes: int) -> int {
    minutes % 1440
}

/// The minute of the day of any minute count, computed without overflow.
pub fn normalize_minutes(minutes: i64) -> (r: i32)
    ensures
        r == day_minutes(minutes as int),
        0 <= r < 1440,
{
    let q = minutes % 1440;
    let r = if q < 0 {
        q + 1440
    } else {
        q
    };
    assert(r == day_minutes(minutes as int)) by {
        assert(minutes as int == (minutes as int / 1440) * 1440 + day_minutes(minutes as int));
    }
    r as i32
}

/// Whether `condition` holds in `context`.
pub open spec fn condition_matches(condition: LightCondition, context: RuleContext) -> bool {
    let now = context.now_minutes as int;
    match condition {
        LightCondition::TimeAfter { minutes } => now >= day_minutes(minutes as int),
        LightCondition::TimeBefore { minutes } => now <= day_minutes(minutes as int),
        LightCondition::AfterSunrise { offset_minutes } => context.sunrise_minutes matches Some(
            sunrise,
        ) && now >= day_minutes(sunrise + offset_minutes),
        LightCondition::BeforeSunset { offset_minutes } => context.sunset_minutes matches Some(
            sunset,
        ) && now <= day_minutes(sunset + offset_minutes),
        LightCondition::AfterSunset { offset_minutes } => context.sunset_minutes matches Some(
            sunset,
        ) && now >= day_minutes(sunset + offset_minutes),
        LightCondition::LuxBelow { lux } => context.lux matches Some(value) && value.less_than(lux),
        LightCondition::LuxAbove { lux } => context.lux matches Some(value) && lux.less_than(value),
        LightCondition::CurrentBrightnessBelow { brightness } => context.current_brightness matches Some(
            value,
        ) && value < brightness,
        LightCondition::CurrentBrightnessAbove { brightness } => context.current_brightness matches Some(
            value,
        ) && value > brightness,
        LightCondition::TargetBrightnessBelow { brightness } => context.target_brightness matches Some(
            value,
        ) && value < brightness,
        LightCondition::TargetBrightnessAbove { brightness } => context.target_brightness matches Some(
            value,
        ) && value > brightness,
        LightCondition::WeatherIs { weather } => context.weather == Some(weather),
    }
}

/// With a light reading `v`, a condition on more light than `t` holds
/// exactly when `t < v`, one on less light exactly when `v < t`, the two
/// never hold together, and without a reading neither holds.
pub proof fn lemma_lux_conditions_compare_the_reading(t: F64Bits, context: RuleContext)
    ensures
        context.lux matches Some(v) ==> (condition_matches(LightCondition::LuxAbove { lux: t }, context)
            <==> t.less_than(v)),
        context.lux matches Some(v) ==> (condition_matches(LightCondition::LuxBelow { lux: t }, context)
            <==> v.less_than(t)),
        !(condition_matches(LightCondition::LuxAbove { lux: t }, context) && condition_matches(
            LightCondition::LuxBelow { lux: t },
            context,
        )),
        context.lux is None ==> !condition_matches(LightCondition::LuxAbove { lux: t }, context)
            && !condition_matches(LightCondition::LuxBelow { lux: t }, context),
{
}

impl LightCondition {
    /// Whether the condition holds in `context`. Clock thresholds are taken
    /// modulo a day; a condition on a value the context lacks does not hold.
    pub fn matches(&self, context: &RuleContext) -> (r: bool)
        ensures
            r == condition_matches(*self, *context),
            match *self {
                LightCondition::LuxAbove { lux } => r == (context.lux matches Some(v) && lux.less_than(
                    v,
                )),
                LightCondition::LuxBelow { lux } => r == (context.lux matches Some(v) && v.less_than(
                    lux,
                )),
                _ => true,
            },
    {
        let now = context.now_minutes;
        match self {
            LightCondition::TimeAfter { minutes } => now >= normalize_minutes(*minutes as i64),
            LightCondition::TimeBefore { minutes } => now <= normalize_minutes(*minutes as i64),
            LightCondition::AfterSunrise { offset_minutes } => match context.sunrise_minutes {
                Some(sunrise) => now >= normalize_minutes(sunrise as i64 + *offset_minutes as i64),
                None => false,
            },
            LightCondition::BeforeSunset { offset_minutes } => match context.sunset_minutes {
                Some(sunset) => now <= normalize_minutes(sunset as i64 + *offset_minutes as i64),
                None => false,
            },
            LightCondition::AfterSunset { offset_minutes } => match context.sunset_minutes {
                Some(sunset) => now >= normalize_minutes(sunset as i64 + *offset_minutes as i64),
                None => false,
            },
            LightCondition::LuxBelow { lux } => match context.lux {
                Some(value) => value.lt(lux),
                None => false,
            },
            LightCondition::LuxAbove { lux } => match context.lux {
                Some(value) => lux.lt(&value),
                None => false,
            },
            LightCondition::CurrentBrightnessBelow { brightness } => match context.current_brightness {
                Some(value) => value < *brightness,
                None => false,
            },
            LightCondition::CurrentBrightnessAbove { brightness } => match context.current_brightness {
                Some(value) => value > *brightness,
                None => false,
            },
            LightCondition::TargetBrightnessBelow { brightness } => match context.target_brightness {
                Some(value) => value < *brightness,
                None => false,
            },
            LightCondition::TargetBrightnessAbove { brightness } => match context.target_brightness {
                Some(value) => value > *brightness,
                None => false,
            },
            LightCondition::WeatherIs { weather } => match context.weather {
                Some(value) => value == *weather,
                None => false,
            },
        }
    }
}

/// A tree of conditions joined by all-of and any-of groups.
#[derive(Debug)]
pub enum ConditionExpression {
    Condition { condition: LightCondition },
    And { conditions: Vec<ConditionExpression> },
    Or { conditions: Vec<ConditionExpression> },
}

/// Whether an expression holds: a group of all-of holds when it is not
/// empty and every member holds; a group of any-of when some member holds.
pub open spec fn expression_matches(expression: ConditionExpression, context: RuleContext) -> bool
    decreases expression, 1nat,
{
    match expression {
        ConditionExpression::Condition { condition } => condition_matches(condition, context),
        ConditionExpression::And { conditions } => conditions@.len() > 0 && all_match(
            conditions@,
            conditions@.len() as int,
            context,
        ),
        ConditionExpression::Or { conditions } => any_match(
            conditions@,
            conditions@.len() as int,
            context,
        ),
    }
}

/// Whether each of the first `n` expressions of `s` holds.
pub open spec fn all_match(s: Seq<ConditionExpression>, n: int, context: RuleContext) -> bool
    decreases s, n,
{
    if n <= 0 || n > s.len() {
        true
    } else {
        all_match(s, n - 1, context) && expression_matches(s[n - 1], context)
    }
}

/// Whether some of the first `n` expressions of `s` holds.
pub open spec fn any_match(s: Seq<ConditionExpression>, n: int, context: RuleContext) -> bool
    decreases s, n,
{
    if n <= 0 || n > s.len() {
        false
    } else {
        any_match(s, n - 1, context) || expression_matches(s[n - 1], context)
    }
}

/// `all_match` and `any_match` say "every" and "some" member.
pub proof fn lemma_group_quantifiers(s: Seq<ConditionExpression>, n: int, context: RuleContext)
    requires
        0 <= n <= s.len(),
    ensures
        all_match(s, n, context) <==> (forall|j: int|
            0 <= j < n ==> #[trigger] expression_matches(s[j], context)),
        any_match(s, n, context) <==> (exists|j: int|
            0 <= j < n && #[trigger] expression_matches(s[j], context)),
    decreases n,
{
    if n > 0 {
        lemma_group_quantifiers(s, n - 1, context);
        if any_match(s, n, context) && !any_match(s, n - 1, context) {
            assert(expression_matches(s[n - 1], context));
        }
        if forall|j: int| 0 <= j < n ==> #[trigger] expression_matches(s[j], context) {
            assert(expression_matches(s[n - 1], context));
            assert(all_match(s, n - 1, context));
        }
        if all_match(s, n, context) {
            assert forall|j: int| 0 <= j < n implies #[trigger] expression_matches(s[j], context) by {
                if j < n - 1 {
                    assert(all_match(s, n - 1, context));
                }
            }
        }
    }
}

/// The number of single conditions in an expression.
pub open spec fn condition_total(expression: ConditionExpression) -> nat
    decreases expression, 1nat,
{
    match expression {
        ConditionExpression::Condition { .. } => 1,
        ConditionExpression::And { conditions } => condition_total_of(
            conditions@,
            conditions@.len() as int,
        ),
        ConditionExpression::Or { conditions } => condition_total_of(
            conditions@,
            conditions@.len() as int,
        ),
    }
}

/// The number of single conditions in the first `n` expressions of `s`.
pub open spec fn condition_total_of(s: Seq<ConditionExpression>, n: int) -> nat
    decreases s, n,
{
    if n <= 0 || n > s.len() {
        0
    } else {
        condition_total_of(s, n - 1) + condition_total(s[n - 1])
    }
}

impl ConditionExpression {
    /// A single condition.
    pub fn condition(condition: LightCondition) -> (r: Self)
        ensures
            r == (ConditionExpression::Condition { condition }),
    {
        ConditionExpression::Condition { condition }
    }

    /// Whether the expression holds in `context`.
    pub fn matches(&self, context: &RuleContext) -> (r: bool)
        ensures
            r == expression_matches(*self, *context),
        decreases self,
    {
        match self {
            ConditionExpression::Condition { condition } => {
                let r = condition.matches(context);
                assert(expression_matches(*self, *context) == condition_matches(*condition, *context));
                assert(r == expression_matches(*self, *context));
                r
            },
            ConditionExpression::And { conditions } => {
                if conditions.len() == 0 {
                    return false;
                }
                let mut i: usize = 0;
                while i < conditions.len()
                    invariant
                        0 <= i <= conditions@.len(),
                        conditions@.len() > 0,
                        *self == (ConditionExpression::And { conditions: *conditions }),
                        all_match(conditions@, i as int, *context),
                    decreases conditions@.len() - i,
                {
                    proof {
                        assert(decreases_to!(*self => (*self)->And_conditions));
                        assert(decreases_to!(*self => conditions@[i as int]));
                        lemma_prefix_match(conditions@, i as int + 1, conditions@.len() as int, *context);
                    }
                    let m = conditions[i].matches(context);
                    if !m {
                        return false;
                    }
                    i += 1;
                }
                true
            },
            ConditionExpression::Or { conditions } => {
                let mut i: usize = 0;
                while i < conditions.len()
                    invariant
                        0 <= i <= conditions@.len(),
                        *self == (ConditionExpression::Or { conditions: *conditions }),
                        !any_match(conditions@, i as int, *context),
                    decreases conditions@.len() - i,
                {
                    proof {
                        assert(decreases_to!(*self => (*self)->Or_conditions));
                        assert(decreases_to!(*self => conditions@[i as int]));
                        lemma_prefix_match(conditions@, i as int + 1, conditions@.len() as int, *context);
                    }
                    let m = conditions[i].matches(context);
                    if m {
                        return true;
                    }
                    i += 1;
                }
                false
            },
        }
    }

    /// The number of single conditions in the expression.
    pub fn condition_count(&self) -> (r: usize)
        requires
            condition_total(*self) <= usize::MAX,
        ensures
            r == condition_total(*self),
        decreases self,
    {
        match self {
            ConditionExpression::Condition { .. } => 1,
            ConditionExpression::And { conditions } | ConditionExpression::Or { conditions } => {
                let mut total: usize = 0;
                let mut i: usize = 0;
                while i < conditions.len()
                    invariant
                        0 <= i <= conditions@.len(),
                        total == condition_total_of(conditions@, i as int),
                        condition_total_of(conditions@, conditions@.len() as int) <= usize::MAX,
                        condition_total(*self) == condition_total_of(conditions@, conditions@.len() as int),
                        *self == (ConditionExpression::And { conditions: *conditions }) || *self == (ConditionExpression::Or { conditions: *conditions }),
                    decreases conditions@.len() - i,
                {
                    proof {
                        if *self is And {
                            assert(decreases_to!(*self => (*self)->And_conditions));
                        } else {
                            assert(decreases_to!(*self => (*self)->Or_conditions));
                        }
                        assert(decreases_to!(*self => conditions@[i as int]));
                    }
                    proof {
                        lemma_total_of_monotone(conditions@, i as int + 1, conditions@.len() as int);
                    }
                    let count = conditions[i].condition_count();
                    total = total + count;
                    i += 1;
                }
                total
            },
        }
    }
}

proof fn lemma_prefix_match(s: Seq<ConditionExpression>, m: int, n: int, context: RuleContext)
    requires
        1 <= m <= n <= s.len(),
    ensures
        !all_match(s, m, context) ==> !all_match(s, n, context),
        any_match(s, m, context) ==> any_match(s, n, context),
    decreases n - m,
{
    if m < n {
        lemma_prefix_match(s, m, n - 1, context);
    }
}

proof fn lemma_total_of_monotone(s: Seq<ConditionExpression>, m: int, n: int)
    requires
        0 <= m <= n <= s.len(),
    ensures
        condition_total_of(s, m) <= condition_total_of(s, n),
        m >= 1 ==> condition_total(s[m - 1]) <= condition_total_of(s, n),
    decreases n - m,
{
    if m < n {
        lemma_total_of_monotone(s, m, n - 1);
    }
}

/// Groups with no members never hold, whether all-of or any-of.
pub proof fn lemma_empty_groups_never_match(
    conditions: Vec<ConditionExpression>,
    context: RuleContext,
)
    requires
        conditions@.len() == 0,
    ensures
        !expression_matches(ConditionExpression::And { conditions }, context),
        !expression_matches(ConditionExpression::Or { conditions }, context),
{
}

} // verus!

verus! {

/// A named rule: when its condition holds, its action applies.
#[derive(Debug)]
pub struct LightRule {
    pub id: String,
    pub name: String,
    pub enabled: bool,
    pub when: ConditionExpression,
    pub action: LightAction,
}

/// The outcome of evaluating the rules: the action, and which rule chose it.
#[derive(Debug)]
pub struct RuleDecision {
    pub action: LightAction,
    pub matched_rule_id: Option<String>,
    pub matched_rule_name: Option<String>,
}

/// Whether `rule` is enabled and its condition holds.
pub open spec fn rule_fires(rule: LightRule, context: RuleContext) -> bool {
    rule.enabled && expression_matches(rule.when, context)
}

/// The index of the first rule from `start` on that fires, or the length
/// of `rules` when none does.
pub open spec fn first_firing(rules: Seq<LightRule>, context: RuleContext, start: int) -> int
    decreases rules.len() - start,
{
    if start < 0 || start >= rules.len() {
        rules.len() as int
    } else if rule_fires(rules[start], context) {
        start
    } else {
        first_firing(rules, context, start + 1)
    }
}

/// `first_firing` finds the first rule that fires: none before it fires,
/// and it fires unless it is past the end.
pub proof fn lemma_first_firing(rules: Seq<LightRule>, context: RuleContext, start: int)
    requires
        0 <= start <= rules.len(),
    ensures
        start <= first_firing(rules, context, start) <= rules.len(),
        first_firing(rules, context, start) < rules.len() ==> rule_fires(
            rules[first_firing(rules, context, start)],
            context,
        ),
        forall|j: int|
            start <= j < first_firing(rules, context, start) ==> !#[trigger] rule_fires(
                rules[j],
                context,
            ),
    decreases rules.len() - start,
{
    if start < rules.len() && !rule_fires(rules[start], context) {
        lemma_first_firing(rules, context, start + 1);
    }
}

/// Evaluates the rules in order: the first enabled rule whose condition
/// holds decides; when none does, `fallback` applies.
pub fn evaluate_rules(rules: &[LightRule], fallback: LightAction, context: &RuleContext) -> (r:
    RuleDecision)
    ensures
        ({
            let k = first_firing(rules@, *context, 0);
            if k < rules@.len() {
                &&& r.action == rules@[k].action
                &&& text_of(r.matched_rule_id) == Some(rules@[k].id@)
                &&& text_of(r.matched_rule_name) == Some(rules@[k].name@)
            } else {
                &&& r.action == fallback
                &&& r.matched_rule_id is None
                &&& r.matched_rule_name is None
            }
        }),
{
    let mut i: usize = 0;
    while i < rules.len()
        invariant
            0 <= i <= rules@.len(),
            first_firing(rules@, *context, 0) == first_firing(rules@, *context, i as int),
        decreases rules@.len() - i,
    {
        let rule = &rules[i];
        if rule.enabled && rule.when.matches(context) {
            return RuleDecision {
                action: rule.action,
                matched_rule_id: Some(rule.id.clone()),
                matched_rule_name: Some(rule.name.clone()),
            };
        }
        i += 1;
    }
    RuleDecision { action: fallback, matched_rule_id: None, matched_rule_name: None }
}

/// How large a difference between the brightness the controller set and
/// the one the monitor reports counts as a change by hand, and how long
/// automatic control then stays off.
#[derive(Clone, Copy, Debug, PartialEq, Eq, Structural)]
pub struct ManualOverrideConfig {
    pub detection_threshold: i32,
    pub grace_period_ms: u64,
}

impl ManualOverrideConfig {
    /// A threshold of four points and a grace period of fifteen minutes.
    pub fn default() -> (r: Self)
        ensures
            r.detection_threshold == 4,
            r.grace_period_ms == 900_000,
    {
        ManualOverrideConfig { detection_threshold: 4, grace_period_ms: 15 * 60 * 1000 }
    }
}

/// `a + b`, or `u64::MAX` where that does not fit.
pub open spec fn saturating_sum(a: int, b: int) -> int {
    if a + b > u64::MAX {
        u64::MAX as int
    } else {
        a + b
    }
}

/// The absolute value of `x`.
pub open spec fn abs(x: int) -> int {
    if x < 0 {
        -x
    } else {
        x
    }
}

/// Whether a reading counts as a change by hand under `config`.
pub open spec fn override_detected(
    config: ManualOverrideConfig,
    expected: int,
    observed: int,
    transition_active: bool,
) -> bool {
    let threshold = if config.detection_threshold < 1 {
        1
    } else {
        config.detection_threshold as int
    };
    !transition_active && abs(expected - observed) >= threshold
}

/// A change by hand is detected exactly when no transition runs and the
/// reading lies at least the configured threshold (and at least one) away
/// from the expected brightness, in either direction; a reading closer
/// than the configured threshold is never one.
pub proof fn lemma_override_threshold_is_the_configured_one(
    config: ManualOverrideConfig,
    expected: int,
    observed: int,
    transition_active: bool,
)
    ensures
        override_detected(config, expected, observed, transition_active) <==> (!transition_active
            && (expected - observed >= config.detection_threshold || observed - expected
            >= config.detection_threshold) && (expected - observed >= 1 || observed - expected
            >= 1)),
        (expected - observed < config.detection_threshold && observed - expected
            < config.detection_threshold) ==> !override_detected(
            config,
            expected,
            observed,
            transition_active,
        ),
{
}

/// Detects changes made by hand and suppresses automatic control for a
/// grace period after each.
#[derive(Clone, Debug)]
pub struct ManualOverrideGuard {
    config: ManualOverrideConfig,
    suppressed_until_ms: Option<u64>,
}

impl ManualOverrideGuard {
    /// The configuration.
    pub closed spec fn settings(self) -> ManualOverrideConfig {
        self.config
    }

    /// The time until which control is suppressed, if any.
    pub closed spec fn deadline(self) -> Option<u64> {
        self.suppressed_until_ms
    }

    /// Whether control is suppressed at `now_ms`.
    pub open spec fn suppressed_at(self, now_ms: int) -> bool {
        self.deadline() matches Some(d) && now_ms < d
    }

    /// The time left of the suppression at `now_ms`, if any is left.
    pub open spec fn remaining_at(self, now_ms: int) -> Option<u64> {
        match self.deadline() {
            Some(d) => if now_ms < d {
                Some((d - now_ms) as u64)
            } else {
                None
            },
            None => None,
        }
    }

    /// A guard with `config` that suppresses nothing yet.
    pub closed spec fn unsuppressed(config: ManualOverrideConfig) -> Self {
        ManualOverrideGuard { config, suppressed_until_ms: None }
    }

    /// The guard after a reading at `now_ms`: suppressing until the grace
    /// period has passed when the reading is a change by hand, unchanged
    /// otherwise.
    pub closed spec fn after_reading(
        self,
        now_ms: int,
        expected: int,
        observed: int,
        transition_active: bool,
    ) -> Self {
        if override_detected(self.config, expected, observed, transition_active) {
            ManualOverrideGuard {
                config: self.config,
                suppressed_until_ms: Some(
                    saturating_sum(now_ms, self.config.grace_period_ms as int) as u64,
                ),
            }
        } else {
            self
        }
    }

    /// The guard with its suppression ended.
    pub closed spec fn cleared(self) -> Self {
        ManualOverrideGuard { config: self.config, suppressed_until_ms: None }
    }

    /// A guard that suppresses nothing yet.
    pub fn new(config: ManualOverrideConfig) -> (r: Self)
        ensures
            r.settings() == config,
            r.deadline() is None,
            r == Self::unsuppressed(config),
    {
        ManualOverrideGuard { config, suppressed_until_ms: None }
    }

    /// Checks a reading. When no transition runs and the reading differs
    /// from the expected brightness by at least the threshold (at least
    /// one), suppression starts for the grace period and `true` comes back.
    pub fn observe(
        &mut self,
        now_ms: u64,
        expected_brightness: i32,
        observed_brightness: i32,
        transition_active: bool,
    ) -> (r: bool)
        requires
            !transition_active ==> i32::MIN < expected_brightness - observed_brightness
                <= i32::MAX,
        ensures
            *final(self) == old(self).after_reading(
                now_ms as int,
                expected_brightness as int,
                observed_brightness as int,
                transition_active,
            ),
            r == override_detected(
                old(self).settings(),
                expected_brightness as int,
                observed_brightness as int,
                transition_active,
            ),
            final(self).settings() == old(self).settings(),
            r ==> final(self).deadline() == Some(
                saturating_sum(now_ms as int, old(self).settings().grace_period_ms as int) as u64,
            ),
            !r ==> final(self).deadline() == old(self).deadline(),
            r == (!transition_active && (expected_brightness - observed_brightness >= (if old(
                self,
            ).settings().detection_threshold < 1 {
                1
            } else {
                old(self).settings().detection_threshold as int
            }) || observed_brightness - expected_brightness >= (if old(
                self,
            ).settings().detection_threshold < 1 {
                1
            } else {
                old(self).settings().detection_threshold as int
            }))),
    {
        let threshold = if self.config.detection_threshold < 1 {
            1
        } else {
            self.config.detection_threshold
        };
        if transition_active {
            return false;
        }
        let difference = expected_brightness - observed_brightness;
        let distance = if difference < 0 {
            -difference
        } else {
            difference
        };
        if distance >= threshold {
            self.suppressed_until_ms = Some(now_ms.saturating_add(self.config.grace_period_ms));
            true
        } else {
            false
        }
    }

    /// Whether control is suppressed at `now_ms`.
    pub fn is_suppressed(&self, now_ms: u64) -> (r: bool)
        ensures
            r == self.suppressed_at(now_ms as int),
    {
        match self.suppressed_until_ms {
            Some(deadline) => now_ms < deadline,
            None => false,
        }
    }

    /// The time left of the suppression at `now_ms`; `None` when none is left.
    pub fn remaining_ms(&self, now_ms: u64) -> (r: Option<u64>)
        ensures
            r == self.remaining_at(now_ms as int),
    {
        match self.suppressed_until_ms {
            Some(deadline) => {
                if now_ms < deadline {
                    Some(deadline - now_ms)
                } else {
                    None
                }
            },
            None => None,
        }
    }

    /// Ends any suppression.
    pub fn clear(&mut self)
        ensures
            final(self).settings() == old(self).settings(),
            final(self).deadline() is None,
            *final(self) == old(self).cleared(),
    {
        self.suppressed_until_ms = None;
    }
}

/// Time is left of a suppression exactly while it is in force.
pub proof fn lemma_remaining_iff_suppressed(guard: ManualOverrideGuard, now_ms: u64)
    ensures
        guard.remaining_at(now_ms as int) is Some <==> guard.suppressed_at(now_ms as int),
        guard.remaining_at(now_ms as int) matches Some(left) ==> left > 0,
{
}

/// A change by hand detected at `now` suppresses control from then until
/// the grace period has passed, and no longer.
pub proof fn lemma_detection_suppresses_for_grace_period(
    guard: ManualOverrideGuard,
    now: u64,
    later: u64,
)
    requires
        guard.deadline() == Some(
            saturating_sum(now as int, guard.settings().grace_period_ms as int) as u64,
        ),
        now as int + guard.settings().grace_period_ms as int <= u64::MAX,
    ensures
        guard.suppressed_at(later as int) <==> (later < now as int
            + guard.settings().grace_period_ms as int),
{
}

} // verus!

verus! {

/// Settings of the lux smoothing filter: the width of its median window and
/// how fast the smoothed value follows rising and falling readings.
#[derive(Clone, Copy, Debug)]
pub struct LogLuxFilterConfig {
    pub median_window: usize,
    pub rise_alpha: F64Bits,
    pub fall_alpha: F64Bits,
}

/// Whether `alpha` lies in `(0, 1]` (a NaN does not).
pub open spec fn alpha_in_range(alpha: F64Bits) -> bool {
    F64Bits { bits: 0 }.at_most(alpha) && alpha.at_most(F64Bits { bits: 0x3ff0000000000000 })
        && !alpha.same_value(F64Bits { bits: 0 })
}

/// The message for a median window out of range.
pub open spec fn median_window_message() -> Seq<char> {
    "median_window must be in 1..=31"@
}

/// The message for a rise factor out of range.
pub open spec fn rise_alpha_message() -> Seq<char> {
    "rise_alpha must be in (0, 1]"@
}

/// The message for a fall factor out of range.
pub open spec fn fall_alpha_message() -> Seq<char> {
    "fall_alpha must be in (0, 1]"@
}

/// Whether `alpha` lies in `(0, 1]`, as IEEE 754 compares.
fn alpha_ok(alpha: F64Bits) -> (r: bool)
    ensures
        r == alpha_in_range(alpha),
{
    let zero = F64Bits::from_bits(0);
    let one = F64Bits::from_bits(0x3ff0000000000000);
    zero.le(&alpha) && alpha.le(&one) && !alpha.equals(&zero)
}

impl LogLuxFilterConfig {
    /// A window of three readings, rising at 0.35 and falling at 0.22.
    pub fn default() -> (r: Self)
        ensures
            r.median_window == 3,
            r.rise_alpha.bits == 0x3fd6666666666666,
            r.fall_alpha.bits == 0x3fcc28f5c28f5c29,
    {
        LogLuxFilterConfig {
            median_window: 3,
            rise_alpha: F64Bits::from_bits(0x3fd6666666666666),
            fall_alpha: F64Bits::from_bits(0x3fcc28f5c28f5c29),
        }
    }

    /// Returns the settings unchanged when the window lies in `1..=31` and
    /// both factors in `(0, 1]`; otherwise the error for the first setting
    /// out of range, in that order.
    pub fn validate(self) -> (r: Result<Self, CoreError>)
        ensures
            r is Ok <==> (1 <= self.median_window <= 31 && alpha_in_range(self.rise_alpha)
                && alpha_in_range(self.fall_alpha)),
            r matches Ok(v) ==> v == self,
            !(1 <= self.median_window <= 31) ==> (r matches Err(e) && configuration_message(e)
                == median_window_message()),
            (1 <= self.median_window <= 31) && !alpha_in_range(self.rise_alpha) ==> (r matches Err(
                e,
            ) && configuration_message(e) == rise_alpha_message()),
            (1 <= self.median_window <= 31) && alpha_in_range(self.rise_alpha) && !alpha_in_range(
                self.fall_alpha,
            ) ==> (r matches Err(e) && configuration_message(e) == fall_alpha_message()),
    {
        if self.median_window == 0 || self.median_window > 31 {
            return Err(
                CoreError::InvalidConfiguration(String::from_str("median_window must be in 1..=31")),
            );
        }
        if !alpha_ok(self.rise_alpha) {
            return Err(
                CoreError::InvalidConfiguration(String::from_str("rise_alpha must be in (0, 1]")),
            );
        }
        if !alpha_ok(self.fall_alpha) {
            return Err(
                CoreError::InvalidConfiguration(String::from_str("fall_alpha must be in (0, 1]")),
            );
        }
        Ok(self)
    }
}

} // verus!

verus! {

/// One point of the curve from ambient light to monitor brightness.
#[derive(Clone, Copy, Debug)]
pub struct SensorCurvePoint {
    pub lux: F64Bits,
    pub brightness: i32,
}

/// The built-in curve: 20 lux to 40 %, 80 lux to 72 %, 250 lux to 88 %.
pub fn default_sensor_curve() -> (r: Vec<SensorCurvePoint>)
    ensures
        r@.len() == 3,
        r@[0].lux.bits == 0x4034000000000000 && r@[0].brightness == 40,
        r@[1].lux.bits == 0x4054000000000000 && r@[1].brightness == 72,
        r@[2].lux.bits == 0x406f400000000000 && r@[2].brightness == 88,
{
    let mut r: Vec<SensorCurvePoint> = Vec::new();
    r.push(SensorCurvePoint { lux: F64Bits::from_bits(0x4034000000000000), brightness: 40 });
    r.push(SensorCurvePoint { lux: F64Bits::from_bits(0x4054000000000000), brightness: 72 });
    r.push(SensorCurvePoint { lux: F64Bits::from_bits(0x406f400000000000), brightness: 88 });
    r
}

} // verus!
