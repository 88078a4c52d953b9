use vstd::prelude::*;
use crate::control::{ConditionExpression, LightCondition};
use crate::device::{DiscoveryPolicy, UsbId};
use crate::ipc::{
    DeviceConnectionState, DeviceSnapshot, HealthLevel, IpcErrorCode, IpcWireError, MonitorSnapshot,
    RelaySnapshot,
};
use crate::protocol::{negotiated, Capability, DeviceInfo, RelayStatus};
use crate::text::text_of;

verus! {

/// The USB id of the ESP32-C3 the sensor is built on.
pub open spec fn esp32_c3_usb_id() -> UsbId {
    UsbId { vid: 0x303a, pid: 0x1001 }
}

/// The CPU use over an interval, in hundredths of a percent of one logical
/// core: the CPU time spent in it (zero when the counter went back), times
/// ten thousand (saturating), divided by its length (at least one), and
/// capped at `u32::MAX`.
pub open spec fn cpu_basis_points(previous_cpu_ms: u64, current_cpu_ms: u64, elapsed_ms: u64) -> int {
    let spent = if current_cpu_ms >= previous_cpu_ms {
        current_cpu_ms - previous_cpu_ms
    } else {
        0
    };
    let scaled = if spent * 10_000 > u64::MAX {
        u64::MAX as int
    } else {
        spent * 10_000
    };
    let elapsed = if elapsed_ms < 1 {
        1
    } else {
        elapsed_ms as int
    };
    let ratio = scaled / elapsed;
    if ratio > u32::MAX {
        u32::MAX as int
    } else {
        ratio
    }
}

/// The CPU use over an interval, in basis points of one logical core.
pub fn cpu_usage_basis_points(previous_cpu_ms: u64, current_cpu_ms: u64, elapsed_ms: u64) -> (r:
    u32)
    ensures
        r == cpu_basis_points(previous_cpu_ms, current_cpu_ms, elapsed_ms),
{
    let spent = current_cpu_ms.saturating_sub(previous_cpu_ms);
    let scaled: u64 = if spent > u64::MAX / 10_000 {
        u64::MAX
    } else {
        spent * 10_000
    };
    let elapsed = if elapsed_ms < 1 {
        1
    } else {
        elapsed_ms
    };
    let ratio = scaled / elapsed;
    if ratio > u32::MAX as u64 {
        u32::MAX
    } else {
        ratio as u32
    }
}

/// The ports the agent probes: USB ports with the sensor's id only.
pub fn agent_discovery_policy() -> (r: DiscoveryPolicy)
    ensures
        r.allowed_usb_ids@ == seq![esp32_c3_usb_id()],
        r.preferred_port is None,
        !r.probe_all_usb_when_allowlist_empty,
        !r.probe_non_usb_ports,
{
    let mut ids: Vec<UsbId> = Vec::new();
    ids.push(UsbId { vid: 0x303a, pid: 0x1001 });
    DiscoveryPolicy {
        allowed_usb_ids: ids,
        preferred_port: None,
        probe_all_usb_when_allowlist_empty: false,
        probe_non_usb_ports: false,
    }
}

/// The sum of the known current brightnesses of the first `n` monitors.
pub open spec fn known_sum(monitors: Seq<MonitorSnapshot>, n: int) -> int
    decreases n,
{
    if n <= 0 || n > monitors.len() {
        0
    } else {
        known_sum(monitors, n - 1) + match monitors[n - 1].current_percent {
            Some(p) => p as int,
            None => 0,
        }
    }
}

/// The number of the first `n` monitors whose brightness is known.
pub open spec fn known_count(monitors: Seq<MonitorSnapshot>, n: int) -> int
    decreases n,
{
    if n <= 0 || n > monitors.len() {
        0
    } else {
        known_count(monitors, n - 1) + if monitors[n - 1].current_percent is Some {
            1int
        } else {
            0int
        }
    }
}

/// The quotient of `a` by `b`, rounded towards zero as Rust divides.
pub open spec fn div_toward_zero(a: int, b: int) -> int {
    if a >= 0 {
        a / b
    } else {
        -((-a) / b)
    }
}

proof fn lemma_known_bounds(monitors: Seq<MonitorSnapshot>, n: int)
    requires
        0 <= n <= monitors.len(),
    ensures
        0 <= known_count(monitors, n) <= n,
        i32::MIN * known_count(monitors, n) <= known_sum(monitors, n) <= i32::MAX * known_count(
            monitors,
            n,
        ),
    decreases n,
{
    if n > 0 {
        lemma_known_bounds(monitors, n - 1);
    }
}

/// The mean of the known current brightnesses, rounded towards zero; `None`
/// when none is known.
pub fn mean_brightness(monitors: &[MonitorSnapshot]) -> (r: Option<i32>)
    requires
        monitors@.len() <= u32::MAX,
    ensures
        known_count(monitors@, monitors@.len() as int) == 0 ==> r is None,
        known_count(monitors@, monitors@.len() as int) > 0 ==> r == Some(
            div_toward_zero(
                known_sum(monitors@, monitors@.len() as int),
                known_count(monitors@, monitors@.len() as int),
            ) as i32,
        ),
{
    let mut sum: i64 = 0;
    let mut count: i64 = 0;
    let mut i: usize = 0;
    while i < monitors.len()
        invariant
            0 <= i <= monitors@.len(),
            monitors@.len() <= u32::MAX,
            sum == known_sum(monitors@, i as int),
            count == known_count(monitors@, i as int),
        decreases monitors@.len() - i,
    {
        proof {
            lemma_known_bounds(monitors@, i as int);
        }
        assert(i32::MIN * count <= sum <= i32::MAX * count) by (nonlinear_arith)
            requires
                i32::MIN * known_count(monitors@, i as int) <= known_sum(monitors@, i as int)
                    <= i32::MAX * known_count(monitors@, i as int),
                sum == known_sum(monitors@, i as int),
                count == known_count(monitors@, i as int),
        ;
        assert(0 <= count <= u32::MAX);
        assert(i32::MIN * 4_294_967_295 <= sum <= i32::MAX * 4_294_967_295) by (nonlinear_arith)
            requires
                i32::MIN * count <= sum <= i32::MAX * count,
                0 <= count <= 4_294_967_295,
        ;
        match monitors[i].current_percent {
            Some(p) => {
                sum = sum + p as i64;
                count = count + 1;
            },
            None => {},
        }
        i += 1;
    }
    if count == 0 {
        return None;
    }
    proof {
        lemma_known_bounds(monitors@, monitors@.len() as int);
    }
    let mean = if sum >= 0 {
        sum / count
    } else {
        -((-sum) / count)
    };
    assert(i32::MIN <= mean <= i32::MAX) by (nonlinear_arith)
        requires
            count > 0,
            i32::MIN * count <= sum <= i32::MAX * count,
            sum >= 0 ==> mean == sum as int / count as int,
            sum < 0 ==> mean == -((-(sum as int)) / count as int),
    ;
    Some(mean as i32)
}

/// Whether some condition of an expression depends on the weather.
pub open spec fn uses_weather(e: ConditionExpression) -> bool
    decreases e, 1nat,
{
    match e {
        ConditionExpression::Condition { condition } => condition is WeatherIs,
        ConditionExpression::And { conditions } => any_uses_weather(
            conditions@,
            conditions@.len() as int,
        ),
        ConditionExpression::Or { conditions } => any_uses_weather(
            conditions@,
            conditions@.len() as int,
        ),
    }
}

/// Whether one of the first `n` members of `s` depends on the weather.
pub open spec fn any_uses_weather(s: Seq<ConditionExpression>, n: int) -> bool
    decreases s, n,
{
    if n <= 0 || n > s.len() {
        false
    } else {
        any_uses_weather(s, n - 1) || uses_weather(s[n - 1])
    }
}

proof fn lemma_any_uses_weather_grows(s: Seq<ConditionExpression>, m: int, n: int)
    requires
        1 <= m <= n <= s.len(),
    ensures
        any_uses_weather(s, m) ==> any_uses_weather(s, n),
    decreases n - m,
{
    if m < n {
        lemma_any_uses_weather_grows(s, m, n - 1);
    }
}

/// Whether some condition of `expression` depends on the weather.
pub fn expression_uses_weather(expression: &ConditionExpression) -> (r: bool)
    ensures
        r == uses_weather(*expression),
    decreases expression,
{
    match expression {
        ConditionExpression::Condition { condition } => match condition {
            LightCondition::WeatherIs { .. } => true,
            _ => false,
        },
        ConditionExpression::And { conditions } | ConditionExpression::Or { conditions } => {
            let mut i: usize = 0;
            while i < conditions.len()
                invariant
                    0 <= i <= conditions@.len(),
                    *expression == (ConditionExpression::And { conditions: *conditions })
                        || *expression == (ConditionExpression::Or { conditions: *conditions }),
                    !any_uses_weather(conditions@, i as int),
                decreases conditions@.len() - i,
            {
                proof {
                    if *expression is And {
                        assert(decreases_to!(*expression => (*expression)->And_conditions));
                    } else {
                        assert(decreases_to!(*expression => (*expression)->Or_conditions));
                    }
                    assert(decreases_to!(*expression => conditions@[i as int]));
                    lemma_any_uses_weather_grows(
                        conditions@,
                        i as int + 1,
                        conditions@.len() as int,
                    );
                }
                if expression_uses_weather(&conditions[i]) {
                    return true;
                }
                i += 1;
            }
            false
        },
    }
}

/// An error to send to a client.
pub fn wire_error(code: IpcErrorCode, message: String) -> (r: IpcWireError)
    ensures
        r.code == code,
        r.message@ == message@,
{
    IpcWireError { code, message }
}

/// Turns starting the agent at login on or off; the platform provides it.
pub trait StartupRegistration {
    /// Registers or unregisters the agent, or says why it could not.
    fn set_enabled(&self, enabled: bool) -> Result<(), String>;
}

/// The label of the pause item of the agent's tray menu.
pub fn pause_label(paused: bool) -> (r: &'static str)
    ensures
        r@ == (if paused {
            "Resume automatic control"@
        } else {
            "Pause automatic control"@
        }),
{
    if paused {
        "Resume automatic control"
    } else {
        "Pause automatic control"
    }
}

} // verus!

verus! {

/// Whether some of the monitors can be controlled.
pub open spec fn any_qualified(monitors: Seq<MonitorSnapshot>) -> bool {
    exists|i: int| 0 <= i < monitors.len() && #[trigger] monitors[i].qualified
}

/// Whether some monitor reports an error.
pub open spec fn any_monitor_error(monitors: Seq<MonitorSnapshot>) -> bool {
    exists|i: int| 0 <= i < monitors.len() && #[trigger] monitors[i].last_error is Some
}

/// The health of the agent and its status line, the first that applies:
/// paused; no monitor to control; no sensor; no valid reading; a monitor in
/// error; weather unavailable; all well.
pub open spec fn health_of(
    paused: bool,
    monitors: Seq<MonitorSnapshot>,
    device_state: DeviceConnectionState,
    sensor_valid: bool,
    weather_failing: bool,
) -> (HealthLevel, Seq<char>) {
    if paused {
        (HealthLevel::Healthy, "Automatic control paused"@)
    } else if !any_qualified(monitors) {
        (HealthLevel::Fault, "No compatible DDC/CI monitor"@)
    } else if device_state != DeviceConnectionState::Connected {
        (HealthLevel::Degraded, "Looking for Lumi sensor"@)
    } else if !sensor_valid {
        (HealthLevel::Degraded, "Waiting for a valid light reading"@)
    } else if any_monitor_error(monitors) {
        (HealthLevel::Degraded, "A monitor needs attention"@)
    } else if weather_failing {
        (HealthLevel::Degraded, "Weather data is temporarily unavailable"@)
    } else {
        (HealthLevel::Healthy, "Automatic control is working"@)
    }
}

/// Whether some monitor satisfies the check: qualified, or in error.
fn any_monitor(monitors: &[MonitorSnapshot], qualified: bool) -> (r: bool)
    ensures
        qualified ==> r == any_qualified(monitors@),
        !qualified ==> r == any_monitor_error(monitors@),
{
    let mut i: usize = 0;
    while i < monitors.len()
        invariant
            0 <= i <= monitors@.len(),
            qualified ==> forall|j: int| 0 <= j < i ==> !(#[trigger] monitors@[j]).qualified,
            !qualified ==> forall|j: int| 0 <= j < i ==> (#[trigger] monitors@[j]).last_error is None,
        decreases monitors@.len() - i,
    {
        let hit = if qualified {
            monitors[i].qualified
        } else {
            monitors[i].last_error.is_some()
        };
        if hit {
            return true;
        }
        i += 1;
    }
    false
}

/// The health of the agent and its status line.
pub fn assess_health(
    paused: bool,
    monitors: &[MonitorSnapshot],
    device_state: DeviceConnectionState,
    sensor_valid: bool,
    environment_configured: bool,
    environment_has_error: bool,
) -> (r: (HealthLevel, String))
    ensures
        ({
            let expected = health_of(
                paused,
                monitors@,
                device_state,
                sensor_valid,
                environment_configured && environment_has_error,
            );
            r.0 == expected.0 && r.1@ == expected.1
        }),
{
    if paused {
        (HealthLevel::Healthy, String::from_str("Automatic control paused"))
    } else if !any_monitor(monitors, true) {
        (HealthLevel::Fault, String::from_str("No compatible DDC/CI monitor"))
    } else if device_state != DeviceConnectionState::Connected {
        (HealthLevel::Degraded, String::from_str("Looking for Lumi sensor"))
    } else if !sensor_valid {
        (HealthLevel::Degraded, String::from_str("Waiting for a valid light reading"))
    } else if any_monitor(monitors, false) {
        (HealthLevel::Degraded, String::from_str("A monitor needs attention"))
    } else if environment_configured && environment_has_error {
        (HealthLevel::Degraded, String::from_str("Weather data is temporarily unavailable"))
    } else {
        (HealthLevel::Healthy, String::from_str("Automatic control is working"))
    }
}

/// Pausing always reads as healthy, whatever else holds.
pub proof fn lemma_paused_is_healthy(
    monitors: Seq<MonitorSnapshot>,
    device_state: DeviceConnectionState,
    sensor_valid: bool,
    weather_failing: bool,
)
    ensures
        health_of(true, monitors, device_state, sensor_valid, weather_failing).0
            == HealthLevel::Healthy,
{
}

/// Records a connected device in the snapshots: its identity, the port,
/// the number of connections so far, no error, and whether a relay is
/// available.
pub fn record_connected(
    device: &mut DeviceSnapshot,
    relay: &mut RelaySnapshot,
    info: DeviceInfo,
    port_name: String,
    reconnect_count: u64,
)
    ensures
        final(device).state == DeviceConnectionState::Connected,
        text_of(final(device).product_id) == Some(info.product_id@),
        text_of(final(device).serial_number) == Some(info.serial_number@),
        text_of(final(device).port_name) == Some(port_name@),
        text_of(final(device).hardware_version) == Some(info.hardware_version@),
        text_of(final(device).firmware_version) == Some(info.firmware_version@),
        text_of(final(device).bootloader_version) == Some(info.bootloader_version@),
        final(device).protocol_min == Some(info.protocol_min),
        final(device).protocol_max == Some(info.protocol_max),
        final(device).negotiated_protocol == negotiated(
            info.protocol_min as int,
            info.protocol_max as int,
        ),
        final(device).capabilities@ == info.capabilities@,
        final(device).reconnect_count == reconnect_count,
        final(device).last_error is None,
        final(relay).available == info.capabilities@.contains(Capability::Relay),
        final(relay).energized == old(relay).energized,
        final(relay).light_on == old(relay).light_on,
{
    let negotiated_protocol = info.negotiated_protocol();
    let relay_available = info.supports(Capability::Relay);
    device.state = DeviceConnectionState::Connected;
    device.product_id = Some(info.product_id);
    device.serial_number = Some(info.serial_number);
    device.hardware_version = Some(info.hardware_version);
    device.firmware_version = Some(info.firmware_version);
    device.bootloader_version = Some(info.bootloader_version);
    device.protocol_min = Some(info.protocol_min);
    device.protocol_max = Some(info.protocol_max);
    device.negotiated_protocol = negotiated_protocol;
    device.port_name = Some(port_name);
    device.capabilities = info.capabilities;
    device.reconnect_count = reconnect_count;
    device.last_error = None;
    relay.available = relay_available;
}

/// Records that the device is unavailable and a reconnection waits: the
/// error, and no relay.
pub fn record_backoff(device: &mut DeviceSnapshot, relay: &mut RelaySnapshot, message: String)
    ensures
        *final(device) == (DeviceSnapshot {
            state: DeviceConnectionState::BackingOff,
            last_error: Some(message),
            ..*old(device)
        }),
        *final(relay) == (RelaySnapshot { available: false, ..*old(relay) }),
{
    device.state = DeviceConnectionState::BackingOff;
    device.last_error = Some(message);
    relay.available = false;
}

/// Records the outcome of switching the light: the relay's report and the
/// light state on success, the error otherwise.
pub fn record_relay_result(relay: &mut RelaySnapshot, light_on: bool, result: Result<RelayStatus, String>)
    ensures
        result is Ok ==> final(relay).available == result->Ok_0.available,
        result is Ok ==> final(relay).energized == result->Ok_0.energized,
        result is Ok ==> final(relay).light_on == Some(light_on),
        result is Ok ==> final(relay).last_error is None,
        result is Err ==> text_of(final(relay).last_error) == Some(result->Err_0@),
        result is Err ==> final(relay).available == old(relay).available,
        result is Err ==> final(relay).light_on == old(relay).light_on,
{
    match result {
        Ok(status) => {
            relay.available = status.available;
            relay.energized = status.energized;
            relay.light_on = Some(light_on);
            relay.last_error = None;
        },
        Err(error) => {
            relay.last_error = Some(error);
        },
    }
}

} // verus!
