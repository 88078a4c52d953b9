//! The decisions of the agent's core loop: what a device event, a system
//! event or a client's command does to the agent's state and snapshots,
//! and what the loop must do next. The loop itself, which owns the
//! channels, the clock and the workers, performs what these decide.

use vstd::prelude::*;
use crate::agent::{
    expression_uses_weather, record_backoff, record_connected, record_relay_result, uses_weather,
};
use crate::control::{energized_for, light_on_for, LightAction, LightRule, RelayContactMode};
use crate::float_bits::F64Bits;
use crate::ipc::{
    AgentCommand, DeviceConnectionState, DeviceSnapshot, IpcErrorCode, IpcWireError,
    MonitorSnapshot, RelaySnapshot,
};
use crate::link::LinkCommand;
use crate::monitors::{at_rest, stop_all_transitions};
use crate::protocol::{
    negotiated, Capability, DeviceInfo, DeviceStatus, RelayStatus, SampleQuality, SensorSample,
};
use crate::store::{
    listed_problems, settings_problems, RelaySettings, SettingsDocument, StoreError,
    WeatherSettings,
};
use crate::text::{decimal, joined, push_decimal_wide, push_joined, text_of};

verus! {

/// The counters and flags of the sensor's snapshot.
#[derive(Clone, Copy, Debug)]
pub struct SensorCounters {
    pub valid: bool,
    pub sequence_gaps: u64,
    pub malformed_frames: u64,
}

/// `n + 1`, or `n` at the top of the range.
pub open spec fn bumped(n: u64) -> u64 {
    if n == u64::MAX {
        u64::MAX
    } else {
        (n + 1) as u64
    }
}

/// An event of the device worker.
#[derive(Debug)]
pub enum DeviceWorkerEvent {
    /// A search for the device started.
    Discovering,
    /// A device answered; its status when it could be read.
    Connected { info: DeviceInfo, port_name: String, status: Option<DeviceStatus> },
    /// A light reading, and whether readings were lost before it.
    Sample { sample: SensorSample, sequence_gap: bool },
    /// Another message of the device, which the agent ignores.
    Other,
    /// A status report.
    Status(DeviceStatus),
    /// The device is unavailable; the next attempt waits `delay_nanos`.
    BackingOff { delay_nanos: u128, error: String },
    /// The outcome of switching the relay for the light to be `light_on`.
    RelayResult { light_on: bool, result: Result<RelayStatus, String> },
}

/// What the agent's loop still has to do after a device event.
#[derive(Debug)]
pub enum DeviceEventOutcome {
    Nothing,
    /// Smooth this valid reading and aim the monitors at it.
    ApplyLux { lux: F64Bits },
    /// Answer the client that asked for the relay.
    Reply(Result<(), IpcWireError>),
}

/// The message shown while a reconnection waits.
pub open spec fn backoff_message(error: Seq<char>, delay_nanos: u128) -> Seq<char> {
    error + "; retrying in "@ + decimal((delay_nanos / 1_000_000) as nat) + " ms"@
}

/// The light state read from a coil state, if one is known.
pub open spec fn light_state(mode: RelayContactMode, energized: Option<bool>) -> Option<bool> {
    match energized {
        Some(e) => Some(light_on_for(mode, e)),
        None => None,
    }
}

/// The reading to smooth, if the sample is valid and has a value.
pub open spec fn usable_lux(sample: SensorSample) -> Option<F64Bits> {
    if sample.quality == SampleQuality::Valid {
        sample.lux
    } else {
        None
    }
}

/// The state the agent's core keeps of the device, and the snapshots it
/// shows of it.
#[derive(Debug)]
pub struct AgentCore {
    /// Whether the system sleeps.
    pub suspended: bool,
    /// What the connected device can do; empty while none is connected.
    pub capabilities: Vec<Capability>,
    /// How many times a device connected.
    pub reconnect_count: u64,
    pub device: DeviceSnapshot,
    pub relay: RelaySnapshot,
    pub sensor: SensorCounters,
}

/// An event the operating system reports.
#[derive(Clone, Copy, Debug, PartialEq, Eq, Structural)]
pub enum SystemEvent {
    DisplayChanged,
    Suspend,
    Resume,
}

/// What the agent does on a system event.
#[derive(Clone, Copy, Debug, PartialEq, Eq, Structural)]
pub enum SystemStep {
    Ignore,
    /// Enumerate the monitors again.
    RefreshMonitors,
    /// Stop control and tell the device worker to sleep.
    Sleep,
    /// Forget the smoothed readings, enumerate the monitors again and tell
    /// the device worker to search.
    Wake,
}

/// The step for a system event: while the system sleeps only a resume
/// counts; while awake a resume is ignored.
pub open spec fn system_step(suspended: bool, event: SystemEvent) -> SystemStep {
    match event {
        SystemEvent::DisplayChanged => if suspended {
            SystemStep::Ignore
        } else {
            SystemStep::RefreshMonitors
        },
        SystemEvent::Suspend => if suspended {
            SystemStep::Ignore
        } else {
            SystemStep::Sleep
        },
        SystemEvent::Resume => if suspended {
            SystemStep::Wake
        } else {
            SystemStep::Ignore
        },
    }
}

/// Whether any rule that is on can switch the light.
pub open spec fn any_switching_rule(rules: Seq<LightRule>) -> bool {
    exists|i: int| 0 <= i < rules.len() && #[trigger] rules[i].enabled && rules[i].action
        != LightAction::Keep
}

/// Whether any rule that is on asks about the weather.
pub open spec fn any_weather_rule(rules: Seq<LightRule>) -> bool {
    exists|i: int| 0 <= i < rules.len() && #[trigger] rules[i].enabled && uses_weather(rules[i].when)
}

impl AgentCore {
    /// Awake, with no device known.
    pub fn new() -> (r: Self)
        ensures
            !r.suspended,
            r.capabilities@.len() == 0,
            r.reconnect_count == 0,
            r.device.state == DeviceConnectionState::Discovering,
            r.device.product_id is None && r.device.serial_number is None,
            r.device.hardware_version is None && r.device.firmware_version is None,
            r.device.bootloader_version is None && r.device.port_name is None,
            r.device.protocol_min is None && r.device.protocol_max is None,
            r.device.negotiated_protocol is None,
            r.device.capabilities@.len() == 0,
            r.device.reconnect_count == 0 && r.device.last_error is None,
            !r.relay.available && !r.relay.rules_enabled,
            r.relay.light_on is None && r.relay.energized is None,
            r.relay.matched_rule_id is None && r.relay.matched_rule_name is None,
            r.relay.last_error is None,
            !r.sensor.valid && r.sensor.sequence_gaps == 0 && r.sensor.malformed_frames == 0,
    {
        AgentCore {
            suspended: false,
            capabilities: Vec::new(),
            reconnect_count: 0,
            device: DeviceSnapshot::default(),
            relay: RelaySnapshot::default(),
            sensor: SensorCounters { valid: false, sequence_gaps: 0, malformed_frames: 0 },
        }
    }

    /// Whether the connected device has a relay.
    pub fn has_relay(&self) -> (r: bool)
        ensures
            r == self.capabilities@.contains(Capability::Relay),
    {
        let mut i: usize = 0;
        while i < self.capabilities.len()
            invariant
                0 <= i <= self.capabilities@.len(),
                forall|j: int| 0 <= j < i ==> self.capabilities@[j] != Capability::Relay,
            decreases self.capabilities@.len() - i,
        {
            if self.capabilities[i] == Capability::Relay {
                return true;
            }
            i += 1;
        }
        false
    }

    /// Shows a status report: the malformed frames counted, the relay as
    /// reported, and the light state its coil means with `contact_mode`.
    pub fn apply_device_status(&mut self, status: &DeviceStatus, contact_mode: RelayContactMode)
        ensures
            final(self).sensor.malformed_frames == status.malformed_frames,
            final(self).sensor.valid == old(self).sensor.valid,
            final(self).sensor.sequence_gaps == old(self).sensor.sequence_gaps,
            final(self).relay.available == status.relay.available,
            final(self).relay.energized == status.relay.energized,
            final(self).relay.light_on == light_state(contact_mode, status.relay.energized),
            final(self).relay.last_error == old(self).relay.last_error,
            final(self).relay.matched_rule_id == old(self).relay.matched_rule_id,
            final(self).device == old(self).device,
            final(self).suspended == old(self).suspended,
            final(self).capabilities == old(self).capabilities,
            final(self).reconnect_count == old(self).reconnect_count,
    {
        self.sensor.malformed_frames = status.malformed_frames as u64;
        self.relay.available = status.relay.available;
        self.relay.energized = status.relay.energized;
        self.relay.light_on = match status.relay.energized {
            Some(energized) => Some(contact_mode.light_on(energized)),
            None => None,
        };
    }

    /// Applies an event of the device worker. While the system sleeps
    /// nothing changes and a relay result is answered that the device is
    /// suspended. Otherwise: a search shows as discovering; a connection
    /// is counted and shows the device, its capabilities and its status; a
    /// reading counts lost readings and hands a valid value back to be
    /// smoothed, or shows the sensor invalid; a status report shows; a
    /// wait for reconnection forgets the capabilities and shows the error
    /// and the delay in milliseconds; a relay result shows and is answered.
    pub fn handle_device_event(
        &mut self,
        event: DeviceWorkerEvent,
        contact_mode: RelayContactMode,
    ) -> (r: DeviceEventOutcome)
        ensures
            old(self).suspended ==> {
                &&& final(self).suspended
                &&& final(self).capabilities@ == old(self).capabilities@
                &&& final(self).reconnect_count == old(self).reconnect_count
                &&& final(self).device == old(self).device
                &&& final(self).relay == old(self).relay
                &&& final(self).sensor == old(self).sensor
                &&& match event {
                    DeviceWorkerEvent::RelayResult { .. } => r matches DeviceEventOutcome::Reply(
                        Err(e),
                    ) && e.code == IpcErrorCode::HardwareUnavailable && e.message@
                        == "Lumi device is suspended"@,
                    _ => r is Nothing,
                }
            },
            !old(self).suspended ==> !final(self).suspended,
            !(event is Connected) ==> final(self).reconnect_count == old(self).reconnect_count,
            !old(self).suspended ==> match event {
                DeviceWorkerEvent::Discovering => {
                    &&& final(self).device == (DeviceSnapshot {
                        state: DeviceConnectionState::Discovering,
                        ..old(self).device
                    })
                    &&& final(self).capabilities@ == old(self).capabilities@
                    &&& final(self).relay == old(self).relay
                    &&& final(self).sensor == old(self).sensor
                    &&& r is Nothing
                },
                DeviceWorkerEvent::Connected { info, port_name, status } => {
                    &&& final(self).reconnect_count == bumped(old(self).reconnect_count)
                    &&& final(self).capabilities@ == info.capabilities@
                    &&& final(self).device.state == DeviceConnectionState::Connected
                    &&& text_of(final(self).device.product_id) == Some(info.product_id@)
                    &&& text_of(final(self).device.serial_number) == Some(info.serial_number@)
                    &&& text_of(final(self).device.port_name) == Some(port_name@)
                    &&& text_of(final(self).device.hardware_version) == Some(
                        info.hardware_version@,
                    )
                    &&& text_of(final(self).device.firmware_version) == Some(
                        info.firmware_version@,
                    )
                    &&& text_of(final(self).device.bootloader_version) == Some(
                        info.bootloader_version@,
                    )
                    &&& final(self).device.protocol_min == Some(info.protocol_min)
                    &&& final(self).device.protocol_max == Some(info.protocol_max)
                    &&& final(self).device.negotiated_protocol == negotiated(
                        info.protocol_min as int,
                        info.protocol_max as int,
                    )
                    &&& final(self).device.capabilities@ == info.capabilities@
                    &&& final(self).device.reconnect_count == final(self).reconnect_count
                    &&& final(self).device.last_error is None
                    &&& match status {
                        None => {
                            &&& final(self).relay.available == info.capabilities@.contains(
                                Capability::Relay,
                            )
                            &&& final(self).relay.energized == old(self).relay.energized
                            &&& final(self).relay.light_on == old(self).relay.light_on
                            &&& final(self).sensor == old(self).sensor
                        },
                        Some(s) => {
                            &&& final(self).relay.available == s.relay.available
                            &&& final(self).relay.energized == s.relay.energized
                            &&& final(self).relay.light_on == light_state(
                                contact_mode,
                                s.relay.energized,
                            )
                            &&& final(self).sensor.malformed_frames == s.malformed_frames
                            &&& final(self).sensor.valid == old(self).sensor.valid
                            &&& final(self).sensor.sequence_gaps == old(self).sensor.sequence_gaps
                        },
                    }
                    &&& r is Nothing
                },
                DeviceWorkerEvent::Sample { sample, sequence_gap } => {
                    &&& final(self).sensor.sequence_gaps == if sequence_gap {
                        bumped(old(self).sensor.sequence_gaps)
                    } else {
                        old(self).sensor.sequence_gaps
                    }
                    &&& final(self).sensor.malformed_frames == old(self).sensor.malformed_frames
                    &&& match usable_lux(sample) {
                        Some(lux) => r == DeviceEventOutcome::ApplyLux { lux }
                            && final(self).sensor.valid == old(self).sensor.valid,
                        None => r is Nothing && !final(self).sensor.valid,
                    }
                    &&& final(self).device == old(self).device
                    &&& final(self).relay == old(self).relay
                    &&& final(self).capabilities@ == old(self).capabilities@
                },
                DeviceWorkerEvent::Other => {
                    &&& final(self).device == old(self).device
                    &&& final(self).relay == old(self).relay
                    &&& final(self).sensor == old(self).sensor
                    &&& final(self).capabilities@ == old(self).capabilities@
                    &&& r is Nothing
                },
                DeviceWorkerEvent::Status(s) => {
                    &&& final(self).sensor.malformed_frames == s.malformed_frames
                    &&& final(self).sensor.valid == old(self).sensor.valid
                    &&& final(self).sensor.sequence_gaps == old(self).sensor.sequence_gaps
                    &&& final(self).relay.available == s.relay.available
                    &&& final(self).relay.energized == s.relay.energized
                    &&& final(self).relay.light_on == light_state(contact_mode, s.relay.energized)
                    &&& final(self).device == old(self).device
                    &&& final(self).capabilities@ == old(self).capabilities@
                    &&& r is Nothing
                },
                DeviceWorkerEvent::BackingOff { delay_nanos, error } => {
                    &&& final(self).capabilities@.len() == 0
                    &&& final(self).device == (DeviceSnapshot {
                        state: DeviceConnectionState::BackingOff,
                        last_error: final(self).device.last_error,
                        ..old(self).device
                    })
                    &&& text_of(final(self).device.last_error) == Some(
                        backoff_message(error@, delay_nanos),
                    )
                    &&& final(self).relay == (RelaySnapshot { available: false, ..old(self).relay })
                    &&& final(self).sensor == old(self).sensor
                    &&& r is Nothing
                },
                DeviceWorkerEvent::RelayResult { light_on, result } => {
                    &&& match result {
                        Ok(status) => {
                            &&& final(self).relay.available == status.available
                            &&& final(self).relay.energized == status.energized
                            &&& final(self).relay.light_on == Some(light_on)
                            &&& final(self).relay.last_error is None
                            &&& r == DeviceEventOutcome::Reply(Ok(()))
                        },
                        Err(error) => {
                            &&& text_of(final(self).relay.last_error) == Some(error@)
                            &&& final(self).relay.light_on == old(self).relay.light_on
                            &&& final(self).relay.available == old(self).relay.available
                            &&& r matches DeviceEventOutcome::Reply(Err(e)) && e.code
                                == IpcErrorCode::HardwareUnavailable && e.message@ == error@
                        },
                    }
                    &&& final(self).device == old(self).device
                    &&& final(self).sensor == old(self).sensor
                    &&& final(self).capabilities@ == old(self).capabilities@
                },
            },
    {
        if self.suspended {
            return match event {
                DeviceWorkerEvent::RelayResult { .. } => DeviceEventOutcome::Reply(
                    Err(
                        IpcWireError {
                            code: IpcErrorCode::HardwareUnavailable,
                            message: "Lumi device is suspended".to_string(),
                        },
                    ),
                ),
                _ => DeviceEventOutcome::Nothing,
            };
        }
        match event {
            DeviceWorkerEvent::Discovering => {
                self.device.state = DeviceConnectionState::Discovering;
                DeviceEventOutcome::Nothing
            },
            DeviceWorkerEvent::Connected { info, port_name, status } => {
                self.reconnect_count = self.reconnect_count.saturating_add(1);
                self.capabilities = info.capabilities.clone();
                record_connected(
                    &mut self.device,
                    &mut self.relay,
                    info,
                    port_name,
                    self.reconnect_count,
                );
                match status {
                    Some(s) => self.apply_device_status(&s, contact_mode),
                    None => {},
                }
                DeviceEventOutcome::Nothing
            },
            DeviceWorkerEvent::Sample { sample, sequence_gap } => {
                if sequence_gap {
                    self.sensor.sequence_gaps = self.sensor.sequence_gaps.saturating_add(1);
                }
                match (sample.quality, sample.lux) {
                    (SampleQuality::Valid, Some(lux)) => DeviceEventOutcome::ApplyLux { lux },
                    _ => {
                        self.sensor.valid = false;
                        DeviceEventOutcome::Nothing
                    },
                }
            },
            DeviceWorkerEvent::Other => DeviceEventOutcome::Nothing,
            DeviceWorkerEvent::Status(s) => {
                self.apply_device_status(&s, contact_mode);
                DeviceEventOutcome::Nothing
            },
            DeviceWorkerEvent::BackingOff { delay_nanos, error } => {
                self.capabilities.clear();
                let mut message = error;
                message.append("; retrying in ");
                push_decimal_wide(&mut message, delay_nanos / 1_000_000);
                message.append(" ms");
                proof {
                    reveal_strlit("; retrying in ");
                    reveal_strlit(" ms");
                }
                record_backoff(&mut self.device, &mut self.relay, message);
                DeviceEventOutcome::Nothing
            },
            DeviceWorkerEvent::RelayResult { light_on, result } => {
                let reply = match &result {
                    Ok(_) => Ok(()),
                    Err(error) => Err(
                        IpcWireError {
                            code: IpcErrorCode::HardwareUnavailable,
                            message: error.clone(),
                        },
                    ),
                };
                record_relay_result(&mut self.relay, light_on, result);
                DeviceEventOutcome::Reply(reply)
            },
        }
    }
}

/// Decides what a system event does.
pub fn decide_system_event(suspended: bool, event: SystemEvent) -> (r: SystemStep)
    ensures
        r == system_step(suspended, event),
{
    match event {
        SystemEvent::DisplayChanged => if suspended {
            SystemStep::Ignore
        } else {
            SystemStep::RefreshMonitors
        },
        SystemEvent::Suspend => if suspended {
            SystemStep::Ignore
        } else {
            SystemStep::Sleep
        },
        SystemEvent::Resume => if suspended {
            SystemStep::Wake
        } else {
            SystemStep::Ignore
        },
    }
}

impl AgentCore {
    /// The system goes to sleep: the sensor is invalid, the device shows
    /// as disconnected, the relay as unavailable and unknown, and no
    /// transition runs.
    pub fn enter_sleep(&mut self, monitors: &mut Vec<MonitorSnapshot>)
        ensures
            final(self).suspended,
            !final(self).sensor.valid,
            final(self).sensor.sequence_gaps == old(self).sensor.sequence_gaps,
            final(self).device.state == DeviceConnectionState::Disconnected,
            !final(self).relay.available,
            final(self).relay.energized is None,
            final(self).relay.light_on is None,
            final(self).capabilities@ == old(self).capabilities@,
            final(monitors)@ == old(monitors)@.map_values(at_rest()),
    {
        self.suspended = true;
        self.sensor.valid = false;
        self.device.state = DeviceConnectionState::Disconnected;
        self.relay.available = false;
        self.relay.energized = None;
        self.relay.light_on = None;
        stop_all_transitions(monitors);
    }

    /// The system woke up: the sensor is invalid until a new reading and the
    /// device shows as being searched for.
    pub fn wake(&mut self)
        ensures
            !final(self).suspended,
            !final(self).sensor.valid,
            final(self).device.state == DeviceConnectionState::Discovering,
            final(self).relay == old(self).relay,
            final(self).capabilities@ == old(self).capabilities@,
    {
        self.suspended = false;
        self.sensor.valid = false;
        self.device.state = DeviceConnectionState::Discovering;
    }

    /// What asking for the light to be `light_on` does: refused while the
    /// system sleeps or when the device has no relay; otherwise the relay
    /// command for the wiring.
    pub fn light_request(&self, contact_mode: RelayContactMode, light_on: bool) -> (r: Result<
        LinkCommand,
        IpcWireError,
    >)
        ensures
            self.suspended ==> (r matches Err(e) && e.code == IpcErrorCode::HardwareUnavailable
                && e.message@ == "Lumi device is suspended"@),
            !self.suspended && !self.capabilities@.contains(Capability::Relay) ==> (r matches Err(e)
                && e.code == IpcErrorCode::UnsupportedCapability && e.message@
                == "Connected hardware has no relay"@),
            !self.suspended && self.capabilities@.contains(Capability::Relay) ==> r == Ok::<
                LinkCommand,
                IpcWireError,
            >(LinkCommand::SetRelay { energized: energized_for(contact_mode, light_on), light_on }),
    {
        if self.suspended {
            return Err(
                IpcWireError {
                    code: IpcErrorCode::HardwareUnavailable,
                    message: "Lumi device is suspended".to_string(),
                },
            );
        }
        if !self.has_relay() {
            return Err(
                IpcWireError {
                    code: IpcErrorCode::UnsupportedCapability,
                    message: "Connected hardware has no relay".to_string(),
                },
            );
        }
        Ok(
            LinkCommand::SetRelay {
                energized: contact_mode.energized_for_light(light_on),
                light_on,
            },
        )
    }

    /// Whether the light rules run: the system is awake, they are on, and
    /// the device has a relay.
    pub fn relay_rules_active(&self, rules_enabled: bool) -> (r: bool)
        ensures
            r == (!self.suspended && rules_enabled && self.capabilities@.contains(
                Capability::Relay,
            )),
    {
        !self.suspended && rules_enabled && self.has_relay()
    }

    /// Whether the weather must be fetched: it is configured, the rules run
    /// on a device with a relay, and a rule that is on asks about it.
    pub fn weather_is_needed(&self, weather: &WeatherSettings, relay: &RelaySettings) -> (r: bool)
        ensures
            r == (weather.enabled && relay.rules_enabled && self.capabilities@.contains(
                Capability::Relay,
            ) && any_weather_rule(relay.rules@)),
    {
        if !(weather.enabled && relay.rules_enabled && self.has_relay()) {
            return false;
        }
        let mut i: usize = 0;
        while i < relay.rules.len()
            invariant
                0 <= i <= relay.rules@.len(),
                weather.enabled && relay.rules_enabled,
                self.capabilities@.contains(Capability::Relay),
                forall|j: int|
                    0 <= j < i ==> !(#[trigger] relay.rules@[j].enabled && uses_weather(
                        relay.rules@[j].when,
                    )),
            decreases relay.rules@.len() - i,
        {
            let rule = &relay.rules[i];
            if rule.enabled && expression_uses_weather(&rule.when) {
                assert(relay.rules@[i as int].enabled && uses_weather(relay.rules@[i as int].when));
                return true;
            }
            i += 1;
        }
        false
    }

    /// Refuses settings whose rules switch the light when the connected
    /// device is known to have no relay.
    pub fn check_relay_capability(&self, relay: &RelaySettings) -> (r: Result<(), IpcWireError>)
        ensures
            r is Err <==> (self.capabilities@.len() > 0 && !self.capabilities@.contains(
                Capability::Relay,
            ) && relay.rules_enabled && any_switching_rule(relay.rules@)),
            r matches Err(e) ==> e.code == IpcErrorCode::UnsupportedCapability && e.message@
                == "Connected Lumi Sensor has no relay capability"@,
    {
        if self.capabilities.len() == 0 || self.has_relay() || !relay.rules_enabled {
            return Ok(());
        }
        let mut i: usize = 0;
        while i < relay.rules.len()
            invariant
                0 <= i <= relay.rules@.len(),
                relay.rules_enabled,
                self.capabilities@.len() > 0,
                !self.capabilities@.contains(Capability::Relay),
                forall|j: int|
                    0 <= j < i ==> !(#[trigger] relay.rules@[j].enabled && relay.rules@[j].action
                        != LightAction::Keep),
            decreases relay.rules@.len() - i,
        {
            let rule = &relay.rules[i];
            if rule.enabled && rule.action != LightAction::Keep {
                assert(relay.rules@[i as int].enabled && relay.rules@[i as int].action
                    != LightAction::Keep);
                return Err(
                    IpcWireError {
                        code: IpcErrorCode::UnsupportedCapability,
                        message: "Connected Lumi Sensor has no relay capability".to_string(),
                    },
                );
            }
            i += 1;
        }
        Ok(())
    }
}

/// The rules ask for a light only when they want one and the light is not
/// known to be so already: keeping asks nothing; on or off asks for exactly
/// that light, and does so whenever the light is off, unknown or the other
/// way.
pub proof fn lemma_light_requests_follow_the_wanted_state(action: LightAction, light_on: Option<bool>)
    ensures
        action == LightAction::Keep ==> light_to_request(action, light_on) is None,
        action == LightAction::On ==> (light_to_request(action, light_on) is Some <==> light_on
            != Some(true)),
        action == LightAction::Off ==> (light_to_request(action, light_on) is Some <==> light_on
            != Some(false)),
        light_to_request(action, light_on) matches Some(w) ==> w == (action == LightAction::On)
            && action != LightAction::Keep && light_on != Some(w),
{
}

/// The light to ask for after the rules chose `action`: none when the
/// action keeps the light or the light already is so.
pub open spec fn light_to_request(action: LightAction, light_on: Option<bool>) -> Option<bool> {
    match action {
        LightAction::Keep => None,
        LightAction::On => if light_on == Some(true) {
            None
        } else {
            Some(true)
        },
        LightAction::Off => if light_on == Some(false) {
            None
        } else {
            Some(false)
        },
    }
}

/// The light to ask for after the rules chose `action`, given what the
/// snapshot shows of the light.
pub fn rule_light_request(action: LightAction, light_on: Option<bool>) -> (r: Option<bool>)
    ensures
        r == light_to_request(action, light_on),
        action == LightAction::Keep ==> r is None,
        action == LightAction::On ==> (r is Some <==> light_on != Some(true)),
        action == LightAction::Off ==> (r is Some <==> light_on != Some(false)),
        r matches Some(w) ==> w == (action == LightAction::On) && light_on != Some(w),
{
    match action.light_on() {
        None => None,
        Some(wanted) => {
            if light_on == Some(wanted) {
                None
            } else {
                Some(wanted)
            }
        },
    }
}

/// The message of a settings validation error.
pub open spec fn validation_message(problems: Seq<Seq<char>>) -> Seq<char> {
    "settings validation failed: "@ + joined(problems, "; "@)
}

/// Checks settings a client wants to save: refused as invalid settings,
/// with every problem listed, when they break the rules.
pub fn validate_settings(document: &SettingsDocument) -> (r: Result<(), IpcWireError>)
    ensures
        r is Ok <==> settings_problems(*document).len() == 0,
        r matches Err(e) ==> e.code == IpcErrorCode::InvalidSettings && e.message@
            == validation_message(settings_problems(*document)),
{
    match document.validate() {
        Ok(()) => Ok(()),
        Err(StoreError::Validation(problems)) => {
            let mut message = "settings validation failed: ".to_string();
            push_joined(&mut message, &problems, "; ");
            proof {
                reveal_strlit("settings validation failed: ");
                reveal_strlit("; ");
                assert(problems@.map_values(|t: String| t@) =~= listed_problems(
                    StoreError::Validation(problems),
                ));
            }
            Err(IpcWireError { code: IpcErrorCode::InvalidSettings, message })
        },
    }
}

/// What the agent's core does with a client's command.
#[derive(Debug)]
pub enum CommandStep {
    /// Normalize and check the settings, then take them over.
    Save(SettingsDocument),
    /// Take over the current settings with `paused` changed.
    SetPaused(bool),
    /// Apply the last target and run the light rules now.
    RunNow,
    /// Enumerate the monitors and search for the device again.
    RefreshHardware,
    /// Switch the light.
    SetLight(bool),
    /// End the suppression of the monitor named, or of all, then apply the
    /// last target.
    ClearOverride(Option<String>),
    /// Write a diagnostic package in the background and answer with its
    /// path.
    ExportDiagnostics,
    /// Answer at once.
    Answer(Result<(), IpcWireError>),
    /// Answer that it is done, then stop the agent.
    Stop,
}

/// Decides what the core does with a command. A hardware refresh is
/// refused while the system sleeps; the commands the client interface
/// answers itself are refused as misrouted.
pub fn plan_command(suspended: bool, command: AgentCommand) -> (r: CommandStep)
    ensures
        match command {
            AgentCommand::SaveSettings { document } => r == CommandStep::Save(*document),
            AgentCommand::SetPaused { paused } => r == CommandStep::SetPaused(paused),
            AgentCommand::RunNow => r is RunNow,
            AgentCommand::RefreshHardware => if suspended {
                r matches CommandStep::Answer(Err(e)) && e.code == IpcErrorCode::HardwareUnavailable
                    && e.message@
                    == "Hardware refresh is unavailable while the system is suspended"@
            } else {
                r is RefreshHardware
            },
            AgentCommand::SetLight { light_on } => r == CommandStep::SetLight(light_on),
            AgentCommand::ClearManualOverride { monitor_id } => r == CommandStep::ClearOverride(
                monitor_id,
            ),
            AgentCommand::ExportDiagnostics => r is ExportDiagnostics,
            AgentCommand::OpenUi => r == CommandStep::Answer(Ok(())),
            AgentCommand::Shutdown => r is Stop,
            AgentCommand::Ping
            | AgentCommand::GetSnapshot
            | AgentCommand::WaitForSnapshot { .. }
            | AgentCommand::GetSettings => r matches CommandStep::Answer(Err(e)) && e.code
                == IpcErrorCode::InvalidRequest && e.message@
                == "command should have been handled by the IPC facade"@,
        },
{
    match command {
        AgentCommand::SaveSettings { document } => CommandStep::Save(*document),
        AgentCommand::SetPaused { paused } => CommandStep::SetPaused(paused),
        AgentCommand::RunNow => CommandStep::RunNow,
        AgentCommand::RefreshHardware => {
            if suspended {
                CommandStep::Answer(
                    Err(
                        IpcWireError {
                            code: IpcErrorCode::HardwareUnavailable,
                            message: "Hardware refresh is unavailable while the system is suspended".to_string(),
                        },
                    ),
                )
            } else {
                CommandStep::RefreshHardware
            }
        },
        AgentCommand::SetLight { light_on } => CommandStep::SetLight(light_on),
        AgentCommand::ClearManualOverride { monitor_id } => CommandStep::ClearOverride(monitor_id),
        AgentCommand::ExportDiagnostics => CommandStep::ExportDiagnostics,
        AgentCommand::OpenUi => CommandStep::Answer(Ok(())),
        AgentCommand::Shutdown => CommandStep::Stop,
        AgentCommand::Ping
        | AgentCommand::GetSnapshot
        | AgentCommand::WaitForSnapshot { .. }
        | AgentCommand::GetSettings => CommandStep::Answer(
            Err(
                IpcWireError {
                    code: IpcErrorCode::InvalidRequest,
                    message: "command should have been handled by the IPC facade".to_string(),
                },
            ),
        ),
    }
}

/// The longest wait for a newer snapshot, in milliseconds.
pub const MAX_SNAPSHOT_WAIT_MS: u32 = 30_000;

/// How long a client waits for the core to answer a command, in
/// milliseconds.
pub const COMMAND_TIMEOUT_MS: u64 = 4_000;

/// How long a client waits for a diagnostic package, in milliseconds.
pub const EXPORT_TIMEOUT_MS: u64 = 15_000;

/// Where the client interface sends a command.
#[derive(Clone, Copy, Debug, PartialEq, Eq, Structural)]
pub enum CommandRoute {
    /// Answer with the agent's version.
    Pong,
    /// Answer with the current snapshot.
    Snapshot,
    /// Answer with the first snapshot newer than `after_revision`, waiting
    /// at most `wait_ms`.
    WaitForSnapshot { after_revision: u64, wait_ms: u32 },
    /// Answer with the current settings.
    Settings,
    /// Start the user interface and acknowledge.
    OpenUi,
    /// Hand the command to the core and wait at most `timeout_ms` for its
    /// answer.
    Forward { timeout_ms: u64 },
}

/// Decides where the client interface sends a command: the reads and the
/// start of the user interface are answered at once, a wait for a snapshot
/// lasts at most thirty seconds, and everything else goes to the core,
/// which has four seconds to answer, fifteen for a diagnostic package.
pub fn route_command(command: &AgentCommand) -> (r: CommandRoute)
    ensures
        r == match *command {
            AgentCommand::Ping => CommandRoute::Pong,
            AgentCommand::GetSnapshot => CommandRoute::Snapshot,
            AgentCommand::WaitForSnapshot { after_revision, timeout_ms } => {
                CommandRoute::WaitForSnapshot {
                    after_revision,
                    wait_ms: if timeout_ms < MAX_SNAPSHOT_WAIT_MS {
                        timeout_ms
                    } else {
                        MAX_SNAPSHOT_WAIT_MS
                    },
                }
            },
            AgentCommand::GetSettings => CommandRoute::Settings,
            AgentCommand::OpenUi => CommandRoute::OpenUi,
            AgentCommand::ExportDiagnostics => CommandRoute::Forward {
                timeout_ms: EXPORT_TIMEOUT_MS,
            },
            _ => CommandRoute::Forward { timeout_ms: COMMAND_TIMEOUT_MS },
        },
{
    match command {
        AgentCommand::Ping => CommandRoute::Pong,
        AgentCommand::GetSnapshot => CommandRoute::Snapshot,
        AgentCommand::WaitForSnapshot { after_revision, timeout_ms } => {
            let wait_ms = if *timeout_ms < MAX_SNAPSHOT_WAIT_MS {
                *timeout_ms
            } else {
                MAX_SNAPSHOT_WAIT_MS
            };
            CommandRoute::WaitForSnapshot { after_revision: *after_revision, wait_ms }
        },
        AgentCommand::GetSettings => CommandRoute::Settings,
        AgentCommand::OpenUi => CommandRoute::OpenUi,
        AgentCommand::ExportDiagnostics => CommandRoute::Forward { timeout_ms: EXPORT_TIMEOUT_MS },
        _ => CommandRoute::Forward { timeout_ms: COMMAND_TIMEOUT_MS },
    }
}

/// How long a reading stays fresh, in milliseconds.
pub const SENSOR_STALE_AFTER_MS: u64 = 5_000;

/// How often the monitors are read back, in milliseconds.
pub const MONITOR_PROBE_INTERVAL_MS: u64 = 30_000;

/// How long a failed weather request waits before the next, in
/// milliseconds.
pub const WEATHER_RETRY_AFTER_MS: u64 = 60_000;

/// How long the core waits while the system sleeps, in milliseconds.
pub const SUSPENDED_WAIT_MS: u64 = 60_000;

/// `a + b`, or the largest `u64` when that is larger.
pub open spec fn sat_add(a: u64, b: u64) -> u64 {
    if a + b > u64::MAX {
        u64::MAX
    } else {
        (a + b) as u64
    }
}

/// The smaller of two instants.
pub open spec fn earlier(a: u64, b: u64) -> u64 {
    if a <= b {
        a
    } else {
        b
    }
}

/// When the core must next wake up by itself, in milliseconds since it
/// started: a minute on while the system sleeps; otherwise the next monitor
/// probe, or sooner when the last reading goes stale or a weather request
/// falls due (`weather_due_ms`, when the weather is needed and no request
/// runs).
pub open spec fn deadline(
    suspended: bool,
    now_ms: u64,
    last_probe_ms: u64,
    last_sensor_ms: Option<u64>,
    weather_due_ms: Option<u64>,
) -> u64 {
    if suspended {
        sat_add(now_ms, SUSPENDED_WAIT_MS)
    } else {
        let probe = sat_add(last_probe_ms, MONITOR_PROBE_INTERVAL_MS);
        let sensor_or_probe = match last_sensor_ms {
            Some(t) => earlier(sat_add(t, SENSOR_STALE_AFTER_MS), probe),
            None => probe,
        };
        match weather_due_ms {
            Some(w) => earlier(sensor_or_probe, w),
            None => sensor_or_probe,
        }
    }
}

/// When the core must next wake up by itself.
pub fn next_deadline_ms(
    suspended: bool,
    now_ms: u64,
    last_probe_ms: u64,
    last_sensor_ms: Option<u64>,
    weather_due_ms: Option<u64>,
) -> (r: u64)
    ensures
        r == deadline(suspended, now_ms, last_probe_ms, last_sensor_ms, weather_due_ms),
{
    if suspended {
        return now_ms.saturating_add(SUSPENDED_WAIT_MS);
    }
    let probe = last_probe_ms.saturating_add(MONITOR_PROBE_INTERVAL_MS);
    let sensor_or_probe = match last_sensor_ms {
        Some(t) => {
            let stale = t.saturating_add(SENSOR_STALE_AFTER_MS);
            if stale <= probe {
                stale
            } else {
                probe
            }
        },
        None => probe,
    };
    match weather_due_ms {
        Some(w) => if sensor_or_probe <= w {
            sensor_or_probe
        } else {
            w
        },
        None => sensor_or_probe,
    }
}

/// What falls due when the core wakes up by itself.
#[derive(Clone, Copy, Debug, PartialEq, Eq, Structural)]
pub struct DueWork {
    /// The last reading is too old: the sensor shows invalid.
    pub sensor_stale: bool,
    /// The monitors are read back.
    pub probe_monitors: bool,
}

/// What falls due at `now_ms`: nothing while the system sleeps; otherwise a
/// reading at least five seconds old goes stale, and the monitors are read
/// back thirty seconds after the last probe.
pub fn due_work(suspended: bool, now_ms: u64, last_sensor_ms: Option<u64>, last_probe_ms: u64) -> (r:
    DueWork)
    ensures
        r.sensor_stale == (!suspended && (last_sensor_ms matches Some(t) && now_ms >= t
            && now_ms - t >= SENSOR_STALE_AFTER_MS)),
        r.probe_monitors == (!suspended && now_ms >= last_probe_ms && now_ms - last_probe_ms
            >= MONITOR_PROBE_INTERVAL_MS),
{
    if suspended {
        return DueWork { sensor_stale: false, probe_monitors: false };
    }
    let sensor_stale = match last_sensor_ms {
        Some(t) => now_ms >= t && now_ms - t >= SENSOR_STALE_AFTER_MS,
        None => false,
    };
    let probe_monitors = now_ms >= last_probe_ms && now_ms - last_probe_ms
        >= MONITOR_PROBE_INTERVAL_MS;
    DueWork { sensor_stale, probe_monitors }
}

/// The period between weather requests, in milliseconds: the configured
/// one, at least a minute.
pub open spec fn refresh_period_ms(refresh_seconds: u64) -> int {
    if refresh_seconds < 60 {
        60_000
    } else {
        refresh_seconds * 1000
    }
}

/// When the weather is fetched: the generation of the settings the answer
/// belongs to, whether a request runs, and when the next one falls due.
#[derive(Clone, Copy, Debug, PartialEq, Eq, Structural)]
pub struct WeatherSchedule {
    pub generation: u64,
    pub in_flight: bool,
    pub next_refresh_ms: u64,
}

impl WeatherSchedule {
    /// No request yet; the first falls due at once.
    pub fn new(now_ms: u64) -> (r: Self)
        ensures
            r.generation == 0,
            !r.in_flight,
            r.next_refresh_ms == now_ms,
    {
        WeatherSchedule { generation: 0, in_flight: false, next_refresh_ms: now_ms }
    }

    /// Whether a request starts now: the weather is needed, none runs, and
    /// the next one is due.
    pub fn is_due(&self, needed: bool, now_ms: u64) -> (r: bool)
        ensures
            r == (needed && !self.in_flight && now_ms >= self.next_refresh_ms),
    {
        needed && !self.in_flight && now_ms >= self.next_refresh_ms
    }

    /// A request started: none other starts until its answer, and the next
    /// falls due a refresh period later.
    pub fn started(&mut self, now_ms: u64, refresh_seconds: u64)
        ensures
            final(self).in_flight,
            final(self).generation == old(self).generation,
            final(self).next_refresh_ms == if now_ms + refresh_period_ms(refresh_seconds)
                > u64::MAX {
                u64::MAX as int
            } else {
                now_ms + refresh_period_ms(refresh_seconds)
            },
    {
        let period = if refresh_seconds < 60 {
            60_000
        } else if refresh_seconds > u64::MAX / 1000 {
            u64::MAX
        } else {
            refresh_seconds * 1000
        };
        self.in_flight = true;
        self.next_refresh_ms = now_ms.saturating_add(period);
    }

    /// A request could not start: the next is tried a minute later.
    pub fn start_failed(&mut self, now_ms: u64)
        ensures
            !final(self).in_flight,
            final(self).generation == old(self).generation,
            final(self).next_refresh_ms == sat_add(now_ms, WEATHER_RETRY_AFTER_MS),
    {
        self.in_flight = false;
        self.next_refresh_ms = now_ms.saturating_add(WEATHER_RETRY_AFTER_MS);
    }

    /// An answer arrived for the settings of `generation`. An answer for
    /// settings since replaced is dropped (`false`). Otherwise the request
    /// is over; after a success the next falls due a refresh period later,
    /// after a failure a minute later.
    pub fn answer(&mut self, generation: u64, succeeded: bool, now_ms: u64, refresh_seconds: u64) -> (r:
        bool)
        ensures
            r == (generation == old(self).generation),
            !r ==> *final(self) == *old(self),
            r ==> !final(self).in_flight && final(self).generation == old(self).generation,
            r && succeeded ==> final(self).next_refresh_ms == if now_ms + refresh_period_ms(
                refresh_seconds,
            ) > u64::MAX {
                u64::MAX as int
            } else {
                now_ms + refresh_period_ms(refresh_seconds)
            },
            r && !succeeded ==> final(self).next_refresh_ms == sat_add(
                now_ms,
                WEATHER_RETRY_AFTER_MS,
            ),
    {
        if generation != self.generation {
            return false;
        }
        if succeeded {
            self.started(now_ms, refresh_seconds);
            self.in_flight = false;
        } else {
            self.start_failed(now_ms);
        }
        true
    }

    /// New settings were taken over. When the weather settings changed,
    /// answers to earlier requests are dropped and no request counts as
    /// running; when no observation is left, the next request falls due at
    /// once.
    pub fn settings_replaced(&mut self, weather_changed: bool, observation_left: bool, now_ms: u64)
        ensures
            final(self).generation == if weather_changed {
                if old(self).generation == u64::MAX {
                    0
                } else {
                    (old(self).generation + 1) as u64
                }
            } else {
                old(self).generation
            },
            final(self).in_flight == (old(self).in_flight && !weather_changed),
            final(self).next_refresh_ms == if observation_left {
                old(self).next_refresh_ms
            } else {
                now_ms
            },
    {
        if weather_changed {
            self.generation = self.generation.wrapping_add(1);
            self.in_flight = false;
        }
        if !observation_left {
            self.next_refresh_ms = now_ms;
        }
    }
}

/// The error the environment snapshot shows: that of the solar position
/// first, else that of the weather when the weather is needed.
pub fn environment_error(
    solar_error: Option<String>,
    weather_error: Option<String>,
    weather_needed: bool,
) -> (r: Option<String>)
    ensures
        r == match solar_error {
            Some(e) => Some(e),
            None => if weather_needed {
                weather_error
            } else {
                None
            },
        },
{
    match solar_error {
        Some(e) => Some(e),
        None => if weather_needed {
            weather_error
        } else {
            None
        },
    }
}

/// While the system sleeps only a resume counts; while it is awake a
/// resume is ignored and everything else counts.
pub proof fn lemma_sleep_ignores_all_but_resume(event: SystemEvent)
    ensures
        system_step(true, event) != SystemStep::Ignore <==> event == SystemEvent::Resume,
        system_step(false, event) == SystemStep::Ignore <==> event == SystemEvent::Resume,
{
}

/// While awake, the core wakes up no later than the next monitor probe, no
/// later than the moment the last reading goes stale, and no later than
/// the next weather request.
pub proof fn lemma_deadline_bounded(
    now_ms: u64,
    last_probe_ms: u64,
    last_sensor_ms: Option<u64>,
    weather_due_ms: Option<u64>,
)
    ensures
        deadline(false, now_ms, last_probe_ms, last_sensor_ms, weather_due_ms) <= sat_add(
            last_probe_ms,
            MONITOR_PROBE_INTERVAL_MS,
        ),
        last_sensor_ms matches Some(t) ==> deadline(
            false,
            now_ms,
            last_probe_ms,
            last_sensor_ms,
            weather_due_ms,
        ) <= sat_add(t, SENSOR_STALE_AFTER_MS),
        weather_due_ms matches Some(w) ==> deadline(
            false,
            now_ms,
            last_probe_ms,
            last_sensor_ms,
            weather_due_ms,
        ) <= w,
{
}

/// Whether two weather settings are equal, their coordinates compared as
/// numbers.
pub open spec fn same_weather(a: WeatherSettings, b: WeatherSettings) -> bool {
    &&& a.enabled == b.enabled
    &&& a.location_name@ == b.location_name@
    &&& a.latitude.same_value(b.latitude)
    &&& a.longitude.same_value(b.longitude)
    &&& a.timezone@ == b.timezone@
    &&& a.refresh_seconds == b.refresh_seconds
}

/// What taking over new settings changes beyond the settings themselves.
#[derive(Clone, Copy, Debug, PartialEq, Eq, Structural)]
pub struct SettingsChange {
    /// The weather settings changed: the weather known so far is dropped.
    pub weather_changed: bool,
    /// Starting at login was turned on or off: the registration follows.
    pub startup_changed: bool,
}

/// What taking over `next` in place of `current` changes.
pub fn settings_change(current: &SettingsDocument, next: &SettingsDocument) -> (r: SettingsChange)
    ensures
        r.weather_changed == !same_weather(current.settings.weather, next.settings.weather),
        r.startup_changed == (current.settings.start_at_login != next.settings.start_at_login),
{
    let a = &current.settings.weather;
    let b = &next.settings.weather;
    let same = a.enabled == b.enabled && crate::text::text_equals(
        a.location_name.as_str(),
        b.location_name.as_str(),
    ) && a.latitude.equals(&b.latitude) && a.longitude.equals(&b.longitude)
        && crate::text::text_equals(a.timezone.as_str(), b.timezone.as_str())
        && a.refresh_seconds == b.refresh_seconds;
    SettingsChange {
        weather_changed: !same,
        startup_changed: current.settings.start_at_login != next.settings.start_at_login,
    }
}

/// The minute of the day of a time in milliseconds since the Unix epoch,
/// in UTC.
pub fn minutes_of_day(unix_ms: u64) -> (r: i32)
    ensures
        r == (unix_ms / 60_000) % 1440,
{
    ((unix_ms / 60_000) % 1440) as i32
}

/// How long a computed solar position is reused, in milliseconds.
pub const SOLAR_CACHE_FOR_MS: u64 = 30_000;

/// The settings a solar position was computed for, and when.
#[derive(Clone, Debug)]
pub struct SolarCacheKey {
    pub latitude_bits: u64,
    pub longitude_bits: u64,
    pub timezone: String,
    pub computed_at_ms: u64,
}

/// Whether a solar position computed for `key` can be reused at `now_ms`
/// for the place and time zone given: they are the same, bit for bit and
/// character for character, and less than thirty seconds passed.
pub fn solar_cache_matches(
    key: &SolarCacheKey,
    latitude: F64Bits,
    longitude: F64Bits,
    timezone: &str,
    now_ms: u64,
) -> (r: bool)
    ensures
        r == (key.latitude_bits == latitude.bits && key.longitude_bits == longitude.bits
            && key.timezone@ == timezone@ && (if now_ms >= key.computed_at_ms {
            now_ms - key.computed_at_ms
        } else {
            0
        }) < SOLAR_CACHE_FOR_MS),
{
    let age = if now_ms >= key.computed_at_ms {
        now_ms - key.computed_at_ms
    } else {
        0
    };
    key.latitude_bits == latitude.bits && key.longitude_bits == longitude.bits
        && crate::text::text_equals(key.timezone.as_str(), timezone) && age < SOLAR_CACHE_FOR_MS
}

/// Where replacing the settings stands once they passed their checks.
#[derive(Clone, Debug, PartialEq, Eq)]
pub enum SettingsReplacement {
    /// Start at login is being switched; `previous` is what it was.
    Registering { previous: bool },
    /// The settings are being saved; `changed` tells whether start at login
    /// was switched from `previous`.
    Saving { changed: bool, previous: bool },
    /// Saving failed with `save_error`; start at login is being switched
    /// back.
    RollingBack { save_error: String },
    /// Nothing is left to do.
    Finished,
}

/// What the agent does next while replacing the settings.
#[derive(Debug)]
pub enum SettingsAction {
    /// Switch start at login to this.
    SetStartup(bool),
    /// Save the new settings.
    Save,
    /// Take the new settings into use: the filter, the override guards,
    /// the weather state and the snapshot.
    Apply,
    /// Refuse the replacement with this error.
    Fail(IpcWireError),
}

/// What the last action gave.
#[derive(Debug)]
pub enum SettingsEvent {
    StartupSet(Result<(), String>),
    Saved(Result<(), String>),
    RolledBack(Result<(), String>),
}

/// Replacing checked settings begins by switching start at login when it
/// changes, and otherwise by saving.
pub fn begin_settings_replacement(current_start_at_login: bool, next_start_at_login: bool) -> (r: (
    SettingsReplacement,
    SettingsAction,
))
    ensures
        current_start_at_login != next_start_at_login ==> r.0 == (SettingsReplacement::Registering {
            previous: current_start_at_login,
        }) && r.1 == SettingsAction::SetStartup(next_start_at_login),
        current_start_at_login == next_start_at_login ==> r.0 == (SettingsReplacement::Saving {
            changed: false,
            previous: current_start_at_login,
        }) && r.1 is Save,
{
    if current_start_at_login != next_start_at_login {
        (
            SettingsReplacement::Registering { previous: current_start_at_login },
            SettingsAction::SetStartup(next_start_at_login),
        )
    } else {
        (
            SettingsReplacement::Saving { changed: false, previous: current_start_at_login },
            SettingsAction::Save,
        )
    }
}

/// Whether an event answers the action the state waits for.
pub open spec fn settings_event_fits(state: SettingsReplacement, event: SettingsEvent) -> bool {
    match state {
        SettingsReplacement::Registering { .. } => event is StartupSet,
        SettingsReplacement::Saving { .. } => event is Saved,
        SettingsReplacement::RollingBack { .. } => event is RolledBack,
        SettingsReplacement::Finished => false,
    }
}

/// The next step of replacing the settings. A failed switch of start at
/// login refuses the settings; a saved document is taken into use; a
/// failed save refuses them with its error, after switching start at
/// login back when it was switched, and names a failed switch back too.
pub fn next_settings_step(state: SettingsReplacement, event: SettingsEvent) -> (r: (
    SettingsReplacement,
    SettingsAction,
))
    requires
        settings_event_fits(state, event),
    ensures
        match (state, event) {
            (SettingsReplacement::Registering { previous }, SettingsEvent::StartupSet(Ok(()))) => r.0
                == (SettingsReplacement::Saving { changed: true, previous }) && r.1 is Save,
            (SettingsReplacement::Registering { .. }, SettingsEvent::StartupSet(Err(e))) => r.0
                == SettingsReplacement::Finished && (r.1 matches SettingsAction::Fail(w) && w.code
                == IpcErrorCode::Internal && w.message@ == "Could not update start at login: "@
                + e@),
            (SettingsReplacement::Saving { .. }, SettingsEvent::Saved(Ok(()))) => r.0
                == SettingsReplacement::Finished && r.1 is Apply,
            (SettingsReplacement::Saving { changed, previous }, SettingsEvent::Saved(Err(m))) => if changed {
                r.0 == (SettingsReplacement::RollingBack { save_error: m }) && r.1
                    == SettingsAction::SetStartup(previous)
            } else {
                r.0 == SettingsReplacement::Finished && (r.1 matches SettingsAction::Fail(w)
                    && w.code == IpcErrorCode::Internal && w.message@ == m@)
            },
            (SettingsReplacement::RollingBack { save_error }, SettingsEvent::RolledBack(Ok(()))) => r.0
                == SettingsReplacement::Finished && (r.1 matches SettingsAction::Fail(w) && w.code
                == IpcErrorCode::Internal && w.message@ == save_error@),
            (SettingsReplacement::RollingBack { save_error }, SettingsEvent::RolledBack(Err(e))) => r.0
                == SettingsReplacement::Finished && (r.1 matches SettingsAction::Fail(w) && w.code
                == IpcErrorCode::Internal && w.message@ == save_error@
                + "; startup rollback also failed: "@ + e@),
            _ => false,
        },
{
    proof {
        reveal_strlit("Could not update start at login: ");
        reveal_strlit("; startup rollback also failed: ");
    }
    match (state, event) {
        (SettingsReplacement::Registering { previous }, SettingsEvent::StartupSet(Ok(()))) => (
            SettingsReplacement::Saving { changed: true, previous },
            SettingsAction::Save,
        ),
        (SettingsReplacement::Registering { .. }, SettingsEvent::StartupSet(Err(e))) => {
            let mut message = String::from_str("Could not update start at login: ");
            message.append(e.as_str());
            (
                SettingsReplacement::Finished,
                SettingsAction::Fail(IpcWireError { code: IpcErrorCode::Internal, message }),
            )
        },
        (SettingsReplacement::Saving { .. }, SettingsEvent::Saved(Ok(()))) => (
            SettingsReplacement::Finished,
            SettingsAction::Apply,
        ),
        (SettingsReplacement::Saving { changed, previous }, SettingsEvent::Saved(Err(m))) => {
            if changed {
                (SettingsReplacement::RollingBack { save_error: m }, SettingsAction::SetStartup(previous))
            } else {
                (
                    SettingsReplacement::Finished,
                    SettingsAction::Fail(IpcWireError { code: IpcErrorCode::Internal, message: m }),
                )
            }
        },
        (SettingsReplacement::RollingBack { save_error }, SettingsEvent::RolledBack(Ok(()))) => (
            SettingsReplacement::Finished,
            SettingsAction::Fail(
                IpcWireError { code: IpcErrorCode::Internal, message: save_error },
            ),
        ),
        (SettingsReplacement::RollingBack { save_error }, SettingsEvent::RolledBack(Err(e))) => {
            let mut message = save_error;
            message.append("; startup rollback also failed: ");
            message.append(e.as_str());
            (
                SettingsReplacement::Finished,
                SettingsAction::Fail(IpcWireError { code: IpcErrorCode::Internal, message }),
            )
        },
        (state, _) => (state, SettingsAction::Save),
    }
}

/// The window message that reports a change of the displays.
pub const WM_DISPLAYCHANGE: u32 = 0x007e;

/// The window message that reports a change of power state.
pub const WM_POWERBROADCAST: u32 = 0x0218;

/// The power event: the system is about to sleep.
pub const PBT_APMSUSPEND: u64 = 0x0004;

/// The power event: the system woke after a critical sleep.
pub const PBT_APMRESUMECRITICAL: u64 = 0x0006;

/// The power event: the system woke at the user's request.
pub const PBT_APMRESUMESUSPEND: u64 = 0x0007;

/// The power event: the system woke by itself.
pub const PBT_APMRESUMEAUTOMATIC: u64 = 0x0012;

/// The system event a window message reports, if any, and what the window
/// answers for it: a display change (answered 0), a suspend, or one of the
/// three resumes (both answered 1, as power messages are).
pub fn system_event_of_message(message: u32, wparam: u64) -> (r: Option<(SystemEvent, isize)>)
    ensures
        message == WM_DISPLAYCHANGE ==> r == Some((SystemEvent::DisplayChanged, 0isize)),
        message == WM_POWERBROADCAST && wparam == PBT_APMSUSPEND ==> r == Some(
            (SystemEvent::Suspend, 1isize),
        ),
        message == WM_POWERBROADCAST && (wparam == PBT_APMRESUMECRITICAL || wparam
            == PBT_APMRESUMESUSPEND || wparam == PBT_APMRESUMEAUTOMATIC) ==> r == Some(
            (SystemEvent::Resume, 1isize),
        ),
        !(message == WM_DISPLAYCHANGE || (message == WM_POWERBROADCAST && (wparam == PBT_APMSUSPEND
            || wparam == PBT_APMRESUMECRITICAL || wparam == PBT_APMRESUMESUSPEND || wparam
            == PBT_APMRESUMEAUTOMATIC))) ==> r is None,
{
    if message == WM_DISPLAYCHANGE {
        Some((SystemEvent::DisplayChanged, 0))
    } else if message == WM_POWERBROADCAST && wparam == PBT_APMSUSPEND {
        Some((SystemEvent::Suspend, 1))
    } else if message == WM_POWERBROADCAST && (wparam == PBT_APMRESUMECRITICAL || wparam
        == PBT_APMRESUMESUSPEND || wparam == PBT_APMRESUMEAUTOMATIC) {
        Some((SystemEvent::Resume, 1))
    } else {
        None
    }
}

} // verus!
