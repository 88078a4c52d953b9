use vstd::prelude::*;
use crate::float_bits::F64Bits;
use crate::protocol::{
    payload_message, product_sensor, product_sensor_relay, Capability, DeviceInfo, DeviceStatus,
    ErrorCode, ProtocolError, RelaySetParams, RelayStatus, SampleQuality, SensorSample,
    SensorStatus, StreamConfigureParams,
};
use crate::legacy::{arg_texts, parse_u64, parsed_u64};
use crate::text::text_equals;

verus! {

/// The kinds of device the simulator plays.
#[derive(Clone, Copy, Debug, PartialEq, Eq, Structural)]
pub enum SimulatedProfile {
    Sensor,
    SensorRelay,
}

/// The capabilities of a profile: the light sensor, and the relay for the
/// relay profile.
pub open spec fn profile_capabilities(profile: SimulatedProfile) -> Seq<Capability> {
    if profile == SimulatedProfile::SensorRelay {
        seq![Capability::AmbientLux, Capability::Relay]
    } else {
        seq![Capability::AmbientLux]
    }
}

impl SimulatedProfile {
    /// The product id the profile reports.
    pub fn product_id(self) -> (r: &'static str)
        ensures
            r@ == (if self == SimulatedProfile::Sensor {
                product_sensor()
            } else {
                product_sensor_relay()
            }),
    {
        match self {
            SimulatedProfile::Sensor => "lumi-sensor",
            SimulatedProfile::SensorRelay => "lumi-sensor-relay",
        }
    }

    /// The capabilities the profile reports.
    pub fn capabilities(self) -> (r: Vec<Capability>)
        ensures
            r@ == profile_capabilities(self),
    {
        let mut capabilities: Vec<Capability> = Vec::new();
        capabilities.push(Capability::AmbientLux);
        if self == SimulatedProfile::SensorRelay {
            capabilities.push(Capability::Relay);
        }
        assert(capabilities@ =~= profile_capabilities(self));
        capabilities
    }
}

/// Faults the simulator can inject. The response delay is in nanoseconds.
#[derive(Clone, Copy, Debug, PartialEq, Eq, Structural)]
pub struct SimulatorFaults {
    pub response_delay: u128,
    pub sensor_error: bool,
    pub malformed_after_messages: Option<u64>,
    pub disconnect_after_messages: Option<u64>,
}

impl SimulatorFaults {
    /// No fault.
    pub open spec fn default_value() -> Self {
        SimulatorFaults {
            response_delay: 0,
            sensor_error: false,
            malformed_after_messages: None,
            disconnect_after_messages: None,
        }
    }

    /// No fault.
    pub fn default() -> (r: Self)
        ensures
            r == Self::default_value(),
            r.response_delay == 0,
            !r.sensor_error,
            r.malformed_after_messages is None,
            r.disconnect_after_messages is None,
    {
        SimulatorFaults {
            response_delay: 0,
            sensor_error: false,
            malformed_after_messages: None,
            disconnect_after_messages: None,
        }
    }
}

/// Each profile advertises the light sensor once, and the relay exactly when
/// its product id names the relay product: what a hello must hold.
pub proof fn lemma_profiles_fit_the_capability_table(profile: SimulatedProfile)
    ensures
        profile_capabilities(profile).contains(Capability::AmbientLux),
        profile_capabilities(profile).contains(Capability::Relay) == (profile
            == SimulatedProfile::SensorRelay),
        forall|i: int, j: int|
            0 <= i < j < profile_capabilities(profile).len() ==> profile_capabilities(profile)[i]
                != profile_capabilities(profile)[j],
{
    assert(profile_capabilities(profile)[0] == Capability::AmbientLux);
    if profile == SimulatedProfile::SensorRelay {
        assert(profile_capabilities(profile)[1] == Capability::Relay);
    } else {
        assert(!profile_capabilities(profile).contains(Capability::Relay)) by {
            assert(profile_capabilities(profile).len() == 1);
        }
    }
}

/// A request to the simulated device, its parameters already decoded where
/// the command has any (`Err` holds why decoding failed).
#[derive(Debug)]
pub enum SimulatorRequest {
    Hello,
    GetStatus,
    Configure(Result<StreamConfigureParams, String>),
    SetRelay(Result<RelaySetParams, String>),
    Reboot,
    /// A command the device does not know.
    Unknown,
}

/// The request a command names; `configure` and `relay` are the decoded
/// parameters of the two commands that take some.
pub fn simulator_request(
    command: &str,
    configure: Result<StreamConfigureParams, String>,
    relay: Result<RelaySetParams, String>,
) -> (r: SimulatorRequest)
    ensures
        command@ == "device.hello"@ ==> r is Hello,
        command@ == "device.get_status"@ ==> r is GetStatus,
        command@ == "stream.configure"@ ==> r == SimulatorRequest::Configure(configure),
        command@ == "relay.set"@ ==> r == SimulatorRequest::SetRelay(relay),
        command@ == "device.reboot"@ ==> r is Reboot,
        !(command@ == "device.hello"@ || command@ == "device.get_status"@ || command@
            == "stream.configure"@ || command@ == "relay.set"@ || command@ == "device.reboot"@)
            ==> r is Unknown,
{
    proof {
        reveal_strlit("device.hello");
        reveal_strlit("device.get_status");
        reveal_strlit("stream.configure");
        reveal_strlit("relay.set");
        reveal_strlit("device.reboot");
        assert("device.hello"@.len() == 12 && "device.get_status"@.len() == 17);
        assert("stream.configure"@.len() == 16 && "relay.set"@.len() == 9);
        assert("device.reboot"@.len() == 13);
    }
    if text_equals(command, "device.hello") {
        SimulatorRequest::Hello
    } else if text_equals(command, "device.get_status") {
        SimulatorRequest::GetStatus
    } else if text_equals(command, "stream.configure") {
        SimulatorRequest::Configure(configure)
    } else if text_equals(command, "relay.set") {
        SimulatorRequest::SetRelay(relay)
    } else if text_equals(command, "device.reboot") {
        SimulatorRequest::Reboot
    } else {
        SimulatorRequest::Unknown
    }
}

/// Whether two device identities are equal.
pub open spec fn same_info(a: DeviceInfo, b: DeviceInfo) -> bool {
    &&& a.product_id == b.product_id
    &&& a.serial_number == b.serial_number
    &&& a.hardware_version == b.hardware_version
    &&& a.firmware_version == b.firmware_version
    &&& a.bootloader_version == b.bootloader_version
    &&& a.protocol_min == b.protocol_min
    &&& a.protocol_max == b.protocol_max
    &&& a.capabilities@ == b.capabilities@
}

/// A copy of a device identity.
fn copy_info(info: &DeviceInfo) -> (r: DeviceInfo)
    ensures
        same_info(r, *info),
{
    let capabilities = info.capabilities.clone();
    assert(capabilities@ =~= info.capabilities@);
    DeviceInfo {
        product_id: info.product_id.clone(),
        serial_number: info.serial_number.clone(),
        hardware_version: info.hardware_version.clone(),
        firmware_version: info.firmware_version.clone(),
        bootloader_version: info.bootloader_version.clone(),
        protocol_min: info.protocol_min,
        protocol_max: info.protocol_max,
        capabilities,
    }
}

/// The simulated device's answer.
#[derive(Debug)]
pub enum SimulatorReply {
    Info(DeviceInfo),
    Status(DeviceStatus),
    Stream(StreamConfigureParams),
    Relay(RelayStatus),
    Rebooting,
    Failure { code: ErrorCode, message: String },
}

/// A simulated device: its identity, relay, stream settings, light level,
/// counters and faults.
#[derive(Clone, Debug)]
pub struct Simulator {
    pub info: DeviceInfo,
    pub relay_energized: bool,
    pub stream: StreamConfigureParams,
    pub lux: F64Bits,
    pub seq: u32,
    pub uptime_ms: u64,
    pub malformed_frames: u32,
    pub handled_messages: u64,
    pub faults: SimulatorFaults,
}

/// The status a simulated device reports.
pub open spec fn simulated_status(s: Simulator) -> (bool, Option<F64Bits>, RelayStatus) {
    (
        !s.faults.sensor_error,
        if s.faults.sensor_error {
            None
        } else {
            Some(s.lux)
        },
        if s.info.capabilities@.contains(Capability::Relay) {
            RelayStatus { available: true, energized: Some(s.relay_energized) }
        } else {
            RelayStatus { available: false, energized: None }
        },
    )
}

impl Simulator {
    /// A device of `profile` with the serial number `serial_number`,
    /// protocol 2, the relay off, the default stream, 67.5 lux, no message
    /// yet and no fault.
    pub fn new(profile: SimulatedProfile, serial_number: String) -> (r: Self)
        ensures
            r.info.serial_number == serial_number,
            r.info.capabilities@ == profile_capabilities(profile),
            r.info.protocol_min == 2 && r.info.protocol_max == 2,
            !r.relay_energized,
            r.stream.ambient_lux_interval_ms == 1000 && r.stream.include_status_every == 30,
            r.lux.bits == 0x4050e00000000000,
            r.seq == 0 && r.uptime_ms == 0 && r.malformed_frames == 0 && r.handled_messages == 0,
            r.faults == SimulatorFaults::default_value(),
    {
        Simulator {
            info: DeviceInfo {
                product_id: profile.product_id().to_string(),
                serial_number,
                hardware_version: "sim-1".to_string(),
                firmware_version: "2.0.0-sim".to_string(),
                bootloader_version: "1.0.0-sim".to_string(),
                protocol_min: 2,
                protocol_max: 2,
                capabilities: profile.capabilities(),
            },
            relay_energized: false,
            stream: StreamConfigureParams { ambient_lux_interval_ms: 1000, include_status_every: 30 },
            lux: F64Bits { bits: 0x4050e00000000000 },
            seq: 0,
            uptime_ms: 0,
            malformed_frames: 0,
            handled_messages: 0,
            faults: SimulatorFaults::default(),
        }
    }

    /// The device with these faults.
    pub fn with_faults(self, faults: SimulatorFaults) -> (r: Self)
        ensures
            r == (Simulator { faults, ..self }),
    {
        let mut device = self;
        device.faults = faults;
        device
    }

    /// Sets the light level the device reads.
    pub fn set_lux(&mut self, lux: F64Bits)
        ensures
            *final(self) == (Simulator { lux, ..*old(self) }),
    {
        self.lux = lux;
    }

    /// The faults the device injects.
    pub fn faults(&self) -> (r: &SimulatorFaults)
        ensures
            *r == self.faults,
    {
        &self.faults
    }

    /// Whether the device drops the link: it has handled at least as many
    /// messages as the fault asks for.
    pub fn should_disconnect(&self) -> (r: bool)
        ensures
            r == (self.faults.disconnect_after_messages matches Some(limit)
                && self.handled_messages >= limit),
    {
        match self.faults.disconnect_after_messages {
            Some(limit) => self.handled_messages >= limit,
            None => false,
        }
    }

    /// Whether the device sends garbage: it has handled at least as many
    /// messages as the fault asks for.
    pub fn should_emit_malformed(&self) -> (r: bool)
        ensures
            r == (self.faults.malformed_after_messages matches Some(limit)
                && self.handled_messages >= limit),
    {
        match self.faults.malformed_after_messages {
            Some(limit) => self.handled_messages >= limit,
            None => false,
        }
    }

    /// The status the device reports: the sensor healthy with its light
    /// level unless the sensor fault is on, the relay when installed.
    pub fn status(&self) -> (r: DeviceStatus)
        ensures
            (r.sensor.healthy, r.sensor.lux, r.relay) == simulated_status(*self),
            r.sensor.sample_age_ms == Some(0u64),
            r.uptime_ms == self.uptime_ms,
            r.reset_reason@ == "simulated"@,
            r.malformed_frames == self.malformed_frames,
    {
        let relay = if self.info.supports(Capability::Relay) {
            RelayStatus { available: true, energized: Some(self.relay_energized) }
        } else {
            RelayStatus { available: false, energized: None }
        };
        proof {
            reveal_strlit("simulated");
        }
        DeviceStatus {
            sensor: SensorStatus {
                healthy: !self.faults.sensor_error,
                lux: if self.faults.sensor_error {
                    None
                } else {
                    Some(self.lux)
                },
                sample_age_ms: Some(0),
            },
            relay,
            uptime_ms: self.uptime_ms,
            reset_reason: "simulated".to_string(),
            malformed_frames: self.malformed_frames,
        }
    }

    /// The next light sample: the sequence number advances, the uptime by
    /// one stream interval, and the sample is the light level, or a read
    /// error while the sensor fault is on. Returns the sequence number,
    /// the uptime and the sample.
    pub fn sample_event(&mut self) -> (r: (u32, u64, SensorSample))
        ensures
            final(self).seq == (if old(self).seq == u32::MAX {
                0
            } else {
                old(self).seq + 1
            }),
            final(self).uptime_ms == (if old(self).uptime_ms
                + old(self).stream.ambient_lux_interval_ms > u64::MAX {
                u64::MAX as int
            } else {
                old(self).uptime_ms + old(self).stream.ambient_lux_interval_ms
            }),
            r.0 == final(self).seq && r.1 == final(self).uptime_ms,
            old(self).faults.sensor_error ==> r.2.lux is None && r.2.quality
                == SampleQuality::ReadError,
            !old(self).faults.sensor_error ==> r.2.lux == Some(old(self).lux) && r.2.quality
                == SampleQuality::Valid,
            final(self).info == old(self).info && final(self).lux == old(self).lux,
            final(self).handled_messages == old(self).handled_messages,
    {
        self.seq = self.seq.wrapping_add(1);
        self.uptime_ms = self.uptime_ms.saturating_add(self.stream.ambient_lux_interval_ms as u64);
        let sample = if self.faults.sensor_error {
            SensorSample { lux: None, quality: SampleQuality::ReadError }
        } else {
            SensorSample { lux: Some(self.lux), quality: SampleQuality::Valid }
        };
        (self.seq, self.uptime_ms, sample)
    }

    /// The next status report: the sequence number advances. Returns it
    /// with the uptime and the status.
    pub fn status_event(&mut self) -> (r: (u32, u64, DeviceStatus))
        ensures
            final(self).seq == (if old(self).seq == u32::MAX {
                0
            } else {
                old(self).seq + 1
            }),
            final(self).uptime_ms == old(self).uptime_ms,
            r.0 == final(self).seq && r.1 == final(self).uptime_ms,
            (r.2.sensor.healthy, r.2.sensor.lux, r.2.relay) == simulated_status(*old(self)),
    {
        self.seq = self.seq.wrapping_add(1);
        let status = self.status();
        (self.seq, self.uptime_ms, status)
    }

    /// Answers a request: every request is counted; a protocol other than
    /// 2 is refused; a hello gets the identity and a status request the
    /// status; a stream configuration is refused when its parameters do not
    /// decode or break the limits, and taken over otherwise; a relay
    /// command is refused without a relay or with undecodable parameters,
    /// and switches the relay otherwise; a reboot is acknowledged; any
    /// other command is refused.
    pub fn handle(&mut self, protocol: u16, request: SimulatorRequest) -> (r: SimulatorReply)
        ensures
            final(self).handled_messages == (if old(self).handled_messages == u64::MAX {
                u64::MAX
            } else {
                (old(self).handled_messages + 1) as u64
            }),
            final(self).info == old(self).info,
            protocol != 2 ==> (r matches SimulatorReply::Failure { code, message } && code
                == ErrorCode::UnsupportedProtocol && message@ == "simulator supports protocol 2"@)
                && final(self).relay_energized == old(self).relay_energized && final(self).stream
                == old(self).stream,
            protocol == 2 ==> match request {
                SimulatorRequest::Hello => r matches SimulatorReply::Info(i) && same_info(
                    i,
                    old(self).info,
                ),
                SimulatorRequest::GetStatus => r matches SimulatorReply::Status(st) && (
                st.sensor.healthy,
                st.sensor.lux,
                st.relay,
                ) == simulated_status(*old(self)),
                SimulatorRequest::Configure(Err(e)) => r == SimulatorReply::Failure {
                    code: ErrorCode::InvalidRequest,
                    message: e,
                },
                SimulatorRequest::Configure(Ok(p)) => if 200 <= p.ambient_lux_interval_ms <= 5000
                    && 1 <= p.include_status_every <= 300 {
                    r == SimulatorReply::Stream(p) && final(self).stream == p
                } else {
                    r matches SimulatorReply::Failure { code, .. } && code
                        == ErrorCode::InvalidParameter && final(self).stream == old(self).stream
                },
                SimulatorRequest::SetRelay(params) => if !old(
                    self,
                ).info.capabilities@.contains(Capability::Relay) {
                    r matches SimulatorReply::Failure { code, message } && code
                        == ErrorCode::UnsupportedCapability && message@
                        == "relay is not installed"@ && final(self).relay_energized == old(
                        self,
                    ).relay_energized
                } else {
                    match params {
                        Err(e) => r == SimulatorReply::Failure {
                            code: ErrorCode::InvalidRequest,
                            message: e,
                        } && final(self).relay_energized == old(self).relay_energized,
                        Ok(p) => final(self).relay_energized == p.energized && r
                            == SimulatorReply::Relay(
                            RelayStatus { available: true, energized: Some(p.energized) },
                        ),
                    }
                },
                SimulatorRequest::Reboot => r is Rebooting,
                SimulatorRequest::Unknown => r matches SimulatorReply::Failure { code, message }
                    && code == ErrorCode::UnsupportedCommand && message@
                    == "command is not supported"@,
            },
    {
        self.handled_messages = self.handled_messages.saturating_add(1);
        proof {
            reveal_strlit("simulator supports protocol 2");
            reveal_strlit("relay is not installed");
            reveal_strlit("command is not supported");
        }
        if protocol != 2 {
            return SimulatorReply::Failure {
                code: ErrorCode::UnsupportedProtocol,
                message: "simulator supports protocol 2".to_string(),
            };
        }
        match request {
            SimulatorRequest::Hello => SimulatorReply::Info(copy_info(&self.info)),
            SimulatorRequest::GetStatus => SimulatorReply::Status(self.status()),
            SimulatorRequest::Configure(Err(error)) => SimulatorReply::Failure {
                code: ErrorCode::InvalidRequest,
                message: error,
            },
            SimulatorRequest::Configure(Ok(params)) => {
                match params.validate() {
                    Err(ProtocolError::InvalidPayload(message)) => SimulatorReply::Failure {
                        code: ErrorCode::InvalidParameter,
                        message,
                    },
                    Err(_) => SimulatorReply::Failure {
                        code: ErrorCode::InvalidParameter,
                        message: String::new(),
                    },
                    Ok(()) => {
                        self.stream = params;
                        SimulatorReply::Stream(params)
                    },
                }
            },
            SimulatorRequest::SetRelay(params) => {
                if !self.info.supports(Capability::Relay) {
                    return SimulatorReply::Failure {
                        code: ErrorCode::UnsupportedCapability,
                        message: "relay is not installed".to_string(),
                    };
                }
                match params {
                    Err(error) => SimulatorReply::Failure {
                        code: ErrorCode::InvalidRequest,
                        message: error,
                    },
                    Ok(p) => {
                        self.relay_energized = p.energized;
                        SimulatorReply::Relay(
                            RelayStatus { available: true, energized: Some(p.energized) },
                        )
                    },
                }
            },
            SimulatorRequest::Reboot => SimulatorReply::Rebooting,
            SimulatorRequest::Unknown => SimulatorReply::Failure {
                code: ErrorCode::UnsupportedCommand,
                message: "command is not supported".to_string(),
            },
        }
    }
}

/// How the simulator program runs: the profile, serial number and light
/// level of the device, a delay before each answer in milliseconds, and
/// the faults to inject.
#[derive(Clone, Debug)]
pub struct SimulatorOptions {
    pub profile: SimulatedProfile,
    pub serial: String,
    pub lux: F64Bits,
    pub delay_ms: u64,
    pub sensor_error: bool,
    pub malformed_after: Option<u64>,
    pub disconnect_after: Option<u64>,
}

/// The options as plain values, in field order.
pub type OptionsView = (SimulatedProfile, Seq<char>, F64Bits, u64, bool, Option<u64>, Option<u64>);

/// The options as plain values.
pub open spec fn options_view(o: SimulatorOptions) -> OptionsView {
    (o.profile, o.serial@, o.lux, o.delay_ms, o.sensor_error, o.malformed_after, o.disconnect_after)
}

/// The options the simulator starts with: the relay profile, serial
/// number `SIM-0001`, 67.5 lux, no delay and no fault.
pub open spec fn default_options() -> OptionsView {
    (
        SimulatedProfile::SensorRelay,
        "SIM-0001"@,
        F64Bits { bits: 0x4050e00000000000 },
        0,
        false,
        None,
        None,
    )
}

/// The usage text of the simulator program.
pub open spec fn simulator_usage() -> Seq<char> {
    "usage: lumi-device-simulator [--profile sensor|relay] [--serial ID] [--lux N] [--delay-ms N] [--sensor-error] [--malformed-after N] [--disconnect-after N]"@
}

/// The number the argument at `j` reads as, where `numbers` holds what
/// each argument read as; nothing past its end.
pub open spec fn number_at(numbers: Seq<Option<F64Bits>>, j: int) -> Option<F64Bits> {
    if 0 <= j < numbers.len() {
        numbers[j]
    } else {
        None
    }
}

/// The outcome of reading the simulator's arguments from index `i` on,
/// with the options read so far `o`; `numbers[j]` is what the argument at
/// `j` reads as a floating-point number. Each option that takes a value
/// reads the next argument; the first problem, or a request for help,
/// ends the reading with its message.
pub open spec fn simulator_options(
    args: Seq<Seq<char>>,
    numbers: Seq<Option<F64Bits>>,
    i: int,
    o: OptionsView,
) -> Result<OptionsView, Seq<char>>
    decreases args.len() - i,
{
    if i < 0 || i >= args.len() {
        Ok(o)
    } else {
        let a = args[i];
        let has_value = i + 1 < args.len();
        if a == "--profile"@ {
            if has_value && args[i + 1] == "sensor"@ {
                simulator_options(args, numbers, i + 2, (SimulatedProfile::Sensor, o.1, o.2, o.3, o.4, o.5, o.6))
            } else if has_value && args[i + 1] == "relay"@ {
                simulator_options(args, numbers, i + 2, (SimulatedProfile::SensorRelay, o.1, o.2, o.3, o.4, o.5, o.6))
            } else {
                Err("--profile must be sensor or relay"@)
            }
        } else if a == "--serial"@ {
            if !has_value {
                Err("--serial requires a value"@)
            } else {
                simulator_options(args, numbers, i + 2, (o.0, args[i + 1], o.2, o.3, o.4, o.5, o.6))
            }
        } else if a == "--lux"@ {
            if !has_value {
                Err("--lux requires a value"@)
            } else {
                match number_at(numbers, i + 1) {
                    None => Err("--lux requires a number"@),
                    Some(lux) => simulator_options(args, numbers, i + 2, (o.0, o.1, lux, o.3, o.4, o.5, o.6)),
                }
            }
        } else if a == "--delay-ms"@ {
            if !has_value {
                Err("--delay-ms requires a value"@)
            } else {
                match parsed_u64(args[i + 1]) {
                    None => Err("--delay-ms requires an integer"@),
                    Some(ms) => simulator_options(args, numbers, i + 2, (o.0, o.1, o.2, ms, o.4, o.5, o.6)),
                }
            }
        } else if a == "--sensor-error"@ {
            simulator_options(args, numbers, i + 1, (o.0, o.1, o.2, o.3, true, o.5, o.6))
        } else if a == "--malformed-after"@ {
            if !has_value {
                Err("--malformed-after requires a value"@)
            } else {
                match parsed_u64(args[i + 1]) {
                    None => Err("--malformed-after requires an integer"@),
                    Some(n) => simulator_options(args, numbers, i + 2, (o.0, o.1, o.2, o.3, o.4, Some(n), o.6)),
                }
            }
        } else if a == "--disconnect-after"@ {
            if !has_value {
                Err("--disconnect-after requires a value"@)
            } else {
                match parsed_u64(args[i + 1]) {
                    None => Err("--disconnect-after requires an integer"@),
                    Some(n) => simulator_options(args, numbers, i + 2, (o.0, o.1, o.2, o.3, o.4, o.5, Some(n))),
                }
            }
        } else if a == "--help"@ || a == "-h"@ {
            Err(simulator_usage())
        } else {
            Err("unknown argument: "@ + a)
        }
    }
}

/// The error message `text`.
fn message(text: &str) -> (r: Result<SimulatorOptions, String>)
    ensures
        r matches Err(m) && m@ == text@,
{
    Err(text.to_string())
}

/// Reads the simulator's arguments. `numbers[j]` is what the argument at
/// `j` gave when parsed as a floating-point number (`None` when it did not
/// parse); only the value of `--lux` is read from it.
pub fn parse_simulator_options(args: &[String], numbers: &[Option<F64Bits>]) -> (r: Result<
    SimulatorOptions,
    String,
>)
    ensures
        match simulator_options(arg_texts(args@), numbers@, 0, default_options()) {
            Ok(v) => r matches Ok(o) && options_view(o) == v,
            Err(e) => r matches Err(m) && m@ == e,
        },
{
    proof {
        reveal_strlit("--profile");
        reveal_strlit("sensor");
        reveal_strlit("relay");
        reveal_strlit("--serial");
        reveal_strlit("--lux");
        reveal_strlit("--delay-ms");
        reveal_strlit("--sensor-error");
        reveal_strlit("--malformed-after");
        reveal_strlit("--disconnect-after");
        reveal_strlit("--help");
        reveal_strlit("-h");
        reveal_strlit("SIM-0001");
    }
    let ghost texts = arg_texts(args@);
    let mut o = SimulatorOptions {
        profile: SimulatedProfile::SensorRelay,
        serial: "SIM-0001".to_string(),
        lux: F64Bits { bits: 0x4050e00000000000 },
        delay_ms: 0,
        sensor_error: false,
        malformed_after: None,
        disconnect_after: None,
    };
    let mut i: usize = 0;
    while i < args.len()
        invariant
            0 <= i <= args@.len(),
            texts == arg_texts(args@),
            simulator_options(texts, numbers@, 0, default_options()) == simulator_options(
                texts,
                numbers@,
                i as int,
                options_view(o),
            ),
        decreases args@.len() - i,
    {
        let arg = args[i].as_str();
        assert(texts[i as int] == arg@);
        let has_value = i + 1 < args.len();
        if has_value {
            assert(texts[i + 1] == args@[i + 1]@);
        }
        if text_equals(arg, "--profile") {
            if has_value && text_equals(args[i + 1].as_str(), "sensor") {
                o.profile = SimulatedProfile::Sensor;
            } else if has_value && text_equals(args[i + 1].as_str(), "relay") {
                o.profile = SimulatedProfile::SensorRelay;
            } else {
                return message("--profile must be sensor or relay");
            }
            i += 2;
        } else if text_equals(arg, "--serial") {
            if !has_value {
                return message("--serial requires a value");
            }
            o.serial = args[i + 1].clone();
            i += 2;
        } else if text_equals(arg, "--lux") {
            if !has_value {
                return message("--lux requires a value");
            }
            let value = if i + 1 < numbers.len() {
                numbers[i + 1]
            } else {
                None
            };
            match value {
                None => {
                    return message("--lux requires a number");
                },
                Some(lux) => {
                    o.lux = lux;
                },
            }
            i += 2;
        } else if text_equals(arg, "--delay-ms") {
            if !has_value {
                return message("--delay-ms requires a value");
            }
            match parse_u64(args[i + 1].as_str()) {
                None => {
                    return message("--delay-ms requires an integer");
                },
                Some(ms) => {
                    o.delay_ms = ms;
                },
            }
            i += 2;
        } else if text_equals(arg, "--sensor-error") {
            o.sensor_error = true;
            i += 1;
        } else if text_equals(arg, "--malformed-after") {
            if !has_value {
                return message("--malformed-after requires a value");
            }
            match parse_u64(args[i + 1].as_str()) {
                None => {
                    return message("--malformed-after requires an integer");
                },
                Some(n) => {
                    o.malformed_after = Some(n);
                },
            }
            i += 2;
        } else if text_equals(arg, "--disconnect-after") {
            if !has_value {
                return message("--disconnect-after requires a value");
            }
            match parse_u64(args[i + 1].as_str()) {
                None => {
                    return message("--disconnect-after requires an integer");
                },
                Some(n) => {
                    o.disconnect_after = Some(n);
                },
            }
            i += 2;
        } else if text_equals(arg, "--help") || text_equals(arg, "-h") {
            return message(
                "usage: lumi-device-simulator [--profile sensor|relay] [--serial ID] [--lux N] [--delay-ms N] [--sensor-error] [--malformed-after N] [--disconnect-after N]",
            );
        } else {
            return Err(String::from_str("unknown argument: ").concat(arg));
        }
    }
    Ok(o)
}

} // verus!
