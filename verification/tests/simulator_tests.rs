use lumicontrol::agent::{expression_uses_weather, record_relay_result};
use lumicontrol::device::{DiscoveryPolicy, PortCandidate, PortKind, UsbId};
use lumicontrol::control::{
    ConditionExpression, LightAction, LightCondition, LightRule, RelayContactMode, WeatherKind,
};
use lumicontrol::store::SettingsDocument;
use lumicontrol::float_bits::F64Bits;
use lumicontrol::ipc::{DeviceConnectionState, IpcErrorCode};
use lumicontrol::link::LinkCommand;
use lumicontrol::runtime::{AgentCore, DeviceEventOutcome, DeviceWorkerEvent};
use lumicontrol::protocol::{Capability, ErrorCode, RelaySetParams, SampleQuality, StreamConfigureParams};
use lumicontrol::simulator::{
    parse_simulator_options, simulator_request, SimulatedProfile, Simulator, SimulatorFaults, SimulatorReply,
    SimulatorRequest,
};

fn relay_request(energized: bool) -> SimulatorRequest {
    simulator_request(
        "relay.set",
        Err("unused".to_string()),
        Ok(RelaySetParams { energized }),
    )
}

#[test]
fn sensor_profile_rejects_relay_command_by_capability() {
    let mut simulator = Simulator::new(SimulatedProfile::Sensor, "SIM-SENSOR".to_string());
    let response = simulator.handle(2, relay_request(true));
    match response {
        SimulatorReply::Failure { code, .. } => {
            assert_eq!(code, ErrorCode::UnsupportedCapability)
        }
        other => panic!("expected a failure, got {:?}", other),
    }
    assert!(!simulator.relay_energized);
}

#[test]
fn relay_profile_reports_observed_energized_state() {
    let mut simulator = Simulator::new(SimulatedProfile::SensorRelay, "SIM-RELAY".to_string());
    let response = simulator.handle(2, relay_request(true));
    match response {
        SimulatorReply::Relay(status) => assert_eq!(status.energized, Some(true)),
        other => panic!("expected the relay status, got {:?}", other),
    }
}

#[test]
fn simulated_sample_is_a_valid_protocol_event() {
    let mut simulator = Simulator::new(SimulatedProfile::Sensor, "SIM-SENSOR".to_string());
    let (seq, uptime, sample) = simulator.sample_event();
    assert_eq!(seq, 1);
    assert_eq!(uptime, 1000);
    assert_eq!(sample.quality, SampleQuality::Valid);
    assert_eq!(sample.lux.map(|l| f64::from_bits(l.bits)), Some(67.5));
}

#[test]
fn simulator_refuses_other_protocols_and_counts_every_message() {
    let mut simulator = Simulator::new(SimulatedProfile::SensorRelay, "SIM-RELAY".to_string());
    match simulator.handle(1, relay_request(true)) {
        SimulatorReply::Failure { code, message } => {
            assert_eq!(code, ErrorCode::UnsupportedProtocol);
            assert_eq!(message, "simulator supports protocol 2");
        }
        other => panic!("expected a failure, got {:?}", other),
    }
    assert!(!simulator.relay_energized);
    assert_eq!(simulator.handled_messages, 1);
    let unknown = simulator_request("device.dance", Err("x".to_string()), Err("y".to_string()));
    match simulator.handle(2, unknown) {
        SimulatorReply::Failure { code, message } => {
            assert_eq!(code, ErrorCode::UnsupportedCommand);
            assert_eq!(message, "command is not supported");
        }
        other => panic!("expected a failure, got {:?}", other),
    }
    assert_eq!(simulator.handled_messages, 2);
}

#[test]
fn simulator_stream_configuration_respects_limits() {
    let mut simulator = Simulator::new(SimulatedProfile::Sensor, "SIM-SENSOR".to_string());
    let too_fast = simulator_request(
        "stream.configure",
        Ok(StreamConfigureParams { ambient_lux_interval_ms: 100, include_status_every: 5 }),
        Err("unused".to_string()),
    );
    match simulator.handle(2, too_fast) {
        SimulatorReply::Failure { code, .. } => assert_eq!(code, ErrorCode::InvalidParameter),
        other => panic!("expected a failure, got {:?}", other),
    }
    assert_eq!(simulator.stream.ambient_lux_interval_ms, 1000);
    let fine = simulator_request(
        "stream.configure",
        Ok(StreamConfigureParams { ambient_lux_interval_ms: 500, include_status_every: 5 }),
        Err("unused".to_string()),
    );
    match simulator.handle(2, fine) {
        SimulatorReply::Stream(p) => assert_eq!(p.ambient_lux_interval_ms, 500),
        other => panic!("expected the stream settings, got {:?}", other),
    }
    assert_eq!(simulator.stream.ambient_lux_interval_ms, 500);
    assert_eq!(simulator.stream.include_status_every, 5);
    let (_, uptime, _) = simulator.sample_event();
    assert_eq!(uptime, 500);
}

#[test]
fn simulator_sensor_fault_reports_read_errors() {
    let faults = SimulatorFaults {
        response_delay: 0,
        sensor_error: true,
        malformed_after_messages: None,
        disconnect_after_messages: Some(1),
    };
    let mut simulator =
        Simulator::new(SimulatedProfile::Sensor, "SIM-SENSOR".to_string()).with_faults(faults);
    let (_, _, sample) = simulator.sample_event();
    assert_eq!(sample.quality, SampleQuality::ReadError);
    assert!(sample.lux.is_none());
    assert!(!simulator.should_disconnect());
    let hello = simulator_request("device.hello", Err("x".to_string()), Err("y".to_string()));
    match simulator.handle(2, hello) {
        SimulatorReply::Info(info) => assert_eq!(info.serial_number, "SIM-SENSOR"),
        other => panic!("expected the identity, got {:?}", other),
    }
    assert!(simulator.should_disconnect());
    simulator.set_lux(F64Bits { bits: 12.0f64.to_bits() });
    assert_eq!(simulator.lux.bits, 12.0f64.to_bits());
}

fn connected_core(simulator: &mut Simulator) -> AgentCore {
    let hello = simulator_request("device.hello", Err("x".to_string()), Err("y".to_string()));
    let info = match simulator.handle(2, hello) {
        SimulatorReply::Info(info) => info,
        other => panic!("expected the identity, got {:?}", other),
    };
    let mut core = AgentCore::new();
    let outcome = core.handle_device_event(
        DeviceWorkerEvent::Connected {
            info,
            port_name: "COM-SIM".to_string(),
            status: Some(simulator.status()),
        },
        RelayContactMode::No,
    );
    assert!(matches!(outcome, DeviceEventOutcome::Nothing));
    assert_eq!(core.device.state, DeviceConnectionState::Connected);
    core
}

#[test]
fn sensor_only_profile_rejects_relay_commands_locally() {
    let mut simulator = Simulator::new(SimulatedProfile::Sensor, "SIM-SENSOR".to_string());
    let core = connected_core(&mut simulator);
    let error = core.light_request(RelayContactMode::No, true).unwrap_err();
    assert_eq!(error.code, IpcErrorCode::UnsupportedCapability);
}

#[test]
fn relay_profile_reports_observed_state_after_command() {
    let mut simulator = Simulator::new(SimulatedProfile::SensorRelay, "SIM-RELAY".to_string());
    let mut core = connected_core(&mut simulator);
    assert!(core.relay.available);
    let (energized, light_on) = match core.light_request(RelayContactMode::No, true).unwrap() {
        LinkCommand::SetRelay { energized, light_on } => (energized, light_on),
        other => panic!("expected a relay command, got {:?}", other),
    };
    let status = match simulator.handle(2, relay_request(energized)) {
        SimulatorReply::Relay(status) => status,
        other => panic!("expected the relay status, got {:?}", other),
    };
    record_relay_result(&mut core.relay, light_on, Ok(status));
    assert_eq!(core.relay.light_on, Some(true));
}

#[test]
fn nested_weather_condition_is_detected() {
    let expression = ConditionExpression::And {
        conditions: vec![ConditionExpression::Or {
            conditions: vec![ConditionExpression::condition(LightCondition::WeatherIs {
                weather: WeatherKind::Rain,
            })],
        }],
    };
    assert!(expression_uses_weather(&expression));
}

fn hello(simulator: &mut Simulator) -> lumicontrol::protocol::DeviceInfo {
    let request = simulator_request("device.hello", Err("x".to_string()), Err("y".to_string()));
    match simulator.handle(2, request) {
        SimulatorReply::Info(info) => info,
        other => panic!("expected the identity, got {:?}", other),
    }
}

#[test]
fn persistent_connection_handles_multiple_commands_on_one_open_port() {
    let mut simulator = Simulator::new(SimulatedProfile::SensorRelay, "SIM-0001".to_string());
    assert_eq!(hello(&mut simulator).serial_number, "SIM-0001");
    match simulator.handle(2, relay_request(true)) {
        SimulatorReply::Relay(status) => assert!(status.energized.unwrap()),
        other => panic!("expected the relay status, got {:?}", other),
    }
    let request = simulator_request("device.get_status", Err("x".to_string()), Err("y".to_string()));
    match simulator.handle(2, request) {
        SimulatorReply::Status(status) => assert!(status.relay.energized.unwrap()),
        other => panic!("expected the status, got {:?}", other),
    }
}

#[test]
fn sensor_only_device_fails_relay_locally_without_sending_command() {
    let mut simulator = Simulator::new(SimulatedProfile::Sensor, "SIM-0001".to_string());
    let info = hello(&mut simulator);
    assert!(!info.supports(Capability::Relay));
    assert_eq!(simulator.handled_messages, 1);
}

#[test]
fn discovery_filters_non_usb_and_returns_valid_handshake() {
    let policy = DiscoveryPolicy::default();
    let mut candidates = vec![
        PortCandidate { name: "COM1".to_string(), kind: PortKind::Unknown },
        PortCandidate {
            name: "COM-SIM".to_string(),
            kind: PortKind::Usb {
                id: UsbId { vid: 0x303a, pid: 0x1001 },
                serial_number: Some("SIM-0001".to_string()),
                manufacturer: Some("Lumi".to_string()),
                product: Some("Lumi Sensor".to_string()),
            },
        },
    ];
    policy.sort_candidates(&mut candidates);
    let accepted: Vec<&PortCandidate> = candidates.iter().filter(|c| policy.accepts(c)).collect();
    assert_eq!(accepted.len(), 1);
    assert_eq!(accepted[0].name, "COM-SIM");
    let mut simulator = Simulator::new(SimulatedProfile::Sensor, "SIM-0001".to_string());
    assert_eq!(hello(&mut simulator).product_id, "lumi-sensor");
}

#[test]
fn solar_rule_context_is_available_without_a_weather_request() {
    let mut simulator = Simulator::new(SimulatedProfile::SensorRelay, "SIM-RELAY".to_string());
    let core = connected_core(&mut simulator);
    let mut document = SettingsDocument::default();
    document.settings.weather.enabled = true;
    document.settings.weather.latitude = F64Bits { bits: 31.2304f64.to_bits() };
    document.settings.weather.longitude = F64Bits { bits: 121.4737f64.to_bits() };
    document.settings.weather.timezone = "Asia/Shanghai".to_string();
    document.settings.relay.rules_enabled = true;
    document.settings.relay.rules = vec![LightRule {
        id: "solar-test".to_string(),
        name: "Solar test".to_string(),
        enabled: true,
        when: ConditionExpression::condition(LightCondition::AfterSunrise { offset_minutes: 0 }),
        action: LightAction::Keep,
    }];
    assert!(document.validate().is_ok());
    assert!(core.check_relay_capability(&document.settings.relay).is_ok());
    assert!(core.relay_rules_active(document.settings.relay.rules_enabled));
    assert!(!core.weather_is_needed(&document.settings.weather, &document.settings.relay));
}

fn numbers(args: &[String]) -> Vec<Option<F64Bits>> {
    args.iter().map(|a| a.parse::<f64>().ok().map(|v| F64Bits { bits: v.to_bits() })).collect()
}

fn options(args: &[&str]) -> Result<lumicontrol::simulator::SimulatorOptions, String> {
    let args: Vec<String> = args.iter().map(|a| a.to_string()).collect();
    parse_simulator_options(&args, &numbers(&args))
}

#[test]
fn simulator_options_default_to_a_relay_device() {
    let o = options(&[]).unwrap();
    assert_eq!(o.profile, SimulatedProfile::SensorRelay);
    assert_eq!(o.serial, "SIM-0001");
    assert_eq!(f64::from_bits(o.lux.bits), 67.5);
    assert_eq!(o.delay_ms, 0);
    assert!(!o.sensor_error);
    assert_eq!(o.malformed_after, None);
    assert_eq!(o.disconnect_after, None);
}

#[test]
fn simulator_options_read_every_setting() {
    let o = options(&[
        "--profile", "sensor", "--serial", "SIM-9", "--lux", "12.5", "--delay-ms", "+40",
        "--sensor-error", "--malformed-after", "3", "--disconnect-after", "7",
    ])
    .unwrap();
    assert_eq!(o.profile, SimulatedProfile::Sensor);
    assert_eq!(o.serial, "SIM-9");
    assert_eq!(f64::from_bits(o.lux.bits), 12.5);
    assert_eq!(o.delay_ms, 40);
    assert!(o.sensor_error);
    assert_eq!(o.malformed_after, Some(3));
    assert_eq!(o.disconnect_after, Some(7));
}

#[test]
fn simulator_options_report_the_first_problem() {
    assert_eq!(options(&["--profile", "lamp"]).unwrap_err(), "--profile must be sensor or relay");
    assert_eq!(options(&["--serial"]).unwrap_err(), "--serial requires a value");
    assert_eq!(options(&["--lux", "bright", "--bogus"]).unwrap_err(), "--lux requires a number");
    assert_eq!(options(&["--delay-ms", "-1"]).unwrap_err(), "--delay-ms requires an integer");
    assert_eq!(options(&["--disconnect-after"]).unwrap_err(), "--disconnect-after requires a value");
    assert_eq!(options(&["--bogus"]).unwrap_err(), "unknown argument: --bogus");
    assert!(options(&["-h"]).unwrap_err().starts_with("usage: lumi-device-simulator"));
}
