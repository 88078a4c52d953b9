use lumicontrol::control::{
    ManualOverrideConfig, ManualOverrideGuard, RelayContactMode, LightAction, LightRule,
    ConditionExpression, LightCondition, WeatherKind,
};
use lumicontrol::float_bits::F64Bits;
use lumicontrol::ipc::{
    AgentCommand, DeviceConnectionState, IpcErrorCode, MonitorSnapshot,
};
use lumicontrol::link::{
    wait_disconnected_outcome, wait_suspended_outcome, ConnectedStep, DeviceLink,
    DeviceWaitOutcome, LinkCommand, LinkWaitEvent,
};
use lumicontrol::monitor::{BrightnessRange, MonitorDescriptor, SchedulerEvent};
use lumicontrol::monitors::{
    apply_monitor_event, clear_overrides, monitors_to_retarget, record_retarget,
    replace_monitor_descriptors, update_override_snapshots, MonitorControl, MonitorFollowUp,
};
use lumicontrol::protocol::{
    Capability, DeviceInfo, DeviceStatus, RelayStatus, SampleQuality, SensorSample, SensorStatus,
};
use lumicontrol::runtime::{
    minutes_of_day, solar_cache_matches, SolarCacheKey,
    decide_system_event, due_work, next_deadline_ms, plan_command, route_command,
    rule_light_request, settings_change, validate_settings, AgentCore, CommandRoute, CommandStep,
    DeviceEventOutcome, DeviceWorkerEvent, SystemEvent, SystemStep, WeatherSchedule,
};
use lumicontrol::store::{MonitorProfile, RelaySettings, SettingsDocument};

fn snapshot(id: &str) -> MonitorSnapshot {
    MonitorSnapshot {
        id: id.to_string(),
        display_name: format!("Display {id}"),
        display_path: format!(r"\\.\{id}"),
        qualified: true,
        current_percent: Some(50),
        target_percent: None,
        transition_active: false,
        manual_override_remaining_ms: None,
        ddc_error_count: 0,
        last_error: None,
    }
}

fn control(id: &str, current: Option<i32>) -> MonitorControl {
    MonitorControl {
        id: id.to_string(),
        guard: ManualOverrideGuard::new(ManualOverrideConfig::default()),
        current,
        target: None,
        transition_active: false,
    }
}

fn descriptor(id: &str, current_raw: u32) -> MonitorDescriptor {
    MonitorDescriptor {
        id: id.to_string(),
        display_name: format!("Display {id}"),
        display_path: format!(r"\\.\{id}"),
        device_id: format!("MONITOR\\{id}"),
        brightness: Some(BrightnessRange { minimum_raw: 0, current_raw, maximum_raw: 100 }),
        qualification_error: None,
    }
}

fn device_info(capabilities: Vec<Capability>) -> DeviceInfo {
    DeviceInfo {
        product_id: "lumi-sensor".to_string(),
        serial_number: "LUMI-0001".to_string(),
        hardware_version: "1".to_string(),
        firmware_version: "1.2.0".to_string(),
        bootloader_version: "1".to_string(),
        protocol_min: 1,
        protocol_max: 2,
        capabilities,
    }
}

fn status(energized: Option<bool>, malformed_frames: u32) -> DeviceStatus {
    DeviceStatus {
        sensor: SensorStatus { healthy: true, lux: None, sample_age_ms: None },
        relay: RelayStatus { available: energized.is_some(), energized },
        uptime_ms: 1_000,
        reset_reason: "power_on".to_string(),
        malformed_frames,
    }
}

#[test]
fn relay_request_while_disconnected_is_refused_and_retried() {
    let (outcome, error) = wait_disconnected_outcome(LinkWaitEvent::Command(LinkCommand::SetRelay {
        energized: true,
        light_on: true,
    }));
    assert_eq!(outcome, DeviceWaitOutcome::Retry);
    let error = error.unwrap();
    assert_eq!(error.code, IpcErrorCode::HardwareUnavailable);
    assert_eq!(error.message, "Lumi device is disconnected");
    assert_eq!(wait_disconnected_outcome(LinkWaitEvent::TimedOut).0, DeviceWaitOutcome::Retry);
    assert_eq!(wait_disconnected_outcome(LinkWaitEvent::Closed).0, DeviceWaitOutcome::Shutdown);
    assert_eq!(
        wait_disconnected_outcome(LinkWaitEvent::Command(LinkCommand::Suspend)).0,
        DeviceWaitOutcome::Suspended
    );
}

#[test]
fn only_refresh_wakes_a_sleeping_worker() {
    let (outcome, error) = wait_suspended_outcome(Some(LinkCommand::SetRelay {
        energized: false,
        light_on: true,
    }));
    assert_eq!(outcome, DeviceWaitOutcome::Suspended);
    assert_eq!(error.unwrap().message, "Lumi device is suspended");
    assert_eq!(wait_suspended_outcome(Some(LinkCommand::Suspend)).0, DeviceWaitOutcome::Suspended);
    assert_eq!(wait_suspended_outcome(Some(LinkCommand::Refresh)).0, DeviceWaitOutcome::Retry);
    assert_eq!(wait_suspended_outcome(None).0, DeviceWaitOutcome::Shutdown);
}

#[test]
fn link_delays_double_and_restart_after_a_wake() {
    let mut link = DeviceLink::new();
    assert_eq!(link.failed(), 250_000_000);
    assert_eq!(link.failed(), 500_000_000);
    assert!(link.after_disconnected_wait(DeviceWaitOutcome::Suspended));
    assert!(link.is_suspended());
    assert!(link.after_suspended_wait(DeviceWaitOutcome::Suspended));
    assert!(link.is_suspended());
    assert!(link.after_suspended_wait(DeviceWaitOutcome::Retry));
    assert!(!link.is_suspended());
    assert_eq!(link.failed(), 250_000_000);
    link.discovered();
    assert_eq!(link.failed(), 250_000_000);
    assert!(!link.after_disconnected_wait(DeviceWaitOutcome::Shutdown));
}

#[test]
fn connected_commands_switch_rediscover_or_stop() {
    let mut link = DeviceLink::new();
    assert_eq!(
        link.connected_command(LinkCommand::SetRelay { energized: true, light_on: false }),
        ConnectedStep::SwitchRelay { energized: true, light_on: false }
    );
    assert_eq!(link.connected_command(LinkCommand::Refresh), ConnectedStep::Rediscover);
    assert!(!link.is_suspended());
    assert_eq!(link.connected_command(LinkCommand::Suspend), ConnectedStep::Rediscover);
    assert!(link.is_suspended());
    assert_eq!(link.connected_command(LinkCommand::Shutdown), ConnectedStep::Stop);
}

#[test]
fn monitor_events_update_controls_and_snapshots() {
    let mut controls = vec![control("a", Some(40)), control("b", None)];
    let mut snapshots = vec![snapshot("a"), snapshot("b")];
    snapshots[0].last_error = Some("old".to_string());
    let follow = apply_monitor_event(
        &mut controls,
        &mut snapshots,
        SchedulerEvent::BrightnessApplied { monitor_id: "a".to_string(), percent: 60 },
        0,
    );
    assert!(matches!(follow, MonitorFollowUp::Nothing));
    assert_eq!(controls[0].current, Some(60));
    assert_eq!(snapshots[0].current_percent, Some(60));
    assert_eq!(snapshots[0].last_error, None);

    apply_monitor_event(
        &mut controls,
        &mut snapshots,
        SchedulerEvent::MonitorError { monitor_id: "b".to_string(), message: "ddc".to_string() },
        0,
    );
    assert_eq!(snapshots[1].ddc_error_count, 1);
    assert_eq!(snapshots[1].last_error.as_deref(), Some("ddc"));
    assert!(!snapshots[1].transition_active);

    apply_monitor_event(
        &mut controls,
        &mut snapshots,
        SchedulerEvent::TransitionComplete { monitor_id: "b".to_string(), percent: 33 },
        0,
    );
    assert_eq!(controls[1].current, Some(33));
    assert_eq!(snapshots[1].current_percent, Some(33));

    apply_monitor_event(
        &mut controls,
        &mut snapshots,
        SchedulerEvent::MonitorRemoved { monitor_id: "a".to_string() },
        0,
    );
    assert_eq!(controls.len(), 1);
    assert_eq!(controls[0].id, "b");
    assert_eq!(snapshots.len(), 1);
    assert_eq!(snapshots[0].id, "b");

    let follow = apply_monitor_event(
        &mut controls,
        &mut snapshots,
        SchedulerEvent::RefreshFailed { message: "no displays".to_string() },
        0,
    );
    assert!(matches!(follow, MonitorFollowUp::ReportStatus(message) if message == "no displays"));
}

#[test]
fn a_change_by_hand_suppresses_the_last_target() {
    let mut controls = vec![control("a", Some(50)), control("b", Some(50))];
    let mut snapshots = vec![snapshot("a"), snapshot("b")];
    apply_monitor_event(
        &mut controls,
        &mut snapshots,
        SchedulerEvent::BrightnessObserved { monitor_id: "a".to_string(), percent: 80 },
        1_000,
    );
    assert!(controls[0].guard.is_suppressed(1_000));
    assert_eq!(snapshots[0].manual_override_remaining_ms, Some(900_000));
    assert_eq!(snapshots[0].current_percent, Some(80));

    let profiles: Vec<(String, MonitorProfile)> = Vec::new();
    let chosen = monitors_to_retarget(&controls, false, Some(70), &profiles, 2_000);
    assert_eq!(chosen, vec!["b".to_string()]);
    assert!(monitors_to_retarget(&controls, true, Some(70), &profiles, 2_000).is_empty());
    assert!(monitors_to_retarget(&controls, false, None, &profiles, 2_000).is_empty());
    let later = monitors_to_retarget(&controls, false, Some(70), &profiles, 901_000);
    assert_eq!(later, vec!["a".to_string(), "b".to_string()]);

    clear_overrides(&mut controls, Some("a"));
    assert!(!controls[0].guard.is_suppressed(2_000));
    update_override_snapshots(&controls, &mut snapshots, 2_000);
    assert_eq!(snapshots[0].manual_override_remaining_ms, None);
}

#[test]
fn retarget_results_show_in_snapshots() {
    let mut controls = vec![control("a", Some(50))];
    let mut snapshots = vec![snapshot("a")];
    record_retarget(&mut controls, &mut snapshots, "a", 65, Ok(()));
    assert_eq!(controls[0].target, Some(65));
    assert!(controls[0].transition_active);
    assert_eq!(snapshots[0].target_percent, Some(65));
    assert!(snapshots[0].transition_active);
    record_retarget(&mut controls, &mut snapshots, "a", 70, Err("busy".to_string()));
    assert_eq!(snapshots[0].last_error.as_deref(), Some("busy"));
    assert_eq!(controls[0].target, Some(65));
}

#[test]
fn refresh_keeps_known_monitors_and_adds_new_ones() {
    let mut controls = vec![control("a", Some(12)), control("gone", Some(99))];
    controls[0].target = Some(44);
    let mut snapshots = vec![snapshot("gone")];
    replace_monitor_descriptors(
        &mut controls,
        &mut snapshots,
        vec![descriptor("a", 80), descriptor("b", 25), descriptor("b", 90)],
        ManualOverrideConfig::default(),
        Some(55),
    );
    assert_eq!(controls.len(), 2);
    assert_eq!(controls[0].id, "a");
    assert_eq!(controls[0].current, Some(12));
    assert_eq!(controls[0].target, Some(44));
    assert_eq!(controls[1].id, "b");
    assert_eq!(controls[1].current, Some(25));
    assert_eq!(controls[1].target, Some(55));
    assert!(!controls[1].transition_active);
    assert_eq!(snapshots.len(), 3);
    assert_eq!(snapshots[0].id, "a");
    assert_eq!(snapshots[0].current_percent, Some(80));
    assert_eq!(snapshots[0].target_percent, Some(55));
    assert!(snapshots[0].qualified);
}

#[test]
fn connection_status_and_backoff_show_in_the_snapshots() {
    let mut core = AgentCore::new();
    let outcome = core.handle_device_event(
        DeviceWorkerEvent::Connected {
            info: device_info(vec![Capability::AmbientLux, Capability::Relay]),
            port_name: "COM5".to_string(),
            status: Some(status(Some(true), 3)),
        },
        RelayContactMode::Nc,
    );
    assert!(matches!(outcome, DeviceEventOutcome::Nothing));
    assert_eq!(core.reconnect_count, 1);
    assert_eq!(core.device.state, DeviceConnectionState::Connected);
    assert_eq!(core.device.port_name.as_deref(), Some("COM5"));
    assert_eq!(core.device.negotiated_protocol, Some(2));
    assert!(core.relay.available);
    assert_eq!(core.relay.light_on, Some(false));
    assert_eq!(core.sensor.malformed_frames, 3);

    let outcome = core.handle_device_event(
        DeviceWorkerEvent::Sample {
            sample: SensorSample { lux: Some(F64Bits { bits: 0x4059000000000000 }), quality: SampleQuality::Valid },
            sequence_gap: true,
        },
        RelayContactMode::Nc,
    );
    assert!(matches!(outcome, DeviceEventOutcome::ApplyLux { lux } if lux.bits == 0x4059000000000000));
    assert_eq!(core.sensor.sequence_gaps, 1);

    core.handle_device_event(
        DeviceWorkerEvent::Sample {
            sample: SensorSample { lux: None, quality: SampleQuality::ReadError },
            sequence_gap: false,
        },
        RelayContactMode::Nc,
    );
    assert!(!core.sensor.valid);

    core.handle_device_event(
        DeviceWorkerEvent::BackingOff { delay_nanos: 250_000_000, error: "port closed".to_string() },
        RelayContactMode::Nc,
    );
    assert!(core.capabilities.is_empty());
    assert_eq!(core.device.state, DeviceConnectionState::BackingOff);
    assert_eq!(core.device.last_error.as_deref(), Some("port closed; retrying in 250 ms"));
    assert!(!core.relay.available);
}

#[test]
fn relay_results_are_answered() {
    let mut core = AgentCore::new();
    let outcome = core.handle_device_event(
        DeviceWorkerEvent::RelayResult {
            light_on: true,
            result: Ok(RelayStatus { available: true, energized: Some(true) }),
        },
        RelayContactMode::No,
    );
    assert!(matches!(outcome, DeviceEventOutcome::Reply(Ok(()))));
    assert_eq!(core.relay.light_on, Some(true));
    let outcome = core.handle_device_event(
        DeviceWorkerEvent::RelayResult { light_on: false, result: Err("no answer".to_string()) },
        RelayContactMode::No,
    );
    match outcome {
        DeviceEventOutcome::Reply(Err(error)) => {
            assert_eq!(error.code, IpcErrorCode::HardwareUnavailable);
            assert_eq!(error.message, "no answer");
        }
        _ => panic!("expected an error reply"),
    }
    assert_eq!(core.relay.last_error.as_deref(), Some("no answer"));
    assert_eq!(core.relay.light_on, Some(true));
}

#[test]
fn a_sleeping_agent_ignores_the_device() {
    let mut core = AgentCore::new();
    let mut monitors = vec![snapshot("a")];
    monitors[0].transition_active = true;
    core.enter_sleep(&mut monitors);
    assert!(core.suspended);
    assert_eq!(core.device.state, DeviceConnectionState::Disconnected);
    assert!(!monitors[0].transition_active);
    let outcome = core.handle_device_event(DeviceWorkerEvent::Discovering, RelayContactMode::No);
    assert!(matches!(outcome, DeviceEventOutcome::Nothing));
    assert_eq!(core.device.state, DeviceConnectionState::Disconnected);
    let outcome = core.handle_device_event(
        DeviceWorkerEvent::RelayResult { light_on: true, result: Err("late".to_string()) },
        RelayContactMode::No,
    );
    match outcome {
        DeviceEventOutcome::Reply(Err(error)) => assert_eq!(error.message, "Lumi device is suspended"),
        _ => panic!("expected an error reply"),
    }
    assert_eq!(decide_system_event(true, SystemEvent::DisplayChanged), SystemStep::Ignore);
    assert_eq!(decide_system_event(true, SystemEvent::Resume), SystemStep::Wake);
    assert_eq!(decide_system_event(false, SystemEvent::Resume), SystemStep::Ignore);
    assert_eq!(decide_system_event(false, SystemEvent::Suspend), SystemStep::Sleep);
    core.wake();
    assert_eq!(core.device.state, DeviceConnectionState::Discovering);
}

#[test]
fn light_requests_need_an_awake_device_with_a_relay() {
    let mut core = AgentCore::new();
    let error = core.light_request(RelayContactMode::No, true).unwrap_err();
    assert_eq!(error.code, IpcErrorCode::UnsupportedCapability);
    assert_eq!(error.message, "Connected hardware has no relay");
    core.capabilities = vec![Capability::Relay];
    assert_eq!(
        core.light_request(RelayContactMode::Nc, true).unwrap(),
        LinkCommand::SetRelay { energized: false, light_on: true }
    );
    core.suspended = true;
    let error = core.light_request(RelayContactMode::No, true).unwrap_err();
    assert_eq!(error.code, IpcErrorCode::HardwareUnavailable);
    assert_eq!(error.message, "Lumi device is suspended");
}

#[test]
fn rules_only_ask_for_a_change_of_light() {
    assert_eq!(rule_light_request(LightAction::On, Some(true)), None);
    assert_eq!(rule_light_request(LightAction::On, Some(false)), Some(true));
    assert_eq!(rule_light_request(LightAction::Off, None), Some(false));
    assert_eq!(rule_light_request(LightAction::Keep, Some(false)), None);
}

fn weather_rule() -> LightRule {
    LightRule {
        id: "rain".to_string(),
        name: "Rain".to_string(),
        enabled: true,
        when: ConditionExpression::Condition {
            condition: LightCondition::WeatherIs { weather: WeatherKind::Rain },
        },
        action: LightAction::On,
    }
}

#[test]
fn sensor_without_relay_refuses_switching_rules() {
    let mut core = AgentCore::new();
    let relay = RelaySettings {
        contact_mode: RelayContactMode::No,
        rules_enabled: true,
        rules: vec![weather_rule()],
        fallback_action: LightAction::Keep,
    };
    assert!(core.check_relay_capability(&relay).is_ok());
    core.capabilities = vec![Capability::AmbientLux];
    let error = core.check_relay_capability(&relay).unwrap_err();
    assert_eq!(error.code, IpcErrorCode::UnsupportedCapability);
    assert_eq!(error.message, "Connected Lumi Sensor has no relay capability");
    core.capabilities = vec![Capability::AmbientLux, Capability::Relay];
    assert!(core.check_relay_capability(&relay).is_ok());
    let mut document = SettingsDocument::default();
    document.settings.weather.enabled = true;
    assert!(core.weather_is_needed(&document.settings.weather, &relay));
    document.settings.weather.enabled = false;
    assert!(!core.weather_is_needed(&document.settings.weather, &relay));
}

#[test]
fn commands_are_routed_and_planned() {
    assert!(matches!(plan_command(false, AgentCommand::RunNow), CommandStep::RunNow));
    match plan_command(true, AgentCommand::RefreshHardware) {
        CommandStep::Answer(Err(error)) => {
            assert_eq!(error.code, IpcErrorCode::HardwareUnavailable);
            assert_eq!(error.message, "Hardware refresh is unavailable while the system is suspended");
        }
        _ => panic!("expected a refusal"),
    }
    match plan_command(false, AgentCommand::Ping) {
        CommandStep::Answer(Err(error)) => assert_eq!(error.code, IpcErrorCode::InvalidRequest),
        _ => panic!("expected a refusal"),
    }
    assert!(matches!(plan_command(false, AgentCommand::Shutdown), CommandStep::Stop));
    assert!(matches!(
        plan_command(false, AgentCommand::SetLight { light_on: true }),
        CommandStep::SetLight(true)
    ));
    assert_eq!(
        route_command(&AgentCommand::WaitForSnapshot { after_revision: 7, timeout_ms: 90_000 }),
        CommandRoute::WaitForSnapshot { after_revision: 7, wait_ms: 30_000 }
    );
    assert_eq!(route_command(&AgentCommand::ExportDiagnostics), CommandRoute::Forward { timeout_ms: 15_000 });
    assert_eq!(route_command(&AgentCommand::RunNow), CommandRoute::Forward { timeout_ms: 4_000 });
    assert_eq!(route_command(&AgentCommand::Ping), CommandRoute::Pong);
}

#[test]
fn deadlines_follow_probe_sensor_and_weather() {
    assert_eq!(next_deadline_ms(true, 100, 0, None, None), 60_100);
    assert_eq!(next_deadline_ms(false, 100, 0, None, None), 30_000);
    assert_eq!(next_deadline_ms(false, 100, 0, Some(1_000), None), 6_000);
    assert_eq!(next_deadline_ms(false, 100, 0, Some(1_000), Some(2_000)), 2_000);
    let due = due_work(false, 31_000, Some(20_000), 1_000);
    assert!(due.sensor_stale);
    assert!(due.probe_monitors);
    let due = due_work(true, 31_000, Some(20_000), 1_000);
    assert!(!due.sensor_stale && !due.probe_monitors);
}

#[test]
fn stale_weather_answers_are_dropped() {
    let mut schedule = WeatherSchedule::new(0);
    assert!(schedule.is_due(true, 0));
    schedule.started(0, 300);
    assert!(schedule.in_flight);
    assert_eq!(schedule.next_refresh_ms, 300_000);
    assert!(!schedule.is_due(true, 400_000));
    schedule.settings_replaced(true, false, 10);
    assert_eq!(schedule.generation, 1);
    assert!(!schedule.in_flight);
    assert_eq!(schedule.next_refresh_ms, 10);
    assert!(!schedule.answer(0, true, 20, 300));
    assert_eq!(schedule.next_refresh_ms, 10);
    assert!(schedule.answer(1, false, 20, 300));
    assert_eq!(schedule.next_refresh_ms, 60_020);
    schedule.start_failed(100);
    assert_eq!(schedule.next_refresh_ms, 60_100);
}

#[test]
fn invalid_settings_are_refused_with_every_problem() {
    let mut document = SettingsDocument::default();
    assert!(validate_settings(&document).is_ok());
    document.schema_version = 9;
    document.settings.control.daytime_peak_brightness = 140;
    let error = validate_settings(&document).unwrap_err();
    assert_eq!(error.code, IpcErrorCode::InvalidSettings);
    assert!(error.message.starts_with("settings validation failed: "));
    assert!(error.message.contains("; "));
}

#[test]
fn weather_or_login_changes_are_detected() {
    let current = SettingsDocument::default();
    let mut next = SettingsDocument::default();
    let change = settings_change(&current, &next);
    assert!(!change.weather_changed && !change.startup_changed);
    next.settings.weather.refresh_seconds = 600;
    next.settings.start_at_login = true;
    let change = settings_change(&current, &next);
    assert!(change.weather_changed && change.startup_changed);
}

#[test]
fn clock_minutes_and_solar_cache() {
    assert_eq!(minutes_of_day(0), 0);
    assert_eq!(minutes_of_day(90 * 60_000 + 59_999), 90);
    assert_eq!(minutes_of_day(1440 * 60_000 + 60_000), 1);
    let key = SolarCacheKey {
        latitude_bits: 31.2304f64.to_bits(),
        longitude_bits: 121.4737f64.to_bits(),
        timezone: "Asia/Shanghai".to_string(),
        computed_at_ms: 10_000,
    };
    let lat = F64Bits { bits: 31.2304f64.to_bits() };
    let lon = F64Bits { bits: 121.4737f64.to_bits() };
    assert!(solar_cache_matches(&key, lat, lon, "Asia/Shanghai", 39_999));
    assert!(!solar_cache_matches(&key, lat, lon, "Asia/Shanghai", 40_000));
    assert!(!solar_cache_matches(&key, lat, lon, "Europe/Paris", 10_000));
    assert!(solar_cache_matches(&key, lat, lon, "Asia/Shanghai", 5_000));
}
