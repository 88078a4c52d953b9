use lumicontrol::lifecycle::{
    handover_start, handover_step, startup_start, startup_step, HandoverAction, HandoverEvent,
    HandoverPhase, PingOutcome, StartupAction, StartupEvent, StartupPhase,
};

#[test]
fn handover_reaches_the_agent_then_waits_for_it_to_exit() {
    let phase = handover_start(1_000);
    assert_eq!(phase, HandoverPhase::Reaching { deadline_ms: 9_000 });
    let (phase, action) = handover_step(phase, HandoverEvent::LockHeld, 1_000);
    assert_eq!(action, HandoverAction::ConnectPipe);
    let (phase, action) = handover_step(phase, HandoverEvent::PipeUnreachable, 1_100);
    assert_eq!(action, HandoverAction::RetryAfter(100));
    let (phase, action) = handover_step(phase, HandoverEvent::PipeConnected, 2_000);
    assert_eq!(action, HandoverAction::SendShutdown);
    assert_eq!(phase, HandoverPhase::AwaitingExit { deadline_ms: 10_000 });
    let (phase, action) = handover_step(phase, HandoverEvent::LockHeld, 9_999);
    assert_eq!(action, HandoverAction::RetryAfter(100));
    let (_, action) = handover_step(phase, HandoverEvent::LockAcquired, 10_050);
    assert_eq!(action, HandoverAction::Finished);
}

#[test]
fn handover_gives_up_at_its_deadlines() {
    let phase = handover_start(0);
    let (_, action) = handover_step(phase, HandoverEvent::PipeUnreachable, 8_000);
    assert_eq!(
        action,
        HandoverAction::TimedOut("timed out connecting to the running Lumi Agent".to_string())
    );
    let waiting = HandoverPhase::AwaitingExit { deadline_ms: 500 };
    let (_, action) = handover_step(waiting, HandoverEvent::LockHeld, 500);
    assert_eq!(
        action,
        HandoverAction::TimedOut("timed out waiting for Lumi Agent to exit".to_string())
    );
    let (_, action) = handover_step(waiting, HandoverEvent::LockFailed, 0);
    assert_eq!(action, HandoverAction::PassLockError);
}

#[test]
fn startup_pings_twice_then_launches_and_waits() {
    let (phase, action) = startup_start();
    assert_eq!(action, StartupAction::Ping { timeout_ms: 200 });
    let (phase, action) = startup_step(phase, StartupEvent::Ping(PingOutcome::Unreachable), 0);
    assert_eq!(phase, StartupPhase::ProbeLocked);
    assert_eq!(action, StartupAction::LockThenPing { timeout_ms: 200 });
    let (phase, action) = startup_step(phase, StartupEvent::Ping(PingOutcome::Unreachable), 0);
    assert_eq!(phase, StartupPhase::Launch);
    assert_eq!(action, StartupAction::CheckInstalled);
    let (phase, action) = startup_step(
        phase,
        StartupEvent::Installed { present: true, location: "C:/Lumi/lumi-agent.exe".to_string() },
        0,
    );
    assert_eq!(action, StartupAction::Spawn);
    let (phase, action) = startup_step(phase, StartupEvent::Spawned(Ok(())), 100);
    assert_eq!(phase, StartupPhase::Waiting { deadline_ms: 5_100 });
    assert_eq!(action, StartupAction::Ping { timeout_ms: 250 });
    let (phase, action) = startup_step(phase, StartupEvent::Ping(PingOutcome::Unreachable), 400);
    assert_eq!(action, StartupAction::Pause { ms: 100 });
    let (phase, action) = startup_step(phase, StartupEvent::Woke, 500);
    assert_eq!(action, StartupAction::Ping { timeout_ms: 250 });
    let (_, action) = startup_step(phase, StartupEvent::Ping(PingOutcome::Answered), 600);
    assert_eq!(action, StartupAction::Ready);
    let (_, action) = startup_step(phase, StartupEvent::Woke, 5_100);
    assert_eq!(
        action,
        StartupAction::Fail("Lumi Agent did not become ready within five seconds".to_string())
    );
}

#[test]
fn startup_failures_carry_their_reason() {
    let (_, action) = startup_step(
        StartupPhase::Probe,
        StartupEvent::Ping(PingOutcome::Refused("Settings are invalid".to_string())),
        0,
    );
    assert_eq!(action, StartupAction::Fail("Settings are invalid".to_string()));
    let (_, action) = startup_step(
        StartupPhase::Launch,
        StartupEvent::Installed { present: false, location: "C:/Lumi/lumi-agent.exe".to_string() },
        0,
    );
    assert_eq!(
        action,
        StartupAction::Fail("Lumi Agent is not installed at C:/Lumi/lumi-agent.exe".to_string())
    );
    let (_, action) = startup_step(
        StartupPhase::Launch,
        StartupEvent::Spawned(Err("access denied".to_string())),
        0,
    );
    assert_eq!(action, StartupAction::Fail("Could not start Lumi Agent: access denied".to_string()));
}
