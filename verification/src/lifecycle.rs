use vstd::prelude::*;

verus! {

/// How long a new agent tries to reach the running one, and then waits for
/// it to exit, in milliseconds.
pub const HANDOVER_WAIT_MS: u64 = 8000;

/// The pause between two attempts, in milliseconds.
pub const RETRY_PAUSE_MS: u64 = 100;

/// How long the interface waits for an agent it started, in milliseconds.
pub const STARTUP_WAIT_MS: u64 = 5000;

/// `a + b`, or the largest `u64` when that overflows.
pub open spec fn saturating_sum(a: u64, b: u64) -> u64 {
    if a + b > u64::MAX {
        u64::MAX
    } else {
        (a + b) as u64
    }
}

/// Where taking over from a running agent stands.
#[derive(Clone, Copy, Debug, PartialEq, Eq, Structural)]
pub enum HandoverPhase {
    /// Trying to reach the running agent, until `deadline_ms`.
    Reaching { deadline_ms: u64 },
    /// The agent was told to shut down; waiting for it to exit, until
    /// `deadline_ms`.
    AwaitingExit { deadline_ms: u64 },
}

/// What the last attempt found.
#[derive(Clone, Copy, Debug, PartialEq, Eq, Structural)]
pub enum HandoverEvent {
    /// The single-instance lock was free: no agent runs any more.
    LockAcquired,
    /// Another agent holds the lock.
    LockHeld,
    /// Taking the lock failed for another reason.
    LockFailed,
    /// The running agent's pipe answered.
    PipeConnected,
    /// The running agent's pipe could not be reached.
    PipeUnreachable,
}

/// What to do next.
#[derive(Debug, PartialEq, Eq)]
pub enum HandoverAction {
    /// No agent runs: go on.
    Finished,
    /// Give up with the error that taking the lock gave.
    PassLockError,
    /// Try to connect to the running agent's pipe.
    ConnectPipe,
    /// Ask the running agent to shut down, then try the lock again.
    SendShutdown,
    /// Pause this many milliseconds, then try the lock again.
    RetryAfter(u64),
    /// Give up: the wait ran out.
    TimedOut(String),
}

/// The handover begins by trying to reach the running agent for
/// `HANDOVER_WAIT_MS`.
pub fn handover_start(now_ms: u64) -> (r: HandoverPhase)
    ensures
        r == (HandoverPhase::Reaching { deadline_ms: saturating_sum(now_ms, HANDOVER_WAIT_MS) }),
{
    HandoverPhase::Reaching { deadline_ms: now_ms.saturating_add(HANDOVER_WAIT_MS) }
}

/// Whether an event can follow the phase: the pipe is only tried while
/// the running agent is being reached.
pub open spec fn handover_event_fits(phase: HandoverPhase, event: HandoverEvent) -> bool {
    phase is AwaitingExit ==> !(event is PipeConnected || event is PipeUnreachable)
}

/// The next step of taking over from a running agent at `now_ms`. A free
/// lock ends the handover, another lock error is passed on. While the
/// running agent is being reached, a held lock leads to its pipe; once
/// the pipe answers, the agent is told to shut down and has
/// `HANDOVER_WAIT_MS` to exit; an unreachable pipe is tried again after a
/// pause until the deadline has come. While the agent exits, a held lock
/// is tried again after a pause until the deadline has come.
pub fn handover_step(phase: HandoverPhase, event: HandoverEvent, now_ms: u64) -> (r: (
    HandoverPhase,
    HandoverAction,
))
    requires
        handover_event_fits(phase, event),
    ensures
        event is LockAcquired ==> r == (phase, HandoverAction::Finished),
        event is LockFailed ==> r == (phase, HandoverAction::PassLockError),
        phase is Reaching && event is LockHeld ==> r == (phase, HandoverAction::ConnectPipe),
        phase is Reaching && event is PipeConnected ==> r == (
            HandoverPhase::AwaitingExit { deadline_ms: saturating_sum(now_ms, HANDOVER_WAIT_MS) },
            HandoverAction::SendShutdown,
        ),
        phase matches HandoverPhase::Reaching { deadline_ms } ==> event is PipeUnreachable ==> {
            &&& r.0 == phase
            &&& now_ms >= deadline_ms ==> (r.1 matches HandoverAction::TimedOut(m) && m@
                == "timed out connecting to the running Lumi Agent"@)
            &&& now_ms < deadline_ms ==> r.1 == HandoverAction::RetryAfter(RETRY_PAUSE_MS)
        },
        phase matches HandoverPhase::AwaitingExit { deadline_ms } ==> event is LockHeld ==> {
            &&& r.0 == phase
            &&& now_ms < deadline_ms ==> r.1 == HandoverAction::RetryAfter(RETRY_PAUSE_MS)
            &&& now_ms >= deadline_ms ==> (r.1 matches HandoverAction::TimedOut(m) && m@
                == "timed out waiting for Lumi Agent to exit"@)
        },
{
    proof {
        reveal_strlit("timed out connecting to the running Lumi Agent");
        reveal_strlit("timed out waiting for Lumi Agent to exit");
    }
    match event {
        HandoverEvent::LockAcquired => (phase, HandoverAction::Finished),
        HandoverEvent::LockFailed => (phase, HandoverAction::PassLockError),
        HandoverEvent::LockHeld => match phase {
            HandoverPhase::Reaching { .. } => (phase, HandoverAction::ConnectPipe),
            HandoverPhase::AwaitingExit { deadline_ms } => {
                if now_ms < deadline_ms {
                    (phase, HandoverAction::RetryAfter(RETRY_PAUSE_MS))
                } else {
                    (
                        phase,
                        HandoverAction::TimedOut(
                            "timed out waiting for Lumi Agent to exit".to_string(),
                        ),
                    )
                }
            },
        },
        HandoverEvent::PipeConnected => (
            HandoverPhase::AwaitingExit { deadline_ms: now_ms.saturating_add(HANDOVER_WAIT_MS) },
            HandoverAction::SendShutdown,
        ),
        HandoverEvent::PipeUnreachable => {
            let deadline_ms = match phase {
                HandoverPhase::Reaching { deadline_ms } => deadline_ms,
                HandoverPhase::AwaitingExit { deadline_ms } => deadline_ms,
            };
            if now_ms >= deadline_ms {
                (
                    phase,
                    HandoverAction::TimedOut(
                        "timed out connecting to the running Lumi Agent".to_string(),
                    ),
                )
            } else {
                (phase, HandoverAction::RetryAfter(RETRY_PAUSE_MS))
            }
        },
    }
}

/// What pinging the agent gave.
#[derive(Debug, PartialEq, Eq)]
pub enum PingOutcome {
    /// The agent answered.
    Answered,
    /// The agent answered with an error.
    Refused(String),
    /// The agent could not be reached.
    Unreachable,
}

/// Where making sure an agent runs stands.
#[derive(Clone, Copy, Debug, PartialEq, Eq, Structural)]
pub enum StartupPhase {
    /// The first ping.
    Probe,
    /// The ping again, with the start lock held.
    ProbeLocked,
    /// No agent answered: look for its executable and start it.
    Launch,
    /// The agent was started; it has until `deadline_ms` to answer.
    Waiting { deadline_ms: u64 },
}

/// What the last step found.
#[derive(Debug, PartialEq, Eq)]
pub enum StartupEvent {
    Ping(PingOutcome),
    /// Whether the agent's executable exists, and where it was looked for.
    Installed { present: bool, location: String },
    /// Starting the agent succeeded, or failed with this message.
    Spawned(Result<(), String>),
    /// A pause ended.
    Woke,
}

/// What to do next.
#[derive(Debug, PartialEq, Eq)]
pub enum StartupAction {
    /// An agent answers.
    Ready,
    /// Give up with this message.
    Fail(String),
    /// Ping the agent, waiting this many milliseconds.
    Ping { timeout_ms: u32 },
    /// Take the start lock, then ping the agent, waiting this many
    /// milliseconds.
    LockThenPing { timeout_ms: u32 },
    /// Look for the agent's executable.
    CheckInstalled,
    /// Start the agent in the background.
    Spawn,
    /// Pause this many milliseconds.
    Pause { ms: u64 },
}

/// Whether an event can follow the phase.
pub open spec fn startup_event_fits(phase: StartupPhase, event: StartupEvent) -> bool {
    match phase {
        StartupPhase::Probe | StartupPhase::ProbeLocked => event is Ping,
        StartupPhase::Launch => event is Installed || event is Spawned,
        StartupPhase::Waiting { .. } => event is Ping || event is Woke,
    }
}

/// What an answered or refused ping means in any phase.
pub open spec fn ping_settles(outcome: PingOutcome, action: StartupAction) -> bool {
    match outcome {
        PingOutcome::Answered => action == StartupAction::Ready,
        PingOutcome::Refused(m) => action == StartupAction::Fail(m),
        PingOutcome::Unreachable => true,
    }
}

/// Making sure an agent runs begins with a short ping.
pub fn startup_start() -> (r: (StartupPhase, StartupAction))
    ensures
        r == (StartupPhase::Probe, StartupAction::Ping { timeout_ms: 200 }),
{
    (StartupPhase::Probe, StartupAction::Ping { timeout_ms: 200 })
}

/// The next step of making sure an agent runs, at `now_ms`. An answer ends
/// it, a refusal fails with the agent's message. An unreachable agent is
/// pinged again under the start lock, then looked for and started; a
/// missing executable or a failed start fails. A started agent has
/// `STARTUP_WAIT_MS` to answer, pinged after each pause while time is left.
pub fn startup_step(phase: StartupPhase, event: StartupEvent, now_ms: u64) -> (r: (
    StartupPhase,
    StartupAction,
))
    requires
        startup_event_fits(phase, event),
    ensures
        event matches StartupEvent::Ping(outcome) ==> ping_settles(outcome, r.1),
        phase is Probe && event == StartupEvent::Ping(PingOutcome::Unreachable) ==> r == (
            StartupPhase::ProbeLocked,
            StartupAction::LockThenPing { timeout_ms: 200 },
        ),
        phase is ProbeLocked && event == StartupEvent::Ping(PingOutcome::Unreachable) ==> r == (
            StartupPhase::Launch,
            StartupAction::CheckInstalled,
        ),
        event matches StartupEvent::Installed { present, location } ==> {
            &&& r.0 == phase
            &&& present ==> r.1 == StartupAction::Spawn
            &&& !present ==> (r.1 matches StartupAction::Fail(m) && m@
                == "Lumi Agent is not installed at "@ + location@)
        },
        event matches StartupEvent::Spawned(Err(e)) ==> r.0 == phase && (r.1 matches StartupAction::Fail(
            m,
        ) && m@ == "Could not start Lumi Agent: "@ + e@),
        event == StartupEvent::Spawned(Ok(())) ==> {
            &&& r.0 == (StartupPhase::Waiting {
                deadline_ms: saturating_sum(now_ms, STARTUP_WAIT_MS),
            })
            &&& now_ms < saturating_sum(now_ms, STARTUP_WAIT_MS) ==> r.1 == StartupAction::Ping {
                timeout_ms: 250,
            }
            &&& now_ms >= saturating_sum(now_ms, STARTUP_WAIT_MS) ==> (r.1 matches StartupAction::Fail(
                m,
            ) && m@ == "Lumi Agent did not become ready within five seconds"@)
        },
        phase is Waiting && event == StartupEvent::Ping(PingOutcome::Unreachable) ==> r == (
            phase,
            StartupAction::Pause { ms: RETRY_PAUSE_MS },
        ),
        phase matches StartupPhase::Waiting { deadline_ms } ==> event is Woke ==> {
            &&& r.0 == phase
            &&& now_ms < deadline_ms ==> r.1 == StartupAction::Ping { timeout_ms: 250 }
            &&& now_ms >= deadline_ms ==> (r.1 matches StartupAction::Fail(m) && m@
                == "Lumi Agent did not become ready within five seconds"@)
        },
{
    proof {
        reveal_strlit("Lumi Agent is not installed at ");
        reveal_strlit("Could not start Lumi Agent: ");
        reveal_strlit("Lumi Agent did not become ready within five seconds");
    }
    match event {
        StartupEvent::Ping(PingOutcome::Answered) => (phase, StartupAction::Ready),
        StartupEvent::Ping(PingOutcome::Refused(message)) => (phase, StartupAction::Fail(message)),
        StartupEvent::Ping(PingOutcome::Unreachable) => match phase {
            StartupPhase::Probe => (
                StartupPhase::ProbeLocked,
                StartupAction::LockThenPing { timeout_ms: 200 },
            ),
            StartupPhase::ProbeLocked => (StartupPhase::Launch, StartupAction::CheckInstalled),
            _ => (phase, StartupAction::Pause { ms: RETRY_PAUSE_MS }),
        },
        StartupEvent::Installed { present, location } => {
            if present {
                (phase, StartupAction::Spawn)
            } else {
                let mut message = "Lumi Agent is not installed at ".to_string();
                message.append(location.as_str());
                (phase, StartupAction::Fail(message))
            }
        },
        StartupEvent::Spawned(Err(error)) => {
            let mut message = "Could not start Lumi Agent: ".to_string();
            message.append(error.as_str());
            (phase, StartupAction::Fail(message))
        },
        StartupEvent::Spawned(Ok(())) => {
            let deadline_ms = now_ms.saturating_add(STARTUP_WAIT_MS);
            let next = StartupPhase::Waiting { deadline_ms };
            if now_ms < deadline_ms {
                (next, StartupAction::Ping { timeout_ms: 250 })
            } else {
                (next, StartupAction::Fail("Lumi Agent did not become ready within five seconds".to_string()))
            }
        },
        StartupEvent::Woke => {
            let deadline_ms = match phase {
                StartupPhase::Waiting { deadline_ms } => deadline_ms,
                _ => 0,
            };
            if now_ms < deadline_ms {
                (phase, StartupAction::Ping { timeout_ms: 250 })
            } else {
                (phase, StartupAction::Fail("Lumi Agent did not become ready within five seconds".to_string()))
            }
        },
    }
}

} // verus!
