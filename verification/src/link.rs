//! The decisions of the worker that keeps the link to the sensor: when to
//! search again, how long to wait, when to sleep with the system, and what a
//! relay request gets while no device answers. The worker's own loop, which
//! talks to the port and the channels, performs what these decide.

use vstd::prelude::*;
use crate::device::{min, ReconnectBackoff};
use crate::ipc::{IpcErrorCode, IpcWireError};

verus! {

/// A command sent to the device worker.
#[derive(Clone, Copy, Debug, PartialEq, Eq, Structural)]
pub enum LinkCommand {
    /// Switch the relay; `light_on` is what the switch means for the light.
    SetRelay { energized: bool, light_on: bool },
    /// The system goes to sleep: drop the link and wait for a refresh.
    Suspend,
    /// Search for the device again.
    Refresh,
    /// Stop the worker.
    Shutdown,
}

/// How a wait between two connection attempts ended.
#[derive(Clone, Copy, Debug, PartialEq, Eq, Structural)]
pub enum LinkWaitEvent {
    Command(LinkCommand),
    TimedOut,
    /// Nobody can send commands any more.
    Closed,
}

/// What the worker does after a wait.
#[derive(Clone, Copy, Debug, PartialEq, Eq, Structural)]
pub enum DeviceWaitOutcome {
    Retry,
    Suspended,
    Shutdown,
}

/// What the worker does with a command while connected.
#[derive(Clone, Copy, Debug, PartialEq, Eq, Structural)]
pub enum ConnectedStep {
    /// Switch the relay and report the result.
    SwitchRelay { energized: bool, light_on: bool },
    /// Drop the link and start a new search.
    Rediscover,
    /// Stop the worker.
    Stop,
}

/// The outcome of a wait between attempts: a shutdown or a closed channel
/// stops, a suspension sleeps, anything else (a refresh, a relay request,
/// the end of the delay) tries again.
pub open spec fn disconnected_outcome(event: LinkWaitEvent) -> DeviceWaitOutcome {
    match event {
        LinkWaitEvent::Command(LinkCommand::Shutdown) | LinkWaitEvent::Closed => {
            DeviceWaitOutcome::Shutdown
        },
        LinkWaitEvent::Command(LinkCommand::Suspend) => DeviceWaitOutcome::Suspended,
        _ => DeviceWaitOutcome::Retry,
    }
}

/// The outcome of a wait while the system sleeps (`None`: the channel
/// closed): a shutdown or a closed channel stops, a refresh tries again,
/// anything else keeps sleeping.
pub open spec fn suspended_outcome(received: Option<LinkCommand>) -> DeviceWaitOutcome {
    match received {
        None | Some(LinkCommand::Shutdown) => DeviceWaitOutcome::Shutdown,
        Some(LinkCommand::Refresh) => DeviceWaitOutcome::Retry,
        _ => DeviceWaitOutcome::Suspended,
    }
}

/// The answer a relay request gets while the link is down.
fn unavailable(message: &str) -> (r: IpcWireError)
    ensures
        r.code == IpcErrorCode::HardwareUnavailable,
        r.message@ == message@,
{
    IpcWireError { code: IpcErrorCode::HardwareUnavailable, message: message.to_string() }
}

/// Decides what a wait between connection attempts ended with, and the
/// answer owed to a relay request that arrived meanwhile: the device is
/// disconnected.
pub fn wait_disconnected_outcome(event: LinkWaitEvent) -> (r: (
    DeviceWaitOutcome,
    Option<IpcWireError>,
))
    ensures
        r.0 == disconnected_outcome(event),
        r.1 is Some <==> event matches LinkWaitEvent::Command(LinkCommand::SetRelay { .. }),
        r.1 matches Some(e) ==> e.code == IpcErrorCode::HardwareUnavailable
            && e.message@ == "Lumi device is disconnected"@,
{
    match event {
        LinkWaitEvent::Command(LinkCommand::Shutdown) | LinkWaitEvent::Closed => {
            (DeviceWaitOutcome::Shutdown, None)
        },
        LinkWaitEvent::Command(LinkCommand::SetRelay { .. }) => {
            (DeviceWaitOutcome::Retry, Some(unavailable("Lumi device is disconnected")))
        },
        LinkWaitEvent::Command(LinkCommand::Suspend) => (DeviceWaitOutcome::Suspended, None),
        LinkWaitEvent::Command(LinkCommand::Refresh) | LinkWaitEvent::TimedOut => {
            (DeviceWaitOutcome::Retry, None)
        },
    }
}

/// Decides what a wait while the system sleeps ended with (`None`: the
/// channel closed), and the answer owed to a relay request: the device is
/// suspended.
pub fn wait_suspended_outcome(received: Option<LinkCommand>) -> (r: (
    DeviceWaitOutcome,
    Option<IpcWireError>,
))
    ensures
        r.0 == suspended_outcome(received),
        r.1 is Some <==> received matches Some(LinkCommand::SetRelay { .. }),
        r.1 matches Some(e) ==> e.code == IpcErrorCode::HardwareUnavailable
            && e.message@ == "Lumi device is suspended"@,
{
    match received {
        None | Some(LinkCommand::Shutdown) => (DeviceWaitOutcome::Shutdown, None),
        Some(LinkCommand::SetRelay { .. }) => {
            (DeviceWaitOutcome::Suspended, Some(unavailable("Lumi device is suspended")))
        },
        Some(LinkCommand::Suspend) => (DeviceWaitOutcome::Suspended, None),
        Some(LinkCommand::Refresh) => (DeviceWaitOutcome::Retry, None),
    }
}

/// The state of the device worker between steps: whether the system
/// sleeps, and the delays between connection attempts.
#[derive(Clone, Copy, Debug)]
pub struct DeviceLink {
    suspended: bool,
    backoff: ReconnectBackoff,
}

impl DeviceLink {
    /// Whether the worker sleeps until a refresh.
    pub closed spec fn asleep(self) -> bool {
        self.suspended
    }

    /// The delays between connection attempts.
    pub closed spec fn delays(self) -> ReconnectBackoff {
        self.backoff
    }

    /// Whether the delays are well formed.
    pub open spec fn wf(self) -> bool {
        self.delays().wf()
    }

    /// Awake, with the default delays.
    pub fn new() -> (r: Self)
        ensures
            r.wf(),
            !r.asleep(),
            r.delays().first() == 250_000_000,
            r.delays().cap() == 5_000_000_000,
            r.delays().upcoming() == r.delays().first(),
    {
        DeviceLink { suspended: false, backoff: ReconnectBackoff::default() }
    }

    /// Whether the worker sleeps until a refresh.
    pub fn is_suspended(&self) -> (r: bool)
        ensures
            r == self.asleep(),
    {
        self.suspended
    }

    /// After a wait while asleep: a refresh wakes the worker and restarts
    /// the delays; a shutdown stops it (`false`); anything else leaves it
    /// asleep.
    pub fn after_suspended_wait(&mut self, outcome: DeviceWaitOutcome) -> (keep_running: bool)
        requires
            old(self).wf(),
        ensures
            final(self).wf(),
            keep_running == (outcome != DeviceWaitOutcome::Shutdown),
            final(self).delays().first() == old(self).delays().first(),
            final(self).delays().cap() == old(self).delays().cap(),
            outcome == DeviceWaitOutcome::Retry ==> !final(self).asleep()
                && final(self).delays().upcoming() == old(self).delays().first(),
            outcome != DeviceWaitOutcome::Retry ==> final(self).asleep() == old(self).asleep()
                && final(self).delays() == old(self).delays(),
    {
        match outcome {
            DeviceWaitOutcome::Retry => {
                self.suspended = false;
                self.backoff.reset();
                true
            },
            DeviceWaitOutcome::Suspended => true,
            DeviceWaitOutcome::Shutdown => false,
        }
    }

    /// A device was found: the delays start again.
    pub fn discovered(&mut self)
        requires
            old(self).wf(),
        ensures
            final(self).wf(),
            final(self).asleep() == old(self).asleep(),
            final(self).delays().first() == old(self).delays().first(),
            final(self).delays().cap() == old(self).delays().cap(),
            final(self).delays().upcoming() == old(self).delays().first(),
    {
        self.backoff.reset();
    }

    /// An attempt failed or the link broke: the delay to wait before the
    /// next attempt; the one after it is twice as long, up to the cap.
    pub fn failed(&mut self) -> (delay: u128)
        requires
            old(self).wf(),
        ensures
            final(self).wf(),
            delay == old(self).delays().upcoming(),
            final(self).asleep() == old(self).asleep(),
            final(self).delays().first() == old(self).delays().first(),
            final(self).delays().cap() == old(self).delays().cap(),
            final(self).delays().upcoming() == min(
                2 * old(self).delays().upcoming(),
                old(self).delays().cap(),
            ),
    {
        self.backoff.next_delay()
    }

    /// After a wait between attempts: a suspension puts the worker to
    /// sleep; a shutdown stops it (`false`).
    pub fn after_disconnected_wait(&mut self, outcome: DeviceWaitOutcome) -> (keep_running: bool)
        requires
            old(self).wf(),
        ensures
            final(self).wf(),
            keep_running == (outcome != DeviceWaitOutcome::Shutdown),
            final(self).delays() == old(self).delays(),
            final(self).asleep() == (old(self).asleep() || outcome
                == DeviceWaitOutcome::Suspended),
    {
        match outcome {
            DeviceWaitOutcome::Retry => true,
            DeviceWaitOutcome::Suspended => {
                self.suspended = true;
                true
            },
            DeviceWaitOutcome::Shutdown => false,
        }
    }

    /// A command while connected: a relay request goes to the device; a
    /// suspension puts the worker to sleep and drops the link; a refresh
    /// drops the link; a shutdown stops the worker.
    pub fn connected_command(&mut self, command: LinkCommand) -> (r: ConnectedStep)
        requires
            old(self).wf(),
        ensures
            final(self).wf(),
            final(self).delays() == old(self).delays(),
            final(self).asleep() == (old(self).asleep() || command == LinkCommand::Suspend),
            r == match command {
                LinkCommand::SetRelay { energized, light_on } => ConnectedStep::SwitchRelay {
                    energized,
                    light_on,
                },
                LinkCommand::Suspend | LinkCommand::Refresh => ConnectedStep::Rediscover,
                LinkCommand::Shutdown => ConnectedStep::Stop,
            },
    {
        match command {
            LinkCommand::SetRelay { energized, light_on } => ConnectedStep::SwitchRelay {
                energized,
                light_on,
            },
            LinkCommand::Suspend => {
                self.suspended = true;
                ConnectedStep::Rediscover
            },
            LinkCommand::Refresh => ConnectedStep::Rediscover,
            LinkCommand::Shutdown => ConnectedStep::Stop,
        }
    }
}

/// While the system sleeps, only a refresh wakes the worker and only a
/// shutdown or a closed channel stops it; a relay request is refused and
/// the worker sleeps on.
pub proof fn lemma_only_refresh_wakes(received: Option<LinkCommand>)
    ensures
        suspended_outcome(received) == DeviceWaitOutcome::Retry <==> received == Some(
            LinkCommand::Refresh,
        ),
        suspended_outcome(received) == DeviceWaitOutcome::Shutdown <==> (received is None
            || received == Some(LinkCommand::Shutdown)),
{
}

/// A wait between attempts never puts the worker to sleep unless asked to,
/// and always stops when asked to or when nobody can send any more.
pub proof fn lemma_disconnected_wait_obeys_commands(event: LinkWaitEvent)
    ensures
        disconnected_outcome(event) == DeviceWaitOutcome::Suspended <==> event
            == LinkWaitEvent::Command(LinkCommand::Suspend),
        disconnected_outcome(event) == DeviceWaitOutcome::Shutdown <==> (event
            == LinkWaitEvent::Closed || event == LinkWaitEvent::Command(LinkCommand::Shutdown)),
{
}

} // verus!
