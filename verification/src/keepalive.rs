//! Liveness of an established channel pair: the single probe, and the
//! supervisor that repeats it until it fails or is told to stop.
//!
//! Both are written as steps from an event to what is to be done next. The
//! caller owns the channel and the clock: it sends what a step asks for,
//! keeps the deadline, and reports what happened.

use crate::codec::{DaemonMessage, LogMessage};
use vstd::prelude::*;

verus! {

/// Seconds between two probes of the supervisor.
pub const PROBE_INTERVAL_SECS: u64 = 30;

/// Seconds within which a probe must be acknowledged.
pub const PROBE_DEADLINE_SECS: u64 = 5;

/// Why a probe was not acknowledged.
#[derive(Debug, Clone, PartialEq, Eq)]
pub enum ProbeFailure {
    /// The deadline passed.
    Timeout,
    /// The peer closed the channel.
    ChannelClosed,
    /// The peer answered with another message than the acknowledgment.
    Unexpected(DaemonMessage),
}

/// The errors that end the proxy during its setup or its life.
#[derive(Debug, Clone, PartialEq, Eq)]
pub enum InternalProxySetupError {
    /// The process could not leave its session; the number is the system's
    /// error code.
    SetSidError(i32),
    /// The port of the listening socket could not be read.
    LocalPortError(String),
    /// The listening socket could not be made.
    ListenError(String),
    /// A probe was not acknowledged.
    NoPong(ProbeFailure),
    /// The agent closed the main connection.
    AgentClosedConnection,
}

/// What has happened while a probe is awaited.
#[derive(Debug, Clone, PartialEq, Eq)]
pub enum ProbeEvent {
    /// A message arrived.
    Received(DaemonMessage),
    /// The peer closed the channel.
    Closed,
    /// The deadline passed.
    DeadlineExpired,
}

/// What a probe has come to.
#[derive(Debug, Clone, PartialEq, Eq)]
pub enum ProbeStep {
    /// The agent asked for a message to be logged; the probe is still awaited,
    /// under the deadline that was set when it was sent.
    Log(LogMessage),
    /// The probe was acknowledged.
    Alive,
    /// The probe failed.
    Failed(ProbeFailure),
}

/// The outcome of one event for a probe that is awaited: the acknowledgment
/// satisfies it; a log message is handed on and does not; anything else fails
/// it.
pub open spec fn probe_spec(event: ProbeEvent) -> ProbeStep {
    match event {
        ProbeEvent::Received(DaemonMessage::Pong) => ProbeStep::Alive,
        ProbeEvent::Received(DaemonMessage::LogMessage(m)) => ProbeStep::Log(m),
        ProbeEvent::Received(other) => ProbeStep::Failed(ProbeFailure::Unexpected(other)),
        ProbeEvent::Closed => ProbeStep::Failed(ProbeFailure::ChannelClosed),
        ProbeEvent::DeadlineExpired => ProbeStep::Failed(ProbeFailure::Timeout),
    }
}

/// Judges one event for a probe that is awaited.
pub fn probe_step(event: ProbeEvent) -> (step: ProbeStep)
    ensures
        step == probe_spec(event),
{
    match event {
        ProbeEvent::Received(DaemonMessage::Pong) => ProbeStep::Alive,
        ProbeEvent::Received(DaemonMessage::LogMessage(m)) => ProbeStep::Log(m),
        ProbeEvent::Received(other) => ProbeStep::Failed(ProbeFailure::Unexpected(other)),
        ProbeEvent::Closed => ProbeStep::Failed(ProbeFailure::ChannelClosed),
        ProbeEvent::DeadlineExpired => ProbeStep::Failed(ProbeFailure::Timeout),
    }
}

/// Where the supervisor stands.
#[derive(Clone, Copy, Debug, PartialEq, Eq, Structural)]
pub enum SupervisorState {
    /// Between two probes.
    Waiting,
    /// A probe is in flight.
    Probing,
    /// The supervisor has ended.
    Stopped,
}

/// What the supervisor is told.
#[derive(Debug, Clone, PartialEq, Eq)]
pub enum SupervisorEvent {
    /// The interval between two probes has passed.
    Tick,
    /// The owner asks the supervisor to stop.
    Cancel,
    /// The probe could not be sent: the channel is closed.
    SendFailed,
    /// Something happened while a probe is awaited.
    Probe(ProbeEvent),
}

/// What the supervisor asks of its caller.
#[derive(Debug, Clone, PartialEq, Eq)]
pub enum SupervisorAction {
    /// Nothing is to be done but to wait for the next event.
    Wait,
    /// Send a probe and set its deadline.
    SendProbe,
    /// Log the message and keep waiting for the acknowledgment.
    Log(LogMessage),
    /// End the task without an error.
    Finish,
    /// Cancel the shared signal and end the task with the error.
    Fail(InternalProxySetupError),
}

/// The supervisor of one channel pair.
#[derive(Debug, Clone, PartialEq, Eq)]
pub struct Supervisor {
    pub state: SupervisorState,
}

/// The step of the supervisor: the next state and what is asked of the caller.
///
/// While waiting, a tick starts a probe. While a probe is in flight no other
/// is started: a tick is passed over. The acknowledgment ends the probe, a log
/// message is handed on, and any other outcome of the probe is a failure that
/// stops the supervisor. A request to stop ends it without an error. Once it
/// has stopped nothing moves it.
pub open spec fn supervisor_spec(state: SupervisorState, event: SupervisorEvent) -> (
    SupervisorState,
    SupervisorAction,
) {
    match state {
        SupervisorState::Stopped => (SupervisorState::Stopped, SupervisorAction::Wait),
        SupervisorState::Waiting => match event {
            SupervisorEvent::Tick => (SupervisorState::Probing, SupervisorAction::SendProbe),
            SupervisorEvent::Cancel => (SupervisorState::Stopped, SupervisorAction::Finish),
            _ => (SupervisorState::Waiting, SupervisorAction::Wait),
        },
        SupervisorState::Probing => match event {
            SupervisorEvent::Tick => (SupervisorState::Probing, SupervisorAction::Wait),
            SupervisorEvent::Cancel => (SupervisorState::Stopped, SupervisorAction::Finish),
            SupervisorEvent::SendFailed => (
                SupervisorState::Stopped,
                SupervisorAction::Fail(InternalProxySetupError::AgentClosedConnection),
            ),
            SupervisorEvent::Probe(e) => match probe_spec(e) {
                ProbeStep::Alive => (SupervisorState::Waiting, SupervisorAction::Wait),
                ProbeStep::Log(m) => (SupervisorState::Probing, SupervisorAction::Log(m)),
                ProbeStep::Failed(f) => (
                    SupervisorState::Stopped,
                    SupervisorAction::Fail(InternalProxySetupError::NoPong(f)),
                ),
            },
        },
    }
}

impl Supervisor {
    /// A supervisor that waits for its first tick.
    pub fn new() -> (s: Supervisor)
        ensures
            s.state == SupervisorState::Waiting,
    {
        Supervisor { state: SupervisorState::Waiting }
    }

    /// Whether a probe is in flight.
    pub fn is_probing(&self) -> (r: bool)
        ensures
            r == (self.state == SupervisorState::Probing),
    {
        self.state == SupervisorState::Probing
    }

    /// Whether the supervisor has ended.
    pub fn is_stopped(&self) -> (r: bool)
        ensures
            r == (self.state == SupervisorState::Stopped),
    {
        self.state == SupervisorState::Stopped
    }

    /// Takes one event and says what is to be done.
    pub fn step(&mut self, event: SupervisorEvent) -> (action: SupervisorAction)
        ensures
            (final(self).state, action) == supervisor_spec(old(self).state, event),
    {
        match self.state {
            SupervisorState::Stopped => SupervisorAction::Wait,
            SupervisorState::Waiting => match event {
                SupervisorEvent::Tick => {
                    self.state = SupervisorState::Probing;
                    SupervisorAction::SendProbe
                },
                SupervisorEvent::Cancel => {
                    self.state = SupervisorState::Stopped;
                    SupervisorAction::Finish
                },
                _ => SupervisorAction::Wait,
            },
            SupervisorState::Probing => match event {
                SupervisorEvent::Tick => SupervisorAction::Wait,
                SupervisorEvent::Cancel => {
                    self.state = SupervisorState::Stopped;
                    SupervisorAction::Finish
                },
                SupervisorEvent::SendFailed => {
                    self.state = SupervisorState::Stopped;
                    SupervisorAction::Fail(InternalProxySetupError::AgentClosedConnection)
                },
                SupervisorEvent::Probe(e) => match probe_step(e) {
                    ProbeStep::Alive => {
                        self.state = SupervisorState::Waiting;
                        SupervisorAction::Wait
                    },
                    ProbeStep::Log(m) => SupervisorAction::Log(m),
                    ProbeStep::Failed(f) => {
                        self.state = SupervisorState::Stopped;
                        SupervisorAction::Fail(InternalProxySetupError::NoPong(f))
                    },
                },
            },
        }
    }
}

/// A probe that is not acknowledged before its deadline fails the supervisor,
/// and a supervisor that has failed never probes again.
pub proof fn silence_stops_probing(later: SupervisorEvent)
    ensures
        supervisor_spec(
            SupervisorState::Probing,
            SupervisorEvent::Probe(ProbeEvent::DeadlineExpired),
        ) == (
            SupervisorState::Stopped,
            SupervisorAction::Fail(InternalProxySetupError::NoPong(ProbeFailure::Timeout)),
        ),
        supervisor_spec(SupervisorState::Stopped, later) == (
            SupervisorState::Stopped,
            SupervisorAction::Wait,
        ),
{
}

/// A probe is sent only from the waiting state, and sending one leaves the
/// supervisor probing: no second probe is started while one is in flight.
pub proof fn one_probe_in_flight(state: SupervisorState, event: SupervisorEvent)
    ensures
        supervisor_spec(state, event).1 == SupervisorAction::SendProbe ==> state
            == SupervisorState::Waiting && supervisor_spec(state, event).0
            == SupervisorState::Probing,
        state == SupervisorState::Probing ==> supervisor_spec(state, event).1
            != SupervisorAction::SendProbe,
{
}

/// A request to stop ends a running supervisor without an error.
pub proof fn cancel_stops_cleanly(state: SupervisorState)
    requires
        state != SupervisorState::Stopped,
    ensures
        supervisor_spec(state, SupervisorEvent::Cancel) == (
            SupervisorState::Stopped,
            SupervisorAction::Finish,
        ),
{
}

} // verus!
