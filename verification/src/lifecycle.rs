//! The life of the proxy process, from the listening socket to its end.
//!
//! The controller is a step from the outcome of one action to the next
//! action. The caller performs the actions: it binds, connects, prints,
//! detaches, serves and joins, and reports how each went.

use crate::keepalive::InternalProxySetupError;
use crate::negotiator::NegotiationError;
use crate::text::{decimal, push_decimal};
use vstd::prelude::*;
use vstd::string::StringExecFns;

verus! {

/// How many connections may wait to be accepted on the listening socket.
pub const LISTEN_BACKLOG: i32 = 1024;

/// The number of open files that the proxy asks to be allowed.
pub const OPEN_FILES_LIMIT: u64 = 12288;

/// What the launcher reads of the proxy: the port in decimal, and an empty
/// line after it.
pub open spec fn announcement(port: u16) -> Seq<char> {
    decimal(port as nat) + "\n\n"@
}

/// The text by which the proxy tells its launcher the port it listens on.
pub fn port_announcement(port: u16) -> (text: String)
    ensures
        text@ == announcement(port),
{
    let mut text = String::new();
    push_decimal(&mut text, port as u64);
    text.append("\n\n");
    assert(text@ =~= announcement(port));
    text
}

/// Why the proxy ended with an error.
#[derive(Debug, Clone, PartialEq, Eq)]
pub enum ProxyError {
    /// The setup failed, or the main connection was lost.
    Setup(InternalProxySetupError),
    /// No session could be negotiated.
    Negotiation(NegotiationError),
    /// The accept loop failed; the text is its report.
    Serving(String),
}

/// Where the proxy stands: which outcome it waits for.
#[derive(Clone, Copy, Debug, PartialEq, Eq, Structural)]
pub enum ProxyPhase {
    /// The listening socket is being bound.
    Binding,
    /// The main session is being negotiated.
    Negotiating,
    /// The main channel is being probed.
    Probing,
    /// The supervisor of the main channel is being started.
    Supervising,
    /// The port of the listening socket is being read.
    ReadingPort,
    /// The port is being told to the launcher.
    Announcing,
    /// The process is leaving its terminal.
    Detaching,
    /// The accept loop runs.
    Serving,
    /// The supervisor is being waited for.
    Joining,
    /// The proxy has ended.
    Done,
}

/// How the supervisor's task ended.
#[derive(Debug, Clone, PartialEq, Eq)]
pub enum JoinOutcome {
    /// The task ended without an error.
    Clean,
    /// The task ended with an error.
    Failed(InternalProxySetupError),
    /// The task did not come to an end of its own.
    Panicked,
}

/// The outcome of an action.
#[derive(Debug, PartialEq, Eq)]
pub enum ProxyEvent {
    Bound(Result<(), String>),
    /// The main session; the flag says whether its channel was probed when it
    /// was negotiated.
    Negotiated(Result<bool, NegotiationError>),
    Probed(Result<(), InternalProxySetupError>),
    SupervisorStarted,
    PortRead(Result<u16, String>),
    Announced,
    /// The system's error code where the process could not leave its session.
    Detached(Result<(), i32>),
    Served(Result<(), String>),
    Joined(JoinOutcome),
}

/// What the controller asks of its caller.
#[derive(Debug, PartialEq, Eq)]
pub enum ProxyAction {
    /// Bind a listening socket on a port of the system's choice, with the
    /// given backlog.
    Bind { backlog: i32 },
    /// Negotiate the main session.
    Negotiate,
    /// Probe the main channel once.
    Probe,
    /// Hand the main channel to a supervisor.
    StartSupervisor,
    /// Read the port of the listening socket.
    ReadPort,
    /// Tell the launcher the port.
    Announce { port: u16 },
    /// Leave the terminal: a new session, and the standard streams to the
    /// null device.
    Detach,
    /// Run the accept loop.
    Serve,
    /// Tell the supervisor to stop and wait for it.
    CancelAndJoin,
    /// End the process.
    Exit(Result<(), ProxyError>),
    /// Nothing: the event is not the outcome of what was asked for, or the
    /// proxy has ended.
    Ignore,
}

/// The step of the controller.
///
/// The socket is bound first. The main session is negotiated and its channel
/// proved alive, by a probe unless the negotiation has probed it already,
/// before anything is told to the launcher. The port is told once, and only
/// then does the process leave its terminal and serve. When the accept loop
/// ends the supervisor is stopped and waited for: its error is the proxy's,
/// and a supervisor that did not end of its own counts as the agent having
/// gone. Every failure on the way ends the proxy.
pub open spec fn proxy_spec(phase: ProxyPhase, event: ProxyEvent) -> (ProxyPhase, ProxyAction) {
    match (phase, event) {
        (ProxyPhase::Binding, ProxyEvent::Bound(Ok(_))) => (
            ProxyPhase::Negotiating,
            ProxyAction::Negotiate,
        ),
        (ProxyPhase::Binding, ProxyEvent::Bound(Err(e))) => (
            ProxyPhase::Done,
            ProxyAction::Exit(Err(ProxyError::Setup(InternalProxySetupError::ListenError(e)))),
        ),
        (ProxyPhase::Negotiating, ProxyEvent::Negotiated(Ok(probed))) => if probed {
            (ProxyPhase::Supervising, ProxyAction::StartSupervisor)
        } else {
            (ProxyPhase::Probing, ProxyAction::Probe)
        },
        (ProxyPhase::Negotiating, ProxyEvent::Negotiated(Err(e))) => (
            ProxyPhase::Done,
            ProxyAction::Exit(Err(ProxyError::Negotiation(e))),
        ),
        (ProxyPhase::Probing, ProxyEvent::Probed(Ok(_))) => (
            ProxyPhase::Supervising,
            ProxyAction::StartSupervisor,
        ),
        (ProxyPhase::Probing, ProxyEvent::Probed(Err(e))) => (
            ProxyPhase::Done,
            ProxyAction::Exit(Err(ProxyError::Setup(e))),
        ),
        (ProxyPhase::Supervising, ProxyEvent::SupervisorStarted) => (
            ProxyPhase::ReadingPort,
            ProxyAction::ReadPort,
        ),
        (ProxyPhase::ReadingPort, ProxyEvent::PortRead(Ok(port))) => (
            ProxyPhase::Announcing,
            ProxyAction::Announce { port },
        ),
        (ProxyPhase::ReadingPort, ProxyEvent::PortRead(Err(e))) => (
            ProxyPhase::Done,
            ProxyAction::Exit(Err(ProxyError::Setup(InternalProxySetupError::LocalPortError(e)))),
        ),
        (ProxyPhase::Announcing, ProxyEvent::Announced) => (
            ProxyPhase::Detaching,
            ProxyAction::Detach,
        ),
        (ProxyPhase::Detaching, ProxyEvent::Detached(Ok(_))) => (
            ProxyPhase::Serving,
            ProxyAction::Serve,
        ),
        (ProxyPhase::Detaching, ProxyEvent::Detached(Err(code))) => (
            ProxyPhase::Done,
            ProxyAction::Exit(Err(ProxyError::Setup(InternalProxySetupError::SetSidError(code)))),
        ),
        (ProxyPhase::Serving, ProxyEvent::Served(Ok(_))) => (
            ProxyPhase::Joining,
            ProxyAction::CancelAndJoin,
        ),
        (ProxyPhase::Serving, ProxyEvent::Served(Err(e))) => (
            ProxyPhase::Done,
            ProxyAction::Exit(Err(ProxyError::Serving(e))),
        ),
        (ProxyPhase::Joining, ProxyEvent::Joined(JoinOutcome::Clean)) => (
            ProxyPhase::Done,
            ProxyAction::Exit(Ok(())),
        ),
        (ProxyPhase::Joining, ProxyEvent::Joined(JoinOutcome::Failed(e))) => (
            ProxyPhase::Done,
            ProxyAction::Exit(Err(ProxyError::Setup(e))),
        ),
        (ProxyPhase::Joining, ProxyEvent::Joined(JoinOutcome::Panicked)) => (
            ProxyPhase::Done,
            ProxyAction::Exit(
                Err(ProxyError::Setup(InternalProxySetupError::AgentClosedConnection)),
            ),
        ),
        (p, _) => (p, ProxyAction::Ignore),
    }
}

/// The controller of one proxy process.
#[derive(Debug, Clone, PartialEq, Eq)]
pub struct ProxyLifecycle {
    pub phase: ProxyPhase,
}

impl ProxyLifecycle {
    /// Starts the life of a proxy: the first thing asked for is the listening
    /// socket.
    pub fn begin() -> (r: (ProxyLifecycle, ProxyAction))
        ensures
            r.0.phase == ProxyPhase::Binding,
            r.1 == (ProxyAction::Bind { backlog: LISTEN_BACKLOG }),
    {
        (ProxyLifecycle { phase: ProxyPhase::Binding }, ProxyAction::Bind { backlog: LISTEN_BACKLOG })
    }

    /// Takes the outcome of the last action and says what is to be done next.
    pub fn step(&mut self, event: ProxyEvent) -> (action: ProxyAction)
        ensures
            (final(self).phase, action) == proxy_spec(old(self).phase, event),
    {
        let (phase, action) = match (self.phase, event) {
            (ProxyPhase::Binding, ProxyEvent::Bound(Ok(_))) => (
                ProxyPhase::Negotiating,
                ProxyAction::Negotiate,
            ),
            (ProxyPhase::Binding, ProxyEvent::Bound(Err(e))) => (
                ProxyPhase::Done,
                ProxyAction::Exit(Err(ProxyError::Setup(InternalProxySetupError::ListenError(e)))),
            ),
            (ProxyPhase::Negotiating, ProxyEvent::Negotiated(Ok(probed))) => if probed {
                (ProxyPhase::Supervising, ProxyAction::StartSupervisor)
            } else {
                (ProxyPhase::Probing, ProxyAction::Probe)
            },
            (ProxyPhase::Negotiating, ProxyEvent::Negotiated(Err(e))) => (
                ProxyPhase::Done,
                ProxyAction::Exit(Err(ProxyError::Negotiation(e))),
            ),
            (ProxyPhase::Probing, ProxyEvent::Probed(Ok(_))) => (
                ProxyPhase::Supervising,
                ProxyAction::StartSupervisor,
            ),
            (ProxyPhase::Probing, ProxyEvent::Probed(Err(e))) => (
                ProxyPhase::Done,
                ProxyAction::Exit(Err(ProxyError::Setup(e))),
            ),
            (ProxyPhase::Supervising, ProxyEvent::SupervisorStarted) => (
                ProxyPhase::ReadingPort,
                ProxyAction::ReadPort,
            ),
            (ProxyPhase::ReadingPort, ProxyEvent::PortRead(Ok(port))) => (
                ProxyPhase::Announcing,
                ProxyAction::Announce { port },
            ),
            (ProxyPhase::ReadingPort, ProxyEvent::PortRead(Err(e))) => (
                ProxyPhase::Done,
                ProxyAction::Exit(
                    Err(ProxyError::Setup(InternalProxySetupError::LocalPortError(e))),
                ),
            ),
            (ProxyPhase::Announcing, ProxyEvent::Announced) => (
                ProxyPhase::Detaching,
                ProxyAction::Detach,
            ),
            (ProxyPhase::Detaching, ProxyEvent::Detached(Ok(_))) => (
                ProxyPhase::Serving,
                ProxyAction::Serve,
            ),
            (ProxyPhase::Detaching, ProxyEvent::Detached(Err(code))) => (
                ProxyPhase::Done,
                ProxyAction::Exit(
                    Err(ProxyError::Setup(InternalProxySetupError::SetSidError(code))),
                ),
            ),
            (ProxyPhase::Serving, ProxyEvent::Served(Ok(_))) => (
                ProxyPhase::Joining,
                ProxyAction::CancelAndJoin,
            ),
            (ProxyPhase::Serving, ProxyEvent::Served(Err(e))) => (
                ProxyPhase::Done,
                ProxyAction::Exit(Err(ProxyError::Serving(e))),
            ),
            (ProxyPhase::Joining, ProxyEvent::Joined(JoinOutcome::Clean)) => (
                ProxyPhase::Done,
                ProxyAction::Exit(Ok(())),
            ),
            (ProxyPhase::Joining, ProxyEvent::Joined(JoinOutcome::Failed(e))) => (
                ProxyPhase::Done,
                ProxyAction::Exit(Err(ProxyError::Setup(e))),
            ),
            (ProxyPhase::Joining, ProxyEvent::Joined(JoinOutcome::Panicked)) => (
                ProxyPhase::Done,
                ProxyAction::Exit(
                    Err(ProxyError::Setup(InternalProxySetupError::AgentClosedConnection)),
                ),
            ),
            (p, _) => (p, ProxyAction::Ignore),
        };
        self.phase = phase;
        action
    }
}

/// The place of a phase in the life of the proxy.
pub open spec fn rank(phase: ProxyPhase) -> nat {
    match phase {
        ProxyPhase::Binding => 0,
        ProxyPhase::Negotiating => 1,
        ProxyPhase::Probing => 2,
        ProxyPhase::Supervising => 3,
        ProxyPhase::ReadingPort => 4,
        ProxyPhase::Announcing => 5,
        ProxyPhase::Detaching => 6,
        ProxyPhase::Serving => 7,
        ProxyPhase::Joining => 8,
        ProxyPhase::Done => 9,
    }
}

/// The proxy only moves forward: a step that asks for something leaves the
/// phase behind for good, so that nothing is asked for twice. The port is
/// told before the process detaches, the process detaches before it serves,
/// and it serves only with a main channel that has been proved alive and
/// handed to the supervisor.
pub proof fn life_moves_forward(phase: ProxyPhase, event: ProxyEvent)
    ensures
        proxy_spec(phase, event).1 != ProxyAction::Ignore ==> rank(proxy_spec(phase, event).0)
            > rank(phase),
        proxy_spec(phase, event).1 == ProxyAction::Ignore ==> proxy_spec(phase, event).0
            == phase,
        proxy_spec(phase, event).1 is Announce ==> phase == ProxyPhase::ReadingPort,
        proxy_spec(phase, event).1 == ProxyAction::Detach ==> phase == ProxyPhase::Announcing,
        proxy_spec(phase, event).1 == ProxyAction::Serve ==> phase == ProxyPhase::Detaching,
        proxy_spec(phase, event).1 == ProxyAction::StartSupervisor ==> (phase
            == ProxyPhase::Probing || (phase == ProxyPhase::Negotiating
            && event == ProxyEvent::Negotiated(Ok(true)))),
{
}

/// A supervisor that did not end of its own stands for an agent that has
/// gone.
pub proof fn lost_supervisor_is_lost_agent()
    ensures
        proxy_spec(ProxyPhase::Joining, ProxyEvent::Joined(JoinOutcome::Panicked)) == (
            ProxyPhase::Done,
            ProxyAction::Exit(
                Err(ProxyError::Setup(InternalProxySetupError::AgentClosedConnection)),
            ),
        ),
{
}

} // verus!
