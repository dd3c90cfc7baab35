//! The session negotiator: how a session with an agent comes about.
//!
//! The negotiation alternates calls to the cluster with decisions. The
//! decisions are the step of a machine: each step takes the outcome of the
//! call that the step before asked for, and asks for the next call or ends
//! the negotiation. The caller makes the calls.

use crate::keepalive::InternalProxySetupError;
use crate::operator::{
    announced_version, check_config, is_trial, lacks_copy_target, license_notice,
    license_notice_spec, notice_views, read_protocol_version, version_notices,
    version_notices_spec, version_parts, Certificate, CopiedTarget, FetchFailure, Notice,
    NoticeLevel, OperatorApiError, OperatorFeature, OperatorOperation, OperatorSessionInformation,
    OperatorSessionMetadata, OperatorSessionTarget, OperatorStatus, TargetResource,
    COPIED_POD_IDLE_TTL,
};
use crate::request::{
    build_spec, connect_request, header_views, identity_headers, text_view, ConnectRequest,
    Routes, UserIdentity,
};
use crate::version::{parsed_version, version_of_parts, Version};
use vstd::prelude::*;

verus! {

/// What a negotiation is given to work with.
#[derive(Debug, Clone, PartialEq, Eq)]
pub struct SessionConfig {
    /// Whether the session is to run against a copy of the target.
    pub copy_target_enabled: bool,
    /// Whether the target is to be scaled down while its copy runs.
    pub copy_target_scale_down: bool,
    /// The name under which the cluster knows the target.
    pub target_name: String,
    /// The version of this client.
    pub local_version: Version,
    /// How sessions are addressed.
    pub routes: Routes,
    /// What is known of the local user.
    pub identity: UserIdentity,
}

/// A condition that the negotiation cannot go on from and that is no error of
/// the operator: the caller has to give up.
#[derive(Clone, Copy, Debug, PartialEq, Eq, Structural)]
pub enum Fault {
    /// The version that the operator reports of itself does not read as one.
    UnreadableOperatorVersion,
    /// The cluster made a copy of the target and gave it no name.
    MissingCopyTargetName,
    /// The event is not the outcome of what the last step asked for.
    UnexpectedEvent,
}

/// Why a negotiation failed.
#[derive(Debug, Clone, PartialEq, Eq)]
pub enum NegotiationError {
    /// The negotiation with the operator failed.
    Operator(OperatorApiError),
    /// The agent could not be reached directly; the text is the reason.
    AgentConnection(String),
    /// The agent was reached and did not prove alive.
    Setup(InternalProxySetupError),
}

/// A session that has been negotiated.
#[derive(Debug, Clone, PartialEq, Eq)]
pub struct Session {
    /// The descriptor of the session; none for a session that goes to the
    /// agent directly.
    pub info: Option<OperatorSessionInformation>,
    /// Whether the channel has already been probed and found alive.
    pub probed: bool,
}

/// Where a negotiation stands: which outcome it waits for.
#[derive(Clone, Copy, Debug, PartialEq, Eq, Structural)]
pub enum Phase {
    AwaitingOperator,
    AwaitingCertificate,
    AwaitingCopy,
    AwaitingTarget,
    AwaitingTransport,
    AwaitingDirect,
    AwaitingProbe,
    Finished,
}

/// The outcome of a call that a step asked for.
#[derive(Debug, PartialEq, Eq)]
pub enum Event {
    OperatorFetched(Result<OperatorStatus, FetchFailure>),
    /// The certificate of the client; none where it could not be had.
    CertificateResolved(Option<Certificate>),
    TargetCopied(Result<CopiedTarget, FetchFailure>),
    TargetFetched(Result<TargetResource, FetchFailure>),
    TransportOpened(Result<(), FetchFailure>),
    DirectOpened(Result<(), String>),
    ProbeAnswered(Result<(), InternalProxySetupError>),
}

/// What a step asks of the caller.
#[derive(Debug, PartialEq, Eq)]
pub enum Action {
    /// Fetch the status of the operator.
    FetchOperator,
    /// Look up the client's certificate for the license.
    ResolveCertificate { fingerprint: String, subscription_id: Option<String> },
    /// Have a copy of the target made.
    CopyTarget { name: String, idle_ttl: u32, scale_down: bool },
    /// Fetch the target.
    FetchTarget { name: String },
    /// Open the transport with the request.
    OpenTransport(ConnectRequest),
    /// Open a transport straight to the agent.
    OpenDirect,
    /// Probe the channel once.
    Probe,
    /// The negotiation has ended.
    Finish(Result<Session, NegotiationError>),
    /// The negotiation cannot go on.
    Abort(Fault),
}

/// What a step says: what the user is to be told, and what is to be done.
#[derive(Debug, PartialEq, Eq)]
pub struct Step {
    pub notices: Vec<Notice>,
    pub action: Action,
}

/// A negotiation in progress.
#[derive(Debug, Clone, PartialEq, Eq)]
pub struct Negotiator {
    pub phase: Phase,
    pub config: SessionConfig,
    /// The operator's status, while the certificate is awaited.
    pub status: Option<OperatorStatus>,
    /// The metadata of the session, while the target is awaited.
    pub metadata: Option<OperatorSessionMetadata>,
    /// The descriptor of the session, while the transport is awaited.
    pub info: Option<OperatorSessionInformation>,
}

/// The error that stands for a failed attempt at an operation.
pub open spec fn failure_error(failure: FetchFailure, operation: OperatorOperation) -> OperatorApiError {
    match failure {
        FetchFailure::CreateApi(message) => OperatorApiError::CreateApiError(message),
        FetchFailure::Kube(error) => OperatorApiError::KubeError { error, operation },
    }
}

/// The negotiation has ended with the given error of the operator and has
/// nothing to tell the user.
pub open spec fn fails_with(post: Negotiator, out: Step, e: OperatorApiError) -> bool {
    &&& post.phase == Phase::Finished
    &&& out.notices@.len() == 0
    &&& out.action == Action::Finish(Err(NegotiationError::Operator(e)))
}

/// The negotiation cannot go on, for the given reason.
pub open spec fn aborts_with(post: Negotiator, out: Step, fault: Fault) -> bool {
    &&& post.phase == Phase::Finished
    &&& out.notices@.len() == 0
    &&& out.action == Action::Abort(fault)
}

/// The metadata is that of a session under the given status and certificate.
pub open spec fn metadata_of(
    m: OperatorSessionMetadata,
    status: OperatorStatus,
    cert: Option<Certificate>,
) -> bool {
    &&& m.client_certificate == cert
    &&& m.fingerprint == status.license.fingerprint
    &&& m.operator_features@ == match status.features {
        Some(f) => f@,
        None => Seq::<OperatorFeature>::empty(),
    }
    &&& version_parts(m.protocol_version) == announced_version(status.protocol_version)
    &&& m.copy_pod_enabled == status.copy_target_enabled
}

/// The notice on the license as a list of none or one.
pub open spec fn license_lead(status: OperatorStatus) -> Seq<(NoticeLevel, Seq<char>)> {
    match license_notice_spec(
        is_trial(status.license.name@),
        status.license.days_until_expiration,
    ) {
        Some(n) => seq![n],
        None => Seq::<(NoticeLevel, Seq<char>)>::empty(),
    }
}

/// What follows once the certificate is settled: the metadata of the session
/// is fixed, the versions are compared, and the target is asked for, as a
/// copy where the configuration wants one. A version of the operator that
/// does not read as one stops the negotiation.
pub open spec fn proceeds(
    config: SessionConfig,
    status: OperatorStatus,
    cert: Option<Certificate>,
    lead: Seq<(NoticeLevel, Seq<char>)>,
    post: Negotiator,
    out: Step,
) -> bool {
    match parsed_version(status.operator_version@) {
        None => {
            &&& post.phase == Phase::Finished
            &&& notice_views(out.notices@) == lead
            &&& out.action == Action::Abort(Fault::UnreadableOperatorVersion)
        },
        Some(p) => {
            &&& post.config == config
            &&& post.metadata matches Some(m)
            &&& metadata_of(m, status, cert)
            &&& notice_views(out.notices@) == lead + version_notices_spec(
                config.local_version@,
                version_of_parts(p),
            )
            &&& if config.copy_target_enabled {
                &&& post.phase == Phase::AwaitingCopy
                &&& out.action matches Action::CopyTarget { name, idle_ttl, scale_down }
                &&& name@ == config.target_name@
                &&& idle_ttl == COPIED_POD_IDLE_TTL
                &&& scale_down == config.copy_target_scale_down
            } else {
                &&& post.phase == Phase::AwaitingTarget
                &&& out.action matches Action::FetchTarget { name }
                &&& name@ == config.target_name@
            }
        },
    }
}

/// What follows the status of the operator. An expired license ends the
/// negotiation, and so does a configuration that asks for what the operator
/// does not offer; in both cases nothing further is asked of the cluster.
/// Otherwise the certificate is looked up where the license has a
/// fingerprint, and the negotiation goes on without one where it has none.
pub open spec fn operator_reviewed(
    config: SessionConfig,
    status: OperatorStatus,
    post: Negotiator,
    out: Step,
) -> bool {
    if status.license.days_until_expiration is None {
        &&& post.phase == Phase::Finished
        &&& notice_views(out.notices@) == license_lead(status)
        &&& out.action == Action::Finish(
            Err(NegotiationError::Operator(OperatorApiError::NoLicense)),
        )
    } else if lacks_copy_target(config.copy_target_enabled, status.copy_target_enabled) {
        &&& post.phase == Phase::Finished
        &&& notice_views(out.notices@) == license_lead(status)
        &&& out.action matches Action::Finish(
            Err(
                NegotiationError::Operator(
                    OperatorApiError::UnsupportedFeature { feature, operator_version },
                ),
            ),
        )
        &&& feature@ == "copy target"@
        &&& operator_version@ == status.operator_version@
    } else {
        match status.license.fingerprint {
            Some(fingerprint) => {
                &&& post.phase == Phase::AwaitingCertificate
                &&& post.config == config
                &&& post.status == Some(status)
                &&& notice_views(out.notices@) == license_lead(status)
                &&& out.action == Action::ResolveCertificate {
                    fingerprint,
                    subscription_id: status.license.subscription_id,
                }
            },
            None => proceeds(config, status, None, license_lead(status), post, out),
        }
    }
}

/// What follows once the target is known: the transport is asked for, at the
/// address of the session and with the headers that identify it. A request
/// that cannot be built ends the negotiation; a copy without a name stops it.
pub open spec fn connects(
    config: SessionConfig,
    info: OperatorSessionInformation,
    post: Negotiator,
    out: Step,
) -> bool {
    &&& out.notices@.len() == 0
    &&& match info.target.name_spec() {
        None => post.phase == Phase::Finished && out.action == Action::Abort(
            Fault::MissingCopyTargetName,
        ),
        Some(name) => {
            let url = info.url_spec(config.routes);
            let headers = identity_headers(
                info.metadata.session_id,
                text_view(config.identity.name),
                text_view(config.identity.hostname),
                info.metadata.credentials_spec(),
            );
            match build_spec(url, headers) {
                Err(e) => post.phase == Phase::Finished && out.action == Action::Finish(
                    Err(
                        NegotiationError::Operator(OperatorApiError::ConnectRequestBuildError(e)),
                    ),
                ),
                Ok(_) => {
                    &&& post.phase == Phase::AwaitingTransport
                    &&& post.config == config
                    &&& post.info == Some(info)
                    &&& out.action matches Action::OpenTransport(request)
                    &&& request.uri@ == url
                    &&& header_views(request.headers@) == headers
                },
            }
        },
    }
}

/// The step of the negotiation, as a relation between the negotiation before
/// the step, the event, the negotiation after it and what the step says.
pub open spec fn step_post(pre: Negotiator, event: Event, post: Negotiator, out: Step) -> bool {
    match (pre.phase, event) {
        (Phase::AwaitingOperator, Event::OperatorFetched(Err(f))) => fails_with(
            post,
            out,
            failure_error(f, OperatorOperation::FindingOperator),
        ),
        (Phase::AwaitingOperator, Event::OperatorFetched(Ok(status))) => operator_reviewed(
            pre.config,
            status,
            post,
            out,
        ),
        (Phase::AwaitingCertificate, Event::CertificateResolved(cert)) => match pre.status {
            Some(status) => proceeds(
                pre.config,
                status,
                cert,
                Seq::<(NoticeLevel, Seq<char>)>::empty(),
                post,
                out,
            ),
            None => aborts_with(post, out, Fault::UnexpectedEvent),
        },
        (Phase::AwaitingCopy, Event::TargetCopied(Err(f))) => fails_with(
            post,
            out,
            failure_error(f, OperatorOperation::CopyingTarget),
        ),
        (Phase::AwaitingCopy, Event::TargetCopied(Ok(copied))) => match pre.metadata {
            Some(metadata) => connects(
                pre.config,
                OperatorSessionInformation {
                    target: OperatorSessionTarget::Copied(copied),
                    metadata,
                },
                post,
                out,
            ),
            None => aborts_with(post, out, Fault::UnexpectedEvent),
        },
        (Phase::AwaitingTarget, Event::TargetFetched(Err(f))) => fails_with(
            post,
            out,
            failure_error(f, OperatorOperation::FindingTarget),
        ),
        (Phase::AwaitingTarget, Event::TargetFetched(Ok(target))) => match pre.metadata {
            Some(metadata) => connects(
                pre.config,
                OperatorSessionInformation { target: OperatorSessionTarget::Raw(target), metadata },
                post,
                out,
            ),
            None => aborts_with(post, out, Fault::UnexpectedEvent),
        },
        (Phase::AwaitingTransport, Event::TransportOpened(Err(f))) => fails_with(
            post,
            out,
            failure_error(f, OperatorOperation::WebsocketConnection),
        ),
        (Phase::AwaitingTransport, Event::TransportOpened(Ok(_))) => match pre.info {
            Some(info) => {
                &&& post.phase == Phase::Finished
                &&& out.notices@.len() == 0
                &&& out.action == Action::Finish(Ok(Session { info: Some(info), probed: false }))
            },
            None => aborts_with(post, out, Fault::UnexpectedEvent),
        },
        (Phase::AwaitingDirect, Event::DirectOpened(Err(reason))) => {
            &&& post.phase == Phase::Finished
            &&& out.notices@.len() == 0
            &&& out.action == Action::Finish(Err(NegotiationError::AgentConnection(reason)))
        },
        (Phase::AwaitingDirect, Event::DirectOpened(Ok(_))) => {
            &&& post.phase == Phase::AwaitingProbe
            &&& post.config == pre.config
            &&& out.notices@.len() == 0
            &&& out.action == Action::Probe
        },
        (Phase::AwaitingProbe, Event::ProbeAnswered(Err(e))) => {
            &&& post.phase == Phase::Finished
            &&& out.notices@.len() == 0
            &&& out.action == Action::Finish(Err(NegotiationError::Setup(e)))
        },
        (Phase::AwaitingProbe, Event::ProbeAnswered(Ok(_))) => {
            &&& post.phase == Phase::Finished
            &&& out.notices@.len() == 0
            &&& out.action == Action::Finish(Ok(Session { info: None, probed: true }))
        },
        _ => aborts_with(post, out, Fault::UnexpectedEvent),
    }
}

fn copy_text(t: &Option<String>) -> (r: Option<String>)
    ensures
        r == *t,
{
    match t {
        Some(s) => Some(s.clone()),
        None => None,
    }
}

fn quiet(action: Action) -> (out: Step)
    ensures
        out.notices@.len() == 0,
        out.action == action,
{
    Step { notices: Vec::new(), action }
}

fn ended(config: SessionConfig) -> (n: Negotiator)
    ensures
        n.phase == Phase::Finished,
        n.config == config,
{
    Negotiator { phase: Phase::Finished, config, status: None, metadata: None, info: None }
}

fn fail(config: SessionConfig, e: OperatorApiError) -> (r: (Negotiator, Step))
    ensures
        fails_with(r.0, r.1, e),
{
    (ended(config), quiet(Action::Finish(Err(NegotiationError::Operator(e)))))
}

fn abort(config: SessionConfig, fault: Fault) -> (r: (Negotiator, Step))
    ensures
        aborts_with(r.0, r.1, fault),
{
    (ended(config), quiet(Action::Abort(fault)))
}

fn connect(config: SessionConfig, info: OperatorSessionInformation) -> (r: (Negotiator, Step))
    ensures
        connects(config, info, r.0, r.1),
{
    if info.target.name().is_none() {
        return (ended(config), quiet(Action::Abort(Fault::MissingCopyTargetName)));
    }
    let url = info.connect_url(&config.routes);
    let credentials = info.metadata.client_credentials();
    match connect_request(url, info.metadata.session_id, &config.identity, credentials) {
        Ok(request) => (
            Negotiator {
                phase: Phase::AwaitingTransport,
                config,
                status: None,
                metadata: None,
                info: Some(info),
            },
            quiet(Action::OpenTransport(request)),
        ),
        Err(e) => (
            ended(config),
            quiet(
                Action::Finish(
                    Err(NegotiationError::Operator(OperatorApiError::ConnectRequestBuildError(e))),
                ),
            ),
        ),
    }
}

fn proceed(
    config: SessionConfig,
    status: OperatorStatus,
    cert: Option<Certificate>,
    notices: Vec<Notice>,
) -> (r: (Negotiator, Step))
    ensures
        proceeds(config, status, cert, notice_views(notices@), r.0, r.1),
{
    let operator_version = match Version::parse(status.operator_version.as_str()) {
        Some(v) => v,
        None => {
            return (
                ended(config),
                Step { notices, action: Action::Abort(Fault::UnreadableOperatorVersion) },
            );
        },
    };
    let ghost lead = notice_views(notices@);
    let protocol_version = read_protocol_version(&status.protocol_version);
    let OperatorStatus { operator_version: _, license, features, protocol_version: _, copy_target_enabled } =
        status;
    let features = match features {
        Some(f) => f,
        None => Vec::new(),
    };
    let metadata = OperatorSessionMetadata::new(
        cert,
        license.fingerprint,
        features,
        protocol_version,
        copy_target_enabled,
    );
    let mut notices = notices;
    let mut more = version_notices(&config.local_version, &operator_version);
    let ghost added = notice_views(more@);
    notices.append(&mut more);
    assert(notice_views(notices@) =~= lead + added);
    let action = if config.copy_target_enabled {
        Action::CopyTarget {
            name: config.target_name.clone(),
            idle_ttl: COPIED_POD_IDLE_TTL,
            scale_down: config.copy_target_scale_down,
        }
    } else {
        Action::FetchTarget { name: config.target_name.clone() }
    };
    let phase = if config.copy_target_enabled {
        Phase::AwaitingCopy
    } else {
        Phase::AwaitingTarget
    };
    (
        Negotiator { phase, config, status: None, metadata: Some(metadata), info: None },
        Step { notices, action },
    )
}

fn review_operator(config: SessionConfig, status: OperatorStatus) -> (r: (Negotiator, Step))
    ensures
        operator_reviewed(config, status, r.0, r.1),
{
    let mut notices: Vec<Notice> = Vec::new();
    if let Some(n) = license_notice(&status.license) {
        notices.push(n);
    }
    assert(notice_views(notices@) =~= license_lead(status));
    if status.license.days_until_expiration.is_none() {
        return (
            ended(config),
            Step {
                notices,
                action: Action::Finish(Err(NegotiationError::Operator(OperatorApiError::NoLicense))),
            },
        );
    }
    match check_config(config.copy_target_enabled, &status) {
        Ok(()) => {},
        Err(e) => {
            return (
                ended(config),
                Step { notices, action: Action::Finish(Err(NegotiationError::Operator(e))) },
            );
        },
    }
    if status.license.fingerprint.is_some() {
        let fingerprint = match &status.license.fingerprint {
            Some(f) => f.clone(),
            None => String::new(),
        };
        let subscription_id = copy_text(&status.license.subscription_id);
        (
            Negotiator {
                phase: Phase::AwaitingCertificate,
                config,
                status: Some(status),
                metadata: None,
                info: None,
            },
            Step { notices, action: Action::ResolveCertificate { fingerprint, subscription_id } },
        )
    } else {
        proceed(config, status, None, notices)
    }
}

impl Negotiator {
    /// Starts a negotiation. With a direct way to the agent the operator is
    /// not asked at all: the transport is opened straight away. Otherwise the
    /// first thing asked for is the operator's status.
    pub fn begin(config: SessionConfig, direct: bool) -> (r: (Negotiator, Step))
        ensures
            r.0.config == config,
            r.1.notices@.len() == 0,
            direct ==> r.0.phase == Phase::AwaitingDirect && r.1.action == Action::OpenDirect,
            !direct ==> r.0.phase == Phase::AwaitingOperator && r.1.action
                == Action::FetchOperator,
    {
        if direct {
            (
                Negotiator {
                    phase: Phase::AwaitingDirect,
                    config,
                    status: None,
                    metadata: None,
                    info: None,
                },
                quiet(Action::OpenDirect),
            )
        } else {
            (
                Negotiator {
                    phase: Phase::AwaitingOperator,
                    config,
                    status: None,
                    metadata: None,
                    info: None,
                },
                quiet(Action::FetchOperator),
            )
        }
    }

    /// Attaches to a session that was negotiated before: nothing is resolved
    /// again, the transport is asked for at once.
    pub fn reattach(config: SessionConfig, info: OperatorSessionInformation) -> (r: (
        Negotiator,
        Step,
    ))
        ensures
            connects(config, info, r.0, r.1),
    {
        connect(config, info)
    }

    /// Takes the outcome of what the last step asked for and says what is to
    /// be done next.
    pub fn step(self, event: Event) -> (r: (Negotiator, Step))
        ensures
            step_post(self, event, r.0, r.1),
    {
        let Negotiator { phase, config, status, metadata, info } = self;
        match (phase, event) {
            (Phase::AwaitingOperator, Event::OperatorFetched(Err(f))) => fail(
                config,
                OperatorApiError::from_failure(f, OperatorOperation::FindingOperator),
            ),
            (Phase::AwaitingOperator, Event::OperatorFetched(Ok(s))) => review_operator(config, s),
            (Phase::AwaitingCertificate, Event::CertificateResolved(cert)) => match status {
                Some(s) => {
                    let notices: Vec<Notice> = Vec::new();
                    assert(notice_views(notices@) =~= Seq::<(NoticeLevel, Seq<char>)>::empty());
                    proceed(config, s, cert, notices)
                },
                None => abort(config, Fault::UnexpectedEvent),
            },
            (Phase::AwaitingCopy, Event::TargetCopied(Err(f))) => fail(
                config,
                OperatorApiError::from_failure(f, OperatorOperation::CopyingTarget),
            ),
            (Phase::AwaitingCopy, Event::TargetCopied(Ok(copied))) => match metadata {
                Some(m) => connect(
                    config,
                    OperatorSessionInformation {
                        target: OperatorSessionTarget::Copied(copied),
                        metadata: m,
                    },
                ),
                None => abort(config, Fault::UnexpectedEvent),
            },
            (Phase::AwaitingTarget, Event::TargetFetched(Err(f))) => fail(
                config,
                OperatorApiError::from_failure(f, OperatorOperation::FindingTarget),
            ),
            (Phase::AwaitingTarget, Event::TargetFetched(Ok(target))) => match metadata {
                Some(m) => connect(
                    config,
                    OperatorSessionInformation {
                        target: OperatorSessionTarget::Raw(target),
                        metadata: m,
                    },
                ),
                None => abort(config, Fault::UnexpectedEvent),
            },
            (Phase::AwaitingTransport, Event::TransportOpened(Err(f))) => fail(
                config,
                OperatorApiError::from_failure(f, OperatorOperation::WebsocketConnection),
            ),
            (Phase::AwaitingTransport, Event::TransportOpened(Ok(_))) => match info {
                Some(i) => (
                    ended(config),
                    quiet(Action::Finish(Ok(Session { info: Some(i), probed: false }))),
                ),
                None => abort(config, Fault::UnexpectedEvent),
            },
            (Phase::AwaitingDirect, Event::DirectOpened(Err(reason))) => (
                ended(config),
                quiet(Action::Finish(Err(NegotiationError::AgentConnection(reason)))),
            ),
            (Phase::AwaitingDirect, Event::DirectOpened(Ok(_))) => (
                Negotiator {
                    phase: Phase::AwaitingProbe,
                    config,
                    status: None,
                    metadata: None,
                    info: None,
                },
                quiet(Action::Probe),
            ),
            (Phase::AwaitingProbe, Event::ProbeAnswered(Err(e))) => (
                ended(config),
                quiet(Action::Finish(Err(NegotiationError::Setup(e)))),
            ),
            (Phase::AwaitingProbe, Event::ProbeAnswered(Ok(_))) => (
                ended(config),
                quiet(Action::Finish(Ok(Session { info: None, probed: true }))),
            ),
            _ => abort(config, Fault::UnexpectedEvent),
        }
    }
}

/// Whether an action hands out a session on a target.
pub open spec fn hands_out_target_session(action: Action) -> bool {
    match action {
        Action::Finish(Ok(session)) => session.info is Some,
        _ => false,
    }
}

/// Whether an action hands out a session that goes to the agent directly and
/// has been probed.
pub open spec fn hands_out_probed_direct_session(action: Action) -> bool {
    match action {
        Action::Finish(Ok(session)) => session.info is None && session.probed,
        _ => false,
    }
}

/// Whether an action ends the negotiation with an error.
pub open spec fn ends_in_error(action: Action) -> bool {
    match action {
        Action::Finish(Err(_)) => true,
        _ => false,
    }
}

/// A session on a target is handed out only by the step that learns that the
/// transport was opened. In particular the step that learns of a copy never
/// hands out a session: it asks for the transport, or it ends without one.
pub proof fn session_only_after_transport(
    pre: Negotiator,
    event: Event,
    post: Negotiator,
    out: Step,
)
    requires
        step_post(pre, event, post, out),
    ensures
        hands_out_target_session(out.action) ==> pre.phase == Phase::AwaitingTransport && (
        event matches Event::TransportOpened(Ok(_))),
        (pre.phase == Phase::AwaitingCopy && (event matches Event::TargetCopied(Ok(_)))) ==> (
        out.action is OpenTransport || out.action is Abort || ends_in_error(out.action)),
{
}

/// A negotiation that goes to the agent directly never asks anything of the
/// operator, and probes the channel exactly once before it hands it out.
pub proof fn direct_path_probes_once(
    pre: Negotiator,
    event: Event,
    post: Negotiator,
    out: Step,
)
    requires
        step_post(pre, event, post, out),
        pre.phase == Phase::AwaitingDirect || pre.phase == Phase::AwaitingProbe,
    ensures
        post.phase == Phase::AwaitingProbe || post.phase == Phase::Finished,
        out.action is Probe || out.action is Finish || out.action is Abort,
        out.action is Probe <==> (pre.phase == Phase::AwaitingDirect && (
        event matches Event::DirectOpened(Ok(_)))),
        (out.action matches Action::Finish(Ok(_))) ==> pre.phase == Phase::AwaitingProbe
            && hands_out_probed_direct_session(out.action),
{
}

/// Once the license has expired, or the operator lacks what the configuration
/// asks for, the negotiation is over: no target is asked for and no transport
/// is opened.
pub proof fn refusal_ends_negotiation(
    pre: Negotiator,
    status: OperatorStatus,
    post: Negotiator,
    out: Step,
)
    requires
        pre.phase == Phase::AwaitingOperator,
        step_post(pre, Event::OperatorFetched(Ok(status)), post, out),
        status.license.days_until_expiration is None || lacks_copy_target(
            pre.config.copy_target_enabled,
            status.copy_target_enabled,
        ),
    ensures
        post.phase == Phase::Finished,
        ends_in_error(out.action),
        status.license.days_until_expiration is None ==> out.action == Action::Finish(
            Err(NegotiationError::Operator(OperatorApiError::NoLicense)),
        ),
{
}

} // verus!
