use session_bridge::handshake::{ErrorStatus, UpgradeError};
use session_bridge::keepalive::{InternalProxySetupError, ProbeFailure};
use session_bridge::negotiator::{
    Action, Event, Fault, NegotiationError, Negotiator, Phase, Session, SessionConfig, Step,
};
use session_bridge::operator::{
    Certificate, CopiedTarget, FetchFailure, KubeFailure, License, Notice, NoticeLevel,
    OperatorApiError, OperatorFeature, OperatorOperation, OperatorSessionInformation,
    OperatorSessionMetadata, OperatorSessionTarget, OperatorStatus, TargetResource,
};
use session_bridge::request::{RequestBuildError, RequestHeader, ResourceRoute, Routes, UserIdentity};
use session_bridge::version::Version;

fn config(copy: bool) -> SessionConfig {
    SessionConfig {
        copy_target_enabled: copy,
        copy_target_scale_down: true,
        target_name: "deploy.web".to_string(),
        local_version: Version::new(3, 80, 0),
        routes: Routes {
            namespace: "ns".to_string(),
            on_concurrent_steal: "abort".to_string(),
            raw: ResourceRoute {
                api_version: "g/v1".to_string(),
                plural: "targets".to_string(),
                resource_url: "/apis/g/v1/namespaces/ns/targets".to_string(),
            },
            copied: ResourceRoute {
                api_version: "g/v1".to_string(),
                plural: "copytargets".to_string(),
                resource_url: "/apis/g/v1/namespaces/ns/copytargets".to_string(),
            },
        },
        identity: UserIdentity { name: Some("ann".to_string()), hostname: Some("box".to_string()) },
    }
}

fn status() -> OperatorStatus {
    OperatorStatus {
        operator_version: "3.80.0".to_string(),
        license: License {
            name: "ACME".to_string(),
            fingerprint: Some("fp-1".to_string()),
            subscription_id: Some("sub-1".to_string()),
            days_until_expiration: Some(200),
        },
        features: Some(vec![OperatorFeature::ProxyApi]),
        protocol_version: Some("1.4.0".to_string()),
        copy_target_enabled: Some(true),
    }
}

fn not_found() -> FetchFailure {
    FetchFailure::Kube(KubeFailure::Api(ErrorStatus {
        status: "Failure".to_string(),
        message: "not found".to_string(),
        reason: "NotFound".to_string(),
        code: 404,
    }))
}

fn operator_error(step: &Step) -> &OperatorApiError {
    match &step.action {
        Action::Finish(Err(NegotiationError::Operator(e))) => e,
        other => panic!("not an operator error: {:?}", other),
    }
}

fn header(name: &str, value: &str) -> RequestHeader {
    RequestHeader { name: name.to_string(), value: value.to_string() }
}

/// Runs the brokered path up to the step that follows the certificate.
fn up_to_target(copy: bool) -> (Negotiator, Step) {
    let (n, first) = Negotiator::begin(config(copy), false);
    assert_eq!(first.action, Action::FetchOperator);
    let (n, second) = n.step(Event::OperatorFetched(Ok(status())));
    assert_eq!(
        second.action,
        Action::ResolveCertificate {
            fingerprint: "fp-1".to_string(),
            subscription_id: Some("sub-1".to_string())
        }
    );
    assert_eq!(n.phase, Phase::AwaitingCertificate);
    n.step(Event::CertificateResolved(Some(Certificate { der: b"foobar".to_vec(), public_key: vec![] })))
}

#[test]
fn brokered_path_with_a_raw_target() {
    let (n, step) = up_to_target(false);
    assert_eq!(step.notices, vec![]);
    assert_eq!(step.action, Action::FetchTarget { name: "deploy.web".to_string() });
    assert_eq!(n.phase, Phase::AwaitingTarget);
    let metadata = n.metadata.clone().unwrap();
    assert_eq!(metadata.fingerprint, Some("fp-1".to_string()));
    assert_eq!(metadata.protocol_version, Some(Version::new(1, 4, 0)));
    assert_eq!(metadata.copy_pod_enabled, Some(true));
    let (n, step) = n.step(Event::TargetFetched(Ok(TargetResource { name: "deploy.web".to_string() })));
    assert_eq!(n.phase, Phase::AwaitingTransport);
    match &step.action {
        Action::OpenTransport(request) => {
            assert_eq!(
                request.uri,
                "/apis/g/v1/proxy/namespaces/ns/targets/deploy.web?on_concurrent_steal=abort&connect=true"
            );
            assert_eq!(
                request.headers,
                vec![
                    header("x-session-id", &metadata.session_id.to_string()),
                    header("x-client-name", "ann"),
                    header("x-client-hostname", "box"),
                    header("x-client-der", "Zm9vYmFy"),
                ]
            );
        }
        other => panic!("unexpected action {:?}", other),
    }
    let (n, step) = n.step(Event::TransportOpened(Ok(())));
    assert_eq!(n.phase, Phase::Finished);
    match step.action {
        Action::Finish(Ok(Session { info: Some(info), probed })) => {
            assert!(!probed);
            assert_eq!(info.metadata, metadata);
            assert_eq!(
                info.target,
                OperatorSessionTarget::Raw(TargetResource { name: "deploy.web".to_string() })
            );
        }
        other => panic!("unexpected action {:?}", other),
    }
}

#[test]
fn copied_target_is_connected_to_at_once() {
    let (n, step) = up_to_target(true);
    assert_eq!(
        step.action,
        Action::CopyTarget { name: "deploy.web".to_string(), idle_ttl: 30, scale_down: true }
    );
    assert_eq!(n.phase, Phase::AwaitingCopy);
    let copied = CopiedTarget { name: Some("copy-1".to_string()), idle_ttl: Some(30), scale_down: true };
    let (n, step) = n.step(Event::TargetCopied(Ok(copied.clone())));
    assert_eq!(n.phase, Phase::AwaitingTransport);
    match &step.action {
        Action::OpenTransport(request) => {
            assert_eq!(request.uri, "/apis/g/v1/proxy/namespaces/ns/copytargets/copy-1?connect=true");
        }
        other => panic!("unexpected action {:?}", other),
    }
    let (_, step) = n.step(Event::TransportOpened(Ok(())));
    match step.action {
        Action::Finish(Ok(Session { info: Some(info), .. })) => {
            assert_eq!(info.target, OperatorSessionTarget::Copied(copied));
        }
        other => panic!("unexpected action {:?}", other),
    }
}

#[test]
fn expired_license_ends_with_no_license() {
    let mut s = status();
    s.license.days_until_expiration = None;
    let (n, _) = Negotiator::begin(config(false), false);
    let (n, step) = n.step(Event::OperatorFetched(Ok(s)));
    assert_eq!(n.phase, Phase::Finished);
    assert_eq!(
        step.action,
        Action::Finish(Err(NegotiationError::Operator(OperatorApiError::NoLicense)))
    );
    assert_eq!(step.notices.len(), 1);
    assert_eq!(step.notices[0].level, NoticeLevel::Warning);
    // Nothing moves a negotiation that has ended: no transport is asked for.
    let (n, step) = n.step(Event::TransportOpened(Ok(())));
    assert_eq!(step.action, Action::Abort(Fault::UnexpectedEvent));
    assert_eq!(n.phase, Phase::Finished);
}

#[test]
fn license_that_ends_today_still_negotiates() {
    let mut s = status();
    s.license.name = "ACME (Trial)".to_string();
    s.license.days_until_expiration = Some(0);
    let (n, _) = Negotiator::begin(config(false), false);
    let (n, step) = n.step(Event::OperatorFetched(Ok(s)));
    assert_eq!(n.phase, Phase::AwaitingCertificate);
    assert_eq!(
        step.notices,
        vec![Notice {
            level: NoticeLevel::Warning,
            text: "Operator license will expire today!".to_string()
        }]
    );
}

#[test]
fn missing_copy_feature_ends_before_any_target_call() {
    let mut s = status();
    s.copy_target_enabled = None;
    let (n, _) = Negotiator::begin(config(true), false);
    let (n, step) = n.step(Event::OperatorFetched(Ok(s)));
    assert_eq!(n.phase, Phase::Finished);
    assert_eq!(
        operator_error(&step),
        &OperatorApiError::UnsupportedFeature {
            feature: "copy target".to_string(),
            operator_version: "3.80.0".to_string(),
        }
    );
}

#[test]
fn direct_path_skips_the_operator_and_probes_once() {
    let (n, step) = Negotiator::begin(config(true), true);
    assert_eq!(step.action, Action::OpenDirect);
    assert_eq!(n.phase, Phase::AwaitingDirect);
    let (n, step) = n.step(Event::DirectOpened(Ok(())));
    assert_eq!(step.action, Action::Probe);
    assert_eq!(n.phase, Phase::AwaitingProbe);
    let (n, step) = n.step(Event::ProbeAnswered(Ok(())));
    assert_eq!(step.action, Action::Finish(Ok(Session { info: None, probed: true })));
    assert_eq!(n.phase, Phase::Finished);
}

#[test]
fn direct_path_failures() {
    let (n, _) = Negotiator::begin(config(false), true);
    let (_, step) = n.step(Event::DirectOpened(Err("connection refused".to_string())));
    assert_eq!(
        step.action,
        Action::Finish(Err(NegotiationError::AgentConnection("connection refused".to_string())))
    );
    let (n, _) = Negotiator::begin(config(false), true);
    let (n, _) = n.step(Event::DirectOpened(Ok(())));
    let failure = InternalProxySetupError::NoPong(ProbeFailure::Timeout);
    let (_, step) = n.step(Event::ProbeAnswered(Err(failure.clone())));
    assert_eq!(step.action, Action::Finish(Err(NegotiationError::Setup(failure))));
}

#[test]
fn license_without_fingerprint_needs_no_certificate() {
    let mut s = status();
    s.license.fingerprint = None;
    s.features = None;
    let (n, _) = Negotiator::begin(config(false), false);
    let (n, step) = n.step(Event::OperatorFetched(Ok(s)));
    assert_eq!(step.action, Action::FetchTarget { name: "deploy.web".to_string() });
    let metadata = n.metadata.clone().unwrap();
    assert_eq!(metadata.client_certificate, None);
    assert_eq!(metadata.operator_features, vec![]);
    // Without the proxy capability the target is reached at its own address.
    let (_, step) = n.step(Event::TargetFetched(Ok(TargetResource { name: "deploy.web".to_string() })));
    match &step.action {
        Action::OpenTransport(request) => {
            assert_eq!(
                request.uri,
                "/apis/g/v1/namespaces/ns/targets/deploy.web?on_concurrent_steal=abort&connect=true"
            );
            assert_eq!(request.headers.len(), 3);
        }
        other => panic!("unexpected action {:?}", other),
    }
}

#[test]
fn certificate_may_be_missing() {
    let (n, _) = Negotiator::begin(config(false), false);
    let (n, _) = n.step(Event::OperatorFetched(Ok(status())));
    let (n, step) = n.step(Event::CertificateResolved(None));
    assert_eq!(step.action, Action::FetchTarget { name: "deploy.web".to_string() });
    assert_eq!(n.metadata.unwrap().client_certificate, None);
}

#[test]
fn newer_operator_warns_and_goes_on() {
    let mut s = status();
    s.operator_version = "3.81.0".to_string();
    s.license.fingerprint = None;
    let (n, _) = Negotiator::begin(config(false), false);
    let (n, step) = n.step(Event::OperatorFetched(Ok(s)));
    assert_eq!(n.phase, Phase::AwaitingTarget);
    assert_eq!(step.notices.len(), 2);
    assert_eq!(
        step.notices[0].text,
        "Your mirrord plugin/CLI version 3.80.0 does not match the operator version 3.81.0. This can lead to unforeseen issues."
    );
    assert_eq!(
        step.notices[1].text,
        "Consider updating your mirrord plugin/CLI to match the operator version."
    );
}

#[test]
fn unreadable_operator_version_stops_the_negotiation() {
    let mut s = status();
    s.operator_version = "nightly".to_string();
    let (n, _) = Negotiator::begin(config(false), false);
    let (n, _) = n.step(Event::OperatorFetched(Ok(s)));
    let (n, step) = n.step(Event::CertificateResolved(None));
    assert_eq!(step.action, Action::Abort(Fault::UnreadableOperatorVersion));
    assert_eq!(n.phase, Phase::Finished);
}

#[test]
fn failures_name_their_operation() {
    let (n, _) = Negotiator::begin(config(false), false);
    let (_, step) = n.step(Event::OperatorFetched(Err(not_found())));
    assert!(matches!(
        operator_error(&step),
        OperatorApiError::KubeError { operation: OperatorOperation::FindingOperator, .. }
    ));
    let (n, _) = Negotiator::begin(config(false), false);
    let (_, step) = n.step(Event::OperatorFetched(Err(FetchFailure::CreateApi("no config".to_string()))));
    assert_eq!(operator_error(&step), &OperatorApiError::CreateApiError("no config".to_string()));

    let (n, _) = up_to_target(false);
    let (n, step) = n.step(Event::TargetFetched(Err(not_found())));
    assert_eq!(n.phase, Phase::Finished);
    assert!(matches!(
        operator_error(&step),
        OperatorApiError::KubeError { operation: OperatorOperation::FindingTarget, .. }
    ));

    let (n, _) = up_to_target(true);
    let (_, step) = n.step(Event::TargetCopied(Err(not_found())));
    assert!(matches!(
        operator_error(&step),
        OperatorApiError::KubeError { operation: OperatorOperation::CopyingTarget, .. }
    ));

    let (n, _) = up_to_target(false);
    let (n, _) = n.step(Event::TargetFetched(Ok(TargetResource { name: "deploy.web".to_string() })));
    let refused = FetchFailure::Kube(KubeFailure::Upgrade(UpgradeError::ProtocolSwitch(500)));
    let (_, step) = n.step(Event::TransportOpened(Err(refused)));
    assert!(matches!(
        operator_error(&step),
        OperatorApiError::KubeError { operation: OperatorOperation::WebsocketConnection, .. }
    ));
}

#[test]
fn copy_without_a_name_stops_the_negotiation() {
    let (n, _) = up_to_target(true);
    let (n, step) =
        n.step(Event::TargetCopied(Ok(CopiedTarget { name: None, idle_ttl: Some(30), scale_down: true })));
    assert_eq!(step.action, Action::Abort(Fault::MissingCopyTargetName));
    assert_eq!(n.phase, Phase::Finished);
}

#[test]
fn request_that_cannot_be_built_ends_the_negotiation() {
    let mut c = config(false);
    c.identity.hostname = Some("bad\nhost".to_string());
    let (n, _) = Negotiator::begin(c, false);
    let (n, _) = n.step(Event::OperatorFetched(Ok(status())));
    let (n, _) = n.step(Event::CertificateResolved(None));
    let (_, step) = n.step(Event::TargetFetched(Ok(TargetResource { name: "deploy.web".to_string() })));
    assert_eq!(
        operator_error(&step),
        &OperatorApiError::ConnectRequestBuildError(RequestBuildError::InvalidHeaderValue)
    );
}

#[test]
fn events_out_of_turn_are_refused() {
    let (n, _) = Negotiator::begin(config(false), false);
    let (n, step) = n.step(Event::TargetFetched(Ok(TargetResource { name: "x".to_string() })));
    assert_eq!(step.action, Action::Abort(Fault::UnexpectedEvent));
    assert_eq!(n.phase, Phase::Finished);
    let (n, _) = Negotiator::begin(config(false), true);
    let (_, step) = n.step(Event::OperatorFetched(Ok(status())));
    assert_eq!(step.action, Action::Abort(Fault::UnexpectedEvent));
}

#[test]
fn reattach_goes_straight_to_the_transport() {
    let info = OperatorSessionInformation {
        target: OperatorSessionTarget::Raw(TargetResource { name: "pod.db".to_string() }),
        metadata: OperatorSessionMetadata::with_session_id(77, None, None, vec![], None, None),
    };
    let (n, step) = Negotiator::reattach(config(false), info.clone());
    assert_eq!(n.phase, Phase::AwaitingTransport);
    assert_eq!(step.notices, vec![]);
    match &step.action {
        Action::OpenTransport(request) => {
            assert_eq!(
                request.uri,
                "/apis/g/v1/namespaces/ns/targets/pod.db?on_concurrent_steal=abort&connect=true"
            );
            assert_eq!(request.headers[0], header("x-session-id", "77"));
        }
        other => panic!("unexpected action {:?}", other),
    }
    let (_, step) = n.step(Event::TransportOpened(Ok(())));
    assert_eq!(step.action, Action::Finish(Ok(Session { info: Some(info), probed: false })));
}
