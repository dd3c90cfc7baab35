use session_bridge::handshake::ErrorStatus;
use session_bridge::operator::{
    check_config, license_notice, license_notice_for, read_protocol_version, text_contains,
    version_notices,
    Certificate, CopiedTarget, FetchFailure, KubeFailure, License, Notice, NoticeLevel,
    OperatorApiError, OperatorFeature, OperatorOperation, OperatorSessionInformation,
    OperatorSessionMetadata, OperatorSessionTarget, OperatorStatus, TargetResource,
    CLOSE_TO_EXPIRATION_DAYS, COPIED_POD_IDLE_TTL,
};
use session_bridge::request::{ResourceRoute, Routes};
use session_bridge::version::Version;

fn license(name: &str, days: Option<u64>) -> License {
    License {
        name: name.to_string(),
        fingerprint: None,
        subscription_id: None,
        days_until_expiration: days,
    }
}

fn status(copy: Option<bool>) -> OperatorStatus {
    OperatorStatus {
        operator_version: "3.80.0".to_string(),
        license: license("ACME", Some(100)),
        features: None,
        protocol_version: Some("1.5.0".to_string()),
        copy_target_enabled: copy,
    }
}

fn routes() -> Routes {
    Routes {
        namespace: "ns".to_string(),
        on_concurrent_steal: "continue".to_string(),
        raw: ResourceRoute {
            api_version: "g/v1".to_string(),
            plural: "targets".to_string(),
            resource_url: "/apis/g/v1/namespaces/ns/targets".to_string(),
        },
        copied: ResourceRoute {
            api_version: "g/v1".to_string(),
            plural: "copytargets".to_string(),
            resource_url: "/apis/g/v1/namespaces/ns/copytargets".to_string(),
        },
    }
}

fn metadata(features: Vec<OperatorFeature>) -> OperatorSessionMetadata {
    OperatorSessionMetadata::with_session_id(5, None, None, features, None, None)
}

fn warning(text: &str) -> Notice {
    Notice { level: NoticeLevel::Warning, text: text.to_string() }
}

#[test]
fn operations_are_named() {
    assert_eq!(OperatorOperation::FindingOperator.describe(), "finding operator");
    assert_eq!(OperatorOperation::FindingTarget.describe(), "finding target");
    assert_eq!(
        OperatorOperation::WebsocketConnection.describe(),
        "creating a websocket connection"
    );
    assert_eq!(OperatorOperation::CopyingTarget.describe(), "copying target");
    assert_eq!(OperatorOperation::GettingStatus.describe(), "getting status");
    assert_eq!(OperatorOperation::SessionManagement.describe(), "session management");
    assert_eq!(OperatorOperation::ListingTargets.describe(), "listing targets");
}

#[test]
fn failures_are_tagged_with_the_operation() {
    let failure = KubeFailure::Api(ErrorStatus {
        status: "Failure".to_string(),
        message: "targets \"x\" not found".to_string(),
        reason: "NotFound".to_string(),
        code: 404,
    });
    assert_eq!(
        OperatorApiError::from_failure(
            FetchFailure::Kube(failure.clone()),
            OperatorOperation::ListingTargets
        ),
        OperatorApiError::KubeError { error: failure, operation: OperatorOperation::ListingTargets }
    );
    assert_eq!(
        OperatorApiError::from_failure(
            FetchFailure::CreateApi("no kubeconfig".to_string()),
            OperatorOperation::SessionManagement
        ),
        OperatorApiError::CreateApiError("no kubeconfig".to_string())
    );
}

#[test]
fn expired_license_is_warned_of() {
    let n = license_notice(&license("ACME", None)).unwrap();
    assert_eq!(n.level, NoticeLevel::Warning);
    assert_eq!(
        n.text,
        "No valid license found for mirrord for Teams, falling back to OSS usage. Visit https://app.metalbear.co to purchase or renew your license."
    );
}

#[test]
fn trial_license_close_to_expiration() {
    assert_eq!(CLOSE_TO_EXPIRATION_DAYS, 2);
    assert_eq!(
        license_notice(&license("ACME (Trial)", Some(0))),
        Some(warning("Operator license will expire today!"))
    );
    assert_eq!(
        license_notice(&license("ACME (Trial)", Some(1))),
        Some(warning("Operator license will expire soon, in 1 day!"))
    );
    assert_eq!(
        license_notice(&license("(Trial) ACME", Some(2))),
        Some(warning("Operator license will expire soon, in 2 days!"))
    );
}

#[test]
fn trial_license_with_time_left() {
    assert_eq!(
        license_notice(&license("ACME (Trial)", Some(3))),
        Some(Notice {
            level: NoticeLevel::Info,
            text: "Operator license is valid for 3 more days.".to_string()
        })
    );
}

#[test]
fn full_license_is_silent() {
    assert_eq!(license_notice(&license("ACME", Some(0))), None);
    assert_eq!(license_notice(&license("ACME Trial", Some(1))), None);
    assert_eq!(license_notice(&license("", Some(400))), None);
    assert_eq!(license_notice_for(false, Some(1)), None);
    assert!(license_notice_for(false, None).is_some());
}

#[test]
fn copy_target_must_be_offered() {
    assert_eq!(check_config(false, &status(None)), Ok(()));
    assert_eq!(check_config(false, &status(Some(false))), Ok(()));
    assert_eq!(check_config(true, &status(Some(true))), Ok(()));
    for offered in [None, Some(false)] {
        assert_eq!(
            check_config(true, &status(offered)),
            Err(OperatorApiError::UnsupportedFeature {
                feature: "copy target".to_string(),
                operator_version: "3.80.0".to_string(),
            })
        );
    }
}

#[test]
fn newer_operator_is_warned_of_twice() {
    let local = Version::new(3, 79, 2);
    let operator = Version::new(3, 80, 0);
    assert_eq!(
        version_notices(&local, &operator),
        vec![
            warning("Your mirrord plugin/CLI version 3.79.2 does not match the operator version 3.80.0. This can lead to unforeseen issues."),
            warning("Consider updating your mirrord plugin/CLI to match the operator version."),
        ]
    );
    assert_eq!(version_notices(&operator, &local), vec![]);
    assert_eq!(version_notices(&local, &local), vec![]);
}

#[test]
fn protocol_version_is_read_leniently() {
    assert_eq!(read_protocol_version(&Some("1.4.0".to_string())), Some(Version::new(1, 4, 0)));
    assert_eq!(read_protocol_version(&Some("latest".to_string())), None);
    assert_eq!(read_protocol_version(&None), None);
}

#[test]
fn metadata_keeps_what_it_is_given() {
    let cert = Certificate { der: vec![1, 2, 3], public_key: vec![9] };
    let m = OperatorSessionMetadata::new(
        Some(cert.clone()),
        Some("fp".to_string()),
        vec![OperatorFeature::ProxyApi],
        Some(Version::new(1, 2, 3)),
        Some(true),
    );
    assert_eq!(m.client_certificate, Some(cert));
    assert_eq!(m.fingerprint, Some("fp".to_string()));
    assert_eq!(m.operator_features, vec![OperatorFeature::ProxyApi]);
    assert_eq!(m.protocol_version, Some(Version::new(1, 2, 3)));
    assert_eq!(m.copy_pod_enabled, Some(true));
}

#[test]
fn session_ids_differ() {
    let ids: Vec<u64> = (0..8)
        .map(|_| OperatorSessionMetadata::new(None, None, vec![], None, None).session_id)
        .collect();
    assert!(ids.iter().any(|id| *id != ids[0]));
}

#[test]
fn proxy_feature() {
    assert!(metadata(vec![OperatorFeature::Unknown, OperatorFeature::ProxyApi]).proxy_feature_enabled());
    assert!(!metadata(vec![OperatorFeature::Unknown]).proxy_feature_enabled());
    assert!(!metadata(vec![]).proxy_feature_enabled());
}

#[test]
fn credentials_are_the_certificate_in_text() {
    let mut m = metadata(vec![]);
    assert_eq!(m.client_credentials(), None);
    m.client_certificate = Some(Certificate { der: b"foobar".to_vec(), public_key: vec![] });
    assert_eq!(m.client_credentials(), Some("Zm9vYmFy".to_string()));
}

#[test]
fn target_names() {
    let raw = OperatorSessionTarget::Raw(TargetResource { name: "pod.web".to_string() });
    assert!(!raw.is_copied());
    assert_eq!(raw.name(), Some("pod.web"));
    let copied = OperatorSessionTarget::Copied(CopiedTarget {
        name: Some("copy-7".to_string()),
        idle_ttl: Some(COPIED_POD_IDLE_TTL),
        scale_down: false,
    });
    assert!(copied.is_copied());
    assert_eq!(copied.name(), Some("copy-7"));
    let unnamed =
        OperatorSessionTarget::Copied(CopiedTarget { name: None, idle_ttl: None, scale_down: true });
    assert_eq!(unnamed.name(), None);
}

#[test]
fn connect_url_of_each_kind() {
    let raw = OperatorSessionTarget::Raw(TargetResource { name: "pod.web".to_string() });
    let copied = OperatorSessionTarget::Copied(CopiedTarget {
        name: Some("copy-7".to_string()),
        idle_ttl: Some(30),
        scale_down: false,
    });
    let with = |target: &OperatorSessionTarget, proxy: bool| OperatorSessionInformation {
        target: target.clone(),
        metadata: metadata(if proxy { vec![OperatorFeature::ProxyApi] } else { vec![] }),
    };
    assert_eq!(
        with(&raw, true).connect_url(&routes()),
        "/apis/g/v1/proxy/namespaces/ns/targets/pod.web?on_concurrent_steal=continue&connect=true"
    );
    assert_eq!(
        with(&raw, false).connect_url(&routes()),
        "/apis/g/v1/namespaces/ns/targets/pod.web?on_concurrent_steal=continue&connect=true"
    );
    assert_eq!(
        with(&copied, true).connect_url(&routes()),
        "/apis/g/v1/proxy/namespaces/ns/copytargets/copy-7?connect=true"
    );
    assert_eq!(
        with(&copied, false).connect_url(&routes()),
        "/apis/g/v1/namespaces/ns/copytargets/copy-7?connect=true"
    );
}

#[test]
fn text_contains_agrees_with_std() {
    let texts = ["", "a", "(Trial)", "ACME (Trial)", "(Trial", "Trial)", "x(Trial)y", "(Tri(Trial)", "ééé"];
    let patterns = ["", "a", "(Trial)", "é", "(T", "l)", "xyz"];
    for text in texts {
        for pattern in patterns {
            assert_eq!(text_contains(text, pattern), text.contains(pattern), "{:?} in {:?}", pattern, text);
        }
    }
}

#[test]
fn telemetry_is_told_of_key_and_fingerprint() {
    let mut m = metadata(vec![]);
    assert_eq!(m.operator_properties(), (None, None));
    m.client_certificate = Some(Certificate { der: vec![1], public_key: vec![7, 8] });
    m.fingerprint = Some("fp".to_string());
    assert_eq!(m.operator_properties(), (Some(&vec![7u8, 8]), Some(&"fp".to_string())));
}
