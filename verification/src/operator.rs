//! What a session with the operator is made of: the operator's status as the
//! negotiation reads it, the descriptor of a session, the errors of the
//! negotiation, and the single decisions taken on the way.

use crate::handshake::{ErrorStatus, UpgradeError};
use crate::request::{
    encode_base64, base64_of, render_url, select_shape, shape_for, url_spec, RequestBuildError,
    Routes,
};
use crate::text::{decimal, push_decimal};
use crate::version::{parsed_version, version_le, version_text, Version, VersionView};
use vstd::prelude::*;
use vstd::string::StringExecFns;

verus! {

/// The operations that are performed on the operator.
#[derive(Clone, Copy, Debug, PartialEq, Eq, Structural)]
pub enum OperatorOperation {
    FindingOperator,
    FindingTarget,
    WebsocketConnection,
    CopyingTarget,
    GettingStatus,
    SessionManagement,
    ListingTargets,
}

/// The words by which an operation is named to the user.
pub open spec fn operation_text(op: OperatorOperation) -> Seq<char> {
    match op {
        OperatorOperation::FindingOperator => "finding operator"@,
        OperatorOperation::FindingTarget => "finding target"@,
        OperatorOperation::WebsocketConnection => "creating a websocket connection"@,
        OperatorOperation::CopyingTarget => "copying target"@,
        OperatorOperation::GettingStatus => "getting status"@,
        OperatorOperation::SessionManagement => "session management"@,
        OperatorOperation::ListingTargets => "listing targets"@,
    }
}

impl OperatorOperation {
    /// The words by which this operation is named to the user.
    pub fn describe(&self) -> (s: String)
        ensures
            s@ == operation_text(*self),
    {
        match self {
            OperatorOperation::FindingOperator => String::from_str("finding operator"),
            OperatorOperation::FindingTarget => String::from_str("finding target"),
            OperatorOperation::WebsocketConnection => String::from_str(
                "creating a websocket connection",
            ),
            OperatorOperation::CopyingTarget => String::from_str("copying target"),
            OperatorOperation::GettingStatus => String::from_str("getting status"),
            OperatorOperation::SessionManagement => String::from_str("session management"),
            OperatorOperation::ListingTargets => String::from_str("listing targets"),
        }
    }
}

/// How a call to the cluster failed.
#[derive(Debug, Clone, PartialEq, Eq)]
pub enum KubeFailure {
    /// The cluster answered with a status object.
    Api(ErrorStatus),
    /// The upgrade of the connection was not granted.
    Upgrade(UpgradeError),
    /// Any other failure, by its message.
    Other(String),
}

/// How an attempt to reach the cluster failed: before any call, for want of a
/// client, or in the call.
#[derive(Debug, Clone, PartialEq, Eq)]
pub enum FetchFailure {
    /// No client for the cluster could be made.
    CreateApi(String),
    /// The call itself failed.
    Kube(KubeFailure),
}

/// The errors of a negotiation with the operator.
#[derive(Debug, Clone, PartialEq, Eq)]
pub enum OperatorApiError {
    /// The request for the transport could not be built.
    ConnectRequestBuildError(RequestBuildError),
    /// No client for the cluster could be made.
    CreateApiError(String),
    /// A call to the cluster failed during the named operation.
    KubeError { error: KubeFailure, operation: OperatorOperation },
    /// The operator does not offer a feature that the configuration asks for.
    UnsupportedFeature { feature: String, operator_version: String },
    /// The named operation was answered with a failure status.
    StatusFailure { operation: OperatorOperation, status: ErrorStatus },
    /// The operator's license has expired.
    NoLicense,
}

impl OperatorApiError {
    /// The error that stands for a failed attempt at `operation`.
    pub fn from_failure(failure: FetchFailure, operation: OperatorOperation) -> (e: OperatorApiError)
        ensures
            e == match failure {
                FetchFailure::CreateApi(message) => OperatorApiError::CreateApiError(message),
                FetchFailure::Kube(error) => OperatorApiError::KubeError { error, operation },
            },
    {
        match failure {
            FetchFailure::CreateApi(message) => OperatorApiError::CreateApiError(message),
            FetchFailure::Kube(error) => OperatorApiError::KubeError { error, operation },
        }
    }
}

/// A capability that an operator may advertise.
#[derive(Clone, Copy, Debug, PartialEq, Eq, Structural)]
pub enum OperatorFeature {
    /// Sessions are reached through the operator's proxy route.
    ProxyApi,
    /// A capability that this client does not know.
    Unknown,
}

/// The license under which an operator runs.
#[derive(Debug, Clone, PartialEq, Eq)]
pub struct License {
    pub name: String,
    pub fingerprint: Option<String>,
    pub subscription_id: Option<String>,
    /// Whole days until the license expires; `None` once it has expired.
    pub days_until_expiration: Option<u64>,
}

/// The status that an operator reports of itself.
#[derive(Debug, Clone, PartialEq, Eq)]
pub struct OperatorStatus {
    pub operator_version: String,
    pub license: License,
    pub features: Option<Vec<OperatorFeature>>,
    pub protocol_version: Option<String>,
    pub copy_target_enabled: Option<bool>,
}

/// A client certificate, by its encoded form and its public key.
#[derive(Debug, Clone, PartialEq, Eq)]
pub struct Certificate {
    pub der: Vec<u8>,
    pub public_key: Vec<u8>,
}

/// What is fixed about a session when it is negotiated.
#[derive(Debug, Clone, PartialEq, Eq)]
pub struct OperatorSessionMetadata {
    pub client_certificate: Option<Certificate>,
    pub session_id: u64,
    pub fingerprint: Option<String>,
    pub operator_features: Vec<OperatorFeature>,
    pub protocol_version: Option<Version>,
    pub copy_pod_enabled: Option<bool>,
}

/// A target as the operator knows it.
#[derive(Debug, Clone, PartialEq, Eq)]
pub struct TargetResource {
    pub name: String,
}

/// A copy of a target, made for one session.
#[derive(Debug, Clone, PartialEq, Eq)]
pub struct CopiedTarget {
    /// The name that the cluster gave to the copy.
    pub name: Option<String>,
    /// Seconds for which the copy is kept while nothing connects to it.
    pub idle_ttl: Option<u32>,
    /// Whether the target was scaled down when the copy was made.
    pub scale_down: bool,
}

/// What the agent of a session attaches to.
#[derive(Debug, Clone, PartialEq, Eq)]
pub enum OperatorSessionTarget {
    Raw(TargetResource),
    Copied(CopiedTarget),
}

/// All that is needed to attach to a session again.
#[derive(Debug, Clone, PartialEq, Eq)]
pub struct OperatorSessionInformation {
    pub target: OperatorSessionTarget,
    pub metadata: OperatorSessionMetadata,
}

/// Seconds for which a copied target lives before something connects to it.
pub const COPIED_POD_IDLE_TTL: u32 = 30;

/// Days before its expiration from which a trial license counts as expiring
/// soon.
pub const CLOSE_TO_EXPIRATION_DAYS: u64 = 2;

/// How serious a notice to the user is.
#[derive(Clone, Copy, Debug, PartialEq, Eq, Structural)]
pub enum NoticeLevel {
    Info,
    Warning,
}

/// A message for the user that does not stop the negotiation.
#[derive(Debug, Clone, PartialEq, Eq)]
pub struct Notice {
    pub level: NoticeLevel,
    pub text: String,
}

impl View for Notice {
    type V = (NoticeLevel, Seq<char>);

    open spec fn view(&self) -> (NoticeLevel, Seq<char>) {
        (self.level, self.text@)
    }
}

/// Notices as mathematical values, in order.
pub open spec fn notice_views(notices: Seq<Notice>) -> Seq<(NoticeLevel, Seq<char>)> {
    notices.map_values(|n: Notice| n@)
}

/// Whether `pattern` occurs in `text`.
pub open spec fn occurs_in(text: Seq<char>, pattern: Seq<char>) -> bool {
    exists|i: int|
        0 <= i && i + pattern.len() <= text.len() && #[trigger] text.subrange(
            i,
            i + pattern.len(),
        ) == pattern
}

/// Whether `pattern` stands in `text` at position `at`.
fn occurs_at(text: &str, pattern: &str, at: usize) -> (r: bool)
    requires
        at + pattern@.len() <= text@.len(),
    ensures
        r == (text@.subrange(at as int, at + pattern@.len()) == pattern@),
{
    let m = pattern.unicode_len();
    let n = text.unicode_len();
    let ghost window = text@.subrange(at as int, at + m);
    let mut j: usize = 0;
    while j < m
        invariant
            m == pattern@.len(),
            n == text@.len(),
            at + m <= text@.len(),
            j <= m,
            window == text@.subrange(at as int, at + m),
            forall|k: int| 0 <= k < j ==> window[k] == pattern@[k],
        decreases m - j,
    {
        if text.get_char(at + j) != pattern.get_char(j) {
            assert(window[j as int] != pattern@[j as int]);
            return false;
        }
        j = j + 1;
    }
    assert(window =~= pattern@);
    true
}

/// Whether `pattern` occurs somewhere in `text` as a run of consecutive
/// characters.
pub fn text_contains(text: &str, pattern: &str) -> (r: bool)
    ensures
        r == occurs_in(text@, pattern@),
{
    let n = text.unicode_len();
    let m = pattern.unicode_len();
    if m > n {
        return false;
    }
    let mut i: usize = 0;
    loop
        invariant
            n == text@.len(),
            m == pattern@.len(),
            m <= n,
            i <= n - m,
            forall|k: int| 0 <= k < i ==> #[trigger] text@.subrange(k, k + m) != pattern@,
        decreases n - m - i,
    {
        if occurs_at(text, pattern, i) {
            return true;
        }
        if i == n - m {
            return false;
        }
        i = i + 1;
    }
}

/// Whether a license is a trial license: its name says so.
pub open spec fn is_trial(name: Seq<char>) -> bool {
    occurs_in(name, "(Trial)"@)
}

/// What the user is told when the license has run out.
pub open spec fn no_license_text() -> Seq<char> {
    "No valid license found for mirrord for Teams, falling back to OSS usage. Visit https://app.metalbear.co to purchase or renew your license."@
}

/// What the user is told of a trial license that expires soon.
pub open spec fn expiring_text(days: u64) -> Seq<char> {
    "Operator license will expire "@ + (if days > 0 {
        "soon, in "@ + decimal(days as nat) + " day"@ + (if days > 1 {
            "s"@
        } else {
            Seq::<char>::empty()
        })
    } else {
        "today"@
    }) + "!"@
}

/// What the user is told of a trial license that is good for a while.
pub open spec fn valid_text(days: u64) -> Seq<char> {
    "Operator license is valid for "@ + decimal(days as nat) + " more days."@
}

/// The notice that a license calls for: a warning once it has expired; for a
/// trial license a warning while it is close to its expiration and a word on
/// its validity otherwise; nothing for any other license.
pub open spec fn license_notice_spec(trial: bool, days: Option<u64>) -> Option<
    (NoticeLevel, Seq<char>),
> {
    match days {
        None => Some((NoticeLevel::Warning, no_license_text())),
        Some(d) => if trial && d <= CLOSE_TO_EXPIRATION_DAYS {
            Some((NoticeLevel::Warning, expiring_text(d)))
        } else if trial {
            Some((NoticeLevel::Info, valid_text(d)))
        } else {
            None
        },
    }
}

/// The view of an optional notice.
pub open spec fn notice_view(n: Option<Notice>) -> Option<(NoticeLevel, Seq<char>)> {
    match n {
        Some(n) => Some(n@),
        None => None,
    }
}

/// The notice that a license of the given kind and remaining time calls for.
pub fn license_notice_for(trial: bool, days: Option<u64>) -> (n: Option<Notice>)
    ensures
        notice_view(n) == license_notice_spec(trial, days),
{
    match days {
        None => Some(
            Notice {
                level: NoticeLevel::Warning,
                text: String::from_str(
                    "No valid license found for mirrord for Teams, falling back to OSS usage. Visit https://app.metalbear.co to purchase or renew your license.",
                ),
            },
        ),
        Some(d) => {
            if trial && d <= CLOSE_TO_EXPIRATION_DAYS {
                let mut text = String::from_str("Operator license will expire ");
                if d > 0 {
                    text.append("soon, in ");
                    push_decimal(&mut text, d);
                    text.append(" day");
                    if d > 1 {
                        text.append("s");
                    }
                } else {
                    text.append("today");
                }
                text.append("!");
                assert(text@ =~= expiring_text(d));
                Some(Notice { level: NoticeLevel::Warning, text })
            } else if trial {
                let mut text = String::from_str("Operator license is valid for ");
                push_decimal(&mut text, d);
                text.append(" more days.");
                assert(text@ =~= valid_text(d));
                Some(Notice { level: NoticeLevel::Info, text })
            } else {
                None
            }
        },
    }
}

/// The notice that a license calls for.
pub fn license_notice(license: &License) -> (n: Option<Notice>)
    ensures
        notice_view(n) == license_notice_spec(
            is_trial(license.name@),
            license.days_until_expiration,
        ),
{
    let trial = text_contains(license.name.as_str(), "(Trial)");
    license_notice_for(trial, license.days_until_expiration)
}

/// Whether the operator lacks a feature that the configuration asks for. The
/// one feature that is checked is the copying of targets.
pub open spec fn lacks_copy_target(copy_requested: bool, operator_offers: Option<bool>) -> bool {
    copy_requested && !(operator_offers == Some(true))
}

/// Holds the configuration against what the operator offers.
pub fn check_config(copy_requested: bool, operator: &OperatorStatus) -> (r: Result<
    (),
    OperatorApiError,
>)
    ensures
        match r {
            Ok(_) => !lacks_copy_target(copy_requested, operator.copy_target_enabled),
            Err(OperatorApiError::UnsupportedFeature { feature, operator_version }) => {
                &&& lacks_copy_target(copy_requested, operator.copy_target_enabled)
                &&& feature@ == "copy target"@
                &&& operator_version@ == operator.operator_version@
            },
            Err(_) => false,
        },
{
    let offered = match operator.copy_target_enabled {
        Some(b) => b,
        None => false,
    };
    if copy_requested && !offered {
        return Err(
            OperatorApiError::UnsupportedFeature {
                feature: String::from_str("copy target"),
                operator_version: operator.operator_version.clone(),
            },
        );
    }
    Ok(())
}

/// What the user is told when the operator is newer than this client.
pub open spec fn mismatch_text(local: Seq<char>, operator: Seq<char>) -> Seq<char> {
    "Your mirrord plugin/CLI version "@ + local + " does not match the operator version "@
        + operator + ". This can lead to unforeseen issues."@
}

/// The advice that follows the warning of a newer operator.
pub open spec fn update_text() -> Seq<char> {
    "Consider updating your mirrord plugin/CLI to match the operator version."@
}

/// The notices on the versions of client and operator: two warnings where the
/// operator is strictly newer, none otherwise.
pub open spec fn version_notices_spec(local: VersionView, operator: VersionView) -> Seq<
    (NoticeLevel, Seq<char>),
> {
    if !version_le(operator, local) {
        seq![
            (NoticeLevel::Warning, mismatch_text(version_text(local), version_text(operator))),
            (NoticeLevel::Warning, update_text()),
        ]
    } else {
        Seq::<(NoticeLevel, Seq<char>)>::empty()
    }
}

/// Compares the versions of client and operator and words the warnings that
/// the user is owed.
pub fn version_notices(local: &Version, operator: &Version) -> (notices: Vec<Notice>)
    ensures
        notice_views(notices@) == version_notices_spec(local@, operator@),
{
    let mut notices: Vec<Notice> = Vec::new();
    if !operator.le(local) {
        let mut text = String::from_str("Your mirrord plugin/CLI version ");
        let local_text = local.to_text();
        text.append(local_text.as_str());
        text.append(" does not match the operator version ");
        let operator_text = operator.to_text();
        text.append(operator_text.as_str());
        text.append(". This can lead to unforeseen issues.");
        assert(text@ =~= mismatch_text(version_text(local@), version_text(operator@)));
        notices.push(Notice { level: NoticeLevel::Warning, text });
        notices.push(
            Notice {
                level: NoticeLevel::Warning,
                text: String::from_str(
                    "Consider updating your mirrord plugin/CLI to match the operator version.",
                ),
            },
        );
        assert(notice_views(notices@) =~= version_notices_spec(local@, operator@));
    } else {
        assert(notice_views(notices@) =~= version_notices_spec(local@, operator@));
    }
    notices
}

/// Draws a number from `rand`'s thread-local generator.
#[verifier::external_body]
fn random_session_id() -> (id: u64)
{
    rand::random::<u64>()
}

/// The protocol version that an operator's status announces: the version
/// that its text reads as, and none where there is no text or it does not
/// read as a version.
pub open spec fn announced_version(text: Option<String>) -> Option<
    (u64, u64, u64, Seq<char>, Seq<char>),
> {
    match text {
        Some(t) => parsed_version(t@),
        None => None,
    }
}

/// The parts of an optional version.
pub open spec fn version_parts(v: Option<Version>) -> Option<(u64, u64, u64, Seq<char>, Seq<char>)> {
    match v {
        Some(v) => Some((v.major, v.minor, v.patch, v.pre@, v.build@)),
        None => None,
    }
}

/// Reads the protocol version that an operator announces.
pub fn read_protocol_version(text: &Option<String>) -> (v: Option<Version>)
    ensures
        version_parts(v) == announced_version(*text),
{
    match text {
        Some(t) => Version::parse(t.as_str()),
        None => None,
    }
}

impl OperatorSessionMetadata {
    /// The metadata of a session with the given number.
    pub fn with_session_id(
        session_id: u64,
        client_certificate: Option<Certificate>,
        fingerprint: Option<String>,
        operator_features: Vec<OperatorFeature>,
        protocol_version: Option<Version>,
        copy_pod_enabled: Option<bool>,
    ) -> (m: OperatorSessionMetadata)
        ensures
            m == (OperatorSessionMetadata {
                client_certificate,
                session_id,
                fingerprint,
                operator_features,
                protocol_version,
                copy_pod_enabled,
            }),
    {
        OperatorSessionMetadata {
            client_certificate,
            session_id,
            fingerprint,
            operator_features,
            protocol_version,
            copy_pod_enabled,
        }
    }

    /// The metadata of a new session. Its number is drawn at random, so that
    /// the operator can tell concurrent sessions apart.
    pub fn new(
        client_certificate: Option<Certificate>,
        fingerprint: Option<String>,
        operator_features: Vec<OperatorFeature>,
        protocol_version: Option<Version>,
        copy_pod_enabled: Option<bool>,
    ) -> (m: OperatorSessionMetadata)
        ensures
            m == (OperatorSessionMetadata {
                client_certificate,
                session_id: m.session_id,
                fingerprint,
                operator_features,
                protocol_version,
                copy_pod_enabled,
            }),
    {
        let session_id = random_session_id();
        OperatorSessionMetadata::with_session_id(
            session_id,
            client_certificate,
            fingerprint,
            operator_features,
            protocol_version,
            copy_pod_enabled,
        )
    }

    /// What telemetry is told of the session: the public key of the client's
    /// certificate and the fingerprint of the license, as far as there are
    /// any. Both are handed on to be hashed.
    pub fn operator_properties(&self) -> (r: (Option<&Vec<u8>>, Option<&String>))
        ensures
            r.0 == match self.client_certificate {
                Some(c) => Some(&c.public_key),
                None => None,
            },
            r.1 == match self.fingerprint {
                Some(f) => Some(&f),
                None => None,
            },
    {
        let key = match &self.client_certificate {
            Some(c) => Some(&c.public_key),
            None => None,
        };
        let fingerprint = match &self.fingerprint {
            Some(f) => Some(f),
            None => None,
        };
        (key, fingerprint)
    }

    /// Whether the operator advertises its proxy route.
    pub open spec fn spec_proxy_feature_enabled(&self) -> bool {
        self.operator_features@.contains(OperatorFeature::ProxyApi)
    }

    /// Whether the operator advertises its proxy route.
    #[verifier::when_used_as_spec(spec_proxy_feature_enabled)]
    pub fn proxy_feature_enabled(&self) -> (r: bool)
        ensures
            r == self.spec_proxy_feature_enabled(),
    {
        let mut i: usize = 0;
        while i < self.operator_features.len()
            invariant
                i <= self.operator_features@.len(),
                forall|k: int|
                    0 <= k < i ==> self.operator_features@[k] != OperatorFeature::ProxyApi,
            decreases self.operator_features@.len() - i,
        {
            if self.operator_features[i] == OperatorFeature::ProxyApi {
                return true;
            }
            i = i + 1;
        }
        false
    }

    /// The credentials that the client shows: its certificate in text form.
    pub open spec fn credentials_spec(&self) -> Option<Seq<char>> {
        match self.client_certificate {
            Some(c) if c.der@.len() <= usize::MAX / 4 => Some(base64_of(c.der@)),
            _ => None,
        }
    }

    /// The credentials that the client shows, if it has a certificate. A
    /// certificate too long to be put in text form counts as none.
    pub fn client_credentials(&self) -> (r: Option<String>)
        ensures
            match r {
                Some(s) => self.credentials_spec() == Some(s@),
                None => self.credentials_spec() is None,
            },
    {
        match &self.client_certificate {
            Some(c) => encode_base64(c.der.as_slice()),
            None => None,
        }
    }
}

impl OperatorSessionTarget {
    /// Whether the target is a copy.
    pub open spec fn spec_is_copied(&self) -> bool {
        self is Copied
    }

    /// Whether the target is a copy.
    #[verifier::when_used_as_spec(spec_is_copied)]
    pub fn is_copied(&self) -> (r: bool)
        ensures
            r == self.spec_is_copied(),
    {
        match self {
            OperatorSessionTarget::Raw(_) => false,
            OperatorSessionTarget::Copied(_) => true,
        }
    }

    /// The name under which the target is addressed, if it has one.
    pub open spec fn name_spec(&self) -> Option<Seq<char>> {
        match self {
            OperatorSessionTarget::Raw(t) => Some(t.name@),
            OperatorSessionTarget::Copied(c) => match c.name {
                Some(n) => Some(n@),
                None => None,
            },
        }
    }

    /// The name under which the target is addressed, if it has one. An
    /// uncopied target always has; a copy has once the cluster has named it.
    pub fn name(&self) -> (r: Option<&str>)
        ensures
            match r {
                Some(n) => self.name_spec() == Some(n@),
                None => self.name_spec() is None,
            },
    {
        match self {
            OperatorSessionTarget::Raw(t) => Some(t.name.as_str()),
            OperatorSessionTarget::Copied(c) => match &c.name {
                Some(n) => Some(n.as_str()),
                None => None,
            },
        }
    }
}

impl OperatorSessionInformation {
    /// The address at which the session is connected to.
    pub open spec fn url_spec(&self, routes: Routes) -> Seq<char> {
        url_spec(
            shape_for(self.metadata.spec_proxy_feature_enabled(), self.target.spec_is_copied()),
            routes,
            self.target.name_spec().unwrap(),
        )
    }

    /// The address at which the session is connected to: one of four, by the
    /// operator's proxy capability and the kind of target.
    pub fn connect_url(&self, routes: &Routes) -> (url: String)
        requires
            self.target.name_spec() is Some,
        ensures
            url@ == self.url_spec(*routes),
    {
        let shape = select_shape(self.metadata.proxy_feature_enabled(), self.target.is_copied());
        match self.target.name() {
            Some(name) => render_url(shape, routes, name),
            None => String::new(),
        }
    }
}

} // verus!
