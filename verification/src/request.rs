//! The transport upgrade request: where it is sent, the headers that identify
//! the session and its user, and the headers that ask for the upgrade.

use crate::text::{decimal, push_decimal, sanitize_header_text, sanitized};
use vstd::prelude::*;
use vstd::string::StringExecFns;

verus! {

/// One header line of a request.
#[derive(Debug, Clone, PartialEq, Eq)]
pub struct RequestHeader {
    pub name: String,
    pub value: String,
}

impl View for RequestHeader {
    type V = (Seq<char>, Seq<char>);

    open spec fn view(&self) -> (Seq<char>, Seq<char>) {
        (self.name@, self.value@)
    }
}

/// The header lines of a request as mathematical values, in order.
pub open spec fn header_views(headers: Seq<RequestHeader>) -> Seq<(Seq<char>, Seq<char>)> {
    headers.map_values(|h: RequestHeader| h@)
}

/// A request for the transport: the path and query to ask for, and the header
/// lines to send with it. The request has no body.
#[derive(Debug, Clone, PartialEq, Eq)]
pub struct ConnectRequest {
    pub uri: String,
    pub headers: Vec<RequestHeader>,
}

/// Why a request could not be built.
#[derive(Clone, Copy, Debug, PartialEq, Eq, Structural)]
pub enum RequestBuildError {
    /// The address is not one that `http` accepts.
    InvalidUri,
    /// A header value holds an octet that may not occur in one.
    InvalidHeaderValue,
}

/// Which of the four addresses a session connects to.
#[derive(Clone, Copy, Debug, PartialEq, Eq, Structural)]
pub enum UrlShape {
    /// An uncopied target, reached through the operator's proxy route.
    ProxiedRaw,
    /// An uncopied target, reached at its own resource address.
    DirectRaw,
    /// A copied target, reached through the operator's proxy route.
    ProxiedCopied,
    /// A copied target, reached at its own resource address.
    DirectCopied,
}

/// The table that selects the address: the proxy capability of the operator
/// against the kind of target.
pub open spec fn shape_for(proxy_feature: bool, copied: bool) -> UrlShape {
    if proxy_feature {
        if copied {
            UrlShape::ProxiedCopied
        } else {
            UrlShape::ProxiedRaw
        }
    } else {
        if copied {
            UrlShape::DirectCopied
        } else {
            UrlShape::DirectRaw
        }
    }
}

/// Selects the address of a session from the operator's proxy capability and
/// the kind of target.
pub fn select_shape(proxy_feature: bool, copied: bool) -> (shape: UrlShape)
    ensures
        shape == shape_for(proxy_feature, copied),
{
    if proxy_feature {
        if copied {
            UrlShape::ProxiedCopied
        } else {
            UrlShape::ProxiedRaw
        }
    } else {
        if copied {
            UrlShape::DirectCopied
        } else {
            UrlShape::DirectRaw
        }
    }
}

/// How one kind of resource is addressed on the cluster.
#[derive(Debug, Clone, PartialEq, Eq)]
pub struct ResourceRoute {
    /// Group and version of the resource, as in `group/v1`.
    pub api_version: String,
    /// The plural name of the resource.
    pub plural: String,
    /// The address of the resource collection in the target's namespace.
    pub resource_url: String,
}

/// All that the address of a session is made of besides the target's name.
#[derive(Debug, Clone, PartialEq, Eq)]
pub struct Routes {
    /// The namespace of the target.
    pub namespace: String,
    /// What the operator is to do when the target's traffic is already taken.
    pub on_concurrent_steal: String,
    /// The route of uncopied targets.
    pub raw: ResourceRoute,
    /// The route of copied targets.
    pub copied: ResourceRoute,
}

/// The address behind the operator's proxy route, up to and including the
/// target's name.
pub open spec fn proxied_path(
    api_version: Seq<char>,
    namespace: Seq<char>,
    plural: Seq<char>,
    name: Seq<char>,
) -> Seq<char> {
    "/apis/"@ + api_version + "/proxy/namespaces/"@ + namespace + "/"@ + plural + "/"@ + name
}

/// The address at the resource itself, up to and including the target's name.
pub open spec fn direct_path(resource_url: Seq<char>, name: Seq<char>) -> Seq<char> {
    resource_url + "/"@ + name
}

/// The query of an uncopied target: the policy on concurrent use, and the
/// request to connect.
pub open spec fn raw_query(on_concurrent_steal: Seq<char>) -> Seq<char> {
    "?on_concurrent_steal="@ + on_concurrent_steal + "&connect=true"@
}

/// The address of a session, for each of the four shapes.
pub open spec fn url_spec(shape: UrlShape, routes: Routes, name: Seq<char>) -> Seq<char> {
    match shape {
        UrlShape::ProxiedRaw => proxied_path(
            routes.raw.api_version@,
            routes.namespace@,
            routes.raw.plural@,
            name,
        ) + raw_query(routes.on_concurrent_steal@),
        UrlShape::DirectRaw => direct_path(routes.raw.resource_url@, name) + raw_query(
            routes.on_concurrent_steal@,
        ),
        UrlShape::ProxiedCopied => proxied_path(
            routes.copied.api_version@,
            routes.namespace@,
            routes.copied.plural@,
            name,
        ) + "?connect=true"@,
        UrlShape::DirectCopied => direct_path(routes.copied.resource_url@, name)
            + "?connect=true"@,
    }
}

fn push_proxied_path(out: &mut String, api_version: &str, namespace: &str, plural: &str, name: &str)
    ensures
        final(out)@ == old(out)@ + proxied_path(api_version@, namespace@, plural@, name@),
{
    out.append("/apis/");
    out.append(api_version);
    out.append("/proxy/namespaces/");
    out.append(namespace);
    out.append("/");
    out.append(plural);
    out.append("/");
    out.append(name);
    assert(out@ =~= old(out)@ + proxied_path(api_version@, namespace@, plural@, name@));
}

fn push_direct_path(out: &mut String, resource_url: &str, name: &str)
    ensures
        final(out)@ == old(out)@ + direct_path(resource_url@, name@),
{
    out.append(resource_url);
    out.append("/");
    out.append(name);
    assert(out@ =~= old(out)@ + direct_path(resource_url@, name@));
}

fn push_raw_query(out: &mut String, on_concurrent_steal: &str)
    ensures
        final(out)@ == old(out)@ + raw_query(on_concurrent_steal@),
{
    out.append("?on_concurrent_steal=");
    out.append(on_concurrent_steal);
    out.append("&connect=true");
    assert(out@ =~= old(out)@ + raw_query(on_concurrent_steal@));
}

/// Writes out the address of a session of the given shape.
pub fn render_url(shape: UrlShape, routes: &Routes, name: &str) -> (url: String)
    ensures
        url@ == url_spec(shape, *routes, name@),
{
    let mut url = String::new();
    match shape {
        UrlShape::ProxiedRaw => {
            push_proxied_path(
                &mut url,
                routes.raw.api_version.as_str(),
                routes.namespace.as_str(),
                routes.raw.plural.as_str(),
                name,
            );
            push_raw_query(&mut url, routes.on_concurrent_steal.as_str());
        },
        UrlShape::DirectRaw => {
            push_direct_path(&mut url, routes.raw.resource_url.as_str(), name);
            push_raw_query(&mut url, routes.on_concurrent_steal.as_str());
        },
        UrlShape::ProxiedCopied => {
            push_proxied_path(
                &mut url,
                routes.copied.api_version.as_str(),
                routes.namespace.as_str(),
                routes.copied.plural.as_str(),
                name,
            );
            url.append("?connect=true");
        },
        UrlShape::DirectCopied => {
            push_direct_path(&mut url, routes.copied.resource_url.as_str(), name);
            url.append("?connect=true");
        },
    }
    assert(url@ =~= url_spec(shape, *routes, name@));
    url
}

/// The namespace in which the target is looked up: the target's own where a
/// target is named, and the agent's where the session has no target.
pub fn target_namespace(
    has_target_path: bool,
    of_target: Option<String>,
    of_agent: Option<String>,
) -> (r: Option<String>)
    ensures
        r == if has_target_path {
            of_target
        } else {
            of_agent
        },
{
    if has_target_path {
        of_target
    } else {
        of_agent
    }
}

/// The namespace that addresses are written with: the one configured, and
/// the client's default where none is.
pub fn effective_namespace<'a>(configured: &'a Option<String>, default_namespace: &'a str) -> (r:
    &'a str)
    ensures
        r@ == match *configured {
            Some(n) => n@,
            None => default_namespace@,
        },
{
    match configured {
        Some(n) => n.as_str(),
        None => default_namespace,
    }
}

/// Whether a character may stand in a header value: any but the ASCII control
/// characters, of which only the horizontal tab is admitted.
pub open spec fn header_char_ok(c: char) -> bool {
    ((c as u32) >= 32 && (c as u32) != 127) || (c as u32) == 9
}

/// Whether a text is accepted as a header value.
pub open spec fn header_value_ok(value: Seq<char>) -> bool {
    forall|i: int| 0 <= i < value.len() ==> header_char_ok(#[trigger] value[i])
}

/// Whether `http` accepts a text as the address of a request.
pub uninterp spec fn uri_accepted(uri: Seq<char>) -> bool;

/// The text that `base64` makes of some octets with its standard alphabet and
/// padding.
pub uninterp spec fn base64_of(input: Seq<u8>) -> Seq<char>;

/// Calls `http::HeaderValue::from_str`, which accepts a text unless one of its
/// octets is an ASCII control character other than the horizontal tab; the
/// octets of a character beyond ASCII are all accepted.
#[verifier::external_body]
fn http_accepts_value(value: &str) -> (r: bool)
    ensures
        r == header_value_ok(value@),
{
    http::HeaderValue::from_str(value).is_ok()
}

/// Asks `http` to read a text as a `Uri`, as building a request with it would.
#[verifier::external_body]
fn http_accepts_uri(uri: &str) -> (r: bool)
    ensures
        r == uri_accepted(uri@),
{
    uri.parse::<http::Uri>().is_ok()
}

/// Calls `encode` of `base64`'s standard engine. The engine fails on inputs
/// whose text is too long to be counted or allocated, which the bound leaves
/// out.
#[verifier::external_body]
fn base64_standard(input: &[u8]) -> (r: String)
    requires
        input@.len() <= usize::MAX / 4,
    ensures
        r@ == base64_of(input@),
{
    base64::Engine::encode(&base64::engine::general_purpose::STANDARD, input)
}

/// Draws sixteen octets from `rand`'s thread-local generator.
#[verifier::external_body]
fn random_nonce() -> (r: Vec<u8>)
    ensures
        r@.len() == 16,
{
    rand::random::<[u8; 16]>().to_vec()
}

/// The text form of some octets, as it is sent in a header.
pub fn encode_base64(input: &[u8]) -> (r: Option<String>)
    ensures
        match r {
            Some(s) => input@.len() <= usize::MAX / 4 && s@ == base64_of(input@),
            None => input@.len() > usize::MAX / 4,
        },
{
    if input.len() <= usize::MAX / 4 {
        Some(base64_standard(input))
    } else {
        None
    }
}

/// The security key that stands for a nonce.
pub fn websocket_key_from(nonce: &[u8]) -> (key: String)
    requires
        nonce@.len() == 16,
    ensures
        key@ == base64_of(nonce@),
{
    base64_standard(nonce)
}

/// A fresh security key: sixteen random octets in their text form.
pub fn sec_websocket_key() -> (key: String)
    ensures
        exists|nonce: Seq<u8>| nonce.len() == 16 && key@ == base64_of(nonce),
{
    let nonce = random_nonce();
    websocket_key_from(nonce.as_slice())
}

/// The code of a character with an upper-case ASCII letter turned into its
/// lower-case form.
pub open spec fn lower_code(c: char) -> u32 {
    if 65 <= (c as u32) && (c as u32) <= 90 {
        ((c as u32) + 32) as u32
    } else {
        c as u32
    }
}

/// Whether two header names are the same name: equal without regard to ASCII
/// case.
pub open spec fn same_name(a: Seq<char>, b: Seq<char>) -> bool {
    a.len() == b.len() && forall|i: int|
        0 <= i < a.len() ==> lower_code(#[trigger] a[i]) == lower_code(b[i])
}

/// The header lines without those called `name`.
pub open spec fn without_name(headers: Seq<(Seq<char>, Seq<char>)>, name: Seq<char>) -> Seq<
    (Seq<char>, Seq<char>),
> {
    headers.filter(|h: (Seq<char>, Seq<char>)| !same_name(h.0, name))
}

/// The header lines after `name` has been set to `value`: earlier lines of
/// that name are gone and the new line stands last.
pub open spec fn with_header(
    headers: Seq<(Seq<char>, Seq<char>)>,
    name: Seq<char>,
    value: Seq<char>,
) -> Seq<(Seq<char>, Seq<char>)> {
    without_name(headers, name).push((name, value))
}

/// The header lines of a request after the upgrade has been asked for with
/// the security key `key`.
pub open spec fn upgrade_headers(headers: Seq<(Seq<char>, Seq<char>)>, key: Seq<char>) -> Seq<
    (Seq<char>, Seq<char>),
> {
    with_header(
        with_header(
            with_header(
                with_header(
                    with_header(headers, "connection"@, "Upgrade"@),
                    "upgrade"@,
                    "websocket"@,
                ),
                "sec-websocket-version"@,
                "13"@,
            ),
            "sec-websocket-key"@,
            key,
        ),
        "sec-websocket-protocol"@,
        "v4.channel.k8s.io"@,
    )
}

fn code_lower(c: char) -> (r: u32)
    ensures
        r == lower_code(c),
{
    let code: u32 = c as u32;
    if 65 <= code && code <= 90 {
        code + 32
    } else {
        code
    }
}

fn names_match(a: &str, b: &str) -> (r: bool)
    ensures
        r == same_name(a@, b@),
{
    let n = a.unicode_len();
    if n != b.unicode_len() {
        return false;
    }
    let mut i: usize = 0;
    while i < n
        invariant
            n == a@.len(),
            n == b@.len(),
            i <= n,
            forall|k: int| 0 <= k < i ==> lower_code(#[trigger] a@[k]) == lower_code(b@[k]),
        decreases n - i,
    {
        if code_lower(a.get_char(i)) != code_lower(b.get_char(i)) {
            return false;
        }
        i = i + 1;
    }
    true
}

/// Sets the header `name` to `value`, in place of every line of that name.
pub fn set_header(headers: Vec<RequestHeader>, name: &str, value: &str) -> (r: Vec<RequestHeader>)
    ensures
        header_views(r@) == with_header(header_views(headers@), name@, value@),
{
    let ghost pred = |h: (Seq<char>, Seq<char>)| !same_name(h.0, name@);
    let ghost all = header_views(headers@);
    let mut r: Vec<RequestHeader> = Vec::new();
    let mut i: usize = 0;
    while i < headers.len()
        invariant
            i <= headers@.len(),
            all == header_views(headers@),
            pred == |h: (Seq<char>, Seq<char>)| !same_name(h.0, name@),
            header_views(r@) == all.take(i as int).filter(pred),
        decreases headers@.len() - i,
    {
        let h = &headers[i];
        let ghost r_before = r@;
        proof {
            let next = all.take(i + 1);
            assert(next.drop_last() =~= all.take(i as int));
            assert(next.last() == h@);
            reveal_with_fuel(Seq::filter, 2);
            assert(next.filter(pred) == if pred(h@) {
                all.take(i as int).filter(pred).push(h@)
            } else {
                all.take(i as int).filter(pred)
            });
        }
        if !names_match(h.name.as_str(), name) {
            r.push(RequestHeader { name: h.name.clone(), value: h.value.clone() });
            assert(header_views(r@) =~= header_views(r_before).push(h@));
        }
        i = i + 1;
    }
    proof {
        assert(all.take(i as int) =~= all);
    }
    let ghost r_before = r@;
    r.push(RequestHeader { name: String::from_str(name), value: String::from_str(value) });
    proof {
        assert(header_views(r@) =~= header_views(r_before).push((name@, value@)));
    }
    r
}

/// Turns a request into one that asks for the upgrade of the connection: sets
/// the connection and upgrade headers, the protocol version, the security key
/// and the sub-protocol. The address and all other headers stay.
pub fn upgrade_request(request: ConnectRequest, key: &str) -> (r: ConnectRequest)
    ensures
        r.uri@ == request.uri@,
        header_views(r.headers@) == upgrade_headers(header_views(request.headers@), key@),
{
    let ConnectRequest { uri, headers } = request;
    let headers = set_header(headers, "connection", "Upgrade");
    let headers = set_header(headers, "upgrade", "websocket");
    let headers = set_header(headers, "sec-websocket-version", "13");
    let headers = set_header(headers, "sec-websocket-key", key);
    let headers = set_header(headers, "sec-websocket-protocol", "v4.channel.k8s.io");
    ConnectRequest { uri, headers }
}

/// What is known of the local user.
#[derive(Debug, Clone, PartialEq, Eq)]
pub struct UserIdentity {
    pub name: Option<String>,
    pub hostname: Option<String>,
}

/// A header line, present only where there is a value for it.
pub open spec fn optional_header(name: Seq<char>, value: Option<Seq<char>>) -> Seq<
    (Seq<char>, Seq<char>),
> {
    match value {
        Some(v) => seq![(name, v)],
        None => Seq::<(Seq<char>, Seq<char>)>::empty(),
    }
}

/// The headers that identify a session and its user: the session's number in
/// decimal; the user's name and host name, each reduced to trimmed ASCII, as
/// far as they are known; and the client's credentials where it has any.
pub open spec fn identity_headers(
    session_id: u64,
    name: Option<Seq<char>>,
    hostname: Option<Seq<char>>,
    credentials: Option<Seq<char>>,
) -> Seq<(Seq<char>, Seq<char>)> {
    seq![("x-session-id"@, decimal(session_id as nat))] + optional_header(
        "x-client-name"@,
        match name {
            Some(n) => Some(sanitized(n)),
            None => None,
        },
    ) + optional_header(
        "x-client-hostname"@,
        match hostname {
            Some(h) => Some(sanitized(h)),
            None => None,
        },
    ) + optional_header("x-client-der"@, credentials)
}

/// The view of an optional text.
pub open spec fn text_view(t: Option<String>) -> Option<Seq<char>> {
    match t {
        Some(s) => Some(s@),
        None => None,
    }
}

/// The first header value that is not accepted decides that a request cannot
/// be built; an address that is not accepted decides it before any header.
pub open spec fn build_spec(uri: Seq<char>, headers: Seq<(Seq<char>, Seq<char>)>) -> Result<
    (),
    RequestBuildError,
> {
    if !uri_accepted(uri) {
        Err(RequestBuildError::InvalidUri)
    } else if exists|i: int| 0 <= i < headers.len() && !header_value_ok(#[trigger] headers[i].1) {
        Err(RequestBuildError::InvalidHeaderValue)
    } else {
        Ok(())
    }
}

/// Checks the address and the header values of a request as `http` would
/// when the request is built.
pub fn check_request(request: &ConnectRequest) -> (r: Result<(), RequestBuildError>)
    ensures
        r == build_spec(request.uri@, header_views(request.headers@)),
{
    if !http_accepts_uri(request.uri.as_str()) {
        return Err(RequestBuildError::InvalidUri);
    }
    let mut i: usize = 0;
    while i < request.headers.len()
        invariant
            i <= request.headers@.len(),
            uri_accepted(request.uri@),
            forall|k: int|
                0 <= k < i ==> header_value_ok(#[trigger] header_views(request.headers@)[k].1),
        decreases request.headers@.len() - i,
    {
        if !http_accepts_value(request.headers[i].value.as_str()) {
            proof {
                let lines = header_views(request.headers@);
                assert(lines[i as int] == request.headers@[i as int]@);
                assert(0 <= i < lines.len() && !header_value_ok(lines[i as int].1));
            }
            return Err(RequestBuildError::InvalidHeaderValue);
        }
        i = i + 1;
    }
    Ok(())
}

/// Builds the request that opens the transport of a session: the address,
/// and the headers that identify the session and its user.
pub fn connect_request(
    uri: String,
    session_id: u64,
    identity: &UserIdentity,
    credentials: Option<String>,
) -> (r: Result<ConnectRequest, RequestBuildError>)
    ensures
        match r {
            Ok(request) => {
                &&& request.uri@ == uri@
                &&& header_views(request.headers@) == identity_headers(
                    session_id,
                    text_view(identity.name),
                    text_view(identity.hostname),
                    text_view(credentials),
                )
                &&& build_spec(uri@, header_views(request.headers@)) is Ok
            },
            Err(e) => build_spec(
                uri@,
                identity_headers(
                    session_id,
                    text_view(identity.name),
                    text_view(identity.hostname),
                    text_view(credentials),
                ),
            ) == Err::<(), RequestBuildError>(e),
        },
{
    let mut headers: Vec<RequestHeader> = Vec::new();
    let mut id = String::new();
    push_decimal(&mut id, session_id);
    assert(id@ =~= decimal(session_id as nat));
    headers.push(RequestHeader { name: String::from_str("x-session-id"), value: id });
    let ghost h0 = header_views(headers@);
    assert(h0 =~= seq![("x-session-id"@, decimal(session_id as nat))]);
    if let Some(name) = &identity.name {
        headers.push(
            RequestHeader {
                name: String::from_str("x-client-name"),
                value: sanitize_header_text(name.as_str()),
            },
        );
    }
    let ghost h1 = header_views(headers@);
    assert(h1 =~= h0 + optional_header(
        "x-client-name"@,
        match text_view(identity.name) {
            Some(n) => Some(sanitized(n)),
            None => None,
        },
    ));
    if let Some(hostname) = &identity.hostname {
        headers.push(
            RequestHeader {
                name: String::from_str("x-client-hostname"),
                value: sanitize_header_text(hostname.as_str()),
            },
        );
    }
    let ghost h2 = header_views(headers@);
    assert(h2 =~= h1 + optional_header(
        "x-client-hostname"@,
        match text_view(identity.hostname) {
            Some(h) => Some(sanitized(h)),
            None => None,
        },
    ));
    let ghost creds = text_view(credentials);
    if let Some(c) = credentials {
        headers.push(RequestHeader { name: String::from_str("x-client-der"), value: c });
    }
    assert(header_views(headers@) =~= h2 + optional_header("x-client-der"@, creds));
    let request = ConnectRequest { uri, headers };
    match check_request(&request) {
        Ok(()) => Ok(request),
        Err(e) => Err(e),
    }
}

} // verus!
