//! Verification of the response to a transport upgrade request.
//!
//! The rules are those of RFC 6455 for a client, with one addition: the server
//! must have selected the channel sub-protocol. A response that refuses the
//! upgrade is searched for a structured status object, so that the caller sees
//! the server's reason and not only a status code.

use vstd::prelude::*;

verus! {

/// The status code that announces the protocol switch.
pub const SWITCHING_PROTOCOLS: u16 = 101;

/// One header line of a response. Header names are compared without regard
/// to ASCII case; values are raw octets.
#[derive(Debug, Clone, PartialEq, Eq)]
pub struct Header {
    pub name: Vec<u8>,
    pub value: Vec<u8>,
}

/// What the verifier reads of an upgrade response. Where a name occurs more
/// than once in `headers`, the first occurrence counts.
#[derive(Debug, Clone, PartialEq, Eq)]
pub struct UpgradeResponse {
    pub status: u16,
    pub headers: Vec<Header>,
    pub body: Vec<u8>,
}

/// The structured status object that a server may send in place of the
/// upgrade.
#[derive(Debug, Clone, PartialEq, Eq)]
pub struct ErrorStatus {
    pub status: String,
    pub message: String,
    pub reason: String,
    pub code: u16,
}

/// Why an upgrade response was not accepted.
#[derive(Debug, Clone, PartialEq, Eq)]
pub enum UpgradeError {
    /// The server refused with a structured status object.
    Api(ErrorStatus),
    /// The server answered with another status than the protocol switch.
    ProtocolSwitch(u16),
    /// `Upgrade: websocket` is missing.
    MissingUpgradeWebSocketHeader,
    /// `Connection: Upgrade` is missing.
    MissingConnectionUpgradeHeader,
    /// `Sec-WebSocket-Accept` is missing or was not derived from the key sent.
    SecWebSocketAcceptKeyMismatch,
    /// `Sec-WebSocket-Protocol` is missing or names another sub-protocol.
    SecWebSocketProtocolMismatch,
}

/// The outcome of the verification as a mathematical value.
pub enum Verdict {
    Accepted,
    Api { status: Seq<char>, message: Seq<char>, reason: Seq<char>, code: u16 },
    ProtocolSwitch(u16),
    MissingUpgradeWebSocketHeader,
    MissingConnectionUpgradeHeader,
    SecWebSocketAcceptKeyMismatch,
    SecWebSocketProtocolMismatch,
}

/// The verdict that an executable result stands for.
pub open spec fn verdict_of(r: Result<(), UpgradeError>) -> Verdict {
    match r {
        Ok(_) => Verdict::Accepted,
        Err(UpgradeError::Api(e)) => Verdict::Api {
            status: e.status@,
            message: e.message@,
            reason: e.reason@,
            code: e.code,
        },
        Err(UpgradeError::ProtocolSwitch(code)) => Verdict::ProtocolSwitch(code),
        Err(UpgradeError::MissingUpgradeWebSocketHeader) => Verdict::MissingUpgradeWebSocketHeader,
        Err(UpgradeError::MissingConnectionUpgradeHeader) => Verdict::MissingConnectionUpgradeHeader,
        Err(UpgradeError::SecWebSocketAcceptKeyMismatch) => Verdict::SecWebSocketAcceptKeyMismatch,
        Err(UpgradeError::SecWebSocketProtocolMismatch) => Verdict::SecWebSocketProtocolMismatch,
    }
}

/// The octet of an ASCII character; `?` for any other character.
pub open spec fn ascii_byte(c: char) -> u8 {
    if (c as u32) < 128 {
        c as u8
    } else {
        63u8
    }
}

/// A text as octets, character by character.
pub open spec fn ascii_bytes(s: Seq<char>) -> Seq<u8> {
    Seq::new(s.len(), |i: int| ascii_byte(s[i]))
}

/// An octet with an upper-case ASCII letter turned into its lower-case form.
pub open spec fn lower(b: u8) -> u8 {
    if 65 <= b && b <= 90 {
        (b + 32) as u8
    } else {
        b
    }
}

/// Equality of two octet strings without regard to ASCII case.
pub open spec fn eq_ignore_case(a: Seq<u8>, b: Seq<u8>) -> bool {
    a.len() == b.len() && forall|i: int| 0 <= i < a.len() ==> lower(#[trigger] a[i]) == lower(b[i])
}

/// The value of the first header called `name`, if there is one.
pub open spec fn find_header(headers: Seq<Header>, name: Seq<u8>) -> Option<Seq<u8>>
    decreases headers.len(),
{
    if headers.len() == 0 {
        None
    } else if eq_ignore_case(headers[0].name@, name) {
        Some(headers[0].value@)
    } else {
        find_header(headers.drop_first(), name)
    }
}

/// Whether the header `name` is present with a value that equals `token`
/// without regard to ASCII case.
pub open spec fn header_matches(headers: Seq<Header>, name: Seq<char>, token: Seq<char>) -> bool {
    match find_header(headers, ascii_bytes(name)) {
        Some(v) => eq_ignore_case(v, ascii_bytes(token)),
        None => false,
    }
}

/// Whether the header `name` is present with exactly the value `expected`.
pub open spec fn header_equals(headers: Seq<Header>, name: Seq<char>, expected: Seq<u8>) -> bool {
    find_header(headers, ascii_bytes(name)) == Some(expected)
}

/// The status announces the protocol switch.
pub open spec fn status_ok(res: UpgradeResponse) -> bool {
    res.status == SWITCHING_PROTOCOLS
}

/// `Upgrade: websocket` is present.
pub open spec fn upgrade_ok(res: UpgradeResponse) -> bool {
    header_matches(res.headers@, "upgrade"@, "websocket"@)
}

/// `Connection: Upgrade` is present.
pub open spec fn connection_ok(res: UpgradeResponse) -> bool {
    header_matches(res.headers@, "connection"@, "Upgrade"@)
}

/// `Sec-WebSocket-Accept` carries the expected key.
pub open spec fn accept_ok(res: UpgradeResponse, expected_accept: Seq<u8>) -> bool {
    header_equals(res.headers@, "sec-websocket-accept"@, expected_accept)
}

/// `Sec-WebSocket-Protocol` names the channel sub-protocol.
pub open spec fn protocol_ok(res: UpgradeResponse) -> bool {
    header_equals(res.headers@, "sec-websocket-protocol"@, ascii_bytes("v4.channel.k8s.io"@))
}

/// How a refusal is reported: by the server's status object where there is
/// one, and by the status code otherwise.
pub open spec fn refusal(
    status: u16,
    parsed_error: Option<(Seq<char>, Seq<char>, Seq<char>, u16)>,
) -> Verdict {
    match parsed_error {
        Some(e) => Verdict::Api { status: e.0, message: e.1, reason: e.2, code: e.3 },
        None => Verdict::ProtocolSwitch(status),
    }
}

/// The verdict on a response, given the accept key that the request's key
/// calls for and the status object read from the body, if there is one.
///
/// A refusal, whatever its status, is reported with the server's status
/// object where the body holds one, and with the bare status code otherwise.
/// After the protocol switch the headers are checked in a fixed order and the
/// first check that fails names the error.
pub open spec fn verify_spec(
    res: UpgradeResponse,
    expected_accept: Seq<u8>,
    parsed_error: Option<(Seq<char>, Seq<char>, Seq<char>, u16)>,
) -> Verdict {
    if !status_ok(res) {
        refusal(res.status, parsed_error)
    } else if !upgrade_ok(res) {
        Verdict::MissingUpgradeWebSocketHeader
    } else if !connection_ok(res) {
        Verdict::MissingConnectionUpgradeHeader
    } else if !accept_ok(res, expected_accept) {
        Verdict::SecWebSocketAcceptKeyMismatch
    } else if !protocol_ok(res) {
        Verdict::SecWebSocketProtocolMismatch
    } else {
        Verdict::Accepted
    }
}

/// The accept key that `tungstenite` derives from a request key.
pub uninterp spec fn accept_key_of(key: Seq<u8>) -> Seq<u8>;

/// The status object that `serde_json` reads from a body as a
/// `kube::core::ErrorResponse`: its status, message, reason and code, or
/// nothing where the body is not such an object.
pub uninterp spec fn error_status_of(body: Seq<u8>) -> Option<(Seq<char>, Seq<char>, Seq<char>, u16)>;

/// Calls `tungstenite::handshake::derive_accept_key`, which hashes the key
/// together with the protocol's fixed identifier and encodes the digest. The
/// result is a function of the key alone.
#[verifier::external_body]
fn derive_accept_key(key: &[u8]) -> (r: Vec<u8>)
    ensures
        r@ == accept_key_of(key@),
{
    tokio_tungstenite::tungstenite::handshake::derive_accept_key(key).into_bytes()
}

/// Calls `serde_json::from_slice` for a `kube::core::ErrorResponse` and hands
/// its four fields over; `None` where the body does not parse as one.
#[verifier::external_body]
fn parse_error_status(body: &[u8]) -> (r: Option<ErrorStatus>)
    ensures
        match r {
            Some(e) => error_status_of(body@) == Some((e.status@, e.message@, e.reason@, e.code)),
            None => error_status_of(body@) is None,
        },
{
    match serde_json::from_slice::<kube::core::ErrorResponse>(body) {
        Ok(e) => Some(
            ErrorStatus { status: e.status, message: e.message, reason: e.reason, code: e.code },
        ),
        Err(_) => None,
    }
}

fn to_lower(b: u8) -> (r: u8)
    ensures
        r == lower(b),
{
    if 65 <= b && b <= 90 {
        b + 32
    } else {
        b
    }
}

fn bytes_match(a: &[u8], b: &[u8]) -> (r: bool)
    ensures
        r == eq_ignore_case(a@, b@),
{
    if a.len() != b.len() {
        return false;
    }
    let mut i: usize = 0;
    while i < a.len()
        invariant
            a@.len() == b@.len(),
            i <= a@.len(),
            forall|k: int| 0 <= k < i ==> lower(#[trigger] a@[k]) == lower(b@[k]),
        decreases a@.len() - i,
    {
        if to_lower(a[i]) != to_lower(b[i]) {
            return false;
        }
        i = i + 1;
    }
    true
}

fn bytes_equal(a: &[u8], b: &[u8]) -> (r: bool)
    ensures
        r == (a@ == b@),
{
    if a.len() != b.len() {
        return false;
    }
    let mut i: usize = 0;
    while i < a.len()
        invariant
            a@.len() == b@.len(),
            i <= a@.len(),
            forall|k: int| 0 <= k < i ==> a@[k] == b@[k],
        decreases a@.len() - i,
    {
        if a[i] != b[i] {
            return false;
        }
        i = i + 1;
    }
    assert(a@ =~= b@);
    true
}

/// The octets of a text, character by character.
pub fn ascii_of(s: &str) -> (r: Vec<u8>)
    ensures
        r@ == ascii_bytes(s@),
{
    let n = s.unicode_len();
    let mut r: Vec<u8> = Vec::new();
    let mut i: usize = 0;
    while i < n
        invariant
            n == s@.len(),
            i <= n,
            r@.len() == i,
            forall|k: int| 0 <= k < i ==> r@[k] == ascii_byte(s@[k]),
        decreases n - i,
    {
        let c = s.get_char(i);
        let b: u8 = if (c as u32) < 128 {
            c as u8
        } else {
            63u8
        };
        r.push(b);
        i = i + 1;
    }
    assert(r@ =~= ascii_bytes(s@));
    r
}

fn lookup<'a>(headers: &'a Vec<Header>, name: &[u8]) -> (r: Option<&'a Vec<u8>>)
    ensures
        match r {
            Some(v) => find_header(headers@, name@) == Some(v@),
            None => find_header(headers@, name@) is None,
        },
{
    let mut i: usize = 0;
    assert(headers@.subrange(0, headers@.len() as int) =~= headers@);
    while i < headers.len()
        invariant
            i <= headers@.len(),
            find_header(headers@, name@) == find_header(
                headers@.subrange(i as int, headers@.len() as int),
                name@,
            ),
        decreases headers@.len() - i,
    {
        let ghost rest = headers@.subrange(i as int, headers@.len() as int);
        assert(rest[0] == headers@[i as int]);
        if bytes_match(headers[i].name.as_slice(), name) {
            return Some(&headers[i].value);
        }
        assert(rest.drop_first() =~= headers@.subrange(i + 1, headers@.len() as int));
        i = i + 1;
    }
    assert(headers@.subrange(i as int, headers@.len() as int).len() == 0);
    None
}

fn has_token(headers: &Vec<Header>, name: &str, token: &str) -> (r: bool)
    ensures
        r == header_matches(headers@, name@, token@),
{
    let name = ascii_of(name);
    let token = ascii_of(token);
    match lookup(headers, name.as_slice()) {
        Some(v) => bytes_match(v.as_slice(), token.as_slice()),
        None => false,
    }
}

fn has_value(headers: &Vec<Header>, name: &str, expected: &[u8]) -> (r: bool)
    ensures
        r == header_equals(headers@, name@, expected@),
{
    let name = ascii_of(name);
    match lookup(headers, name.as_slice()) {
        Some(v) => bytes_equal(v.as_slice(), expected),
        None => false,
    }
}

/// Judges a response against the accept key that is expected and the status
/// object that was read from its body.
pub fn check_response(
    res: &UpgradeResponse,
    expected_accept: &[u8],
    parsed_error: Option<ErrorStatus>,
) -> (r: Result<(), UpgradeError>)
    ensures
        verdict_of(r) == verify_spec(
            *res,
            expected_accept@,
            match parsed_error {
                Some(e) => Some((e.status@, e.message@, e.reason@, e.code)),
                None => None,
            },
        ),
{
    if res.status != SWITCHING_PROTOCOLS {
        return match parsed_error {
            Some(e) => Err(UpgradeError::Api(e)),
            None => Err(UpgradeError::ProtocolSwitch(res.status)),
        };
    }
    if !has_token(&res.headers, "upgrade", "websocket") {
        return Err(UpgradeError::MissingUpgradeWebSocketHeader);
    }
    if !has_token(&res.headers, "connection", "Upgrade") {
        return Err(UpgradeError::MissingConnectionUpgradeHeader);
    }
    if !has_value(&res.headers, "sec-websocket-accept", expected_accept) {
        return Err(UpgradeError::SecWebSocketAcceptKeyMismatch);
    }
    let protocol = ascii_of("v4.channel.k8s.io");
    if !has_value(&res.headers, "sec-websocket-protocol", protocol.as_slice()) {
        return Err(UpgradeError::SecWebSocketProtocolMismatch);
    }
    Ok(())
}

/// Verifies the response to an upgrade request that was sent with `key` as
/// its security key. The body is read for a status object whenever the status
/// is not the protocol switch.
pub fn verify_response(res: &UpgradeResponse, key: &[u8]) -> (r: Result<(), UpgradeError>)
    ensures
        verdict_of(r) == verify_spec(*res, accept_key_of(key@), error_status_of(res.body@)),
{
    let parsed = if res.status != SWITCHING_PROTOCOLS {
        parse_error_status(res.body.as_slice())
    } else {
        None
    };
    let expected = derive_accept_key(key);
    check_response(res, expected.as_slice(), parsed)
}

/// Every status other than the protocol switch is a refusal, and the status
/// object of its body is recovered whatever the status is and whatever the
/// headers say.
pub proof fn status_object_is_recovered(
    res: UpgradeResponse,
    expected_accept: Seq<u8>,
    parsed_error: Option<(Seq<char>, Seq<char>, Seq<char>, u16)>,
)
    requires
        res.status != SWITCHING_PROTOCOLS,
    ensures
        verify_spec(res, expected_accept, parsed_error) == refusal(res.status, parsed_error),
{
}

/// A response is accepted if and only if the status and all four headers pass
/// their checks.
pub proof fn accepted_iff_all_checks_pass(
    res: UpgradeResponse,
    expected_accept: Seq<u8>,
    parsed_error: Option<(Seq<char>, Seq<char>, Seq<char>, u16)>,
)
    ensures
        verify_spec(res, expected_accept, parsed_error) is Accepted <==> (status_ok(res)
            && upgrade_ok(res) && connection_ok(res) && accept_ok(res, expected_accept)
            && protocol_ok(res)),
{
}

/// Where exactly one check fails, the verdict names that check. A wrong
/// status is reported by the status object where the server sent one, and by
/// the status code otherwise.
pub proof fn single_failure_is_named(
    res: UpgradeResponse,
    expected_accept: Seq<u8>,
    parsed_error: Option<(Seq<char>, Seq<char>, Seq<char>, u16)>,
)
    ensures
        (!status_ok(res) && upgrade_ok(res) && connection_ok(res) && accept_ok(
            res,
            expected_accept,
        ) && protocol_ok(res)) ==> verify_spec(res, expected_accept, parsed_error)
            == refusal(res.status, parsed_error),
        (status_ok(res) && !upgrade_ok(res) && connection_ok(res) && accept_ok(
            res,
            expected_accept,
        ) && protocol_ok(res)) ==> verify_spec(res, expected_accept, parsed_error)
            is MissingUpgradeWebSocketHeader,
        (status_ok(res) && upgrade_ok(res) && !connection_ok(res) && accept_ok(
            res,
            expected_accept,
        ) && protocol_ok(res)) ==> verify_spec(res, expected_accept, parsed_error)
            is MissingConnectionUpgradeHeader,
        (status_ok(res) && upgrade_ok(res) && connection_ok(res) && !accept_ok(
            res,
            expected_accept,
        ) && protocol_ok(res)) ==> verify_spec(res, expected_accept, parsed_error)
            is SecWebSocketAcceptKeyMismatch,
        (status_ok(res) && upgrade_ok(res) && connection_ok(res) && accept_ok(
            res,
            expected_accept,
        ) && !protocol_ok(res)) ==> verify_spec(res, expected_accept, parsed_error)
            is SecWebSocketProtocolMismatch,
{
}

} // verus!
