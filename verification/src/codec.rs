//! The messages of the session protocol and their form on the wire.
//!
//! A message is written as the number of its variant followed by its fields.
//! A version travels as its text. Of the variants that the bridge does not
//! look into, only the number is read; their fields are carried as they came.

use crate::version::{parsed_version, version_of_parts, version_text, Version, VersionView};
use crate::wire::{
    put_text, put_u32, read_of_wire_text, read_of_wire_uint, read_text, read_u32, take_text,
    take_u32, wire_text, wire_uint,
};
use vstd::prelude::*;
use vstd::slice::{slice_subrange, slice_to_vec};
use vstd::string::StringSliceAdditionalSpecFns;
use vstd::utf8::encode_utf8;

verus! {

/// The number of the outbound liveness probe.
pub const CLIENT_PING: u32 = 7;

/// The number of the outbound request to switch the protocol version.
pub const CLIENT_SWITCH_VERSION: u32 = 10;

/// The number of the inbound log message.
pub const DAEMON_LOG: u32 = 5;

/// The number of the inbound liveness acknowledgment.
pub const DAEMON_PONG: u32 = 7;

/// The number of the inbound answer to a version switch.
pub const DAEMON_SWITCH_VERSION: u32 = 11;

/// The number of the warning level.
pub const LEVEL_WARN: u32 = 0;

/// The number of the error level.
pub const LEVEL_ERROR: u32 = 1;

/// How serious a message logged by the agent is.
#[derive(Clone, Copy, Debug, PartialEq, Eq, Structural)]
pub enum LogLevel {
    Warn,
    Error,
}

/// A message that the agent wants logged.
#[derive(Debug, Clone, PartialEq, Eq)]
pub struct LogMessage {
    pub message: String,
    pub level: LogLevel,
}

/// A message from the client to the agent.
#[derive(Debug, Clone, PartialEq, Eq)]
pub enum ClientMessage {
    /// The liveness probe.
    Ping,
    /// The request to speak the given version of the protocol.
    SwitchProtocolVersion(Version),
    /// Any other message: the number of its variant and its fields as they
    /// stand on the wire.
    Other { tag: u32, body: Vec<u8> },
}

/// A message from the agent to the client.
#[derive(Debug, Clone, PartialEq, Eq)]
pub enum DaemonMessage {
    /// The liveness acknowledgment.
    Pong,
    /// A message to be logged.
    LogMessage(LogMessage),
    /// The version of the protocol that will be spoken.
    SwitchProtocolVersionResponse(Version),
    /// Any other message: the number of its variant and its fields as they
    /// stand on the wire.
    Other { tag: u32, body: Vec<u8> },
}

/// The mathematical value of a [`ClientMessage`].
pub enum ClientView {
    Ping,
    SwitchProtocolVersion(VersionView),
    Other { tag: u32, body: Seq<u8> },
}

/// The mathematical value of a [`DaemonMessage`].
pub enum DaemonView {
    Pong,
    LogMessage { message: Seq<char>, level: LogLevel },
    SwitchProtocolVersionResponse(VersionView),
    Other { tag: u32, body: Seq<u8> },
}

impl View for ClientMessage {
    type V = ClientView;

    open spec fn view(&self) -> ClientView {
        match self {
            ClientMessage::Ping => ClientView::Ping,
            ClientMessage::SwitchProtocolVersion(v) => ClientView::SwitchProtocolVersion(v@),
            ClientMessage::Other { tag, body } => ClientView::Other { tag: *tag, body: body@ },
        }
    }
}

impl View for DaemonMessage {
    type V = DaemonView;

    open spec fn view(&self) -> DaemonView {
        match self {
            DaemonMessage::Pong => DaemonView::Pong,
            DaemonMessage::LogMessage(m) => DaemonView::LogMessage {
                message: m.message@,
                level: m.level,
            },
            DaemonMessage::SwitchProtocolVersionResponse(v) => {
                DaemonView::SwitchProtocolVersionResponse(v@)
            },
            DaemonMessage::Other { tag, body } => DaemonView::Other { tag: *tag, body: body@ },
        }
    }
}

/// Why a message cannot be written.
#[derive(Clone, Copy, Debug, PartialEq, Eq, Structural)]
pub enum EncodeFailure {
    /// The version's text does not read back as the version.
    Version,
    /// The number given to an uninterpreted message belongs to a message
    /// that the bridge interprets.
    ReservedTag,
}

/// Why some octets are not a message.
#[derive(Clone, Copy, Debug, PartialEq, Eq, Structural)]
pub enum DecodeFailure {
    /// The octets do not start with the number of a variant.
    Tag,
    /// A text is cut short or is not valid UTF-8.
    Text,
    /// A text does not read as a version.
    Version,
    /// The number of a log level is missing or unknown.
    Level,
}

/// Whether a version can travel: its text reads back as the same version.
pub open spec fn version_travels(v: VersionView) -> bool {
    &&& parsed_version(version_text(v)) == Some((v.major, v.minor, v.patch, v.pre, v.build))
    &&& encode_utf8(version_text(v)).len() <= u64::MAX
}

/// Why an outbound message cannot be written, if it cannot.
pub open spec fn client_flaw(m: ClientView) -> Option<EncodeFailure> {
    match m {
        ClientView::Ping => None,
        ClientView::SwitchProtocolVersion(v) => if version_travels(v) {
            None
        } else {
            Some(EncodeFailure::Version)
        },
        ClientView::Other { tag, body } => if tag == CLIENT_PING || tag == CLIENT_SWITCH_VERSION {
            Some(EncodeFailure::ReservedTag)
        } else {
            None
        },
    }
}

/// Why an inbound message cannot be written, if it cannot.
pub open spec fn daemon_flaw(m: DaemonView) -> Option<EncodeFailure> {
    match m {
        DaemonView::Pong => None,
        DaemonView::LogMessage { message, level } => None,
        DaemonView::SwitchProtocolVersionResponse(v) => if version_travels(v) {
            None
        } else {
            Some(EncodeFailure::Version)
        },
        DaemonView::Other { tag, body } => if tag == DAEMON_PONG || tag == DAEMON_LOG || tag
            == DAEMON_SWITCH_VERSION {
            Some(EncodeFailure::ReservedTag)
        } else {
            None
        },
    }
}

/// The number of a log level.
pub open spec fn level_number(level: LogLevel) -> u32 {
    match level {
        LogLevel::Warn => LEVEL_WARN,
        LogLevel::Error => LEVEL_ERROR,
    }
}

/// An outbound message on the wire.
pub open spec fn encode_client_spec(m: ClientView) -> Seq<u8> {
    match m {
        ClientView::Ping => wire_uint(CLIENT_PING as nat),
        ClientView::SwitchProtocolVersion(v) => wire_uint(CLIENT_SWITCH_VERSION as nat)
            + wire_text(version_text(v)),
        ClientView::Other { tag, body } => wire_uint(tag as nat) + body,
    }
}

/// An inbound message on the wire.
pub open spec fn encode_daemon_spec(m: DaemonView) -> Seq<u8> {
    match m {
        DaemonView::Pong => wire_uint(DAEMON_PONG as nat),
        DaemonView::LogMessage { message, level } => wire_uint(DAEMON_LOG as nat) + wire_text(
            message,
        ) + wire_uint(level_number(level) as nat),
        DaemonView::SwitchProtocolVersionResponse(v) => wire_uint(DAEMON_SWITCH_VERSION as nat)
            + wire_text(version_text(v)),
        DaemonView::Other { tag, body } => wire_uint(tag as nat) + body,
    }
}

/// Reads a version that travels as a text.
pub open spec fn read_version(b: Seq<u8>) -> Result<VersionView, DecodeFailure> {
    match read_text(b) {
        Some((text, used)) => match parsed_version(text) {
            Some(p) => Ok(version_of_parts(p)),
            None => Err(DecodeFailure::Version),
        },
        None => Err(DecodeFailure::Text),
    }
}

/// Reads an outbound message. Octets that follow a complete message of a
/// known variant are not looked at.
pub open spec fn decode_client_spec(b: Seq<u8>) -> Result<ClientView, DecodeFailure> {
    match read_u32(b) {
        None => Err(DecodeFailure::Tag),
        Some((tag, used)) => {
            let rest = b.subrange(used as int, b.len() as int);
            if tag == CLIENT_PING {
                Ok(ClientView::Ping)
            } else if tag == CLIENT_SWITCH_VERSION {
                match read_version(rest) {
                    Ok(v) => Ok(ClientView::SwitchProtocolVersion(v)),
                    Err(e) => Err(e),
                }
            } else {
                Ok(ClientView::Other { tag: tag as u32, body: rest })
            }
        },
    }
}

/// Reads the level of a log message.
pub open spec fn read_level(b: Seq<u8>) -> Result<LogLevel, DecodeFailure> {
    match read_u32(b) {
        Some((n, used)) => if n == LEVEL_WARN {
            Ok(LogLevel::Warn)
        } else if n == LEVEL_ERROR {
            Ok(LogLevel::Error)
        } else {
            Err(DecodeFailure::Level)
        },
        None => Err(DecodeFailure::Level),
    }
}

/// Reads an inbound message. Octets that follow a complete message of a
/// known variant are not looked at.
pub open spec fn decode_daemon_spec(b: Seq<u8>) -> Result<DaemonView, DecodeFailure> {
    match read_u32(b) {
        None => Err(DecodeFailure::Tag),
        Some((tag, used)) => {
            let rest = b.subrange(used as int, b.len() as int);
            if tag == DAEMON_PONG {
                Ok(DaemonView::Pong)
            } else if tag == DAEMON_LOG {
                match read_text(rest) {
                    Some((message, len)) => match read_level(
                        rest.subrange(len as int, rest.len() as int),
                    ) {
                        Ok(level) => Ok(DaemonView::LogMessage { message, level }),
                        Err(e) => Err(e),
                    },
                    None => Err(DecodeFailure::Text),
                }
            } else if tag == DAEMON_SWITCH_VERSION {
                match read_version(rest) {
                    Ok(v) => Ok(DaemonView::SwitchProtocolVersionResponse(v)),
                    Err(e) => Err(e),
                }
            } else {
                Ok(DaemonView::Other { tag: tag as u32, body: rest })
            }
        },
    }
}

/// Writes a version as its text, if the text reads back as the version.
fn put_version(out: &mut Vec<u8>, v: &Version) -> (r: Result<(), EncodeFailure>)
    ensures
        match r {
            Ok(_) => version_travels(v@) && final(out)@ == old(out)@ + wire_text(
                version_text(v@),
            ),
            Err(e) => !version_travels(v@) && e == EncodeFailure::Version && final(out)@ == old(
                out,
            )@,
        },
{
    let text = v.to_text();
    let octets = text.as_str().as_bytes().len();
    assert(encode_utf8(text@).len() == octets);
    match Version::parse(text.as_str()) {
        Some(back) => {
            if back.same(v) {
                put_text(out, text.as_str());
                Ok(())
            } else {
                Err(EncodeFailure::Version)
            }
        },
        None => Err(EncodeFailure::Version),
    }
}

/// Reads a version that travels as a text, from `pos` on.
fn take_version(src: &[u8], pos: usize) -> (r: Result<Version, DecodeFailure>)
    requires
        pos <= src@.len(),
    ensures
        match r {
            Ok(v) => read_version(src@.subrange(pos as int, src@.len() as int)) == Ok::<
                VersionView,
                DecodeFailure,
            >(v@),
            Err(e) => read_version(src@.subrange(pos as int, src@.len() as int)) == Err::<
                VersionView,
                DecodeFailure,
            >(e),
        },
{
    match take_text(src, pos) {
        Some((text, _)) => match Version::parse(text.as_str()) {
            Some(v) => Ok(v),
            None => Err(DecodeFailure::Version),
        },
        None => Err(DecodeFailure::Text),
    }
}

fn rest_of(src: &[u8], pos: usize) -> (r: Vec<u8>)
    requires
        pos <= src@.len(),
    ensures
        r@ == src@.subrange(pos as int, src@.len() as int),
{
    slice_to_vec(slice_subrange(src, pos, src.len()))
}

fn append_copy(out: &mut Vec<u8>, body: &Vec<u8>)
    ensures
        final(out)@ == old(out)@ + body@,
{
    let mut copy = slice_to_vec(body.as_slice());
    out.append(&mut copy);
}

/// Writes an outbound message. A message is written unless it holds a version
/// whose text does not read back as that version, or gives an uninterpreted
/// message the number of an interpreted one.
pub fn encode_client_message(m: &ClientMessage) -> (r: Result<Vec<u8>, EncodeFailure>)
    ensures
        match r {
            Ok(b) => client_flaw(m@) is None && b@ == encode_client_spec(m@),
            Err(e) => client_flaw(m@) == Some(e),
        },
{
    let mut out: Vec<u8> = Vec::new();
    match m {
        ClientMessage::Ping => {
            put_u32(&mut out, CLIENT_PING);
        },
        ClientMessage::SwitchProtocolVersion(v) => {
            put_u32(&mut out, CLIENT_SWITCH_VERSION);
            match put_version(&mut out, v) {
                Ok(()) => {},
                Err(e) => {
                    return Err(e);
                },
            }
        },
        ClientMessage::Other { tag, body } => {
            if *tag == CLIENT_PING || *tag == CLIENT_SWITCH_VERSION {
                return Err(EncodeFailure::ReservedTag);
            }
            put_u32(&mut out, *tag);
            append_copy(&mut out, body);
        },
    }
    assert(out@ =~= encode_client_spec(m@));
    Ok(out)
}

/// Writes an inbound message, under the same conditions as an outbound one.
pub fn encode_daemon_message(m: &DaemonMessage) -> (r: Result<Vec<u8>, EncodeFailure>)
    ensures
        match r {
            Ok(b) => daemon_flaw(m@) is None && b@ == encode_daemon_spec(m@),
            Err(e) => daemon_flaw(m@) == Some(e),
        },
{
    let mut out: Vec<u8> = Vec::new();
    match m {
        DaemonMessage::Pong => {
            put_u32(&mut out, DAEMON_PONG);
        },
        DaemonMessage::LogMessage(log) => {
            put_u32(&mut out, DAEMON_LOG);
            put_text(&mut out, log.message.as_str());
            let level = match log.level {
                LogLevel::Warn => LEVEL_WARN,
                LogLevel::Error => LEVEL_ERROR,
            };
            put_u32(&mut out, level);
        },
        DaemonMessage::SwitchProtocolVersionResponse(v) => {
            put_u32(&mut out, DAEMON_SWITCH_VERSION);
            match put_version(&mut out, v) {
                Ok(()) => {},
                Err(e) => {
                    return Err(e);
                },
            }
        },
        DaemonMessage::Other { tag, body } => {
            if *tag == DAEMON_PONG || *tag == DAEMON_LOG || *tag == DAEMON_SWITCH_VERSION {
                return Err(EncodeFailure::ReservedTag);
            }
            put_u32(&mut out, *tag);
            append_copy(&mut out, body);
        },
    }
    assert(out@ =~= encode_daemon_spec(m@));
    Ok(out)
}

/// The view of a decoding result.
pub open spec fn client_result_view(r: Result<ClientMessage, DecodeFailure>) -> Result<
    ClientView,
    DecodeFailure,
> {
    match r {
        Ok(m) => Ok(m@),
        Err(e) => Err(e),
    }
}

/// The view of a decoding result.
pub open spec fn daemon_result_view(r: Result<DaemonMessage, DecodeFailure>) -> Result<
    DaemonView,
    DecodeFailure,
> {
    match r {
        Ok(m) => Ok(m@),
        Err(e) => Err(e),
    }
}

/// Reads an outbound message from the octets of one frame.
pub fn decode_client_message(src: &[u8]) -> (r: Result<ClientMessage, DecodeFailure>)
    ensures
        client_result_view(r) == decode_client_spec(src@),
{
    assert(src@.subrange(0, src@.len() as int) =~= src@);
    match take_u32(src, 0) {
        None => Err(DecodeFailure::Tag),
        Some((tag, next)) => {
            if tag == CLIENT_PING {
                Ok(ClientMessage::Ping)
            } else if tag == CLIENT_SWITCH_VERSION {
                match take_version(src, next) {
                    Ok(v) => Ok(ClientMessage::SwitchProtocolVersion(v)),
                    Err(e) => Err(e),
                }
            } else {
                Ok(ClientMessage::Other { tag, body: rest_of(src, next) })
            }
        },
    }
}

/// Reads an inbound message from the octets of one frame.
pub fn decode_daemon_message(src: &[u8]) -> (r: Result<DaemonMessage, DecodeFailure>)
    ensures
        daemon_result_view(r) == decode_daemon_spec(src@),
{
    assert(src@.subrange(0, src@.len() as int) =~= src@);
    match take_u32(src, 0) {
        None => Err(DecodeFailure::Tag),
        Some((tag, next)) => {
            let ghost rest = src@.subrange(next as int, src@.len() as int);
            if tag == DAEMON_PONG {
                Ok(DaemonMessage::Pong)
            } else if tag == DAEMON_LOG {
                match take_text(src, next) {
                    Some((message, after)) => {
                        assert(rest.subrange(after - next, rest.len() as int) =~= src@.subrange(
                            after as int,
                            src@.len() as int,
                        ));
                        match take_u32(src, after) {
                            Some((n, _)) => {
                                if n == LEVEL_WARN {
                                    Ok(
                                        DaemonMessage::LogMessage(
                                            LogMessage { message, level: LogLevel::Warn },
                                        ),
                                    )
                                } else if n == LEVEL_ERROR {
                                    Ok(
                                        DaemonMessage::LogMessage(
                                            LogMessage { message, level: LogLevel::Error },
                                        ),
                                    )
                                } else {
                                    Err(DecodeFailure::Level)
                                }
                            },
                            None => Err(DecodeFailure::Level),
                        }
                    },
                    None => Err(DecodeFailure::Text),
                }
            } else if tag == DAEMON_SWITCH_VERSION {
                match take_version(src, next) {
                    Ok(v) => Ok(DaemonMessage::SwitchProtocolVersionResponse(v)),
                    Err(e) => Err(e),
                }
            } else {
                Ok(DaemonMessage::Other { tag, body: rest_of(src, next) })
            }
        },
    }
}

/// Every outbound message that can be written is read back from its octets.
pub proof fn client_decode_of_encode(m: ClientView)
    requires
        client_flaw(m) is None,
    ensures
        decode_client_spec(encode_client_spec(m)) == Ok::<ClientView, DecodeFailure>(m),
{
    let b = encode_client_spec(m);
    match m {
        ClientView::Ping => {
            read_of_wire_uint(CLIENT_PING as nat, Seq::<u8>::empty(), 252);
            assert(b =~= wire_uint(CLIENT_PING as nat) + Seq::<u8>::empty());
        },
        ClientView::SwitchProtocolVersion(v) => {
            let text = wire_text(version_text(v));
            read_of_wire_uint(CLIENT_SWITCH_VERSION as nat, text, 252);
            let used = wire_uint(CLIENT_SWITCH_VERSION as nat).len() as int;
            assert(b.subrange(used, b.len() as int) =~= text);
            read_of_wire_text(version_text(v), Seq::<u8>::empty());
            assert(text =~= text + Seq::<u8>::empty());
        },
        ClientView::Other { tag, body } => {
            read_of_wire_uint(tag as nat, body, 252);
            let used = wire_uint(tag as nat).len() as int;
            assert(b.subrange(used, b.len() as int) =~= body);
        },
    }
}

/// The octets of an outbound message are written again from what is read of
/// them.
pub proof fn client_encode_of_decode(m: ClientView)
    requires
        client_flaw(m) is None,
    ensures
        decode_client_spec(encode_client_spec(m)) matches Ok(back) && encode_client_spec(back)
            == encode_client_spec(m),
{
    client_decode_of_encode(m);
}

/// Every inbound message that can be written is read back from its octets.
pub proof fn daemon_decode_of_encode(m: DaemonView)
    requires
        daemon_flaw(m) is None,
        m matches DaemonView::LogMessage { message, level } ==> encode_utf8(message).len()
            <= u64::MAX,
    ensures
        decode_daemon_spec(encode_daemon_spec(m)) == Ok::<DaemonView, DecodeFailure>(m),
{
    let b = encode_daemon_spec(m);
    match m {
        DaemonView::Pong => {
            read_of_wire_uint(DAEMON_PONG as nat, Seq::<u8>::empty(), 252);
            assert(b =~= wire_uint(DAEMON_PONG as nat) + Seq::<u8>::empty());
        },
        DaemonView::LogMessage { message, level } => {
            let text = wire_text(message);
            let tail = wire_uint(level_number(level) as nat);
            read_of_wire_uint(DAEMON_LOG as nat, text + tail, 252);
            assert(b =~= wire_uint(DAEMON_LOG as nat) + (text + tail));
            let used = wire_uint(DAEMON_LOG as nat).len() as int;
            let rest = b.subrange(used, b.len() as int);
            assert(rest =~= text + tail);
            read_of_wire_text(message, tail);
            assert(rest.subrange(text.len() as int, rest.len() as int) =~= tail);
            read_of_wire_uint(level_number(level) as nat, Seq::<u8>::empty(), 252);
            assert(tail =~= tail + Seq::<u8>::empty());
        },
        DaemonView::SwitchProtocolVersionResponse(v) => {
            let text = wire_text(version_text(v));
            read_of_wire_uint(DAEMON_SWITCH_VERSION as nat, text, 252);
            let used = wire_uint(DAEMON_SWITCH_VERSION as nat).len() as int;
            assert(b.subrange(used, b.len() as int) =~= text);
            read_of_wire_text(version_text(v), Seq::<u8>::empty());
            assert(text =~= text + Seq::<u8>::empty());
        },
        DaemonView::Other { tag, body } => {
            read_of_wire_uint(tag as nat, body, 252);
            let used = wire_uint(tag as nat).len() as int;
            assert(b.subrange(used, b.len() as int) =~= body);
        },
    }
}

/// The octets of an inbound message are written again from what is read of
/// them.
pub proof fn daemon_encode_of_decode(m: DaemonView)
    requires
        daemon_flaw(m) is None,
        m matches DaemonView::LogMessage { message, level } ==> encode_utf8(message).len()
            <= u64::MAX,
    ensures
        decode_daemon_spec(encode_daemon_spec(m)) matches Ok(back) && encode_daemon_spec(back)
            == encode_daemon_spec(m),
{
    daemon_decode_of_encode(m);
}

} // verus!
