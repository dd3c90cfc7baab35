//! The connection wrapper: one transport presented as a pair of message
//! queues.
//!
//! The wrapper is a step from an event on either side to what is to be done
//! next. The caller owns the transport and the queues: it waits for whichever
//! side is ready first, hands the event in, carries out the action, and
//! reports a failure of the action as the next event.

use crate::codec::{
    client_flaw, decode_daemon_message, decode_daemon_spec, encode_client_message,
    encode_client_spec, ClientMessage, ClientView, DaemonMessage, DaemonView, DecodeFailure,
    EncodeFailure,
};
use crate::version::{version_min, Version, VersionView};
use vstd::prelude::*;

verus! {

/// How many messages each queue of a wrapped connection holds.
pub const CONNECTION_CHANNEL_SIZE: usize = 1000;

/// A frame of the transport.
#[derive(Debug, Clone, PartialEq, Eq)]
pub enum Frame {
    /// A data frame of octets: exactly one message.
    Binary(Vec<u8>),
    /// A data frame of text.
    Text(String),
    /// A control frame that asks for an answer.
    Ping(Vec<u8>),
    /// A control frame that answers.
    Pong(Vec<u8>),
    /// The frame that closes the transport, with the code and reason given.
    Close(Option<(u16, String)>),
    /// A frame as the transport read it, not taken apart.
    Raw(Vec<u8>),
}

/// Why a wrapper ended.
#[derive(Debug, Clone, PartialEq, Eq)]
pub enum ConnectionWrapperError {
    /// An inbound frame is not a message.
    DecodeError(DecodeFailure),
    /// An outbound message cannot be written.
    EncodeError(EncodeFailure),
    /// The transport failed; the text is its report.
    WsError(String),
    /// The transport delivered a frame that is not a frame of octets.
    InvalidMessage(Frame),
    /// The reader of the inbound queue is gone.
    ChannelClosed,
}

/// What happened on one side of the wrapper.
#[derive(Debug, Clone, PartialEq, Eq)]
pub enum WrapperEvent {
    /// The client put a message in the outbound queue.
    Outbound(ClientMessage),
    /// The client dropped its end of the outbound queue.
    OutboundClosed,
    /// The transport delivered a frame.
    Inbound(Frame),
    /// The transport reported an error in place of a frame.
    TransportError(String),
    /// The transport came to its end.
    TransportClosed,
    /// The frame that the last step asked to send could not be sent.
    SendFailed(String),
    /// The message that the last step asked to deliver found no reader.
    ReceiverDropped,
}

/// What the wrapper asks of its caller.
#[derive(Debug, PartialEq, Eq)]
pub enum WrapperAction {
    /// Nothing: the wrapper has ended.
    Idle,
    /// Send the octets as one frame on the transport.
    Send(Vec<u8>),
    /// Put the message in the inbound queue.
    Deliver(DaemonMessage),
    /// Send a closing frame, without regard to whether that succeeds, and end
    /// with the given result.
    Close(Result<(), ConnectionWrapperError>),
}

/// The mathematical value of a [`WrapperAction`].
pub enum ActionView {
    Idle,
    Send(Seq<u8>),
    Deliver(DaemonView),
    Close(Result<(), ConnectionWrapperError>),
}

impl View for WrapperAction {
    type V = ActionView;

    open spec fn view(&self) -> ActionView {
        match self {
            WrapperAction::Idle => ActionView::Idle,
            WrapperAction::Send(b) => ActionView::Send(b@),
            WrapperAction::Deliver(m) => ActionView::Deliver(m@),
            WrapperAction::Close(r) => ActionView::Close(*r),
        }
    }
}

/// The wrapper of one transport.
#[derive(Debug, Clone, PartialEq, Eq)]
pub struct ConnectionWrapper {
    /// The version of the protocol that the remote side has advertised, if it
    /// has advertised any.
    pub protocol_version: Option<Version>,
    /// Whether the wrapper has ended.
    pub closed: bool,
}

/// The version that is answered for a remote side that has advertised none.
pub open spec fn fallback_version() -> VersionView {
    VersionView {
        major: 1,
        minor: 2,
        patch: 1,
        pre: Seq::<char>::empty(),
        build: Seq::<char>::empty(),
    }
}

/// The message that goes out for a message of the client: a request to
/// switch the version asks for no more than the remote side has advertised;
/// every other message goes out as it is.
pub open spec fn forwarded(remote: VersionView, m: ClientView) -> ClientView {
    match m {
        ClientView::SwitchProtocolVersion(v) => ClientView::SwitchProtocolVersion(
            version_min(remote, v),
        ),
        other => other,
    }
}

/// What is done with a message that goes out: it is sent as one frame, or it
/// ends the wrapper where it cannot be written.
pub open spec fn send_spec(m: ClientView) -> ActionView {
    match client_flaw(m) {
        None => ActionView::Send(encode_client_spec(m)),
        Some(e) => ActionView::Close(Err(ConnectionWrapperError::EncodeError(e))),
    }
}

/// What is done with a message of the client.
pub open spec fn outbound_spec(remote: Option<VersionView>, m: ClientView) -> ActionView {
    match (remote, m) {
        (None, ClientView::SwitchProtocolVersion(v)) => ActionView::Deliver(
            DaemonView::SwitchProtocolVersionResponse(fallback_version()),
        ),
        (None, other) => send_spec(other),
        (Some(r), any) => send_spec(forwarded(r, any)),
    }
}

/// What is done with a frame of the transport: octets are read as a message
/// and the message is delivered; octets that are no message, and every frame
/// that is not a frame of octets, end the wrapper.
pub open spec fn inbound_spec(frame: Frame) -> ActionView {
    match frame {
        Frame::Binary(payload) => match decode_daemon_spec(payload@) {
            Ok(m) => ActionView::Deliver(m),
            Err(e) => ActionView::Close(Err(ConnectionWrapperError::DecodeError(e))),
        },
        other => ActionView::Close(Err(ConnectionWrapperError::InvalidMessage(other))),
    }
}

/// The view of an optional version.
pub open spec fn remote_view(v: Option<Version>) -> Option<VersionView> {
    match v {
        Some(v) => Some(v@),
        None => None,
    }
}

/// The step of a wrapper that has not ended.
pub open spec fn wrapper_spec(remote: Option<VersionView>, event: WrapperEvent) -> ActionView {
    match event {
        WrapperEvent::Outbound(m) => outbound_spec(remote, m@),
        WrapperEvent::OutboundClosed => ActionView::Close(Ok(())),
        WrapperEvent::Inbound(frame) => inbound_spec(frame),
        WrapperEvent::TransportError(e) => ActionView::Close(
            Err(ConnectionWrapperError::WsError(e)),
        ),
        WrapperEvent::TransportClosed => ActionView::Close(Ok(())),
        WrapperEvent::SendFailed(e) => ActionView::Close(Err(ConnectionWrapperError::WsError(e))),
        WrapperEvent::ReceiverDropped => ActionView::Close(
            Err(ConnectionWrapperError::ChannelClosed),
        ),
    }
}

impl ConnectionWrapper {
    /// A wrapper for a transport whose remote side has advertised the given
    /// version of the protocol, or none.
    pub fn new(protocol_version: Option<Version>) -> (w: ConnectionWrapper)
        ensures
            w.protocol_version == protocol_version,
            !w.closed,
    {
        ConnectionWrapper { protocol_version, closed: false }
    }

    /// The version that is answered where the remote side has advertised
    /// none.
    pub fn fallback() -> (v: Version)
        ensures
            v@ == fallback_version(),
    {
        Version::new(1, 2, 1)
    }

    fn send(m: &ClientMessage) -> (action: WrapperAction)
        ensures
            action@ == send_spec(m@),
    {
        match encode_client_message(m) {
            Ok(bytes) => WrapperAction::Send(bytes),
            Err(e) => WrapperAction::Close(Err(ConnectionWrapperError::EncodeError(e))),
        }
    }

    /// Decides what is done with a message of the client.
    pub fn handle_client_message(&self, m: ClientMessage) -> (action: WrapperAction)
        ensures
            action@ == outbound_spec(remote_view(self.protocol_version), m@),
    {
        match m {
            ClientMessage::SwitchProtocolVersion(v) => match &self.protocol_version {
                Some(remote) => {
                    let asked = ClientMessage::SwitchProtocolVersion(remote.duplicate().min(v));
                    ConnectionWrapper::send(&asked)
                },
                None => WrapperAction::Deliver(
                    DaemonMessage::SwitchProtocolVersionResponse(ConnectionWrapper::fallback()),
                ),
            },
            other => ConnectionWrapper::send(&other),
        }
    }

    /// Decides what is done with a frame of the transport.
    pub fn handle_daemon_message(frame: Frame) -> (action: WrapperAction)
        ensures
            action@ == inbound_spec(frame),
    {
        match frame {
            Frame::Binary(payload) => match decode_daemon_message(payload.as_slice()) {
                Ok(m) => WrapperAction::Deliver(m),
                Err(e) => WrapperAction::Close(Err(ConnectionWrapperError::DecodeError(e))),
            },
            other => WrapperAction::Close(Err(ConnectionWrapperError::InvalidMessage(other))),
        }
    }

    /// Takes one event and says what is to be done. A wrapper that has ended
    /// asks for nothing more; every action that ends it is a close.
    pub fn step(&mut self, event: WrapperEvent) -> (action: WrapperAction)
        ensures
            final(self).protocol_version == old(self).protocol_version,
            old(self).closed ==> action@ == ActionView::Idle && final(self).closed,
            !old(self).closed ==> action@ == wrapper_spec(
                remote_view(old(self).protocol_version),
                event,
            ),
            !old(self).closed ==> final(self).closed == (action@ is Close),
    {
        if self.closed {
            return WrapperAction::Idle;
        }
        let action = match event {
            WrapperEvent::Outbound(m) => self.handle_client_message(m),
            WrapperEvent::OutboundClosed => WrapperAction::Close(Ok(())),
            WrapperEvent::Inbound(frame) => ConnectionWrapper::handle_daemon_message(frame),
            WrapperEvent::TransportError(e) => WrapperAction::Close(
                Err(ConnectionWrapperError::WsError(e)),
            ),
            WrapperEvent::TransportClosed => WrapperAction::Close(Ok(())),
            WrapperEvent::SendFailed(e) => WrapperAction::Close(
                Err(ConnectionWrapperError::WsError(e)),
            ),
            WrapperEvent::ReceiverDropped => WrapperAction::Close(
                Err(ConnectionWrapperError::ChannelClosed),
            ),
        };
        if let WrapperAction::Close(_) = &action {
            self.closed = true;
        }
        action
    }
}

/// A request to switch to a version is forwarded as the earlier of that
/// version and the one that the remote side advertised. Where the remote side
/// advertised none, nothing is sent and the fixed version is answered.
pub proof fn switch_is_capped(remote: Option<VersionView>, v: VersionView)
    ensures
        match remote {
            Some(r) => outbound_spec(remote, ClientView::SwitchProtocolVersion(v)) == send_spec(
                ClientView::SwitchProtocolVersion(version_min(r, v)),
            ),
            None => outbound_spec(remote, ClientView::SwitchProtocolVersion(v))
                == ActionView::Deliver(
                DaemonView::SwitchProtocolVersionResponse(fallback_version()),
            ),
        },
        !(outbound_spec(remote, ClientView::SwitchProtocolVersion(v)) is Send) || remote is Some,
{
}

/// A frame that is not a frame of octets ends the wrapper with that frame as
/// the reason, and the end is a close.
pub proof fn foreign_frame_closes(remote: Option<VersionView>, frame: Frame)
    requires
        !(frame is Binary),
    ensures
        wrapper_spec(remote, WrapperEvent::Inbound(frame)) == ActionView::Close(
            Err(ConnectionWrapperError::InvalidMessage(frame)),
        ),
{
}

} // verus!
