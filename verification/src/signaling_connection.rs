//! The client's end of the connection to the relay: what to make of the
//! relay's first frame, and the steps of the loop that reads frames and of
//! the loop that writes them.
//!
//! The two loops share nothing but their queues, so a backlog in one never
//! holds the other up. The loops themselves wait on the network and belong
//! to the caller; each turn, the caller reports what happened and does what
//! it is told.

use vstd::prelude::*;
use crate::signaling::{SignalingMessage, SignalingMessageView};

verus! {

/// Why a connection to the relay could not be set up.
#[derive(Debug)]
pub enum SignalingError {
    /// The transport failed; the text is the transport's.
    ConnectionFailed(String),
    /// The relay's first frame did not give this peer its identity.
    IdResponseError(String),
}

/// A signaling failure as a value of characters.
pub enum SignalingErrorView {
    ConnectionFailed(Seq<char>),
    IdResponseError(Seq<char>),
}

impl View for SignalingError {
    type V = SignalingErrorView;

    open spec fn view(&self) -> SignalingErrorView {
        match self {
            SignalingError::ConnectionFailed(e) => SignalingErrorView::ConnectionFailed(e@),
            SignalingError::IdResponseError(e) => SignalingErrorView::IdResponseError(e@),
        }
    }
}

/// What a read on the connection came back with.
#[derive(Debug)]
pub enum Incoming {
    /// The stream has ended.
    Closed,
    /// The transport failed; the text is the transport's.
    Failed(String),
    /// A text frame that decoded to a message.
    Message(SignalingMessage),
    /// A text frame that did not decode; the text is the decoder's.
    Malformed(String),
    /// A frame that is not text.
    Other,
}

/// A read result as a value of characters.
pub enum IncomingView {
    Closed,
    Failed(Seq<char>),
    Message(SignalingMessageView),
    Malformed(Seq<char>),
    Other,
}

impl View for Incoming {
    type V = IncomingView;

    open spec fn view(&self) -> IncomingView {
        match self {
            Incoming::Closed => IncomingView::Closed,
            Incoming::Failed(e) => IncomingView::Failed(e@),
            Incoming::Message(m) => IncomingView::Message(m@),
            Incoming::Malformed(e) => IncomingView::Malformed(e@),
            Incoming::Other => IncomingView::Other,
        }
    }
}

/// The identity the relay's first frame assigns, or why it assigns none.
pub open spec fn spec_identity(first: IncomingView) -> Result<Seq<char>, SignalingErrorView> {
    match first {
        IncomingView::Closed => Err(SignalingErrorView::IdResponseError("No response"@)),
        IncomingView::Failed(e) => Err(SignalingErrorView::ConnectionFailed(e)),
        IncomingView::Message(m) => Ok(m.data),
        IncomingView::Malformed(e) => Err(SignalingErrorView::IdResponseError(e)),
        IncomingView::Other => Err(
            SignalingErrorView::IdResponseError("Invalid response content"@),
        ),
    }
}

/// The characters of an identity or of the failure to get one.
pub open spec fn identity_view(r: Result<String, SignalingError>) -> Result<
    Seq<char>,
    SignalingErrorView,
> {
    match r {
        Ok(id) => Ok(id@),
        Err(e) => Err(e@),
    }
}

/// Reads this peer's identity off the first thing the relay sent after the
/// connection was made: the payload of the message, if it is one.
pub fn identity_from_first_frame(first: Incoming) -> (r: Result<String, SignalingError>)
    ensures
        identity_view(r) == spec_identity(first@),
{
    match first {
        Incoming::Closed => Err(SignalingError::IdResponseError("No response".to_owned())),
        Incoming::Failed(e) => Err(SignalingError::ConnectionFailed(e)),
        Incoming::Message(m) => Ok(m.data),
        Incoming::Malformed(e) => Err(SignalingError::IdResponseError(e)),
        Incoming::Other => Err(
            SignalingError::IdResponseError("Invalid response content".to_owned()),
        ),
    }
}

/// What the reading loop is told.
#[derive(Debug)]
pub enum ReaderEvent {
    /// A read came back.
    Read(Incoming),
    /// A message was handed to the inbound queue, with or without success.
    Forwarded { ok: bool },
}

/// What the reading loop does next.
#[derive(Debug)]
pub enum ReaderAction {
    /// Hand this message to the inbound queue.
    Forward(SignalingMessage),
    /// Read again.
    Continue,
    /// End the loop.
    Stop,
}

/// A reader event as a value of characters.
pub enum ReaderEventView {
    Read(IncomingView),
    Forwarded { ok: bool },
}

/// A reader action as a value of characters.
pub enum ReaderActionView {
    Forward(SignalingMessageView),
    Continue,
    Stop,
}

impl View for ReaderEvent {
    type V = ReaderEventView;

    open spec fn view(&self) -> ReaderEventView {
        match self {
            ReaderEvent::Read(incoming) => ReaderEventView::Read(incoming@),
            ReaderEvent::Forwarded { ok } => ReaderEventView::Forwarded { ok: *ok },
        }
    }
}

impl View for ReaderAction {
    type V = ReaderActionView;

    open spec fn view(&self) -> ReaderActionView {
        match self {
            ReaderAction::Forward(m) => ReaderActionView::Forward(m@),
            ReaderAction::Continue => ReaderActionView::Continue,
            ReaderAction::Stop => ReaderActionView::Stop,
        }
    }
}

/// The next step of the reading loop. A message is forwarded. A frame that
/// does not decode, or is not text, is passed over. The loop ends when the
/// stream ends, when the transport fails, and when the inbound queue no
/// longer takes messages.
pub open spec fn spec_reader_next(event: ReaderEventView) -> ReaderActionView {
    match event {
        ReaderEventView::Read(IncomingView::Message(m)) => ReaderActionView::Forward(m),
        ReaderEventView::Read(IncomingView::Malformed(_)) => ReaderActionView::Continue,
        ReaderEventView::Read(IncomingView::Other) => ReaderActionView::Continue,
        ReaderEventView::Read(IncomingView::Failed(_)) => ReaderActionView::Stop,
        ReaderEventView::Read(IncomingView::Closed) => ReaderActionView::Stop,
        ReaderEventView::Forwarded { ok } => if ok {
            ReaderActionView::Continue
        } else {
            ReaderActionView::Stop
        },
    }
}

/// The next step of the reading loop.
pub fn reader_next(event: ReaderEvent) -> (action: ReaderAction)
    ensures
        action@ == spec_reader_next(event@),
{
    match event {
        ReaderEvent::Read(Incoming::Message(m)) => ReaderAction::Forward(m),
        ReaderEvent::Read(Incoming::Malformed(_)) => ReaderAction::Continue,
        ReaderEvent::Read(Incoming::Other) => ReaderAction::Continue,
        ReaderEvent::Read(Incoming::Failed(_)) => ReaderAction::Stop,
        ReaderEvent::Read(Incoming::Closed) => ReaderAction::Stop,
        ReaderEvent::Forwarded { ok } => if ok {
            ReaderAction::Continue
        } else {
            ReaderAction::Stop
        },
    }
}

/// What the writing loop is told.
#[derive(Debug, Clone, Copy, PartialEq, Eq, Structural)]
pub enum WriterEvent {
    /// A message was taken off the outbound queue and encoded, with or
    /// without success.
    Dequeued { encoded: bool },
    /// The outbound queue has ended.
    QueueClosed,
    /// An encoded message was handed to the connection, with or without
    /// success.
    Sent { ok: bool },
}

/// What the writing loop does next.
#[derive(Debug, Clone, Copy, PartialEq, Eq, Structural)]
pub enum WriterAction {
    /// Send the encoded message.
    Send,
    /// Take the next message off the queue.
    Continue,
    /// End the loop.
    Stop,
}

/// The next step of the writing loop. A message that encoded is sent; one
/// that did not is passed over. The loop ends when the queue ends and at the
/// first send that fails.
pub open spec fn spec_writer_next(event: WriterEvent) -> WriterAction {
    match event {
        WriterEvent::Dequeued { encoded } => if encoded {
            WriterAction::Send
        } else {
            WriterAction::Continue
        },
        WriterEvent::QueueClosed => WriterAction::Stop,
        WriterEvent::Sent { ok } => if ok {
            WriterAction::Continue
        } else {
            WriterAction::Stop
        },
    }
}

/// The next step of the writing loop.
pub fn writer_next(event: WriterEvent) -> (action: WriterAction)
    ensures
        action == spec_writer_next(event),
{
    match event {
        WriterEvent::Dequeued { encoded } => if encoded {
            WriterAction::Send
        } else {
            WriterAction::Continue
        },
        WriterEvent::QueueClosed => WriterAction::Stop,
        WriterEvent::Sent { ok } => if ok {
            WriterAction::Continue
        } else {
            WriterAction::Stop
        },
    }
}

} // verus!
