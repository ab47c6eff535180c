//! The decisions taken while serving one client connection over a raw TCP
//! stream: what to read, what to reply, what to publish and when to stop.
//!
//! The driver performs each `ConnAction` (a read, a write, a JSON decode,
//! a publish, ...) and hands the outcome back as a `ConnEvent`; `step`
//! decides what comes next.

use vstd::prelude::*;
use vstd::slice::slice_to_vec;
use crate::framing::{
    first_marker, lemma_first_marker_exists, marker_at, parse_http_request, raw_body,
};

verus! {

/// How the server orders its reply and its publish.
#[derive(Clone, Copy, Debug, PartialEq, Eq, Structural)]
pub enum Flavor {
    /// Acknowledge the payload, then publish it and wait for the outcome;
    /// a failed publish fails the connection.
    AckThenPublish,
    /// Acknowledge the payload, then publish it in the background; the
    /// connection ends with success either way.
    AckThenPublishDetached,
    /// Like `AckThenPublish`, but the connection stays open for the next
    /// request, and malformed requests are answered without closing it.
    KeepAlive,
    /// Publish first (the stored payload, then this one), store this
    /// payload, then acknowledge.
    PublishThenAck,
}

/// The text replies that a connection sends.
#[derive(Clone, Copy, Debug, PartialEq, Eq, Structural)]
pub enum Notice {
    PayloadReceived,
    InvalidRequest,
    InvalidPayload,
    ReadFailed,
    PublishFailed,
}

pub const PAYLOAD_RECEIVED: &'static str = "Payload received";
pub const INVALID_REQUEST: &'static str = "Invalid HTTP request format";
pub const INVALID_PAYLOAD: &'static str = "Invalid payload format";
pub const READ_FAILED: &'static str = "Failed to read data";
pub const PUBLISH_FAILED: &'static str = "Failed to send data to Kafka";

impl Notice {
    /// The text of this reply.
    pub open spec fn spec_text(self) -> &'static str {
        match self {
            Notice::PayloadReceived => PAYLOAD_RECEIVED,
            Notice::InvalidRequest => INVALID_REQUEST,
            Notice::InvalidPayload => INVALID_PAYLOAD,
            Notice::ReadFailed => READ_FAILED,
            Notice::PublishFailed => PUBLISH_FAILED,
        }
    }

    /// The text of this reply.
    pub fn text(&self) -> (t: &'static str)
        ensures
            t == self.spec_text(),
    {
        match self {
            Notice::PayloadReceived => PAYLOAD_RECEIVED,
            Notice::InvalidRequest => INVALID_REQUEST,
            Notice::InvalidPayload => INVALID_PAYLOAD,
            Notice::ReadFailed => READ_FAILED,
            Notice::PublishFailed => PUBLISH_FAILED,
        }
    }
}

/// What follows once a reply has been written.
#[derive(Debug)]
pub enum AfterReply {
    /// End the connection, with success or failure.
    Finish(bool),
    /// Read the next request.
    ReadAgain,
    /// Publish the payload.
    Publish(String),
}

/// Where a connection stands.
#[derive(Debug)]
pub enum ConnState {
    Reading,
    Decoding,
    Replying(AfterReply),
    Publishing(String),
    Storing(String),
    Done(bool),
}

/// The outcome of the last action.
#[derive(Debug)]
pub enum ConnEvent {
    /// A read returned these bytes (at least one).
    Received(Vec<u8>),
    /// A read returned no bytes: the client closed the connection.
    Closed,
    /// A read failed.
    ReadFailed,
    /// The body decoded as a payload whose `data` field is this text.
    PayloadDecoded(String),
    /// The body did not decode as a payload.
    PayloadRejected,
    WriteDone,
    WriteFailed,
    PublishDone,
    PublishFailed,
    /// The payload was stored as the last payload seen.
    Stored,
}

/// What the driver is to do next.
#[derive(Debug)]
pub enum ConnAction {
    /// Read from the stream.
    Read,
    /// Decode these body bytes as a JSON payload.
    Decode(Vec<u8>),
    /// Write the plain-text reply with this notice.
    Reply(Notice),
    /// Publish the payload and report the outcome.
    Publish(String),
    /// Start publishing the payload in the background; the connection ends
    /// with success.
    PublishInBackground(String),
    /// Store the payload as the last payload seen.
    Store(String),
    /// End the connection, with success or failure.
    Finish(bool),
}

/// What follows a reply to a malformed request.
pub open spec fn after_malformed(flavor: Flavor) -> AfterReply {
    if flavor == Flavor::KeepAlive {
        AfterReply::ReadAgain
    } else {
        AfterReply::Finish(true)
    }
}

/// The action is to decode exactly `body`.
pub open spec fn decodes(action: ConnAction, body: Seq<u8>) -> bool {
    match action {
        ConnAction::Decode(b) => b@ == body,
        _ => false,
    }
}

/// An event that does not fit the state ends the connection with failure.
pub open spec fn misuse(next: ConnState, action: ConnAction) -> bool {
    next == ConnState::Done(false) && action == ConnAction::Finish(false)
}

/// The transition relation: in `state`, `event` leads to `next` with
/// `action`.
pub open spec fn transition(
    flavor: Flavor,
    state: ConnState,
    event: ConnEvent,
    next: ConnState,
    action: ConnAction,
) -> bool {
    match state {
        ConnState::Done(ok) => next == ConnState::Done(ok) && action == ConnAction::Finish(ok),
        ConnState::Reading => match event {
            ConnEvent::Received(buf) => match raw_body(buf@) {
                None => next == ConnState::Replying(after_malformed(flavor))
                    && action == ConnAction::Reply(Notice::InvalidRequest),
                Some(body) => next == ConnState::Decoding && decodes(action, body),
            },
            ConnEvent::Closed => if flavor == Flavor::PublishThenAck {
                next == ConnState::Replying(AfterReply::Finish(false))
                    && action == ConnAction::Reply(Notice::ReadFailed)
            } else {
                next == ConnState::Done(true) && action == ConnAction::Finish(true)
            },
            ConnEvent::ReadFailed => if flavor == Flavor::KeepAlive {
                next == ConnState::Done(false) && action == ConnAction::Finish(false)
            } else {
                next == ConnState::Replying(AfterReply::Finish(false))
                    && action == ConnAction::Reply(Notice::ReadFailed)
            },
            _ => misuse(next, action),
        },
        ConnState::Decoding => match event {
            ConnEvent::PayloadRejected => next == ConnState::Replying(after_malformed(flavor))
                && action == ConnAction::Reply(Notice::InvalidPayload),
            ConnEvent::PayloadDecoded(data) => if flavor == Flavor::PublishThenAck {
                next == ConnState::Publishing(data) && action == ConnAction::Publish(data)
            } else {
                next == ConnState::Replying(AfterReply::Publish(data))
                    && action == ConnAction::Reply(Notice::PayloadReceived)
            },
            _ => misuse(next, action),
        },
        ConnState::Replying(after) => match event {
            ConnEvent::WriteDone => match after {
                AfterReply::Finish(ok) => next == ConnState::Done(ok) && action
                    == ConnAction::Finish(ok),
                AfterReply::ReadAgain => next == ConnState::Reading && action == ConnAction::Read,
                AfterReply::Publish(data) => if flavor == Flavor::AckThenPublishDetached {
                    next == ConnState::Done(true) && action == ConnAction::PublishInBackground(data)
                } else {
                    next == ConnState::Publishing(data) && action == ConnAction::Publish(data)
                },
            },
            ConnEvent::WriteFailed => next == ConnState::Done(false) && action == ConnAction::Finish(
                false,
            ),
            _ => misuse(next, action),
        },
        ConnState::Publishing(data) => match event {
            ConnEvent::PublishDone => match flavor {
                Flavor::KeepAlive => next == ConnState::Reading && action == ConnAction::Read,
                Flavor::PublishThenAck => next == ConnState::Storing(data) && action
                    == ConnAction::Store(data),
                _ => next == ConnState::Done(true) && action == ConnAction::Finish(true),
            },
            ConnEvent::PublishFailed => if flavor == Flavor::PublishThenAck {
                next == ConnState::Replying(AfterReply::Finish(true))
                    && action == ConnAction::Reply(Notice::PublishFailed)
            } else {
                next == ConnState::Done(false) && action == ConnAction::Finish(false)
            },
            _ => misuse(next, action),
        },
        ConnState::Storing(data) => match event {
            ConnEvent::Stored => if flavor == Flavor::PublishThenAck {
                next == ConnState::Replying(AfterReply::Finish(true))
                    && action == ConnAction::Reply(Notice::PayloadReceived)
            } else {
                misuse(next, action)
            },
            _ => misuse(next, action),
        },
    }
}

/// A new connection starts by reading.
pub fn start() -> (out: (ConnState, ConnAction))
    ensures
        out.0 == ConnState::Reading,
        out.1 == ConnAction::Read,
{
    (ConnState::Reading, ConnAction::Read)
}

fn reply(notice: Notice, after: AfterReply) -> (out: (ConnState, ConnAction))
    ensures
        out.0 == ConnState::Replying(after),
        out.1 == ConnAction::Reply(notice),
{
    (ConnState::Replying(after), ConnAction::Reply(notice))
}

fn end(ok: bool) -> (out: (ConnState, ConnAction))
    ensures
        out.0 == ConnState::Done(ok),
        out.1 == ConnAction::Finish(ok),
{
    (ConnState::Done(ok), ConnAction::Finish(ok))
}

fn after_malformed_reply(flavor: Flavor) -> (after: AfterReply)
    ensures
        after == after_malformed(flavor),
{
    match flavor {
        Flavor::KeepAlive => AfterReply::ReadAgain,
        _ => AfterReply::Finish(true),
    }
}

/// Decides what follows `event` in `state`. A finished connection stays
/// finished; an event that does not fit the state ends the connection with
/// failure.
pub fn step(flavor: Flavor, state: ConnState, event: ConnEvent) -> (out: (ConnState, ConnAction))
    ensures
        transition(flavor, state, event, out.0, out.1),
{
    match state {
        ConnState::Done(ok) => end(ok),
        ConnState::Reading => match event {
            ConnEvent::Received(buf) => match parse_http_request(buf.as_slice()) {
                Err(_) => reply(Notice::InvalidRequest, after_malformed_reply(flavor)),
                Ok(body) => (ConnState::Decoding, ConnAction::Decode(slice_to_vec(body))),
            },
            ConnEvent::Closed => match flavor {
                Flavor::PublishThenAck => reply(Notice::ReadFailed, AfterReply::Finish(false)),
                _ => end(true),
            },
            ConnEvent::ReadFailed => match flavor {
                Flavor::KeepAlive => end(false),
                _ => reply(Notice::ReadFailed, AfterReply::Finish(false)),
            },
            _ => end(false),
        },
        ConnState::Decoding => match event {
            ConnEvent::PayloadRejected => reply(Notice::InvalidPayload, after_malformed_reply(flavor)),
            ConnEvent::PayloadDecoded(data) => match flavor {
                Flavor::PublishThenAck => (ConnState::Publishing(data.clone()), ConnAction::Publish(data)),
                _ => reply(Notice::PayloadReceived, AfterReply::Publish(data)),
            },
            _ => end(false),
        },
        ConnState::Replying(after) => match event {
            ConnEvent::WriteDone => match after {
                AfterReply::Finish(ok) => end(ok),
                AfterReply::ReadAgain => (ConnState::Reading, ConnAction::Read),
                AfterReply::Publish(data) => match flavor {
                    Flavor::AckThenPublishDetached => (
                        ConnState::Done(true),
                        ConnAction::PublishInBackground(data),
                    ),
                    _ => (ConnState::Publishing(data.clone()), ConnAction::Publish(data)),
                },
            },
            ConnEvent::WriteFailed => end(false),
            _ => end(false),
        },
        ConnState::Publishing(data) => match event {
            ConnEvent::PublishDone => match flavor {
                Flavor::KeepAlive => (ConnState::Reading, ConnAction::Read),
                Flavor::PublishThenAck => (ConnState::Storing(data.clone()), ConnAction::Store(data)),
                _ => end(true),
            },
            ConnEvent::PublishFailed => match flavor {
                Flavor::PublishThenAck => reply(Notice::PublishFailed, AfterReply::Finish(true)),
                _ => end(false),
            },
            _ => end(false),
        },
        ConnState::Storing(data) => match event {
            ConnEvent::Stored => match flavor {
                Flavor::PublishThenAck => reply(Notice::PayloadReceived, AfterReply::Finish(true)),
                _ => end(false),
            },
            _ => end(false),
        },
    }
}

/// The event that a read hands back: `None` for a failed read, otherwise
/// the number of bytes that the read placed at the start of `buf`.
pub fn read_event(buf: &[u8], read: Option<usize>) -> (event: ConnEvent)
    requires
        read matches Some(n) ==> n <= buf@.len(),
    ensures
        match read {
            None => event == ConnEvent::ReadFailed,
            Some(n) => if n == 0 {
                event == ConnEvent::Closed
            } else {
                event matches ConnEvent::Received(v) && v@ == buf@.subrange(0, n as int)
            },
        },
{
    match read {
        None => ConnEvent::ReadFailed,
        Some(n) => {
            if n == 0 {
                ConnEvent::Closed
            } else {
                let v = slice_to_vec(vstd::slice::slice_subrange(buf, 0, n));
                ConnEvent::Received(v)
            }
        },
    }
}

/// A finished connection stays finished, whatever happens next.
pub proof fn law_finished_connection_stays_finished(
    flavor: Flavor,
    ok: bool,
    event: ConnEvent,
    next: ConnState,
    action: ConnAction,
)
    requires
        transition(flavor, ConnState::Done(ok), event, next, action),
    ensures
        next == ConnState::Done(ok),
        action == ConnAction::Finish(ok),
{
}

/// "Payload received" is only ever answered to a request whose body was
/// decoded as a payload: right after the decoding, or, for a server that
/// publishes first, right after the payload was published and stored.
pub proof fn law_acknowledged_only_with_decoded_payload(
    flavor: Flavor,
    state: ConnState,
    event: ConnEvent,
    next: ConnState,
)
    requires
        transition(flavor, state, event, next, ConnAction::Reply(Notice::PayloadReceived)),
    ensures
        flavor != Flavor::PublishThenAck ==> state == ConnState::Decoding
            && event is PayloadDecoded,
        flavor == Flavor::PublishThenAck ==> state is Storing && event == ConnEvent::Stored,
{
}

/// What is published is exactly the payload that was decoded: either
/// straight from the decoding, or from a reply state that carries it.
pub proof fn law_published_payload_is_the_decoded_one(
    flavor: Flavor,
    state: ConnState,
    event: ConnEvent,
    next: ConnState,
    data: String,
)
    requires
        transition(flavor, state, event, next, ConnAction::Publish(data))
            || transition(flavor, state, event, next, ConnAction::PublishInBackground(data)),
    ensures
        (state == ConnState::Decoding && event == ConnEvent::PayloadDecoded(data))
            || (state == ConnState::Replying(AfterReply::Publish(data)) && event
            == ConnEvent::WriteDone),
{
}

/// A reply state that carries a payload to publish is only entered right
/// after that payload was decoded.
pub proof fn law_pending_publish_comes_from_decoding(
    flavor: Flavor,
    state: ConnState,
    event: ConnEvent,
    action: ConnAction,
    data: String,
)
    requires
        transition(flavor, state, event, ConnState::Replying(AfterReply::Publish(data)), action),
    ensures
        state == ConnState::Decoding,
        event == ConnEvent::PayloadDecoded(data),
        flavor != Flavor::PublishThenAck,
        action == ConnAction::Reply(Notice::PayloadReceived),
{
}

/// A decoded payload is published: at once by a server that publishes
/// first, and otherwise as soon as the acknowledgement has been written.
pub proof fn law_decoded_payload_is_published(
    flavor: Flavor,
    data: String,
    acked: ConnState,
    ack: ConnAction,
    next: ConnState,
    action: ConnAction,
)
    requires
        transition(flavor, ConnState::Decoding, ConnEvent::PayloadDecoded(data), acked, ack),
        flavor != Flavor::PublishThenAck ==> transition(flavor, acked, ConnEvent::WriteDone, next, action),
    ensures
        flavor == Flavor::PublishThenAck ==> ack == ConnAction::Publish(data),
        flavor == Flavor::AckThenPublishDetached ==> ack == ConnAction::Reply(Notice::PayloadReceived)
            && action == ConnAction::PublishInBackground(data),
        (flavor == Flavor::AckThenPublish || flavor == Flavor::KeepAlive) ==> ack == ConnAction::Reply(
            Notice::PayloadReceived,
        ) && action == ConnAction::Publish(data),
{
}

/// A server that publishes first stores a payload as the last one seen
/// only once publishing it has succeeded.
pub proof fn law_stored_only_after_publish(
    flavor: Flavor,
    state: ConnState,
    event: ConnEvent,
    next: ConnState,
    data: String,
)
    requires
        transition(flavor, state, event, next, ConnAction::Store(data)),
    ensures
        flavor == Flavor::PublishThenAck,
        state == ConnState::Publishing(data),
        event == ConnEvent::PublishDone,
{
}

/// A malformed request or payload never leads to a publish: the reply to it
/// is followed by the end of the connection or, on a kept-alive one, by the
/// next read.
pub proof fn law_malformed_input_is_not_published(
    flavor: Flavor,
    state: ConnState,
    event: ConnEvent,
    next: ConnState,
    notice: Notice,
)
    requires
        transition(flavor, state, event, next, ConnAction::Reply(notice)),
        notice == Notice::InvalidRequest || notice == Notice::InvalidPayload,
    ensures
        next == ConnState::Replying(after_malformed(flavor)),
        !(after_malformed(flavor) is Publish),
{
}

/// The reply texts, word for word.
pub proof fn law_notice_texts()
    ensures
        Notice::PayloadReceived.spec_text() == "Payload received",
        Notice::InvalidRequest.spec_text() == "Invalid HTTP request format",
        Notice::InvalidPayload.spec_text() == "Invalid payload format",
        Notice::ReadFailed.spec_text() == "Failed to read data",
        Notice::PublishFailed.spec_text() == "Failed to send data to Kafka",
{
}

/// A body that does not decode as a payload is answered "Invalid payload
/// format" by every server; the kept-alive server then reads the next
/// request, the others end the connection with success.
pub proof fn law_rejected_payload_is_answered_as_such(
    flavor: Flavor,
    next: ConnState,
    action: ConnAction,
)
    requires
        transition(flavor, ConnState::Decoding, ConnEvent::PayloadRejected, next, action),
    ensures
        action == ConnAction::Reply(Notice::InvalidPayload),
        flavor == Flavor::KeepAlive ==> next == ConnState::Replying(AfterReply::ReadAgain),
        flavor != Flavor::KeepAlive ==> next == ConnState::Replying(AfterReply::Finish(true)),
{
}

/// A request is decoded exactly when it holds `\r\n\r\n`, and then what is
/// decoded is the bytes after the first one; a request without one is
/// answered "Invalid HTTP request format", after which the kept-alive
/// server reads again and the others end with success.
pub proof fn law_received_request_is_cut_or_answered(
    flavor: Flavor,
    buf: Vec<u8>,
    next: ConnState,
    action: ConnAction,
)
    requires
        transition(flavor, ConnState::Reading, ConnEvent::Received(buf), next, action),
    ensures
        (exists|i: int| marker_at(buf@, i)) ==> next == ConnState::Decoding && decodes(
            action,
            buf@.subrange(first_marker(buf@)->0 + 4, buf@.len() as int),
        ),
        (forall|i: int| !marker_at(buf@, i)) ==> action == ConnAction::Reply(Notice::InvalidRequest),
        (forall|i: int| !marker_at(buf@, i)) && flavor == Flavor::KeepAlive ==> next
            == ConnState::Replying(AfterReply::ReadAgain),
        (forall|i: int| !marker_at(buf@, i)) && flavor != Flavor::KeepAlive ==> next
            == ConnState::Replying(AfterReply::Finish(true)),
{
    if exists|i: int| marker_at(buf@, i) {
        let i = choose|i: int| marker_at(buf@, i);
        lemma_first_marker_exists(buf@, i);
    }
}

/// When the client closes the connection before sending anything, the
/// publish-first server answers "Failed to read data" and fails; the others
/// end with success. A failed read ends the kept-alive server with failure
/// at once; the others answer "Failed to read data" and then fail.
pub proof fn law_closed_or_failed_reads(
    flavor: Flavor,
    event: ConnEvent,
    next: ConnState,
    action: ConnAction,
)
    requires
        event == ConnEvent::Closed || event == ConnEvent::ReadFailed,
        transition(flavor, ConnState::Reading, event, next, action),
    ensures
        event == ConnEvent::Closed && flavor == Flavor::PublishThenAck ==> action
            == ConnAction::Reply(Notice::ReadFailed) && next == ConnState::Replying(
            AfterReply::Finish(false),
        ),
        event == ConnEvent::Closed && flavor != Flavor::PublishThenAck ==> action
            == ConnAction::Finish(true),
        event == ConnEvent::ReadFailed && flavor == Flavor::KeepAlive ==> action
            == ConnAction::Finish(false),
        event == ConnEvent::ReadFailed && flavor != Flavor::KeepAlive ==> action
            == ConnAction::Reply(Notice::ReadFailed) && next == ConnState::Replying(
            AfterReply::Finish(false),
        ),
{
}

/// A write that fails ends the connection with failure, whatever the reply.
pub proof fn law_failed_write_fails_the_connection(
    flavor: Flavor,
    after: AfterReply,
    next: ConnState,
    action: ConnAction,
)
    requires
        transition(flavor, ConnState::Replying(after), ConnEvent::WriteFailed, next, action),
    ensures
        action == ConnAction::Finish(false),
        next == ConnState::Done(false),
{
}

/// After a publish: on success the kept-alive server reads again, the
/// publish-first server stores the payload, the others end with success;
/// on failure the publish-first server answers "Failed to send data to
/// Kafka" and ends with success, the others end with failure.
pub proof fn law_publish_outcome(
    flavor: Flavor,
    data: String,
    event: ConnEvent,
    next: ConnState,
    action: ConnAction,
)
    requires
        event == ConnEvent::PublishDone || event == ConnEvent::PublishFailed,
        transition(flavor, ConnState::Publishing(data), event, next, action),
    ensures
        event == ConnEvent::PublishDone && flavor == Flavor::KeepAlive ==> action == ConnAction::Read,
        event == ConnEvent::PublishDone && flavor == Flavor::PublishThenAck ==> action
            == ConnAction::Store(data),
        event == ConnEvent::PublishDone && flavor != Flavor::KeepAlive && flavor
            != Flavor::PublishThenAck ==> action == ConnAction::Finish(true),
        event == ConnEvent::PublishFailed && flavor == Flavor::PublishThenAck ==> action
            == ConnAction::Reply(Notice::PublishFailed) && next == ConnState::Replying(
            AfterReply::Finish(true),
        ),
        event == ConnEvent::PublishFailed && flavor != Flavor::PublishThenAck ==> action
            == ConnAction::Finish(false),
{
}

/// Once a reply is written, the connection goes on as the reply said:
/// ending with the given outcome, reading again, or publishing the payload
/// (in the background for the detached server).
pub proof fn law_written_reply_continues(
    flavor: Flavor,
    after: AfterReply,
    next: ConnState,
    action: ConnAction,
)
    requires
        transition(flavor, ConnState::Replying(after), ConnEvent::WriteDone, next, action),
    ensures
        after matches AfterReply::Finish(ok) ==> action == ConnAction::Finish(ok) && next
            == ConnState::Done(ok),
        after == AfterReply::ReadAgain ==> action == ConnAction::Read && next == ConnState::Reading,
        after matches AfterReply::Publish(d) ==> (if flavor == Flavor::AckThenPublishDetached {
            action == ConnAction::PublishInBackground(d) && next == ConnState::Done(true)
        } else {
            action == ConnAction::Publish(d) && next == ConnState::Publishing(d)
        }),
{
}

} // verus!
