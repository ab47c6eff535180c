use kafka_relay::connection::{
    read_event, start, step, ConnAction, ConnEvent, ConnState, Flavor, Notice, INVALID_PAYLOAD,
    INVALID_REQUEST, PAYLOAD_RECEIVED, PUBLISH_FAILED, READ_FAILED,
};

const REQUEST: &[u8] = b"POST / HTTP/1.1\r\nHost: localhost\r\n\r\n{\"data\":\"hello\"}";

fn received() -> ConnEvent {
    ConnEvent::Received(REQUEST.to_vec())
}

fn decode(flavor: Flavor) -> ConnState {
    let (s, _) = start();
    let (s, a) = step(flavor, s, received());
    match a {
        ConnAction::Decode(body) => assert_eq!(body, b"{\"data\":\"hello\"}".to_vec()),
        other => panic!("unexpected {:?}", other),
    }
    s
}

#[test]
fn notice_texts() {
    assert_eq!(Notice::PayloadReceived.text(), "Payload received");
    assert_eq!(Notice::PayloadReceived.text(), PAYLOAD_RECEIVED);
    assert_eq!(Notice::InvalidRequest.text(), INVALID_REQUEST);
    assert_eq!(Notice::InvalidPayload.text(), INVALID_PAYLOAD);
    assert_eq!(Notice::ReadFailed.text(), READ_FAILED);
    assert_eq!(Notice::PublishFailed.text(), PUBLISH_FAILED);
    assert_eq!(Notice::PublishFailed.text(), "Failed to send data to Kafka");
}

#[test]
fn starts_by_reading() {
    let (s, a) = start();
    assert!(matches!(s, ConnState::Reading));
    assert!(matches!(a, ConnAction::Read));
}

#[test]
fn ack_then_publish_happy_path() {
    let s = decode(Flavor::AckThenPublish);
    let (s, a) = step(Flavor::AckThenPublish, s, ConnEvent::PayloadDecoded("hello".to_string()));
    assert!(matches!(a, ConnAction::Reply(Notice::PayloadReceived)));
    let (s, a) = step(Flavor::AckThenPublish, s, ConnEvent::WriteDone);
    assert!(matches!(&a, ConnAction::Publish(d) if d == "hello"));
    let (s, a) = step(Flavor::AckThenPublish, s, ConnEvent::PublishDone);
    assert!(matches!(a, ConnAction::Finish(true)));
    assert!(matches!(s, ConnState::Done(true)));
}

#[test]
fn ack_then_publish_failure_fails_connection() {
    let s = decode(Flavor::AckThenPublish);
    let (s, _) = step(Flavor::AckThenPublish, s, ConnEvent::PayloadDecoded("x".to_string()));
    let (s, _) = step(Flavor::AckThenPublish, s, ConnEvent::WriteDone);
    let (_, a) = step(Flavor::AckThenPublish, s, ConnEvent::PublishFailed);
    assert!(matches!(a, ConnAction::Finish(false)));
}

#[test]
fn detached_publish_ends_with_success() {
    let s = decode(Flavor::AckThenPublishDetached);
    let (s, _) = step(Flavor::AckThenPublishDetached, s, ConnEvent::PayloadDecoded("x".to_string()));
    let (s, a) = step(Flavor::AckThenPublishDetached, s, ConnEvent::WriteDone);
    assert!(matches!(&a, ConnAction::PublishInBackground(d) if d == "x"));
    assert!(matches!(s, ConnState::Done(true)));
}

#[test]
fn malformed_request_is_answered() {
    let (s, _) = start();
    let (s, a) = step(Flavor::AckThenPublish, s, ConnEvent::Received(b"garbage".to_vec()));
    assert!(matches!(a, ConnAction::Reply(Notice::InvalidRequest)));
    let (_, a) = step(Flavor::AckThenPublish, s, ConnEvent::WriteDone);
    assert!(matches!(a, ConnAction::Finish(true)));
}

#[test]
fn malformed_payload_is_answered() {
    let s = decode(Flavor::AckThenPublishDetached);
    let (s, a) = step(Flavor::AckThenPublishDetached, s, ConnEvent::PayloadRejected);
    assert!(matches!(a, ConnAction::Reply(Notice::InvalidPayload)));
    let (_, a) = step(Flavor::AckThenPublishDetached, s, ConnEvent::WriteDone);
    assert!(matches!(a, ConnAction::Finish(true)));
}

#[test]
fn closed_and_failed_reads() {
    let (s, _) = start();
    let (_, a) = step(Flavor::AckThenPublish, s, ConnEvent::Closed);
    assert!(matches!(a, ConnAction::Finish(true)));
    let (s, _) = start();
    let (s, a) = step(Flavor::AckThenPublish, s, ConnEvent::ReadFailed);
    assert!(matches!(a, ConnAction::Reply(Notice::ReadFailed)));
    let (_, a) = step(Flavor::AckThenPublish, s, ConnEvent::WriteDone);
    assert!(matches!(a, ConnAction::Finish(false)));
    let (s, _) = start();
    let (_, a) = step(Flavor::KeepAlive, s, ConnEvent::ReadFailed);
    assert!(matches!(a, ConnAction::Finish(false)));
    let (s, _) = start();
    let (_, a) = step(Flavor::PublishThenAck, s, ConnEvent::Closed);
    assert!(matches!(a, ConnAction::Reply(Notice::ReadFailed)));
}

#[test]
fn keep_alive_reads_again() {
    let (s, _) = start();
    let (s, a) = step(Flavor::KeepAlive, s, ConnEvent::Received(b"no separator".to_vec()));
    assert!(matches!(a, ConnAction::Reply(Notice::InvalidRequest)));
    let (s, a) = step(Flavor::KeepAlive, s, ConnEvent::WriteDone);
    assert!(matches!(a, ConnAction::Read));
    let (s, _) = step(Flavor::KeepAlive, s, received());
    let (s, _) = step(Flavor::KeepAlive, s, ConnEvent::PayloadDecoded("k".to_string()));
    let (s, _) = step(Flavor::KeepAlive, s, ConnEvent::WriteDone);
    let (s, a) = step(Flavor::KeepAlive, s, ConnEvent::PublishDone);
    assert!(matches!(a, ConnAction::Read));
    let (_, a) = step(Flavor::KeepAlive, s, ConnEvent::Closed);
    assert!(matches!(a, ConnAction::Finish(true)));
}

#[test]
fn publish_then_ack_happy_path() {
    let f = Flavor::PublishThenAck;
    let s = decode(f);
    let (s, a) = step(f, s, ConnEvent::PayloadDecoded("p".to_string()));
    assert!(matches!(&a, ConnAction::Publish(d) if d == "p"));
    let (s, a) = step(f, s, ConnEvent::PublishDone);
    assert!(matches!(&a, ConnAction::Store(d) if d == "p"));
    let (s, a) = step(f, s, ConnEvent::Stored);
    assert!(matches!(a, ConnAction::Reply(Notice::PayloadReceived)));
    let (_, a) = step(f, s, ConnEvent::WriteFailed);
    assert!(matches!(a, ConnAction::Finish(false)));
}

#[test]
fn publish_then_ack_failure_is_answered() {
    let f = Flavor::PublishThenAck;
    let s = decode(f);
    let (s, _) = step(f, s, ConnEvent::PayloadDecoded("p".to_string()));
    let (s, a) = step(f, s, ConnEvent::PublishFailed);
    assert!(matches!(a, ConnAction::Reply(Notice::PublishFailed)));
    let (_, a) = step(f, s, ConnEvent::WriteDone);
    assert!(matches!(a, ConnAction::Finish(true)));
}

#[test]
fn invalid_utf8_head_still_gives_the_body() {
    let (s, _) = start();
    let (s, a) = step(Flavor::AckThenPublish, s, ConnEvent::Received(vec![0xFF, 13, 10, 13, 10]));
    assert!(matches!(&a, ConnAction::Decode(body) if body.is_empty()));
    assert!(matches!(s, ConnState::Decoding));
}

#[test]
fn finished_stays_finished() {
    let (_, a) = step(Flavor::KeepAlive, ConnState::Done(true), ConnEvent::Closed);
    assert!(matches!(a, ConnAction::Finish(true)));
}

#[test]
fn unexpected_event_fails() {
    let (s, _) = start();
    let (s, a) = step(Flavor::AckThenPublish, s, ConnEvent::WriteDone);
    assert!(matches!(a, ConnAction::Finish(false)));
    assert!(matches!(s, ConnState::Done(false)));
}

#[test]
fn read_events() {
    let buf = [1u8, 2, 3, 4];
    assert!(matches!(read_event(&buf, None), ConnEvent::ReadFailed));
    assert!(matches!(read_event(&buf, Some(0)), ConnEvent::Closed));
    assert!(matches!(read_event(&buf, Some(2)), ConnEvent::Received(v) if v == vec![1, 2]));
    assert!(matches!(read_event(&buf, Some(4)), ConnEvent::Received(v) if v == vec![1, 2, 3, 4]));
}
