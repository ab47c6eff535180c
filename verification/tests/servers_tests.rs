use kafka_relay::connection::{ConnEvent, Flavor};
use kafka_relay::producer::ProducerTuning;
use kafka_relay::servers::{
    batch_records, publish_records, record_for, relay_payload, text_record, PublishRun, Server,
};

#[test]
fn server_topics_and_keys() {
    assert_eq!(Server::IoUringServer.topic(), "test_topic_io_uring");
    assert_eq!(Server::TokioServer.topic(), "test_topic_tokio");
    assert_eq!(Server::TcpRemoteBase.topic(), "sessionlet-completion-tlb2-aa-scalable-pt1m-dev");
    assert_eq!(Server::TcpTokioRemoteBase.topic(), "kafka-topic");
    assert_eq!(Server::TcpRemoteFuture.topic(), "kafka-topic");
    assert_eq!(Server::HyperLocalBase.topic(), "base_producer_topic");
    assert_eq!(Server::HyperLocalFuture.topic(), "future_producer_topic");
    assert_eq!(Server::HyperTokioRemote.topic(), "sessionlet-completion-tlb2-aa-scalable-pt1m-dev");
    assert_eq!(Server::IoUringServer.key(), Some("key"));
    assert_eq!(Server::HyperLocalBase.key(), Some("key"));
    assert_eq!(Server::HyperLocalFuture.key(), None);
    assert_eq!(Server::HyperTokioRemote.key(), None);
}

#[test]
fn server_setups() {
    assert_eq!(Server::TcpRemoteBase.flavor(), Some(Flavor::AckThenPublish));
    assert_eq!(Server::TcpLocalFuture.flavor(), Some(Flavor::AckThenPublishDetached));
    assert_eq!(Server::TcpTokioRemoteBase.flavor(), Some(Flavor::KeepAlive));
    assert_eq!(Server::IoUringServer.flavor(), Some(Flavor::PublishThenAck));
    assert_eq!(Server::TokioServer.flavor(), None);
    assert_eq!(Server::TcpRemoteBase.tuning(), ProducerTuning::BufferedAcked);
    assert_eq!(Server::TcpTokioRemoteBase.tuning(), ProducerTuning::Buffered);
    assert_eq!(Server::TcpRemoteFuture.tuning(), ProducerTuning::LargeBatches);
    assert_eq!(Server::HyperLocalBase.tuning(), ProducerTuning::SmallBatches);
    assert_eq!(Server::IoUringServer.tuning(), ProducerTuning::Plain);
    assert_eq!(Server::TcpRemoteBase.fixed_broker(), Some("10.30.122.111:31210"));
    assert_eq!(Server::TcpTokioRemoteBase.fixed_broker(), Some("kafka-broker"));
    assert_eq!(Server::HyperTokioRemote.fixed_broker(), Some("rccp103-9e.iad3.prod.conviva.com:32300"));
    assert_eq!(Server::IoUringServer.fixed_broker(), None);
    assert_eq!(Server::IoUringServer.address(), "127.0.0.1:8081");
    assert_eq!(Server::TcpRemoteBase.address(), "127.0.0.1:8080");
}

#[test]
fn records_carry_topic_key_and_payload() {
    let r = text_record(Server::TcpRemoteBase, "héllo");
    assert_eq!(r.topic, "sessionlet-completion-tlb2-aa-scalable-pt1m-dev");
    assert_eq!(r.key, Some("key"));
    assert_eq!(r.payload, "héllo".as_bytes().to_vec());
    let r = record_for(Server::HyperTokioRemote, vec![1, 2, 3]);
    assert_eq!(r.key, None);
    assert_eq!(r.payload, vec![1, 2, 3]);
}

#[test]
fn publish_first_server_sends_stored_then_current() {
    let records = publish_records(Server::IoUringServer, &Some("prev".to_string()), "now");
    assert_eq!(records.len(), 2);
    assert_eq!(records[0].payload, b"prev".to_vec());
    assert_eq!(records[1].payload, b"now".to_vec());
    assert!(records.iter().all(|r| r.topic == "test_topic_io_uring" && r.key == Some("key")));
    let records = publish_records(Server::IoUringServer, &None, "first");
    assert_eq!(records.len(), 1);
    assert_eq!(records[0].payload, b"first".to_vec());
}

#[test]
fn relay_server_publishes_each_payload_at_once() {
    let mut last = None;
    let first = relay_payload(Server::TokioServer, &mut last, "a");
    assert_eq!(first.len(), 1);
    assert_eq!(first[0].payload, b"a".to_vec());
    assert_eq!(first[0].topic, "test_topic_tokio");
    let second = relay_payload(Server::TokioServer, &mut last, "b");
    assert_eq!(second.len(), 2);
    assert_eq!(second[0].payload, b"a".to_vec());
    assert_eq!(second[1].payload, b"b".to_vec());
    assert_eq!(last.as_deref(), Some("b"));
}

#[test]
fn batch_records_keep_batch_order() {
    let records = batch_records(Server::HyperLocalBase, vec![b"x".to_vec(), b"y".to_vec(), b"z".to_vec()]);
    let payloads: Vec<Vec<u8>> = records.iter().map(|r| r.payload.clone()).collect();
    assert_eq!(payloads, vec![b"x".to_vec(), b"y".to_vec(), b"z".to_vec()]);
    assert!(records.iter().all(|r| r.topic == "base_producer_topic" && r.key == Some("key")));
    assert!(batch_records(Server::HyperLocalFuture, Vec::new()).is_empty());
}

#[test]
fn publish_run_delivers_in_order() {
    let records = publish_records(Server::IoUringServer, &Some("p".to_string()), "c");
    let mut run = PublishRun::new(records);
    let mut sent = Vec::new();
    while !run.is_finished() {
        sent.push(run.current().payload.clone());
        run.report(true);
    }
    assert_eq!(sent, vec![b"p".to_vec(), b"c".to_vec()]);
    assert!(matches!(run.event(), ConnEvent::PublishDone));
}

#[test]
fn publish_run_stops_at_first_failure() {
    let records = publish_records(Server::IoUringServer, &Some("p".to_string()), "c");
    let mut run = PublishRun::new(records);
    assert_eq!(run.current().payload, b"p".to_vec());
    run.report(false);
    assert!(run.is_finished());
    assert!(matches!(run.event(), ConnEvent::PublishFailed));
}
