//! The servers of the project: where each one listens, which Kafka
//! producer it uses, and the records it publishes.

use vstd::prelude::*;
use vstd::slice::slice_to_vec;
use vstd::utf8::encode_utf8;
use crate::connection::{ConnEvent, Flavor};
use crate::memory::{outgoing_texts, text_of, update_last_payload};
use crate::producer::{ProducerTuning, RECORD_KEY};

verus! {

/// The servers of the project.
#[derive(Clone, Copy, Debug, PartialEq, Eq, Structural)]
pub enum Server {
    /// Raw TCP on `tokio-uring`; acknowledges, then publishes through a
    /// base producer to the remote cluster.
    TcpRemoteBase,
    /// Raw TCP on `tokio-uring`; acknowledges, then publishes in the
    /// background through a future producer.
    TcpRemoteFuture,
    /// Like `TcpRemoteFuture`, against a broker in a local container.
    TcpLocalFuture,
    /// Raw TCP on `tokio`, kept alive; publishes through a base producer.
    TcpTokioRemoteBase,
    /// Raw TCP on `tokio-uring`; publishes the stored and the current
    /// payload, then acknowledges.
    IoUringServer,
    /// `hyper` on `tokio`; publishes the stored and the current payload.
    TokioServer,
    /// `hyper`; queues bodies for a batch sender with a base producer.
    HyperLocalBase,
    /// `hyper`; queues bodies for a batch sender with a future producer.
    HyperLocalFuture,
    /// `hyper`; sends each body to the remote cluster as it comes.
    HyperTokioRemote,
}

pub const SESSIONLET_TOPIC: &'static str = "sessionlet-completion-tlb2-aa-scalable-pt1m-dev";
pub const PLACEHOLDER_TOPIC: &'static str = "kafka-topic";
pub const IO_URING_TOPIC: &'static str = "test_topic_io_uring";
pub const TOKIO_TOPIC: &'static str = "test_topic_tokio";
pub const BASE_BATCH_TOPIC: &'static str = "base_producer_topic";
pub const FUTURE_BATCH_TOPIC: &'static str = "future_producer_topic";

pub const REMOTE_BROKER: &'static str = "10.30.122.111:31210";
pub const PLACEHOLDER_BROKER: &'static str = "kafka-broker";
pub const PROD_BROKER: &'static str = "rccp103-9e.iad3.prod.conviva.com:32300";

pub const MAIN_ADDRESS: &'static str = "127.0.0.1:8080";
pub const IO_URING_ADDRESS: &'static str = "127.0.0.1:8081";

/// A record to publish.
#[derive(Debug)]
pub struct OutgoingRecord {
    pub topic: &'static str,
    pub key: Option<&'static str>,
    pub payload: Vec<u8>,
}

impl Server {
    /// The topic that the server publishes to.
    pub open spec fn spec_topic(self) -> &'static str {
        match self {
            Server::TcpRemoteBase | Server::TcpLocalFuture | Server::HyperTokioRemote => SESSIONLET_TOPIC,
            Server::TcpRemoteFuture | Server::TcpTokioRemoteBase => PLACEHOLDER_TOPIC,
            Server::IoUringServer => IO_URING_TOPIC,
            Server::TokioServer => TOKIO_TOPIC,
            Server::HyperLocalBase => BASE_BATCH_TOPIC,
            Server::HyperLocalFuture => FUTURE_BATCH_TOPIC,
        }
    }

    /// The topic that the server publishes to.
    pub fn topic(&self) -> (t: &'static str)
        ensures
            t == self.spec_topic(),
    {
        match self {
            Server::TcpRemoteBase | Server::TcpLocalFuture | Server::HyperTokioRemote => SESSIONLET_TOPIC,
            Server::TcpRemoteFuture | Server::TcpTokioRemoteBase => PLACEHOLDER_TOPIC,
            Server::IoUringServer => IO_URING_TOPIC,
            Server::TokioServer => TOKIO_TOPIC,
            Server::HyperLocalBase => BASE_BATCH_TOPIC,
            Server::HyperLocalFuture => FUTURE_BATCH_TOPIC,
        }
    }

    /// The key of the records that the server publishes, if they have one.
    pub open spec fn spec_key(self) -> Option<&'static str> {
        match self {
            Server::HyperLocalFuture | Server::HyperTokioRemote => None,
            _ => Some(RECORD_KEY),
        }
    }

    /// The key of the records that the server publishes, if they have one.
    pub fn key(&self) -> (k: Option<&'static str>)
        ensures
            k == self.spec_key(),
    {
        match self {
            Server::HyperLocalFuture | Server::HyperTokioRemote => None,
            _ => Some(RECORD_KEY),
        }
    }

    /// The producer settings of the server.
    pub open spec fn spec_tuning(self) -> ProducerTuning {
        match self {
            Server::TcpRemoteBase => ProducerTuning::BufferedAcked,
            Server::TcpRemoteFuture => ProducerTuning::LargeBatches,
            Server::TcpTokioRemoteBase => ProducerTuning::Buffered,
            Server::IoUringServer | Server::TokioServer => ProducerTuning::Plain,
            _ => ProducerTuning::SmallBatches,
        }
    }

    /// The producer settings of the server.
    pub fn tuning(&self) -> (t: ProducerTuning)
        ensures
            t == self.spec_tuning(),
    {
        match self {
            Server::TcpRemoteBase => ProducerTuning::BufferedAcked,
            Server::TcpRemoteFuture => ProducerTuning::LargeBatches,
            Server::TcpTokioRemoteBase => ProducerTuning::Buffered,
            Server::IoUringServer | Server::TokioServer => ProducerTuning::Plain,
            _ => ProducerTuning::SmallBatches,
        }
    }

    /// The broker the server talks to, or `None` where it starts a broker
    /// in a local container.
    pub open spec fn spec_fixed_broker(self) -> Option<&'static str> {
        match self {
            Server::TcpRemoteBase => Some(REMOTE_BROKER),
            Server::TcpRemoteFuture | Server::TcpTokioRemoteBase => Some(PLACEHOLDER_BROKER),
            Server::HyperTokioRemote => Some(PROD_BROKER),
            _ => None,
        }
    }

    /// The broker the server talks to, or `None` where it starts a broker
    /// in a local container.
    pub fn fixed_broker(&self) -> (b: Option<&'static str>)
        ensures
            b == self.spec_fixed_broker(),
    {
        match self {
            Server::TcpRemoteBase => Some(REMOTE_BROKER),
            Server::TcpRemoteFuture | Server::TcpTokioRemoteBase => Some(PLACEHOLDER_BROKER),
            Server::HyperTokioRemote => Some(PROD_BROKER),
            _ => None,
        }
    }

    /// How a raw-TCP server orders its reply and its publish; `None` for
    /// the `hyper` servers.
    pub open spec fn spec_flavor(self) -> Option<Flavor> {
        match self {
            Server::TcpRemoteBase => Some(Flavor::AckThenPublish),
            Server::TcpRemoteFuture | Server::TcpLocalFuture => Some(Flavor::AckThenPublishDetached),
            Server::TcpTokioRemoteBase => Some(Flavor::KeepAlive),
            Server::IoUringServer => Some(Flavor::PublishThenAck),
            _ => None,
        }
    }

    /// How a raw-TCP server orders its reply and its publish; `None` for
    /// the `hyper` servers.
    pub fn flavor(&self) -> (f: Option<Flavor>)
        ensures
            f == self.spec_flavor(),
    {
        match self {
            Server::TcpRemoteBase => Some(Flavor::AckThenPublish),
            Server::TcpRemoteFuture | Server::TcpLocalFuture => Some(Flavor::AckThenPublishDetached),
            Server::TcpTokioRemoteBase => Some(Flavor::KeepAlive),
            Server::IoUringServer => Some(Flavor::PublishThenAck),
            _ => None,
        }
    }

    /// The address the server listens on.
    pub open spec fn spec_address(self) -> &'static str {
        if self == Server::IoUringServer {
            IO_URING_ADDRESS
        } else {
            MAIN_ADDRESS
        }
    }

    /// The address the server listens on.
    pub fn address(&self) -> (a: &'static str)
        ensures
            a == self.spec_address(),
    {
        match self {
            Server::IoUringServer => IO_URING_ADDRESS,
            _ => MAIN_ADDRESS,
        }
    }
}

/// `record` is what `server` publishes for `payload`.
pub open spec fn is_record(record: OutgoingRecord, server: Server, payload: Seq<u8>) -> bool {
    &&& record.topic == server.spec_topic()
    &&& record.key == server.spec_key()
    &&& record.payload@ == payload
}

/// The record that `server` publishes for `payload`.
pub fn record_for(server: Server, payload: Vec<u8>) -> (record: OutgoingRecord)
    ensures
        is_record(record, server, payload@),
{
    OutgoingRecord { topic: server.topic(), key: server.key(), payload }
}

/// The record that `server` publishes for the text `data`, as UTF-8.
pub fn text_record(server: Server, data: &str) -> (record: OutgoingRecord)
    ensures
        is_record(record, server, encode_utf8(data@)),
{
    record_for(server, slice_to_vec(data.as_bytes()))
}

/// `records` are what `server` publishes for each of `texts`, in order.
pub open spec fn are_text_records(records: Seq<OutgoingRecord>, server: Server, texts: Seq<Seq<char>>) -> bool {
    &&& records.len() == texts.len()
    &&& forall|i: int| 0 <= i < records.len() ==> is_record(#[trigger] records[i], server, encode_utf8(texts[i]))
}

/// The records that `server` publishes for a request with payload
/// `current` when `previous` is the stored payload: the stored one first,
/// if any, then the current one.
pub fn publish_records(server: Server, previous: &Option<String>, current: &str) -> (records: Vec<OutgoingRecord>)
    ensures
        are_text_records(records@, server, outgoing_texts(text_of(*previous), current@)),
{
    let mut records: Vec<OutgoingRecord> = Vec::new();
    match previous {
        Some(p) => {
            records.push(text_record(server, p.as_str()));
        },
        None => {},
    }
    records.push(text_record(server, current));
    proof {
        let texts = outgoing_texts(text_of(*previous), current@);
        assert(records@.len() == texts.len());
        assert forall|i: int| 0 <= i < records@.len() implies is_record(#[trigger] records@[i], server, encode_utf8(texts[i])) by {
        }
    }
    records
}

/// Relays a request's payload the way the `hyper` relay server does: the
/// records to publish are those of `publish_records`, and `current` is
/// stored in place of the previous payload.
pub fn relay_payload(server: Server, last_payload: &mut Option<String>, current: &str) -> (records: Vec<OutgoingRecord>)
    ensures
        are_text_records(records@, server, outgoing_texts(text_of(*old(last_payload)), current@)),
        text_of(*final(last_payload)) == Some(current@),
{
    let records = publish_records(server, last_payload, current);
    update_last_payload(last_payload, current);
    records
}

/// The records that `server` publishes for a batch of queued bodies, in
/// the batch's order.
pub fn batch_records(server: Server, batch: Vec<Vec<u8>>) -> (records: Vec<OutgoingRecord>)
    ensures
        records@.len() == batch@.len(),
        forall|i: int| 0 <= i < batch@.len() ==> is_record(#[trigger] records@[i], server, batch@[i]@),
{
    let ghost bodies = batch@;
    let mut batch = batch;
    let mut reversed: Vec<OutgoingRecord> = Vec::new();
    while batch.len() > 0
        invariant
            batch@.len() + reversed@.len() == bodies.len(),
            batch@ == bodies.take(batch@.len() as int),
            forall|i: int| 0 <= i < reversed@.len() ==> is_record(#[trigger] reversed@[i], server,
                bodies[bodies.len() - 1 - i]@),
        decreases batch@.len(),
    {
        let body = batch.pop().unwrap();
        reversed.push(record_for(server, body));
    }
    let mut records: Vec<OutgoingRecord> = Vec::new();
    while reversed.len() > 0
        invariant
            records@.len() + reversed@.len() == bodies.len(),
            forall|i: int| 0 <= i < reversed@.len() ==> is_record(#[trigger] reversed@[i], server,
                bodies[bodies.len() - 1 - i]@),
            forall|i: int| 0 <= i < records@.len() ==> is_record(#[trigger] records@[i], server, bodies[i]@),
        decreases reversed@.len(),
    {
        let record = reversed.pop().unwrap();
        records.push(record);
    }
    records
}

/// Publishing a request's records one after the other, stopping at the
/// first that fails.
pub struct PublishRun {
    records: Vec<OutgoingRecord>,
    next: usize,
    failed: bool,
}

impl PublishRun {
    #[verifier::type_invariant]
    spec fn within_bounds(self) -> bool {
        self.next <= self.records@.len()
    }

    /// The records to publish, in order.
    pub closed spec fn records(&self) -> Seq<OutgoingRecord> {
        self.records@
    }

    /// How many records have been delivered so far (a prefix of them).
    pub closed spec fn delivered(&self) -> nat {
        self.next as nat
    }

    /// Whether a send has failed.
    pub closed spec fn has_failed(&self) -> bool {
        self.failed
    }

    /// Whether nothing remains to send: one send failed, or all succeeded.
    pub open spec fn spec_is_finished(&self) -> bool {
        self.has_failed() || self.delivered() >= self.records().len()
    }

    /// Starts publishing `records`, none sent yet.
    pub fn new(records: Vec<OutgoingRecord>) -> (run: PublishRun)
        ensures
            run.records() == records@,
            run.delivered() == 0,
            !run.has_failed(),
    {
        PublishRun { records, next: 0, failed: false }
    }

    /// Whether nothing remains to send.
    pub fn is_finished(&self) -> (b: bool)
        ensures
            b == self.spec_is_finished(),
    {
        self.failed || self.next >= self.records.len()
    }

    /// The record to send next.
    pub fn current(&self) -> (record: &OutgoingRecord)
        requires
            !self.spec_is_finished(),
        ensures
            *record == self.records()[self.delivered() as int],
            self.delivered() < self.records().len(),
    {
        proof {
            use_type_invariant(self);
        }
        &self.records[self.next]
    }

    /// Records the outcome of sending the current record.
    pub fn report(&mut self, delivered: bool)
        requires
            !old(self).spec_is_finished(),
        ensures
            final(self).records() == old(self).records(),
            delivered ==> final(self).delivered() == old(self).delivered() + 1 && !final(self).has_failed(),
            !delivered ==> final(self).delivered() == old(self).delivered() && final(self).has_failed(),
    {
        proof {
            use_type_invariant(&*self);
        }
        if delivered {
            assert(self.records@.len() == self.records.len());
            self.next = self.next + 1;
        } else {
            self.failed = true;
        }
    }

    /// The outcome of the whole run, once it is finished: a failure as soon
    /// as one send failed, success when every record was delivered.
    pub fn event(&self) -> (event: ConnEvent)
        requires
            self.spec_is_finished(),
        ensures
            self.has_failed() ==> event == ConnEvent::PublishFailed,
            !self.has_failed() ==> event == ConnEvent::PublishDone && self.delivered()
                == self.records().len(),
    {
        proof {
            use_type_invariant(self);
        }
        if self.failed {
            ConnEvent::PublishFailed
        } else {
            ConnEvent::PublishDone
        }
    }
}

/// Every request's own payload is the last record published for it, on
/// the servers that publish the stored payload too.
pub proof fn law_own_payload_published_last(previous: Option<Seq<char>>, current: Seq<char>)
    ensures
        outgoing_texts(previous, current).len() >= 1,
        outgoing_texts(previous, current).last() == current,
{
}

/// Where each server listens: only the io_uring server on port 8081, all
/// the others on 8080.
pub proof fn law_server_addresses(server: Server)
    ensures
        server == Server::IoUringServer ==> server.spec_address() == "127.0.0.1:8081",
        server != Server::IoUringServer ==> server.spec_address() == "127.0.0.1:8080",
{
}

/// The topic, record key, producer settings, broker and flavor of every
/// server.
pub proof fn law_server_table()
    ensures
        Server::TcpRemoteBase.spec_topic() == "sessionlet-completion-tlb2-aa-scalable-pt1m-dev",
        Server::TcpLocalFuture.spec_topic() == "sessionlet-completion-tlb2-aa-scalable-pt1m-dev",
        Server::HyperTokioRemote.spec_topic() == "sessionlet-completion-tlb2-aa-scalable-pt1m-dev",
        Server::TcpRemoteFuture.spec_topic() == "kafka-topic",
        Server::TcpTokioRemoteBase.spec_topic() == "kafka-topic",
        Server::IoUringServer.spec_topic() == "test_topic_io_uring",
        Server::TokioServer.spec_topic() == "test_topic_tokio",
        Server::HyperLocalBase.spec_topic() == "base_producer_topic",
        Server::HyperLocalFuture.spec_topic() == "future_producer_topic",
        Server::HyperLocalFuture.spec_key() is None,
        Server::HyperTokioRemote.spec_key() is None,
        Server::TcpRemoteBase.spec_key() == Some("key"),
        Server::TcpRemoteFuture.spec_key() == Some("key"),
        Server::TcpLocalFuture.spec_key() == Some("key"),
        Server::TcpTokioRemoteBase.spec_key() == Some("key"),
        Server::IoUringServer.spec_key() == Some("key"),
        Server::TokioServer.spec_key() == Some("key"),
        Server::HyperLocalBase.spec_key() == Some("key"),
        Server::TcpRemoteBase.spec_tuning() == ProducerTuning::BufferedAcked,
        Server::TcpRemoteFuture.spec_tuning() == ProducerTuning::LargeBatches,
        Server::TcpLocalFuture.spec_tuning() == ProducerTuning::SmallBatches,
        Server::TcpTokioRemoteBase.spec_tuning() == ProducerTuning::Buffered,
        Server::IoUringServer.spec_tuning() == ProducerTuning::Plain,
        Server::TokioServer.spec_tuning() == ProducerTuning::Plain,
        Server::HyperLocalBase.spec_tuning() == ProducerTuning::SmallBatches,
        Server::HyperLocalFuture.spec_tuning() == ProducerTuning::SmallBatches,
        Server::HyperTokioRemote.spec_tuning() == ProducerTuning::SmallBatches,
        Server::TcpRemoteBase.spec_fixed_broker() == Some("10.30.122.111:31210"),
        Server::TcpRemoteFuture.spec_fixed_broker() == Some("kafka-broker"),
        Server::TcpTokioRemoteBase.spec_fixed_broker() == Some("kafka-broker"),
        Server::HyperTokioRemote.spec_fixed_broker() == Some("rccp103-9e.iad3.prod.conviva.com:32300"),
        Server::TcpLocalFuture.spec_fixed_broker() is None,
        Server::IoUringServer.spec_fixed_broker() is None,
        Server::TokioServer.spec_fixed_broker() is None,
        Server::HyperLocalBase.spec_fixed_broker() is None,
        Server::HyperLocalFuture.spec_fixed_broker() is None,
        Server::TcpRemoteBase.spec_flavor() == Some(Flavor::AckThenPublish),
        Server::TcpRemoteFuture.spec_flavor() == Some(Flavor::AckThenPublishDetached),
        Server::TcpLocalFuture.spec_flavor() == Some(Flavor::AckThenPublishDetached),
        Server::TcpTokioRemoteBase.spec_flavor() == Some(Flavor::KeepAlive),
        Server::IoUringServer.spec_flavor() == Some(Flavor::PublishThenAck),
        Server::TokioServer.spec_flavor() is None,
        Server::HyperLocalBase.spec_flavor() is None,
        Server::HyperLocalFuture.spec_flavor() is None,
        Server::HyperTokioRemote.spec_flavor() is None,
{
}

} // verus!
