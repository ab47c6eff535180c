//! The configurations of the Kafka producers that the servers create.

use vstd::prelude::*;
use rdkafka::config::ClientConfig;

verus! {

#[verifier::external_type_specification]
#[verifier::external_body]
pub struct ExClientConfig(ClientConfig);

/// The key/value settings held by a `ClientConfig`.
pub uninterp spec fn config_entries(config: ClientConfig) -> Map<Seq<char>, Seq<char>>;

/// Calls `ClientConfig::new`. Trusted: the new configuration holds no
/// settings (its log level, taken from the global logger, is left unsaid).
#[verifier::external_body]
fn new_client_config() -> (config: ClientConfig)
    ensures
        config_entries(config).is_empty(),
{
    ClientConfig::new()
}

/// Calls `ClientConfig::set`. Trusted: the setting `key` now holds `value`,
/// replacing an earlier value, and the other settings are unchanged.
#[verifier::external_body]
fn set_entry(config: &mut ClientConfig, key: &str, value: &str)
    ensures
        config_entries(*final(config)) == config_entries(*old(config)).insert(key@, value@),
{
    config.set(key, value);
}

/// The key under which every payload is published.
pub const RECORD_KEY: &'static str = "key";

/// The producer settings that a server uses on top of its bootstrap
/// servers.
#[derive(Clone, Copy, Debug, PartialEq, Eq, Structural)]
pub enum ProducerTuning {
    /// Only the bootstrap servers.
    Plain,
    /// Five-second message timeout, 5 ms linger, 64 KiB batches, LZ4.
    SmallBatches,
    /// Five-second message timeout, 10 ms linger, 256 KiB batches, LZ4.
    LargeBatches,
    /// A queue of one million messages / 5485760 KiB, 50 ms linger,
    /// 256 KiB batches, LZ4, full debug logging.
    Buffered,
    /// A queue of five million messages / 10485760 KiB, one
    /// acknowledgement, 50 ms linger, 256 KiB batches, LZ4, full debug
    /// logging.
    BufferedAcked,
}

/// The settings of a producer for `bootstrap` with `tuning`.
pub open spec fn tuned_entries(bootstrap: Seq<char>, tuning: ProducerTuning) -> Map<Seq<char>, Seq<char>> {
    let base = Map::<Seq<char>, Seq<char>>::empty().insert("bootstrap.servers"@, bootstrap);
    match tuning {
        ProducerTuning::Plain => base,
        ProducerTuning::SmallBatches => base
            .insert("message.timeout.ms"@, "5000"@)
            .insert("linger.ms"@, "5"@)
            .insert("batch.size"@, "65536"@)
            .insert("compression.type"@, "lz4"@),
        ProducerTuning::LargeBatches => base
            .insert("message.timeout.ms"@, "5000"@)
            .insert("linger.ms"@, "10"@)
            .insert("batch.size"@, "262144"@)
            .insert("compression.type"@, "lz4"@),
        ProducerTuning::Buffered => base
            .insert("message.timeout.ms"@, "5000"@)
            .insert("queue.buffering.max.messages"@, "1000000"@)
            .insert("queue.buffering.max.kbytes"@, "5485760"@)
            .insert("linger.ms"@, "50"@)
            .insert("batch.size"@, "262144"@)
            .insert("compression.type"@, "lz4"@)
            .insert("debug"@, "all"@),
        ProducerTuning::BufferedAcked => base
            .insert("message.timeout.ms"@, "5000"@)
            .insert("queue.buffering.max.kbytes"@, "10485760"@)
            .insert("queue.buffering.max.messages"@, "5000000"@)
            .insert("acks"@, "1"@)
            .insert("linger.ms"@, "50"@)
            .insert("batch.size"@, "262144"@)
            .insert("compression.type"@, "lz4"@)
            .insert("debug"@, "all"@),
    }
}

/// The configuration of a producer that talks to `bootstrap` with
/// `tuning`.
pub fn producer_config(bootstrap: &str, tuning: ProducerTuning) -> (config: ClientConfig)
    ensures
        config_entries(config) == tuned_entries(bootstrap@, tuning),
{
    let mut config = new_client_config();
    set_entry(&mut config, "bootstrap.servers", bootstrap);
    match tuning {
        ProducerTuning::Plain => {},
        ProducerTuning::SmallBatches => {
            set_entry(&mut config, "message.timeout.ms", "5000");
            set_entry(&mut config, "linger.ms", "5");
            set_entry(&mut config, "batch.size", "65536");
            set_entry(&mut config, "compression.type", "lz4");
        },
        ProducerTuning::LargeBatches => {
            set_entry(&mut config, "message.timeout.ms", "5000");
            set_entry(&mut config, "linger.ms", "10");
            set_entry(&mut config, "batch.size", "262144");
            set_entry(&mut config, "compression.type", "lz4");
        },
        ProducerTuning::Buffered => {
            set_entry(&mut config, "message.timeout.ms", "5000");
            set_entry(&mut config, "queue.buffering.max.messages", "1000000");
            set_entry(&mut config, "queue.buffering.max.kbytes", "5485760");
            set_entry(&mut config, "linger.ms", "50");
            set_entry(&mut config, "batch.size", "262144");
            set_entry(&mut config, "compression.type", "lz4");
            set_entry(&mut config, "debug", "all");
        },
        ProducerTuning::BufferedAcked => {
            set_entry(&mut config, "message.timeout.ms", "5000");
            set_entry(&mut config, "queue.buffering.max.kbytes", "10485760");
            set_entry(&mut config, "queue.buffering.max.messages", "5000000");
            set_entry(&mut config, "acks", "1");
            set_entry(&mut config, "linger.ms", "50");
            set_entry(&mut config, "batch.size", "262144");
            set_entry(&mut config, "compression.type", "lz4");
            set_entry(&mut config, "debug", "all");
        },
    }
    config
}

/// What every producer is configured with: the bootstrap servers it was
/// given, and, unless the tuning is `Plain`, a five-second message timeout
/// and LZ4 compression; then the batching settings of each tuning.
pub proof fn law_producer_settings(bootstrap: Seq<char>, tuning: ProducerTuning)
    ensures
        tuned_entries(bootstrap, tuning).contains_key("bootstrap.servers"@),
        tuned_entries(bootstrap, tuning)["bootstrap.servers"@] == bootstrap,
        tuning == ProducerTuning::Plain ==> tuned_entries(bootstrap, tuning).dom() == set![
            "bootstrap.servers"@,
        ],
        tuning != ProducerTuning::Plain ==> {
            &&& tuned_entries(bootstrap, tuning).contains_key("compression.type"@)
            &&& tuned_entries(bootstrap, tuning)["compression.type"@] == "lz4"@
            &&& tuned_entries(bootstrap, tuning).contains_key("message.timeout.ms"@)
            &&& tuned_entries(bootstrap, tuning)["message.timeout.ms"@] == "5000"@
            &&& tuned_entries(bootstrap, tuning).contains_key("linger.ms"@)
            &&& tuned_entries(bootstrap, tuning).contains_key("batch.size"@)
        },
        tuning == ProducerTuning::SmallBatches ==> {
            &&& tuned_entries(bootstrap, tuning)["linger.ms"@] == "5"@
            &&& tuned_entries(bootstrap, tuning)["batch.size"@] == "65536"@
            &&& !tuned_entries(bootstrap, tuning).contains_key("debug"@)
            &&& !tuned_entries(bootstrap, tuning).contains_key("acks"@)
        },
        tuning == ProducerTuning::LargeBatches ==> {
            &&& tuned_entries(bootstrap, tuning)["linger.ms"@] == "10"@
            &&& tuned_entries(bootstrap, tuning)["batch.size"@] == "262144"@
            &&& !tuned_entries(bootstrap, tuning).contains_key("debug"@)
            &&& !tuned_entries(bootstrap, tuning).contains_key("acks"@)
        },
        tuning == ProducerTuning::Buffered ==> {
            &&& tuned_entries(bootstrap, tuning)["linger.ms"@] == "50"@
            &&& tuned_entries(bootstrap, tuning)["batch.size"@] == "262144"@
            &&& tuned_entries(bootstrap, tuning)["queue.buffering.max.messages"@] == "1000000"@
            &&& tuned_entries(bootstrap, tuning)["queue.buffering.max.kbytes"@] == "5485760"@
            &&& tuned_entries(bootstrap, tuning)["debug"@] == "all"@
            &&& !tuned_entries(bootstrap, tuning).contains_key("acks"@)
        },
        tuning == ProducerTuning::BufferedAcked ==> {
            &&& tuned_entries(bootstrap, tuning)["linger.ms"@] == "50"@
            &&& tuned_entries(bootstrap, tuning)["batch.size"@] == "262144"@
            &&& tuned_entries(bootstrap, tuning)["queue.buffering.max.messages"@] == "5000000"@
            &&& tuned_entries(bootstrap, tuning)["queue.buffering.max.kbytes"@] == "10485760"@
            &&& tuned_entries(bootstrap, tuning)["acks"@] == "1"@
            &&& tuned_entries(bootstrap, tuning)["debug"@] == "all"@
        },
{
    reveal_strlit("bootstrap.servers");
    reveal_strlit("message.timeout.ms");
    reveal_strlit("linger.ms");
    reveal_strlit("batch.size");
    reveal_strlit("compression.type");
    reveal_strlit("queue.buffering.max.messages");
    reveal_strlit("queue.buffering.max.kbytes");
    reveal_strlit("acks");
    reveal_strlit("debug");
    broadcast use vstd::string::group_string_axioms;
    assert("bootstrap.servers"@.len() == 17);
    assert("message.timeout.ms"@.len() == 18);
    assert("linger.ms"@.len() == 9);
    assert("batch.size"@.len() == 10);
    assert("compression.type"@.len() == 16);
    assert("queue.buffering.max.messages"@.len() == 28);
    assert("queue.buffering.max.kbytes"@.len() == 26);
    assert("acks"@.len() == 4);
    assert("debug"@.len() == 5);
    if tuning == ProducerTuning::Plain {
        assert(tuned_entries(bootstrap, tuning).dom() =~= set!["bootstrap.servers"@]);
    }
}

} // verus!
