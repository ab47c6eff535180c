use kafka_relay::containers::{
    advertised_listener_update, alter_listener_command, host_and_port, kafka_image, listeners,
    local_bootstrap_servers, zk_image, KAFKA_BROKER_PORT, KAFKA_LISTENER_PORT, ZK_PORT,
};
use kafka_relay::producer::{producer_config, ProducerTuning, RECORD_KEY};
use kafka_relay::text::{owned, push_decimal_text, push_text, same_text};
use testcontainers::Image;

#[test]
fn producer_settings() {
    let c = producer_config("broker:1", ProducerTuning::Plain);
    assert_eq!(c.get("bootstrap.servers"), Some("broker:1"));
    assert_eq!(c.config_map().len(), 1);

    let c = producer_config("b", ProducerTuning::SmallBatches);
    assert_eq!(c.get("message.timeout.ms"), Some("5000"));
    assert_eq!(c.get("linger.ms"), Some("5"));
    assert_eq!(c.get("batch.size"), Some("65536"));
    assert_eq!(c.get("compression.type"), Some("lz4"));
    assert_eq!(c.config_map().len(), 5);

    let c = producer_config("b", ProducerTuning::LargeBatches);
    assert_eq!(c.get("linger.ms"), Some("10"));
    assert_eq!(c.get("batch.size"), Some("262144"));

    let c = producer_config("b", ProducerTuning::Buffered);
    assert_eq!(c.get("queue.buffering.max.messages"), Some("1000000"));
    assert_eq!(c.get("queue.buffering.max.kbytes"), Some("5485760"));
    assert_eq!(c.get("debug"), Some("all"));
    assert_eq!(c.get("acks"), None);
    assert_eq!(c.config_map().len(), 8);

    let c = producer_config("10.30.122.111:31210", ProducerTuning::BufferedAcked);
    assert_eq!(c.get("bootstrap.servers"), Some("10.30.122.111:31210"));
    assert_eq!(c.get("queue.buffering.max.kbytes"), Some("10485760"));
    assert_eq!(c.get("queue.buffering.max.messages"), Some("5000000"));
    assert_eq!(c.get("acks"), Some("1"));
    assert_eq!(c.config_map().len(), 9);
    assert_eq!(RECORD_KEY, "key");
}

#[test]
fn zookeeper_image() {
    let image = zk_image(ZK_PORT);
    assert_eq!(image.name(), "confluentinc/cp-zookeeper");
    assert_eq!(image.tag(), "latest");
    let env: Vec<(String, String)> = image.env_vars().map(|(k, v)| (k.clone(), v.clone())).collect();
    assert_eq!(env, vec![("ZOOKEEPER_CLIENT_PORT".to_string(), "2181".to_string())]);
    assert!(image.expose_ports().is_empty());
    assert!(image.ready_conditions().is_empty());
}

#[test]
fn kafka_broker_image() {
    let image = kafka_image(KAFKA_LISTENER_PORT, KAFKA_BROKER_PORT, "172.17.0.2:2181");
    assert_eq!(image.name(), "wurstmeister/kafka");
    assert_eq!(image.tag(), "latest");
    let env: std::collections::BTreeMap<String, String> =
        image.env_vars().map(|(k, v)| (k.clone(), v.clone())).collect();
    assert_eq!(env.len(), 9);
    assert_eq!(env["KAFKA_BROKER_ID"], "1");
    assert_eq!(env["KAFKA_LISTENERS"], "PLAINTEXT://0.0.0.0:9094,BROKER://0.0.0.0:9092");
    assert_eq!(env["KAFKA_ADVERTISED_LISTENERS"], "PLAINTEXT://127.0.0.1:9094,BROKER://127.0.0.1:9092");
    assert_eq!(env["KAFKA_LISTENER_SECURITY_PROTOCOL_MAP"], "PLAINTEXT:PLAINTEXT,BROKER:PLAINTEXT");
    assert_eq!(env["KAFKA_INTER_BROKER_LISTENER_NAME"], "BROKER");
    assert_eq!(env["KAFKA_ZOOKEEPER_CONNECT"], "172.17.0.2:2181");
    assert_eq!(env["KAFKA_OFFSETS_TOPIC_REPLICATION_FACTOR"], "1");
    assert_eq!(env["KAFKA_NUM_PARTITIONS"], "4");
    assert_eq!(env["KAFKA_HEAP_OPTS"], "-Xmx3G -Xms3G");
    assert_eq!(image.expose_ports(), vec![9094]);
    let ready = image.ready_conditions();
    assert_eq!(ready.len(), 1);
    assert!(matches!(&ready[0], testcontainers::core::WaitFor::StdOutMessage { message } if message == "started (kafka.server.KafkaServer)"));
}

#[test]
fn addresses_and_commands() {
    assert_eq!(local_bootstrap_servers(9092), "127.0.0.1:9092");
    assert_eq!(local_bootstrap_servers(0), "127.0.0.1:0");
    assert_eq!(host_and_port("10.0.0.7", 65535), "10.0.0.7:65535");
    assert_eq!(listeners("h", 1, 2), "PLAINTEXT://h:1,BROKER://h:2");
    assert_eq!(
        alter_listener_command(55003, 9092),
        "kafka-configs.sh --alter --bootstrap-server 0.0.0.0:9092 --entity-type brokers --entity-name 1 --add-config advertised.listeners=[PLAINTEXT://127.0.0.1:55003,BROKER://127.0.0.1:9092]"
    );
}

#[test]
fn listener_update_command() {
    let command = advertised_listener_update(55003, 9092);
    assert_eq!(command.cmd, alter_listener_command(55003, 9092));
    assert_eq!(command.ready_conditions.len(), 1);
    assert!(matches!(&command.ready_conditions[0], testcontainers::core::WaitFor::StdOutMessage { message } if message == "Updated broker 1 at path"));
}

#[test]
fn text_helpers() {
    let mut s = owned("port ");
    push_decimal_text(&mut s, 0);
    push_text(&mut s, "/");
    push_decimal_text(&mut s, u64::MAX);
    assert_eq!(s, format!("port 0/{}", u64::MAX));
    assert!(same_text("POST", "POST"));
    assert!(!same_text("POST", "POSt"));
    assert!(!same_text("POST", "POS"));
    assert!(same_text("", ""));
    assert!(same_text("é", "é"));
}
