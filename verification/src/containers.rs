//! The Zookeeper and Kafka container images of the local test environment,
//! and the addresses and commands that go with them.

use vstd::prelude::*;
use testcontainers::GenericImage;
use crate::text::{decimal_text, owned, push_decimal_text, push_text};

verus! {

#[verifier::external_type_specification]
#[verifier::external_body]
pub struct ExGenericImage(GenericImage);

#[verifier::external_type_specification]
#[verifier::external_body]
pub struct ExWaitFor(testcontainers::core::WaitFor);

/// The environment variables that a container image sets.
pub uninterp spec fn image_env_vars(image: GenericImage) -> Map<Seq<char>, Seq<char>>;

/// The ports that a container image exposes, in the order they were added.
pub uninterp spec fn image_exposed_ports(image: GenericImage) -> Seq<u16>;

/// The name and the tag of a container image.
pub uninterp spec fn image_reference(image: GenericImage) -> (Seq<char>, Seq<char>);

/// The readiness conditions of a container image, in the order they were
/// added, each seen through `stdout_wait_message`.
pub uninterp spec fn image_ready_conditions(image: GenericImage) -> Seq<Option<Seq<char>>>;

/// The message that a readiness condition waits for on the container's
/// standard output, or `None` for a condition of another kind.
pub uninterp spec fn stdout_wait_message(condition: testcontainers::core::WaitFor) -> Option<Seq<char>>;

#[verifier::external_type_specification]
#[verifier::external_body]
pub struct ExExecCommand(testcontainers::core::ExecCommand);

/// The shell command of an `ExecCommand`.
pub uninterp spec fn exec_command_text(command: testcontainers::core::ExecCommand) -> Seq<char>;

/// The readiness conditions of an `ExecCommand`, in order, each seen
/// through `stdout_wait_message`.
pub uninterp spec fn exec_ready_conditions(command: testcontainers::core::ExecCommand) -> Seq<Option<Seq<char>>>;

/// Calls `GenericImage::new`. Trusted: the image has this name and tag, no
/// environment variables, no exposed ports and no readiness conditions.
#[verifier::external_body]
fn new_image(name: &str, tag: &str) -> (image: GenericImage)
    ensures
        image_reference(image) == (name@, tag@),
        image_env_vars(image).is_empty(),
        image_exposed_ports(image).len() == 0,
        image_ready_conditions(image).len() == 0,
{
    GenericImage::new(name, tag)
}

/// Calls `GenericImage::with_env_var`. Trusted: the variable `key` now
/// holds `value`; the rest of the image is unchanged.
#[verifier::external_body]
fn image_with_env_var(image: GenericImage, key: &str, value: &str) -> (res: GenericImage)
    ensures
        image_env_vars(res) == image_env_vars(image).insert(key@, value@),
        image_exposed_ports(res) == image_exposed_ports(image),
        image_reference(res) == image_reference(image),
        image_ready_conditions(res) == image_ready_conditions(image),
{
    image.with_env_var(key, value)
}

/// Calls `GenericImage::with_exposed_port`. Trusted: `port` is appended to
/// the exposed ports; the rest of the image is unchanged.
#[verifier::external_body]
fn image_with_exposed_port(image: GenericImage, port: u16) -> (res: GenericImage)
    ensures
        image_exposed_ports(res) == image_exposed_ports(image).push(port),
        image_env_vars(res) == image_env_vars(image),
        image_reference(res) == image_reference(image),
        image_ready_conditions(res) == image_ready_conditions(image),
{
    image.with_exposed_port(port)
}

/// Calls `GenericImage::with_wait_for`. Trusted: `condition` is appended
/// to the readiness conditions; the rest of the image is unchanged.
#[verifier::external_body]
fn image_with_wait_for(image: GenericImage, condition: testcontainers::core::WaitFor) -> (res: GenericImage)
    ensures
        image_ready_conditions(res) == image_ready_conditions(image).push(stdout_wait_message(condition)),
        image_exposed_ports(res) == image_exposed_ports(image),
        image_env_vars(res) == image_env_vars(image),
        image_reference(res) == image_reference(image),
{
    image.with_wait_for(condition)
}

/// Calls `WaitFor::message_on_stdout`. Trusted: the condition waits until
/// `message` appears on the container's standard output.
#[verifier::external_body]
fn stdout_message(message: &str) -> (condition: testcontainers::core::WaitFor)
    ensures
        stdout_wait_message(condition) == Some(message@),
{
    testcontainers::core::WaitFor::message_on_stdout(message)
}

/// Zookeeper's client port inside its container.
pub const ZK_PORT: u16 = 2181;
/// The Kafka broker's inter-broker port inside its container.
pub const KAFKA_BROKER_PORT: u16 = 9092;
/// The Kafka listener port inside its container.
pub const KAFKA_LISTENER_PORT: u16 = 9094;

/// `PLAINTEXT://{host}:{listener},BROKER://{host}:{broker}`
pub open spec fn listener_list(host: Seq<char>, listener: u16, broker: u16) -> Seq<char> {
    "PLAINTEXT://"@ + host + ":"@ + decimal_text(listener as nat) + ",BROKER://"@ + host + ":"@
        + decimal_text(broker as nat)
}

/// Writes the listener list of a broker reachable at `host`.
pub fn listeners(host: &str, listener: u16, broker: u16) -> (s: String)
    ensures
        s@ == listener_list(host@, listener, broker),
{
    let mut s = owned("PLAINTEXT://");
    push_text(&mut s, host);
    push_text(&mut s, ":");
    push_decimal_text(&mut s, listener as u64);
    push_text(&mut s, ",BROKER://");
    push_text(&mut s, host);
    push_text(&mut s, ":");
    push_decimal_text(&mut s, broker as u64);
    s
}

/// `{host}:{port}`
pub open spec fn host_port(host: Seq<char>, port: u16) -> Seq<char> {
    host + ":"@ + decimal_text(port as nat)
}

/// Writes the address `host:port`.
pub fn host_and_port(host: &str, port: u16) -> (s: String)
    ensures
        s@ == host_port(host@, port),
{
    let mut s = owned(host);
    push_text(&mut s, ":");
    push_decimal_text(&mut s, port as u64);
    s
}

/// The bootstrap servers of a broker whose listener the host maps to
/// `port`.
pub fn local_bootstrap_servers(port: u16) -> (s: String)
    ensures
        s@ == host_port("127.0.0.1"@, port),
{
    host_and_port("127.0.0.1", port)
}

/// The command that makes the broker advertise `new_listener_port` as its
/// external listener port.
pub open spec fn advertised_listener_command(new_listener_port: u16, broker_port: u16) -> Seq<char> {
    "kafka-configs.sh --alter --bootstrap-server 0.0.0.0:"@ + decimal_text(broker_port as nat)
        + " --entity-type brokers --entity-name 1 --add-config advertised.listeners=["@
        + listener_list("127.0.0.1"@, new_listener_port, broker_port) + "]"@
}

/// Writes the command that makes the broker advertise `new_listener_port`.
pub fn alter_listener_command(new_listener_port: u16, broker_port: u16) -> (s: String)
    ensures
        s@ == advertised_listener_command(new_listener_port, broker_port),
{
    let mut s = owned("kafka-configs.sh --alter --bootstrap-server 0.0.0.0:");
    push_decimal_text(&mut s, broker_port as u64);
    push_text(&mut s, " --entity-type brokers --entity-name 1 --add-config advertised.listeners=[");
    let l = listeners("127.0.0.1", new_listener_port, broker_port);
    push_text(&mut s, l.as_str());
    push_text(&mut s, "]");
    s
}

/// The output line that shows the broker took the new configuration.
pub const BROKER_UPDATED: &'static str = "Updated broker 1 at path";

/// Builds an `ExecCommand` from its two fields. Trusted: the command holds
/// `cmd` and the one readiness condition `condition`.
#[verifier::external_body]
fn exec_command(cmd: String, condition: testcontainers::core::WaitFor) -> (command: testcontainers::core::ExecCommand)
    ensures
        exec_command_text(command) == cmd@,
        exec_ready_conditions(command) == seq![stdout_wait_message(condition)],
{
    testcontainers::core::ExecCommand { cmd, ready_conditions: vec![condition] }
}

/// The command to run in the broker's container to make it advertise
/// `new_listener_port`, done once the broker reports the update.
pub fn advertised_listener_update(new_listener_port: u16, broker_port: u16) -> (command: testcontainers::core::ExecCommand)
    ensures
        exec_command_text(command) == advertised_listener_command(new_listener_port, broker_port),
        exec_ready_conditions(command) == seq![Some(BROKER_UPDATED@)],
{
    exec_command(alter_listener_command(new_listener_port, broker_port), stdout_message(BROKER_UPDATED))
}

/// The Zookeeper image, serving clients on `port`.
pub fn zk_image(port: u16) -> (image: GenericImage)
    ensures
        image_reference(image) == ("confluentinc/cp-zookeeper"@, "latest"@),
        image_env_vars(image) == map!["ZOOKEEPER_CLIENT_PORT"@ => decimal_text(port as nat)],
        image_exposed_ports(image).len() == 0,
        image_ready_conditions(image).len() == 0,
{
    let image = new_image("confluentinc/cp-zookeeper", "latest");
    let mut value = String::new();
    push_decimal_text(&mut value, port as u64);
    assert(value@ =~= decimal_text(port as nat));
    let image = image_with_env_var(image, "ZOOKEEPER_CLIENT_PORT", value.as_str());
    assert(image_env_vars(image) =~= map!["ZOOKEEPER_CLIENT_PORT"@ => decimal_text(port as nat)]);
    image
}

/// The output line that shows the broker has started.
pub const KAFKA_STARTED: &'static str = "started (kafka.server.KafkaServer)";

/// The environment of the Kafka image.
pub open spec fn kafka_env(kafka_listener_port: u16, kafka_broker_port: u16, zk_connect: Seq<char>) -> Map<Seq<char>, Seq<char>> {
    Map::<Seq<char>, Seq<char>>::empty()
        .insert("KAFKA_BROKER_ID"@, "1"@)
        .insert("KAFKA_LISTENERS"@, listener_list("0.0.0.0"@, kafka_listener_port, kafka_broker_port))
        .insert("KAFKA_ADVERTISED_LISTENERS"@, listener_list("127.0.0.1"@, kafka_listener_port, kafka_broker_port))
        .insert("KAFKA_LISTENER_SECURITY_PROTOCOL_MAP"@, "PLAINTEXT:PLAINTEXT,BROKER:PLAINTEXT"@)
        .insert("KAFKA_INTER_BROKER_LISTENER_NAME"@, "BROKER"@)
        .insert("KAFKA_ZOOKEEPER_CONNECT"@, zk_connect)
        .insert("KAFKA_OFFSETS_TOPIC_REPLICATION_FACTOR"@, "1"@)
        .insert("KAFKA_NUM_PARTITIONS"@, "4"@)
        .insert("KAFKA_HEAP_OPTS"@, "-Xmx3G -Xms3G"@)
}

/// The Kafka image: a broker with a listener on `kafka_listener_port` and
/// an inter-broker port `kafka_broker_port`, registered with the Zookeeper
/// at `zk_connect_string`, ready once the server has started.
pub fn kafka_image(kafka_listener_port: u16, kafka_broker_port: u16, zk_connect_string: &str) -> (image: GenericImage)
    ensures
        image_reference(image) == ("wurstmeister/kafka"@, "latest"@),
        image_env_vars(image) == kafka_env(kafka_listener_port, kafka_broker_port, zk_connect_string@),
        image_exposed_ports(image) == seq![kafka_listener_port],
        image_ready_conditions(image) == seq![Some(KAFKA_STARTED@)],
{
    let image = new_image("wurstmeister/kafka", "latest");
    let image = image_with_wait_for(image, stdout_message(KAFKA_STARTED));
    let image = image_with_env_var(image, "KAFKA_BROKER_ID", "1");
    let inside = listeners("0.0.0.0", kafka_listener_port, kafka_broker_port);
    let image = image_with_env_var(image, "KAFKA_LISTENERS", inside.as_str());
    let advertised = listeners("127.0.0.1", kafka_listener_port, kafka_broker_port);
    let image = image_with_env_var(image, "KAFKA_ADVERTISED_LISTENERS", advertised.as_str());
    let image = image_with_env_var(
        image,
        "KAFKA_LISTENER_SECURITY_PROTOCOL_MAP",
        "PLAINTEXT:PLAINTEXT,BROKER:PLAINTEXT",
    );
    let image = image_with_env_var(image, "KAFKA_INTER_BROKER_LISTENER_NAME", "BROKER");
    let image = image_with_env_var(image, "KAFKA_ZOOKEEPER_CONNECT", zk_connect_string);
    let image = image_with_env_var(image, "KAFKA_OFFSETS_TOPIC_REPLICATION_FACTOR", "1");
    let image = image_with_env_var(image, "KAFKA_NUM_PARTITIONS", "4");
    let image = image_with_env_var(image, "KAFKA_HEAP_OPTS", "-Xmx3G -Xms3G");
    let image = image_with_exposed_port(image, kafka_listener_port);
    assert(image_env_vars(image) =~= kafka_env(kafka_listener_port, kafka_broker_port, zk_connect_string@));
    assert(image_exposed_ports(image) =~= seq![kafka_listener_port]);
    assert(image_ready_conditions(image) =~= seq![Some(KAFKA_STARTED@)]);
    image
}

/// The Kafka container's environment: broker 1, listening on the listener
/// and inter-broker ports on all interfaces and advertising them on the
/// loopback address, with plain-text security on both, inter-broker
/// traffic on `BROKER`, the given Zookeeper, a replication factor of 1,
/// four partitions and a 3 GB heap.
pub proof fn law_kafka_environment(listener: u16, broker: u16, zk_connect: Seq<char>)
    ensures
        kafka_env(listener, broker, zk_connect)["KAFKA_BROKER_ID"@] == "1"@,
        kafka_env(listener, broker, zk_connect)["KAFKA_LISTENERS"@] == "PLAINTEXT://0.0.0.0:"@
            + decimal_text(listener as nat) + ",BROKER://0.0.0.0:"@ + decimal_text(broker as nat),
        kafka_env(listener, broker, zk_connect)["KAFKA_ADVERTISED_LISTENERS"@] == "PLAINTEXT://127.0.0.1:"@
            + decimal_text(listener as nat) + ",BROKER://127.0.0.1:"@ + decimal_text(broker as nat),
        kafka_env(listener, broker, zk_connect)["KAFKA_LISTENER_SECURITY_PROTOCOL_MAP"@]
            == "PLAINTEXT:PLAINTEXT,BROKER:PLAINTEXT"@,
        kafka_env(listener, broker, zk_connect)["KAFKA_INTER_BROKER_LISTENER_NAME"@] == "BROKER"@,
        kafka_env(listener, broker, zk_connect)["KAFKA_ZOOKEEPER_CONNECT"@] == zk_connect,
        kafka_env(listener, broker, zk_connect)["KAFKA_OFFSETS_TOPIC_REPLICATION_FACTOR"@] == "1"@,
        kafka_env(listener, broker, zk_connect)["KAFKA_NUM_PARTITIONS"@] == "4"@,
        kafka_env(listener, broker, zk_connect)["KAFKA_HEAP_OPTS"@] == "-Xmx3G -Xms3G"@,
{
    reveal_strlit("KAFKA_BROKER_ID");
    reveal_strlit("KAFKA_LISTENERS");
    reveal_strlit("KAFKA_ADVERTISED_LISTENERS");
    reveal_strlit("KAFKA_LISTENER_SECURITY_PROTOCOL_MAP");
    reveal_strlit("KAFKA_INTER_BROKER_LISTENER_NAME");
    reveal_strlit("KAFKA_ZOOKEEPER_CONNECT");
    reveal_strlit("KAFKA_OFFSETS_TOPIC_REPLICATION_FACTOR");
    reveal_strlit("KAFKA_NUM_PARTITIONS");
    reveal_strlit("KAFKA_HEAP_OPTS");
    broadcast use vstd::string::group_string_axioms;
    assert("KAFKA_BROKER_ID"@.len() == 15);
    assert("KAFKA_LISTENERS"@.len() == 15);
    assert("KAFKA_HEAP_OPTS"@.len() == 15);
    assert("KAFKA_ADVERTISED_LISTENERS"@.len() == 26);
    assert("KAFKA_LISTENER_SECURITY_PROTOCOL_MAP"@.len() == 36);
    assert("KAFKA_INTER_BROKER_LISTENER_NAME"@.len() == 32);
    assert("KAFKA_ZOOKEEPER_CONNECT"@.len() == 23);
    assert("KAFKA_OFFSETS_TOPIC_REPLICATION_FACTOR"@.len() == 38);
    assert("KAFKA_NUM_PARTITIONS"@.len() == 20);
    assert("KAFKA_BROKER_ID"@[6] == 'B');
    assert("KAFKA_LISTENERS"@[6] == 'L');
    assert("KAFKA_HEAP_OPTS"@[6] == 'H');
    reveal_strlit("PLAINTEXT://");
    reveal_strlit(":");
    reveal_strlit(",BROKER://");
    reveal_strlit("0.0.0.0");
    reveal_strlit("127.0.0.1");
    reveal_strlit("PLAINTEXT://0.0.0.0:");
    reveal_strlit(",BROKER://0.0.0.0:");
    reveal_strlit("PLAINTEXT://127.0.0.1:");
    reveal_strlit(",BROKER://127.0.0.1:");
    let l = decimal_text(listener as nat);
    let b = decimal_text(broker as nat);
    assert(listener_list("0.0.0.0"@, listener, broker) =~= "PLAINTEXT://0.0.0.0:"@ + l
        + ",BROKER://0.0.0.0:"@ + b);
    assert(listener_list("127.0.0.1"@, listener, broker) =~= "PLAINTEXT://127.0.0.1:"@ + l
        + ",BROKER://127.0.0.1:"@ + b);
}

} // verus!
