# kafka_relay

The verified core of a set of HTTP-to-Kafka relay servers. Clients POST a
JSON payload such as `{"data": "..."}`; a server extracts the body, decodes
the payload, replies with a plain-text `200 OK` and publishes the payload's
`data` to a Kafka topic.

## Layout

- `src/` — the library, verified with Verus:
  - `framing` — cutting the body out of a raw HTTP request, decimal
    numbers, and building the plain-text reply;
  - `connection` — the per-connection state machine (read, decode, reply,
    publish, store, finish) for the four server flavors;
  - `writer` — writing a reply through partial writes;
  - `memory` — the payload kept from one request to the next and the
    messages published for each request;
  - `batching` — draining the shared buffer of queued bodies in batches;
  - `routing` — which requests the `hyper` handlers accept and what they
    answer;
  - `producer` — the Kafka producer configurations;
  - `servers` — each server's topic, record key, producer settings,
    broker and address, and the records it publishes;
  - `containers` — the Zookeeper and Kafka container images and the
    addresses and commands of the local test environment;
  - `text` — decimal numbers in strings and string comparison.
- `app/` — the servers themselves: sockets, `tokio`/`tokio-uring`
  runtimes, `hyper`, JSON decoding with `serde`, Kafka producers and
  Docker containers. `app/main.rs` picks a server by its first argument.
- `tests/` — tests of the library on concrete values.
