# search_controller

A Kubernetes controller that turns `SearchIndex` resources into a Kafka topic (through
Strimzi), a Meilisearch index and a consumer Deployment that feeds the index from the topic.

- `src/` is the verified library: the resource types and their defaults, the status
  conditions and their laws, the reconcile decisions and step order, the consumer
  Deployment, the Meilisearch endpoints, settings and task polling, the consumer's document
  batching, and the Kafka helpers (client settings, errors, messages, Strimzi topics and the
  readiness checks). Verus proves every function's contract, except those of four small
  wrappers around outside calls (the clock, two JSON parses and UTF-8 decoding), whose
  contracts restate what those calls are documented to do and are believed.
- `app/` runs it: the controller process, the consumer, the producer and the CRD generator,
  with the Kubernetes, Kafka and HTTP calls. They are one binary that picks its program by the
  name it is started under, so the image installs it as `/usr/local/bin/consumer` (the command of
  the consumer Deployment), `producer` and `crdgen` as well.
- `tests/` exercises the library on concrete values.
