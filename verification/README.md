# aws-pubsub-lite

A small publish/subscribe layer over AWS SNS topics and SQS queues, whose
decisions carry proved contracts.

- `src/` is the library: resource names and their validation, settings read
  from an environment snapshot, the JSON policies sent to AWS (a queue's
  redrive policy towards a dead-letter queue among them), the topic and queue
  registries, the dispatch of a message to its handlers, the buffering of
  received messages and the steps of a subscription, down to its end and the
  release of its queue. Its contact points with `regex`, `serde_json` and a
  few std functions are in `src/trusted.rs`.
- `app/` is the asynchronous side: the SNS and SQS clients, the polling with
  retries (`tokio-retry`), the handler tasks, reading the process environment,
  and error types with `std::error::Error` impls.
- `tests/` runs the library on concrete values.

Settings come from `PUBSUB_*` variables: `PUBSUB_AWS_ACCESS_KEY_ID`,
`PUBSUB_AWS_SECRET_ACCESS_KEY`, `PUBSUB_AWS_REGION`, the `PUBSUB_QUEUE_*`
variables and, optionally, the `PUBSUB_TOPIC_*` delivery policy variables.
