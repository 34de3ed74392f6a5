# meteroid (verified core)

The logic of Meteroid's outbox consumer, no-op event bus, billable-metric
insertion and product-family handlers, written in Verus.

- `src/outbox.rs` reads outbox events from Kafka messages (headers, key,
  JSON payload) with exact contracts over a model of the message; the
  customer payload's `payload` member is decoded into the event by a decoder
  that the caller passes (app/ passes a serde one).
- `src/text.rs` holds UTF-8 decoding and the trimming of `"` around keys.
- `src/eventbus.rs` holds the event bus interface and the no-op bus.
- `src/billable_metrics.rs` builds the row of a new billable metric and
  holds its insertion as a state machine: each outcome of outside work gives
  the next step.
- `src/pagination.rs` holds pages of results.
- `src/product_families.rs` holds the decisions of the REST handlers.
- `app/` reads rdkafka messages into the model and drives the insertion and
  the handlers against the outside services.
