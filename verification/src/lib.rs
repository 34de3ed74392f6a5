//! Outbox-event decoding for Kafka messages, the no-op event bus, and the
//! decision logic of the billable-metric and product-family operations.

pub mod billable_metrics;
pub mod eventbus;
pub mod outbox;
pub mod pagination;
pub mod product_families;
pub mod text;
