//! The event bus interface and its no-op implementation.

use vstd::prelude::*;

verus! {

/// What an event reports.
#[derive(Debug, Clone, Copy, PartialEq, Eq, Structural)]
pub enum EventData {
    /// A billable metric was created.
    BillableMetricCreated { billable_metric_id: u128 },
}

/// An event for the bus: who caused it, in which tenant, and what happened.
/// The event's own id and timestamp are stamped where it is sent.
#[derive(Debug, Clone, Copy, PartialEq, Eq, Structural)]
pub struct Event {
    pub actor: Option<u128>,
    pub tenant_id: Option<u128>,
    pub data: EventData,
}

impl Event {
    /// The event announcing that `actor` created the billable metric
    /// `billable_metric_id` in `tenant_id`.
    pub fn billable_metric_created(actor: u128, billable_metric_id: u128, tenant_id: u128) -> (res:
        Event)
        ensures
            res == (Event {
                actor: Some(actor),
                tenant_id: Some(tenant_id),
                data: EventData::BillableMetricCreated { billable_metric_id },
            }),
    {
        Event {
            actor: Some(actor),
            tenant_id: Some(tenant_id),
            data: EventData::BillableMetricCreated { billable_metric_id },
        }
    }
}

/// Why the bus could not take an event.
#[derive(Debug, PartialEq, Eq)]
pub enum EventBusError {
    PublishFailed,
    EventHandlerFailed(String),
}

/// A bus that events are published on and handlers subscribe to.
pub trait EventBus {
    /// Registers `handler` for the events published from now on.
    fn subscribe<H>(&self, handler: std::sync::Arc<H>);

    /// Publishes `event` to the subscribed handlers.
    fn publish(&self, event: Event) -> Result<(), EventBusError>;
}

/// An event bus that drops every event and keeps no handler.
#[derive(Debug, Clone, Copy, PartialEq, Eq, Structural)]
pub struct NoopEventBus;

impl Default for NoopEventBus {
    fn default() -> (res: Self)
        ensures
            res == NoopEventBus::new_spec(),
    {
        Self::new()
    }
}

impl NoopEventBus {
    /// The one value of the no-op bus.
    pub open spec fn new_spec() -> NoopEventBus {
        NoopEventBus
    }

    /// Creates the no-op bus.
    pub fn new() -> (res: Self)
        ensures
            res == NoopEventBus::new_spec(),
    {
        NoopEventBus
    }
}

impl EventBus for NoopEventBus {
    /// Drops `handler`: no event ever reaches it.
    fn subscribe<H>(&self, handler: std::sync::Arc<H>) {
    }

    /// Drops `event` and reports success, whatever the event.
    fn publish(&self, event: Event) -> (res: Result<(), EventBusError>)
        ensures
            res == Ok::<(), EventBusError>(()),
    {
        Ok(())
    }
}

} // verus!
