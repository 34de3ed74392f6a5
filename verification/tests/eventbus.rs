use meteroid::eventbus::{Event, EventBus, EventData, NoopEventBus};
use std::sync::Arc;

#[test]
fn noop_bus_constructors_agree() {
    assert_eq!(NoopEventBus::new(), NoopEventBus::default());
}

#[test]
fn noop_bus_accepts_every_event() {
    let bus = NoopEventBus::new();
    bus.subscribe(Arc::new(42u32));
    let event = Event::billable_metric_created(1, 2, 3);
    assert_eq!(bus.publish(event), Ok(()));
    assert_eq!(bus.publish(event), Ok(()));
}

#[test]
fn billable_metric_created_event_fields() {
    let event = Event::billable_metric_created(10, 20, 30);
    assert_eq!(event.actor, Some(10));
    assert_eq!(event.tenant_id, Some(30));
    assert_eq!(event.data, EventData::BillableMetricCreated { billable_metric_id: 20 });
}
