use meteroid::outbox::{
    extract_payload, CustomerCreatedEvent, EventType, KafkaMessage, MessageHeader, MessageHeaders,
    PayloadError,
};
use serde_json::Value;
use meteroid::text::trim_quote_chars;

const ID: &str = "550e8400-e29b-41d4-a716-446655440000";
const TENANT: &str = "936da01f-9abd-4d9d-80c7-02af85c822a8";

fn header(key: &str, value: &str) -> MessageHeader {
    MessageHeader { key: key.to_string(), value: Some(value.as_bytes().to_vec()) }
}

fn message(headers: Vec<MessageHeader>, key: Option<&str>, payload: Option<&str>) -> KafkaMessage {
    KafkaMessage {
        headers: Some(MessageHeaders { headers }),
        key: key.map(|k| k.as_bytes().to_vec()),
        payload: payload.map(|p| p.as_bytes().to_vec()),
    }
}

/// Reads a customer-created event from the JSON text of the `payload` member,
/// field by field, as a derived deserializer would.
fn decode_customer(member: Vec<u8>) -> Option<CustomerCreatedEvent> {
    let value: Value = serde_json::from_slice(&member).ok()?;
    let obj = value.as_object()?;
    let text = |k: &str| obj.get(k).and_then(|v| v.as_str()).map(|s| s.to_string());
    let optional = |k: &str| match obj.get(k) {
        None | Some(Value::Null) => Some(None),
        Some(Value::String(s)) => Some(Some(s.clone())),
        Some(_) => None,
    };
    let uuid = |k: &str| text(k).and_then(|s| uuid::Uuid::parse_str(&s).ok()).map(|u| u.as_u128());
    Some(CustomerCreatedEvent {
        id: uuid("id")?,
        local_id: text("local_id")?,
        tenant_id: uuid("tenant_id")?,
        name: text("name")?,
        alias: optional("alias")?,
        email: optional("email")?,
        invoicing_email: optional("invoicing_email")?,
        phone: optional("phone")?,
        balance_value_cents: i32::try_from(obj.get("balance_value_cents")?.as_i64()?).ok()?,
        currency: text("currency")?,
    })
}

fn parse_outbox_event(m: &KafkaMessage) -> Option<meteroid::outbox::OutboxEvent> {
    meteroid::outbox::parse_outbox_event(m, &decode_customer)
}

fn event_type(m: &KafkaMessage) -> Option<EventType> {
    EventType::from_kafka_message(m, &decode_customer)
}

const CUSTOMER: &str = r#"{"payload": {"id": "550e8400-e29b-41d4-a716-446655440000", "local_id": "cus_1", "tenant_id": "936da01f-9abd-4d9d-80c7-02af85c822a8", "name": "Acme", "alias": "acme", "email": null, "balance_value_cents": 1200, "currency": "EUR"}, "other": true}"#;

fn outbox_headers(event_type: &str) -> Vec<MessageHeader> {
    vec![header("id", ID), header("tenant_id", TENANT), header("event_type", event_type)]
}

#[test]
fn invoice_finalized_is_recognised() {
    let m = message(outbox_headers("invoice.finalized"), None, None);
    assert!(matches!(event_type(&m), Some(EventType::InvoiceFinalized)));
}

#[test]
fn invoice_pdf_requested_is_recognised() {
    let m = message(outbox_headers("invoice.pdf.requested"), None, None);
    assert!(matches!(event_type(&m), Some(EventType::InvoicePdfRequested)));
}

#[test]
fn unknown_event_type_gives_none() {
    let m = message(outbox_headers("invoice.paid"), None, None);
    assert!(event_type(&m).is_none());
}

#[test]
fn missing_headers_give_none() {
    let m = KafkaMessage { headers: None, key: Some(b"k".to_vec()), payload: None };
    assert!(event_type(&m).is_none());
    assert!(parse_outbox_event(&m).is_none());
}

#[test]
fn customer_created_is_decoded_from_payload_member() {
    let m = message(outbox_headers("customer.created"), None, Some(CUSTOMER));
    match event_type(&m) {
        Some(EventType::CustomerCreated(event)) => {
            assert_eq!(event.id, 0x550e8400_e29b_41d4_a716_446655440000u128);
            assert_eq!(event.local_id, "cus_1");
            assert_eq!(event.name, "Acme");
            assert_eq!(event.alias, Some("acme".to_string()));
            assert_eq!(event.email, None);
            assert_eq!(event.balance_value_cents, 1200);
            assert_eq!(event.currency, "EUR");
        }
        other => panic!("unexpected {:?}", other),
    }
}

#[test]
fn customer_created_without_payload_gives_none() {
    let m = message(outbox_headers("customer.created"), None, None);
    assert!(event_type(&m).is_none());
}

#[test]
fn customer_created_with_invalid_json_gives_none() {
    let m = message(outbox_headers("customer.created"), None, Some("{not json"));
    assert!(event_type(&m).is_none());
}

#[test]
fn customer_created_without_payload_member_gives_none() {
    let m = message(outbox_headers("customer.created"), None, Some(r#"{"other": 1}"#));
    assert!(event_type(&m).is_none());
}

#[test]
fn customer_created_with_wrong_payload_member_gives_none() {
    let m = message(outbox_headers("customer.created"), None, Some(r#"{"payload": {"name": "Acme"}}"#));
    assert!(event_type(&m).is_none());
    let m = message(outbox_headers("customer.created"), Some("cus"), Some(r#"{"payload": [1, 2]}"#));
    assert!(parse_outbox_event(&m).is_none());
}

#[test]
fn extract_payload_cases() {
    let none = message(vec![], None, None);
    assert!(matches!(extract_payload(&none, &decode_customer), Ok(None)));
    let bad = message(vec![], None, Some("[1,"));
    assert_eq!(extract_payload(&bad, &decode_customer).unwrap_err(), PayloadError::InvalidJson);
    let missing_member = message(vec![], None, Some(r#"{"x": 1}"#));
    assert_eq!(extract_payload(&missing_member, &decode_customer).unwrap_err(), PayloadError::InvalidEvent);
    let good = message(vec![], None, Some(CUSTOMER));
    let event = extract_payload(&good, &decode_customer).unwrap().unwrap();
    assert_eq!(event.tenant_id, 0x936da01f_9abd_4d9d_80c7_02af85c822a8u128);
}

#[test]
fn decoder_sees_only_the_payload_member() {
    let seen = std::cell::RefCell::new(Vec::new());
    let record = |member: Vec<u8>| {
        seen.borrow_mut().push(member);
        None
    };
    let m = message(vec![], None, Some(r#"{"payload": {"a": 1}, "b": 2}"#));
    assert_eq!(extract_payload(&m, &record).unwrap_err(), PayloadError::InvalidEvent);
    let member: Value = serde_json::from_slice(&seen.borrow()[0]).unwrap();
    let want: Value = serde_json::from_str(r#"{"a": 1}"#).unwrap();
    assert_eq!(member, want);
}

#[test]
fn header_without_value_is_passed_over() {
    let headers = MessageHeaders {
        headers: vec![
            MessageHeader { key: "event_type".to_string(), value: None },
            header("other", "x"),
            header("event_type", "invoice.finalized"),
            header("event_type", "customer.created"),
        ],
    };
    assert_eq!(headers.get_as_string("event_type"), Some("invoice.finalized".to_string()));
    assert_eq!(headers.get_as_string("missing"), None);
}

#[test]
fn header_with_invalid_utf8_gives_none() {
    let headers = MessageHeaders {
        headers: vec![
            MessageHeader { key: "id".to_string(), value: Some(vec![0xff, 0xfe]) },
            header("id", ID),
        ],
    };
    assert_eq!(headers.get_as_string("id"), None);
    assert_eq!(headers.get_as_uuid("id"), None);
}

#[test]
fn header_uuid_forms() {
    let want = uuid::Uuid::parse_str(ID).unwrap().as_u128();
    let headers = MessageHeaders {
        headers: vec![
            header("hyphenated", ID),
            header("simple", "550e8400e29b41d4a716446655440000"),
            header("braced", "{550e8400-e29b-41d4-a716-446655440000}"),
            header("bad", "550e8400-e29b-41d4-a716"),
        ],
    };
    assert_eq!(headers.get_as_uuid("hyphenated"), Some(want));
    assert_eq!(headers.get_as_uuid("simple"), Some(want));
    assert_eq!(headers.get_as_uuid("braced"), Some(want));
    assert_eq!(headers.get_as_uuid("bad"), None);
    assert_eq!(headers.get_as_uuid("absent"), None);
}

#[test]
fn outbox_event_is_decoded() {
    let m = message(outbox_headers("invoice.finalized"), Some("\"inv_123\""), None);
    let event = parse_outbox_event(&m).unwrap();
    assert_eq!(event.id, 0x550e8400_e29b_41d4_a716_446655440000u128);
    assert_eq!(event.tenant_id, 0x936da01f_9abd_4d9d_80c7_02af85c822a8u128);
    assert_eq!(event.aggregate_id, "inv_123");
    assert!(matches!(event.event_type, EventType::InvoiceFinalized));
}

#[test]
fn outbox_event_needs_every_part() {
    let no_key = message(outbox_headers("invoice.finalized"), None, None);
    assert!(parse_outbox_event(&no_key).is_none());

    let bad_key = KafkaMessage {
        headers: Some(MessageHeaders { headers: outbox_headers("invoice.finalized") }),
        key: Some(vec![0xc3]),
        payload: None,
    };
    assert!(parse_outbox_event(&bad_key).is_none());

    let no_tenant = message(
        vec![header("id", ID), header("event_type", "invoice.finalized")],
        Some("a"),
        None,
    );
    assert!(parse_outbox_event(&no_tenant).is_none());

    let bad_id = message(
        vec![header("id", "nope"), header("tenant_id", TENANT), header("event_type", "invoice.finalized")],
        Some("a"),
        None,
    );
    assert!(parse_outbox_event(&bad_id).is_none());

    let unknown = message(outbox_headers("something.else"), Some("a"), None);
    assert!(parse_outbox_event(&unknown).is_none());
}

#[test]
fn outbox_customer_created_event() {
    let m = message(outbox_headers("customer.created"), Some("cus_1"), Some(CUSTOMER));
    let event = parse_outbox_event(&m).unwrap();
    assert_eq!(event.aggregate_id, "cus_1");
    match event.event_type {
        EventType::CustomerCreated(c) => assert_eq!(c.local_id, "cus_1"),
        other => panic!("unexpected {:?}", other),
    }
}

#[test]
fn quotes_are_trimmed_from_both_ends_only() {
    assert_eq!(trim_quote_chars("\"abc\""), "abc");
    assert_eq!(trim_quote_chars("\"\"a\"b\"\""), "a\"b");
    assert_eq!(trim_quote_chars("\"\"\""), "");
    assert_eq!(trim_quote_chars(""), "");
    assert_eq!(trim_quote_chars("plain"), "plain");
    assert_eq!(trim_quote_chars("\"é\""), "é");
    assert_eq!(trim_quote_chars(&trim_quote_chars("\"x\"")), "x");
}

#[test]
fn parsed_event_type_matches_read_event_type() {
    let m = message(outbox_headers("customer.created"), Some("\"cus_1\""), Some(CUSTOMER));
    let parsed = parse_outbox_event(&m).unwrap();
    match (parsed.event_type, event_type(&m)) {
        (EventType::CustomerCreated(a), Some(EventType::CustomerCreated(b))) => assert_eq!(a, b),
        other => panic!("unexpected {:?}", other),
    }
    assert_eq!(parsed.aggregate_id, "cus_1");
}
