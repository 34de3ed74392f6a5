//! Decoding of outbox events carried by Kafka messages.
//!
//! A message names its event in the `event_type` header, the event's identity
//! in the `id` and `tenant_id` headers, and its aggregate in the message key.
//! Each decoding step falls back to `None` when a part is missing or does not
//! parse.

use vstd::prelude::*;
use vstd::utf8::*;
use crate::text::{string_from_utf8, trim_quote_chars, trim_quotes, trim_quotes_strips_both_ends};

verus! {

/// One header of a Kafka message: its key and, where it has one, its value.
pub struct MessageHeader {
    pub key: String,
    pub value: Option<Vec<u8>>,
}

/// The headers of a Kafka message, in the order in which they were sent.
pub struct MessageHeaders {
    pub headers: Vec<MessageHeader>,
}

/// What the outbox consumer reads of a Kafka message: its headers (where the
/// message has any), its key and its payload.
pub struct KafkaMessage {
    pub headers: Option<MessageHeaders>,
    pub key: Option<Vec<u8>>,
    pub payload: Option<Vec<u8>>,
}

/// The value of the first header named `key` that carries a value; headers
/// of that name without a value are passed over.
pub open spec fn first_header_value(headers: Seq<MessageHeader>, key: Seq<char>) -> Option<Seq<u8>>
    decreases headers.len(),
{
    if headers.len() == 0 {
        None
    } else if headers[0].key@ == key && headers[0].value is Some {
        Some(headers[0].value->0@)
    } else {
        first_header_value(headers.drop_first(), key)
    }
}

/// The text that `bytes` encode, where they are valid UTF-8.
pub open spec fn utf8_text(bytes: Option<Seq<u8>>) -> Option<Seq<char>> {
    match bytes {
        Some(b) => if valid_utf8(b) {
            Some(decode_utf8(b))
        } else {
            None
        },
        None => None,
    }
}

/// The text of the header named `key`.
pub open spec fn header_text(headers: Seq<MessageHeader>, key: Seq<char>) -> Option<Seq<char>> {
    utf8_text(first_header_value(headers, key))
}

/// What `uuid::Uuid::parse_str` gives for `text`, as the UUID's 128-bit value.
pub uninterp spec fn uuid_parse(text: Seq<char>) -> Option<u128>;

/// The UUID in the header named `key`.
pub open spec fn header_uuid(headers: Seq<MessageHeader>, key: Seq<char>) -> Option<u128> {
    match header_text(headers, key) {
        Some(t) => uuid_parse(t),
        None => None,
    }
}

/// Parses `text` with `uuid::Uuid::parse_str`.
///
/// Trusted: the result is `uuid_parse(text)`, the 128-bit value of the UUID
/// that `parse_str` reads (simple, hyphenated, braced or URN form), or `None`
/// where it refuses the text. Which texts it accepts is left to that name.
#[verifier::external_body]
fn parse_uuid(text: &str) -> (res: Option<u128>)
    ensures
        res == uuid_parse(text@),
{
    match uuid::Uuid::parse_str(text) {
        Ok(id) => Some(id.as_u128()),
        Err(_) => None,
    }
}

proof fn lemma_first_header_value_step(headers: Seq<MessageHeader>, key: Seq<char>, i: int)
    requires
        0 <= i < headers.len(),
        !(headers[i].key@ == key && headers[i].value is Some),
    ensures
        first_header_value(headers.subrange(i, headers.len() as int), key)
            == first_header_value(headers.subrange(i + 1, headers.len() as int), key),
{
    let t = headers.subrange(i, headers.len() as int);
    assert(t.drop_first() =~= headers.subrange(i + 1, headers.len() as int));
}

impl MessageHeaders {
    /// The text of the first header named `key` that has a value, or `None`
    /// where there is none or its value is not valid UTF-8.
    pub fn get_as_string(&self, key: &str) -> (res: Option<String>)
        ensures
            res.deep_view() == header_text(self.headers@, key@),
    {
        let wanted = String::from_str(key);
        let n = self.headers.len();
        let mut i: usize = 0;
        assert(self.headers@.subrange(0, n as int) =~= self.headers@);
        while i < n
            invariant
                n == self.headers@.len(),
                i <= n,
                wanted@ == key@,
                first_header_value(self.headers@, key@)
                    == first_header_value(self.headers@.subrange(i as int, n as int), key@),
            decreases n - i,
        {
            let h = &self.headers[i];
            if h.key == wanted {
                match &h.value {
                    Some(v) => {
                        let bytes = v.clone();
                        assert(bytes@ =~= v@);
                        assert(self.headers@.subrange(i as int, n as int)[0] == *h);
                        return string_from_utf8(bytes);
                    },
                    None => {},
                }
            }
            proof {
                lemma_first_header_value_step(self.headers@, key@, i as int);
            }
            i = i + 1;
        }
        None
    }

    /// The UUID in the first header named `key` that has a value, or `None`
    /// where there is none or it does not parse.
    pub fn get_as_uuid(&self, key: &str) -> (res: Option<u128>)
        ensures
            res == header_uuid(self.headers@, key@),
            header_text(self.headers@, key@) matches Some(text) ==> res == uuid_parse(text),
            header_text(self.headers@, key@) is None ==> res is None,
    {
        match self.get_as_string(key) {
            Some(text) => parse_uuid(text.as_str()),
            None => None,
        }
    }
}

#[verifier::external_type_specification]
#[verifier::external_body]
pub struct ExJsonError(serde_json::Error);

/// What `serde_json::from_slice` makes of `document`, read as a JSON value,
/// then indexed by `key` (`value[key]`), rendered back to JSON text; `None`
/// where the document is not JSON.
pub uninterp spec fn json_member_text(document: Seq<u8>, key: Seq<char>) -> Option<Seq<u8>>;

/// Parses `document` with `serde_json::from_slice` and hands back its member
/// `key` as JSON text.
///
/// Trusted: the result is `Ok` exactly where `json_member_text` is `Some`, and
/// then holds that text. As `serde_json::Value` indexing does, a missing
/// member, or a document that is not an object, gives the text `null`; this is
/// left to the name and not stated.
#[verifier::external_body]
fn json_member(document: &[u8], key: &str) -> (res: Result<Vec<u8>, serde_json::Error>)
    ensures
        res is Ok <==> json_member_text(document@, key@) is Some,
        res matches Ok(text) ==> text@ == json_member_text(document@, key@)->0,
{
    let parsed: serde_json::Value = serde_json::from_slice(document)?;
    Ok(parsed[key].to_string().into_bytes())
}

/// Why an event payload could not be read.
#[derive(Debug, PartialEq, Eq, Structural)]
pub enum PayloadError {
    /// The message payload is not a JSON document.
    InvalidJson,
    /// The `payload` member of the document is not a customer-created event.
    InvalidEvent,
}

/// The body of a `customer.created` event.
#[derive(Debug, PartialEq, Eq)]
pub struct CustomerCreatedEvent {
    pub id: u128,
    pub local_id: String,
    pub tenant_id: u128,
    pub name: String,
    pub alias: Option<String>,
    pub email: Option<String>,
    pub invoicing_email: Option<String>,
    pub phone: Option<String>,
    pub balance_value_cents: i32,
    pub currency: String,
}

/// The mathematical value of a [`CustomerCreatedEvent`].
pub struct CustomerCreatedEventView {
    pub id: u128,
    pub local_id: Seq<char>,
    pub tenant_id: u128,
    pub name: Seq<char>,
    pub alias: Option<Seq<char>>,
    pub email: Option<Seq<char>>,
    pub invoicing_email: Option<Seq<char>>,
    pub phone: Option<Seq<char>>,
    pub balance_value_cents: i32,
    pub currency: Seq<char>,
}

impl View for CustomerCreatedEvent {
    type V = CustomerCreatedEventView;

    open spec fn view(&self) -> CustomerCreatedEventView {
        CustomerCreatedEventView {
            id: self.id,
            local_id: self.local_id@,
            tenant_id: self.tenant_id,
            name: self.name@,
            alias: self.alias.deep_view(),
            email: self.email.deep_view(),
            invoicing_email: self.invoicing_email.deep_view(),
            phone: self.phone.deep_view(),
            balance_value_cents: self.balance_value_cents,
            currency: self.currency@,
        }
    }
}

impl DeepView for CustomerCreatedEvent {
    type V = CustomerCreatedEventView;

    open spec fn deep_view(&self) -> CustomerCreatedEventView {
        self@
    }
}

/// The kind of an outbox event, with the body that the kind carries.
#[derive(Debug)]
pub enum EventType {
    CustomerCreated(Box<CustomerCreatedEvent>),
    InvoiceFinalized,
    InvoicePdfRequested,
}

/// The mathematical value of an [`EventType`].
pub enum EventTypeView {
    CustomerCreated(CustomerCreatedEventView),
    InvoiceFinalized,
    InvoicePdfRequested,
}

impl View for EventType {
    type V = EventTypeView;

    open spec fn view(&self) -> EventTypeView {
        match self {
            EventType::CustomerCreated(e) => EventTypeView::CustomerCreated(e@),
            EventType::InvoiceFinalized => EventTypeView::InvoiceFinalized,
            EventType::InvoicePdfRequested => EventTypeView::InvoicePdfRequested,
        }
    }
}

impl DeepView for EventType {
    type V = EventTypeView;

    open spec fn deep_view(&self) -> EventTypeView {
        self@
    }
}

/// An outbox event read from a Kafka message.
#[derive(Debug)]
pub struct OutboxEvent {
    pub id: u128,
    pub tenant_id: u128,
    pub aggregate_id: String,
    pub event_type: EventType,
}

/// The mathematical value of an [`OutboxEvent`].
pub struct OutboxEventView {
    pub id: u128,
    pub tenant_id: u128,
    pub aggregate_id: Seq<char>,
    pub event_type: EventTypeView,
}

impl View for OutboxEvent {
    type V = OutboxEventView;

    open spec fn view(&self) -> OutboxEventView {
        OutboxEventView {
            id: self.id,
            tenant_id: self.tenant_id,
            aggregate_id: self.aggregate_id@,
            event_type: self.event_type@,
        }
    }
}

impl DeepView for OutboxEvent {
    type V = OutboxEventView;

    open spec fn deep_view(&self) -> OutboxEventView {
        self@
    }
}

/// The `payload` member that a message payload gives: none without a
/// payload, the member's JSON text where the payload is JSON, an error where
/// it is not.
pub open spec fn payload_of(payload: Option<Seq<u8>>) -> Result<Option<Seq<u8>>, PayloadError> {
    match payload {
        None => Ok(None),
        Some(p) => match json_member_text(p, "payload"@) {
            Some(t) => Ok(Some(t)),
            None => Err(PayloadError::InvalidJson),
        },
    }
}

/// What the reading of a payload gives once the decoder has made `decoded`
/// of its `payload` member: the event, or `InvalidEvent` where the member is
/// not an event.
pub open spec fn decoded_payload(decoded: Option<CustomerCreatedEvent>) -> Result<
    Option<CustomerCreatedEvent>,
    PayloadError,
> {
    match decoded {
        Some(e) => Ok(Some(e)),
        None => Err(PayloadError::InvalidEvent),
    }
}

/// The name in the message's `event_type` header.
pub open spec fn event_name_of(m: KafkaMessage) -> Option<Seq<char>> {
    match m.headers {
        None => None,
        Some(h) => header_text(h.headers@, "event_type"@),
    }
}

/// The JSON text that a `customer.created` message hands to the decoder: the
/// `payload` member of its JSON payload; `None` for other messages, and where
/// there is no payload or it is not JSON.
pub open spec fn customer_member(m: KafkaMessage) -> Option<Seq<u8>> {
    if event_name_of(m) == Some("customer.created"@) {
        match payload_of(opt_bytes(m.payload)) {
            Ok(Some(t)) => Some(t),
            _ => None,
        }
    } else {
        None
    }
}

/// The event type that a message names in its `event_type` header, where the
/// decoder made `decoded` of the `payload` member of a `customer.created`
/// message; `None` where a part is missing, does not parse, or does not
/// decode, or the name is unknown.
pub open spec fn event_type_of(m: KafkaMessage, decoded: Option<CustomerCreatedEventView>) -> Option<
    EventTypeView,
> {
    match event_name_of(m) {
        None => None,
        Some(name) => if name == "customer.created"@ {
            if customer_member(m) is Some {
                match decoded {
                    Some(e) => Some(EventTypeView::CustomerCreated(e)),
                    None => None,
                }
            } else {
                None
            }
        } else if name == "invoice.finalized"@ {
            Some(EventTypeView::InvoiceFinalized)
        } else if name == "invoice.pdf.requested"@ {
            Some(EventTypeView::InvoicePdfRequested)
        } else {
            None
        },
    }
}

/// The bytes of an optional buffer.
pub open spec fn opt_bytes(b: Option<Vec<u8>>) -> Option<Seq<u8>> {
    match b {
        Some(v) => Some(v@),
        None => None,
    }
}

/// The outbox event that a message carries, where the decoder made `decoded`
/// of a customer payload: its `id` and `tenant_id` headers read as UUIDs, its
/// key read as UTF-8 and stripped of surrounding `"`, and its event type;
/// `None` where any of them is missing or does not parse.
pub open spec fn outbox_event_of(m: KafkaMessage, decoded: Option<CustomerCreatedEventView>) -> Option<
    OutboxEventView,
> {
    match m.headers {
        None => None,
        Some(h) => {
            let id = header_uuid(h.headers@, "id"@);
            let tenant_id = header_uuid(h.headers@, "tenant_id"@);
            let aggregate = utf8_text(opt_bytes(m.key));
            let event_type = event_type_of(m, decoded);
            if id is Some && tenant_id is Some && aggregate is Some && event_type is Some {
                Some(
                    OutboxEventView {
                        id: id->0,
                        tenant_id: tenant_id->0,
                        aggregate_id: trim_quotes(aggregate->0),
                        event_type: event_type->0,
                    },
                )
            } else {
                None
            }
        },
    }
}

/// Whether `res` is what `EventType::from_kafka_message` may give for `m`
/// with the decoder `decode`: for a `customer.created` message with a JSON
/// payload, the event type for some result that `decode` gives on the text of
/// the `payload` member; for any other message, the event type, which then
/// needs no decoding.
pub open spec fn event_type_result<D: Fn(Vec<u8>) -> Option<CustomerCreatedEvent>>(
    decode: D,
    m: KafkaMessage,
    res: Option<EventTypeView>,
) -> bool {
    match customer_member(m) {
        None => res == event_type_of(m, None),
        Some(t) => exists|member: Vec<u8>, decoded: Option<CustomerCreatedEvent>|
            #![trigger decode.ensures((member,), decoded)]
            member@ == t && decode.ensures((member,), decoded) && res == event_type_of(
                m,
                decoded.deep_view(),
            ),
    }
}

/// Whether `res` is what `parse_outbox_event` may give for `m` with the
/// decoder `decode`, in the same way as [`event_type_result`].
pub open spec fn outbox_event_result<D: Fn(Vec<u8>) -> Option<CustomerCreatedEvent>>(
    decode: D,
    m: KafkaMessage,
    res: Option<OutboxEventView>,
) -> bool {
    match customer_member(m) {
        None => res == outbox_event_of(m, None),
        Some(t) => exists|member: Vec<u8>, decoded: Option<CustomerCreatedEvent>|
            #![trigger decode.ensures((member,), decoded)]
            member@ == t && decode.ensures((member,), decoded) && res == outbox_event_of(
                m,
                decoded.deep_view(),
            ),
    }
}

/// Whether `decode` gives one result for one member text.
pub open spec fn decodes_deterministically<D: Fn(Vec<u8>) -> Option<CustomerCreatedEvent>>(
    decode: D,
) -> bool {
    forall|
        b1: Vec<u8>,
        b2: Vec<u8>,
        r1: Option<CustomerCreatedEvent>,
        r2: Option<CustomerCreatedEvent>,
    |
        #![trigger decode.ensures((b1,), r1), decode.ensures((b2,), r2)]
        b1@ == b2@ && decode.ensures((b1,), r1) && decode.ensures((b2,), r2) ==> r1.deep_view()
            == r2.deep_view()
}

/// Reads the body of a `customer.created` event from the message payload:
/// `Ok(None)` without a payload, `InvalidJson` where the payload is not JSON,
/// and otherwise what `decode` makes of the payload's `payload` member (its
/// JSON text), `InvalidEvent` where that is not an event.
pub fn extract_payload<D: Fn(Vec<u8>) -> Option<CustomerCreatedEvent>>(m: &KafkaMessage, decode: &D) -> (res:
    Result<Option<CustomerCreatedEvent>, PayloadError>)
    requires
        forall|member: Vec<u8>| (*decode).requires((member,)),
    ensures
        payload_of(opt_bytes(m.payload)) matches Ok(Some(t)) ==> exists|
            member: Vec<u8>,
            decoded: Option<CustomerCreatedEvent>,
        |
            #![trigger (*decode).ensures((member,), decoded)]
            member@ == t && (*decode).ensures((member,), decoded) && res == decoded_payload(decoded),
        payload_of(opt_bytes(m.payload)) matches Ok(None) ==> res matches Ok(None),
        payload_of(opt_bytes(m.payload)) matches Err(err) ==> res == Err::<
            Option<CustomerCreatedEvent>,
            PayloadError,
        >(err),
        res matches Ok(Some(event)) ==> (payload_of(opt_bytes(m.payload)) matches Ok(Some(t))
            && exists|member: Vec<u8>|
            #![trigger (*decode).ensures((member,), Some(event))]
            member@ == t && (*decode).ensures((member,), Some(event))),
{
    match &m.payload {
        Some(payload) => match json_member(payload.as_slice(), "payload") {
            Ok(member) => {
                let decoded = decode(member);
                match decoded {
                    Some(event) => Ok(Some(event)),
                    None => Err(PayloadError::InvalidEvent),
                }
            },
            Err(_) => Err(PayloadError::InvalidJson),
        },
        None => Ok(None),
    }
}

impl EventType {
    /// The event type that the message names in its `event_type` header;
    /// `None` where the headers or that header is missing, the name is not
    /// one of `customer.created`, `invoice.finalized` and
    /// `invoice.pdf.requested`, or, for `customer.created`, the payload is
    /// missing, is not JSON, or its `payload` member does not decode into an
    /// event with `decode`.
    pub fn from_kafka_message<D: Fn(Vec<u8>) -> Option<CustomerCreatedEvent>>(m: &KafkaMessage, decode: &D) -> (res:
        Option<EventType>)
        requires
            forall|member: Vec<u8>| (*decode).requires((member,)),
        ensures
            event_type_result(*decode, *m, res.deep_view()),
            res matches Some(EventType::CustomerCreated(event)) ==> (customer_member(*m) matches Some(
                t,
            ) && exists|member: Vec<u8>|
                #![trigger (*decode).ensures((member,), Some(*event))]
                member@ == t && (*decode).ensures((member,), Some(*event))),
    {
        let headers = match &m.headers {
            Some(h) => h,
            None => return None,
        };
        let event_type = match headers.get_as_string("event_type") {
            Some(t) => t,
            None => return None,
        };
        if event_type == String::from_str("customer.created") {
            match extract_payload(m, decode) {
                Ok(Some(payload)) => Some(EventType::CustomerCreated(Box::new(payload))),
                _ => None,
            }
        } else if event_type == String::from_str("invoice.finalized") {
            Some(EventType::InvoiceFinalized)
        } else if event_type == String::from_str("invoice.pdf.requested") {
            Some(EventType::InvoicePdfRequested)
        } else {
            None
        }
    }
}

/// The outbox event that the message carries; `None` where its headers, its
/// `id` or `tenant_id` UUID, its UTF-8 key or its event type is missing or
/// does not parse, or a customer payload does not decode with `decode`.
pub fn parse_outbox_event<D: Fn(Vec<u8>) -> Option<CustomerCreatedEvent>>(m: &KafkaMessage, decode: &D) -> (res:
    Option<OutboxEvent>)
    requires
        forall|member: Vec<u8>| (*decode).requires((member,)),
    ensures
        outbox_event_result(*decode, *m, res.deep_view()),
        res matches Some(parsed) ==> (m.headers matches Some(h) && header_text(h.headers@, "id"@)
            matches Some(id_text) && uuid_parse(id_text) == Some(parsed.id)),
        res matches Some(parsed) ==> (m.headers matches Some(h) && header_text(
            h.headers@,
            "tenant_id"@,
        ) matches Some(tenant_text) && uuid_parse(tenant_text) == Some(parsed.tenant_id)),
        res matches Some(parsed) ==> (utf8_text(opt_bytes(m.key)) matches Some(key_text)
            && parsed.aggregate_id@ == trim_quotes(key_text)),
        res matches Some(parsed) ==> (parsed.event_type matches EventType::CustomerCreated(event)
            ==> (customer_member(*m) matches Some(t) && exists|member: Vec<u8>|
            #![trigger (*decode).ensures((member,), Some(*event))]
            member@ == t && (*decode).ensures((member,), Some(*event)))),
{
    let headers = match &m.headers {
        Some(h) => h,
        None => return None,
    };
    let event_type = match EventType::from_kafka_message(m, decode) {
        Some(e) => e,
        None => return None,
    };
    let id = match headers.get_as_uuid("id") {
        Some(id) => id,
        None => return None,
    };
    let tenant_id = match headers.get_as_uuid("tenant_id") {
        Some(id) => id,
        None => return None,
    };
    let key = match &m.key {
        Some(k) => k,
        None => return None,
    };
    let key_bytes = key.clone();
    assert(key_bytes@ =~= key@);
    let key_text = match string_from_utf8(key_bytes) {
        Some(t) => t,
        None => return None,
    };
    let aggregate_id = trim_quote_chars(key_text.as_str());
    Some(OutboxEvent { id, tenant_id, aggregate_id, event_type })
}

/// A header read is decided by the first header of that name that has a
/// value: headers sent after it do not change it, and where none of the
/// earlier headers has one, the later ones alone decide.
pub proof fn first_header_value_first_wins(
    earlier: Seq<MessageHeader>,
    later: Seq<MessageHeader>,
    key: Seq<char>,
)
    ensures
        first_header_value(earlier, key) is Some ==> first_header_value(earlier + later, key)
            == first_header_value(earlier, key),
        first_header_value(earlier, key) is None ==> first_header_value(earlier + later, key)
            == first_header_value(later, key),
    decreases earlier.len(),
{
    if earlier.len() == 0 {
        assert(earlier + later =~= later);
    } else {
        assert((earlier + later).drop_first() =~= earlier.drop_first() + later);
        first_header_value_first_wins(earlier.drop_first(), later, key);
    }
}

/// Headers of other names never change what a header read gives.
pub proof fn first_header_value_ignores_other_keys(
    headers: Seq<MessageHeader>,
    other: MessageHeader,
    key: Seq<char>,
)
    requires
        other.key@ != key,
    ensures
        first_header_value(seq![other] + headers, key) == first_header_value(headers, key),
{
    assert((seq![other] + headers).drop_first() =~= headers);
}

/// A header is read as a UUID only where it is read as text first.
pub proof fn header_uuid_needs_text(headers: Seq<MessageHeader>, key: Seq<char>)
    ensures
        header_uuid(headers, key) is Some ==> header_text(headers, key) is Some,
{
}

/// The event type of a decoded outbox event is the one that
/// `EventType::from_kafka_message` reads from the same message, given the
/// same decoding of a customer payload.
pub proof fn outbox_event_type_agrees(m: KafkaMessage, decoded: Option<CustomerCreatedEventView>)
    ensures
        outbox_event_of(m, decoded) matches Some(e) ==> event_type_of(m, decoded) == Some(
            e.event_type,
        ),
{
}

/// The aggregate id of a decoded outbox event neither starts nor ends with
/// `"`.
pub proof fn outbox_aggregate_id_unquoted(m: KafkaMessage, decoded: Option<CustomerCreatedEventView>)
    ensures
        outbox_event_of(m, decoded) matches Some(e) ==> (e.aggregate_id.len() > 0
            ==> e.aggregate_id[0] != '"' && e.aggregate_id.last() != '"'),
{
    if let Some(e) = outbox_event_of(m, decoded) {
        let aggregate = utf8_text(opt_bytes(m.key));
        trim_quotes_strips_both_ends(aggregate->0);
    }
}

/// Decoding succeeds only for a message that has headers, a key and one of
/// the three known event types.
pub proof fn outbox_event_needs_all_parts(m: KafkaMessage, decoded: Option<CustomerCreatedEventView>)
    ensures
        outbox_event_of(m, decoded) is Some ==> m.headers is Some && m.key is Some
            && event_type_of(m, decoded) is Some,
{
}

/// A `customer.created` message whose `payload` member does not decode into
/// an event gives no event type and no outbox event.
pub proof fn undecodable_customer_payload_gives_none(m: KafkaMessage)
    ensures
        event_name_of(m) == Some("customer.created"@) ==> event_type_of(m, None) is None
            && outbox_event_of(m, None) is None,
{
}

/// The event type of an invoice message does not depend on its payload or on
/// any decoding.
pub proof fn invoice_events_ignore_payload(
    m: KafkaMessage,
    d1: Option<CustomerCreatedEventView>,
    d2: Option<CustomerCreatedEventView>,
)
    requires
        event_name_of(m) == Some("invoice.finalized"@) || event_name_of(m) == Some(
            "invoice.pdf.requested"@,
        ),
    ensures
        event_type_of(m, d1) == event_type_of(m, d2),
        event_type_of(m, d1) is Some,
{
    reveal_strlit("customer.created");
    reveal_strlit("invoice.finalized");
    reveal_strlit("invoice.pdf.requested");
    assert("invoice.finalized"@[0] != "customer.created"@[0]);
    assert("invoice.pdf.requested"@[0] != "customer.created"@[0]);
}

/// With a decoder that gives one result for one member text, the event type
/// of a decoded outbox event is the one that `EventType::from_kafka_message`
/// reads from the same message, and a message whose event type reads, with
/// headers, both UUIDs and a UTF-8 key, decodes into the outbox event made of
/// them.
pub proof fn parsed_event_matches_read_event_type<D: Fn(Vec<u8>) -> Option<CustomerCreatedEvent>>(
    decode: D,
    m: KafkaMessage,
    parsed: Option<OutboxEventView>,
    read: Option<EventTypeView>,
)
    requires
        decodes_deterministically(decode),
        outbox_event_result(decode, m, parsed),
        event_type_result(decode, m, read),
    ensures
        parsed matches Some(e) ==> read == Some(e.event_type),
        ({
            let h = m.headers->0.headers@;
            read is Some && m.headers is Some && header_uuid(h, "id"@) is Some && header_uuid(
                h,
                "tenant_id"@,
            ) is Some && utf8_text(opt_bytes(m.key)) is Some ==> parsed == Some(
                OutboxEventView {
                    id: header_uuid(h, "id"@)->0,
                    tenant_id: header_uuid(h, "tenant_id"@)->0,
                    aggregate_id: trim_quotes(utf8_text(opt_bytes(m.key))->0),
                    event_type: read->0,
                },
            )
        }),
{
    let d: Option<CustomerCreatedEventView> = match customer_member(m) {
        None => None,
        Some(text) => {
            let (b1, r1) = choose|member: Vec<u8>, decoded: Option<CustomerCreatedEvent>|
                #![trigger decode.ensures((member,), decoded)]
                member@ == text && decode.ensures((member,), decoded) && parsed == outbox_event_of(
                    m,
                    decoded.deep_view(),
                );
            let (b2, r2) = choose|member: Vec<u8>, decoded: Option<CustomerCreatedEvent>|
                #![trigger decode.ensures((member,), decoded)]
                member@ == text && decode.ensures((member,), decoded) && read == event_type_of(
                    m,
                    decoded.deep_view(),
                );
            assert(decode.ensures((b1,), r1) && decode.ensures((b2,), r2));
            assert(r1.deep_view() == r2.deep_view());
            r1.deep_view()
        },
    };
    assert(parsed == outbox_event_of(m, d));
    assert(read == event_type_of(m, d));
}

/// A header is read as a UUID exactly where its text is one that
/// `Uuid::parse_str` reads, whatever the UUID's version, and as that UUID.
pub proof fn header_uuid_reads_any_uuid_text(headers: Seq<MessageHeader>, key: Seq<char>)
    ensures
        header_text(headers, key) matches Some(text) ==> header_uuid(headers, key) == uuid_parse(
            text,
        ),
        header_text(headers, key) is None ==> header_uuid(headers, key) is None,
{
}

/// A `customer.created` message carries the event that the decoder made of
/// its `payload` member unchanged, every field included, and none where the
/// member did not decode.
pub proof fn customer_event_is_the_decoded_event(m: KafkaMessage, event: CustomerCreatedEventView)
    ensures
        customer_member(m) is Some ==> event_type_of(m, Some(event)) == Some(
            EventTypeView::CustomerCreated(event),
        ),
        customer_member(m) is Some ==> event_type_of(m, None) is None,
        customer_member(m) is Some ==> (event_type_of(m, Some(event)) matches Some(
            EventTypeView::CustomerCreated(carried),
        ) && carried.id == event.id && carried.local_id == event.local_id && carried.tenant_id
            == event.tenant_id && carried.name == event.name && carried.alias == event.alias
            && carried.email == event.email && carried.invoicing_email == event.invoicing_email
            && carried.phone == event.phone && carried.balance_value_cents
            == event.balance_value_cents && carried.currency == event.currency),
{
}

/// A message decodes into the outbox event made of its parts: the UUIDs
/// that `Uuid::parse_str` reads from its `id` and `tenant_id` headers, its
/// UTF-8 key without surrounding `"`, and its event type; and a decoded
/// event's parts are those.
pub proof fn outbox_event_is_made_of_its_parts(
    m: KafkaMessage,
    decoded: Option<CustomerCreatedEventView>,
)
    ensures
        ({
            let h = m.headers->0.headers@;
            m.headers is Some && header_text(h, "id"@) is Some && uuid_parse(
                header_text(h, "id"@)->0,
            ) is Some && header_text(h, "tenant_id"@) is Some && uuid_parse(
                header_text(h, "tenant_id"@)->0,
            ) is Some && utf8_text(opt_bytes(m.key)) is Some && event_type_of(m, decoded) is Some
                ==> outbox_event_of(m, decoded) == Some(
                OutboxEventView {
                    id: uuid_parse(header_text(h, "id"@)->0)->0,
                    tenant_id: uuid_parse(header_text(h, "tenant_id"@)->0)->0,
                    aggregate_id: trim_quotes(utf8_text(opt_bytes(m.key))->0),
                    event_type: event_type_of(m, decoded)->0,
                },
            )
        }),
        ({
            let h = m.headers->0.headers@;
            outbox_event_of(m, decoded) is Some ==> m.headers is Some && header_text(h, "id"@)
                is Some && uuid_parse(header_text(h, "id"@)->0) == Some(
                outbox_event_of(m, decoded)->0.id,
            ) && header_text(h, "tenant_id"@) is Some && uuid_parse(header_text(h, "tenant_id"@)->0)
                == Some(outbox_event_of(m, decoded)->0.tenant_id) && utf8_text(opt_bytes(m.key))
                is Some && outbox_event_of(m, decoded)->0.aggregate_id == trim_quotes(
                utf8_text(opt_bytes(m.key))->0,
            ) && event_type_of(m, decoded) == Some(outbox_event_of(m, decoded)->0.event_type)
        }),
{
}

/// The header named `key` is read from its first occurrence with a value: a
/// first header of that name with a value gives that value, and a first
/// header of that name without one is passed over.
pub proof fn header_read_takes_first_value(
    first: MessageHeader,
    rest: Seq<MessageHeader>,
    key: Seq<char>,
)
    ensures
        first.key@ == key && first.value is Some ==> first_header_value(seq![first] + rest, key)
            == Some(first.value->0@),
        first.value is None ==> first_header_value(seq![first] + rest, key) == first_header_value(
            rest,
            key,
        ),
        first_header_value(Seq::<MessageHeader>::empty(), key) is None,
{
    assert((seq![first] + rest).drop_first() =~= rest);
    assert((seq![first] + rest)[0] == first);
}

/// Each known event name gives its own event type, and a name that is not
/// known gives none.
pub proof fn event_names_map_to_their_types(m: KafkaMessage, decoded: Option<CustomerCreatedEventView>)
    ensures
        event_name_of(m) == Some("invoice.finalized"@) ==> event_type_of(m, decoded) == Some(
            EventTypeView::InvoiceFinalized,
        ),
        event_name_of(m) == Some("invoice.pdf.requested"@) ==> event_type_of(m, decoded) == Some(
            EventTypeView::InvoicePdfRequested,
        ),
        event_name_of(m) == Some("customer.created"@) ==> (event_type_of(m, decoded) is Some
            ==> event_type_of(m, decoded)->0 is CustomerCreated),
        event_name_of(m) is None ==> event_type_of(m, decoded) is None,
        event_name_of(m) matches Some(name) && name != "customer.created"@ && name
            != "invoice.finalized"@ && name != "invoice.pdf.requested"@ ==> event_type_of(m, decoded)
            is None,
{
    reveal_strlit("customer.created");
    reveal_strlit("invoice.finalized");
    reveal_strlit("invoice.pdf.requested");
    assert("invoice.finalized"@[0] != "customer.created"@[0]);
    assert("invoice.pdf.requested"@[0] != "customer.created"@[0]);
    assert("invoice.pdf.requested"@.len() != "invoice.finalized"@.len());
}

/// The body of a customer event is the `payload` member of the message's
/// JSON payload.
pub proof fn customer_body_is_payload_member(m: KafkaMessage)
    ensures
        m.payload is Some && json_member_text(m.payload->0@, "payload"@) is Some && event_name_of(m)
            == Some("customer.created"@) ==> customer_member(m) == json_member_text(
            m.payload->0@,
            "payload"@,
        ),
        m.payload is None ==> customer_member(m) is None,
        m.payload is Some && json_member_text(m.payload->0@, "payload"@) is None ==> customer_member(
            m,
        ) is None,
{
}

} // verus!
