use vstd::prelude::*;
use crate::config::{clone_opt_string, opt_view};

verus! {

/// A JSON document, carried through unchanged.
#[verifier::external_type_specification]
#[verifier::external_body]
pub struct ExJsonValue(serde_json::Value);

/// A calendar date and wall-clock time; the library keeps every instant in
/// UTC, so this holds a UTC instant exactly.
#[verifier::external_type_specification]
#[verifier::external_body]
pub struct ExNaiveDateTime(chrono::NaiveDateTime);

/// `serde_json::Value`'s derived `Clone` produces an equal document.
pub assume_specification[ <serde_json::Value as Clone>::clone ](v: &serde_json::Value) -> (res: serde_json::Value)
    ensures
        res == *v,
;

/// A lowercase hexadecimal digit.
pub open spec fn is_lower_hex(c: char) -> bool {
    ('0' <= c && c <= '9') || ('a' <= c && c <= 'f')
}

/// The hyphenated lowercase text of a random (version 4, RFC variant) UUID,
/// such as `67e55044-10b1-426f-9247-bb680e5fe0c8`.
pub open spec fn is_uuid_v4_text(s: Seq<char>) -> bool {
    &&& s.len() == 36
    &&& forall|i: int|
        0 <= i < 36 ==> if i == 8 || i == 13 || i == 18 || i == 23 {
            #[trigger] s[i] == '-'
        } else {
            is_lower_hex(s[i])
        }
    &&& s[14] == '4'
    &&& (s[19] == '8' || s[19] == '9' || s[19] == 'a' || s[19] == 'b')
}

/// A fresh random identifier: `uuid::Uuid::new_v4()` written with
/// `to_string()`. The `uuid` source sets the version nibble to 4 and the
/// variant bits to `10`, and writes the hyphenated lowercase form; which
/// identifier comes out is left open (it is random).
#[verifier::external_body]
fn new_event_id() -> (id: String)
    ensures
        is_uuid_v4_text(id@),
{
    uuid::Uuid::new_v4().to_string()
}

/// The message broker a destination publishes to.
#[derive(Clone, Copy, Debug, PartialEq, Eq, Structural)]
pub enum Broker {
    Rabbitmq,
    Kafka,
}

/// The lowercase name under which a broker is stored and shown.
pub open spec fn broker_name(b: Broker) -> Seq<char> {
    match b {
        Broker::Rabbitmq => "rabbitmq"@,
        Broker::Kafka => "kafka"@,
    }
}

impl Broker {
    /// The broker's lowercase name, as it is displayed and stored.
    pub fn to_string(&self) -> (s: String)
        ensures
            s@ == broker_name(*self),
    {
        match self {
            Broker::Rabbitmq => String::from_str("rabbitmq"),
            Broker::Kafka => String::from_str("kafka"),
        }
    }
}

/// A place that events are forwarded to.
pub struct Destination {
    pub id: i64,
    pub broker: Broker,
    pub topic_queue: String,
    pub connection_url: String,
    pub enabled: bool,
    pub allow_invalid_tls: bool,
}

/// The fields a client sends to create or replace a destination.
pub struct NewDestination {
    pub broker: Broker,
    pub topic_queue: String,
    pub connection_url: String,
    pub enabled: bool,
    pub allow_invalid_tls: bool,
}

/// A destination is enabled unless the client says otherwise.
pub fn default_enabled() -> (b: bool)
    ensures
        b,
{
    true
}

/// The column values written for a destination (`allow_invalid_tls` is not
/// stored).
pub struct DestinationRecord {
    pub broker: String,
    pub topic_queue: String,
    pub connection_url: String,
    pub enabled: bool,
}

impl NewDestination {
    /// The values bound to the insert or update statement.
    pub fn record(&self) -> (r: DestinationRecord)
        ensures
            r.broker@ == broker_name(self.broker),
            r.topic_queue@ == self.topic_queue@,
            r.connection_url@ == self.connection_url@,
            r.enabled == self.enabled,
    {
        DestinationRecord {
            broker: self.broker.to_string(),
            topic_queue: self.topic_queue.clone(),
            connection_url: self.connection_url.clone(),
            enabled: self.enabled,
        }
    }
}

/// An event as a client posts it.
pub struct InputEvent {
    pub event_type: String,
    pub data: serde_json::Value,
}

/// An accepted event, as it is stored and forwarded.
pub struct Event {
    pub event_id: String,
    pub event_type: String,
    pub data: serde_json::Value,
    pub node_id: Option<String>,
    pub received_at: chrono::NaiveDateTime,
}

impl Event {
    /// The event built from a posted one, with the given identifier and
    /// arrival time and no node identity yet.
    pub fn new_at(input: InputEvent, event_id: String, received_at: chrono::NaiveDateTime) -> (e: Event)
        ensures
            e.event_id@ == event_id@,
            e.event_type@ == input.event_type@,
            e.data == input.data,
            e.node_id is None,
            e.received_at == received_at,
    {
        Event { event_id, event_type: input.event_type, data: input.data, node_id: None, received_at }
    }

    /// Accepts a posted event that arrived at `received_at` (the caller reads
    /// the clock): gives it a fresh random identifier and no node identity
    /// yet.
    pub fn new(input: InputEvent, received_at: chrono::NaiveDateTime) -> (e: Event)
        ensures
            is_uuid_v4_text(e.event_id@),
            e.event_type@ == input.event_type@,
            e.data == input.data,
            e.node_id is None,
            e.received_at == received_at,
    {
        let event_id = new_event_id();
        Event::new_at(input, event_id, received_at)
    }

    /// A copy of the event that carries the given node identity.
    pub fn with_node_id(&self, node_id: &Option<String>) -> (e: Event)
        ensures
            e.event_id@ == self.event_id@,
            e.event_type@ == self.event_type@,
            e.data == self.data,
            opt_view(e.node_id) == opt_view(*node_id),
            e.received_at == self.received_at,
    {
        Event {
            event_id: self.event_id.clone(),
            event_type: self.event_type.clone(),
            data: self.data.clone(),
            node_id: clone_opt_string(node_id),
            received_at: self.received_at,
        }
    }
}

/// The answer to an accepted event.
pub struct EventResponse {
    pub status: String,
    pub event_id: String,
    pub received_at: chrono::NaiveDateTime,
}

/// Distinct brokers have distinct names, so a stored name tells the broker.
pub proof fn law_broker_names_are_distinct(a: Broker, b: Broker)
    ensures
        broker_name(a) == broker_name(b) <==> a == b,
{
    reveal_strlit("rabbitmq");
    reveal_strlit("kafka");
    if a != b {
        assert(broker_name(a).len() != broker_name(b).len());
    }
}

} // verus!
