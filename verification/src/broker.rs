use vstd::prelude::*;
use crate::config::{self, opt_view};
use crate::models::{Broker, Destination, Event};

verus! {

/// What `url::Url::parse` followed by `Url::password` gives for a text:
/// `None` when the text is not an absolute URL, else the URL's password
/// (`None` when it has none).
pub uninterp spec fn url_password_of(input: Seq<char>) -> Option<Option<Seq<char>>>;

/// What `url::Url::parse`, `Url::set_password(Some(password))` and the
/// conversion into `String` give for a text: `None` when the text is not an
/// absolute URL, else the URL's serialization after the password was set.
pub uninterp spec fn url_with_password_of(input: Seq<char>, password: Seq<char>) -> Option<Seq<char>>;

/// The view of an optional optional string.
pub open spec fn opt_opt_view(s: Option<Option<String>>) -> Option<Option<Seq<char>>> {
    match s {
        Some(p) => Some(opt_view(p)),
        None => None,
    }
}

/// Parses `input` with `url::Url::parse` and reads its password with
/// `Url::password`; the result is named by `url_password_of`.
#[verifier::external_body]
fn url_password(input: &str) -> (res: Option<Option<String>>)
    ensures
        opt_opt_view(res) == url_password_of(input@),
{
    match url::Url::parse(input) {
        Ok(u) => match u.password() {
            Some(p) => Some(Some(p.to_string())),
            None => Some(None),
        },
        Err(_) => None,
    }
}

/// Parses `input` with `url::Url::parse`, sets the password with
/// `Url::set_password` (its refusal is ignored, as the caller does) and
/// returns the serialization (`From<Url> for String`); named by
/// `url_with_password_of`. Both this and `url_password` parse the same text
/// with the same function, so one succeeds exactly when the other does.
#[verifier::external_body]
fn url_with_password(input: &str, password: &str) -> (res: Option<String>)
    ensures
        opt_view(res) == url_with_password_of(input@, password@),
        res is Some <==> url_password_of(input@) is Some,
{
    match url::Url::parse(input) {
        Ok(mut u) => {
            let _ = u.set_password(Some(password));
            Some(u.into())
        },
        Err(_) => None,
    }
}

/// What a password is replaced with before a connection URL is shown.
pub open spec fn password_mask() -> Seq<char> {
    "***********"@
}

/// The text shown for a connection URL, given what parsing found: `password`
/// is `None` when the URL did not parse, else its password; `masked` is the
/// serialization with the password masked, when it was produced. Only a URL
/// that carries a password is replaced.
pub open spec fn redaction(url: Seq<char>, password: Option<Option<Seq<char>>>, masked: Option<Seq<char>>) -> Seq<char> {
    match password {
        Some(Some(_)) => match masked {
            Some(s) => s,
            None => url,
        },
        _ => url,
    }
}

/// A connection URL fit to be shown: when it parses as a URL that carries a
/// password, its serialization with the password masked; otherwise the text
/// unchanged.
pub open spec fn redacted(url: Seq<char>) -> Seq<char> {
    redaction(url, url_password_of(url), url_with_password_of(url, password_mask()))
}

/// Chooses the text shown for a connection URL from what parsing found (see
/// `redaction`).
pub fn redact_from_parts(url: &str, password: Option<Option<String>>, masked: Option<String>) -> (res: String)
    ensures
        res@ == redaction(url@, opt_opt_view(password), opt_view(masked)),
{
    match password {
        Some(Some(_)) => match masked {
            Some(s) => s,
            None => url.to_owned(),
        },
        _ => url.to_owned(),
    }
}

/// Masks the password of a connection URL before it is shown.
pub fn redact_amqp_password(url: &str) -> (res: String)
    ensures
        res@ == redacted(url@),
        url_password_of(url@) matches Some(Some(_)) ==> Some(res@) == url_with_password_of(url@, password_mask()),
        !(url_password_of(url@) matches Some(Some(_))) ==> res@ == url@,
{
    let mask = "***********";
    let password = url_password(url);
    let masked = match password {
        Some(Some(_)) => url_with_password(url, mask),
        _ => None,
    };
    redact_from_parts(url, password, masked)
}

/// How long a Kafka send may wait for delivery, in seconds.
pub const KAFKA_SEND_TIMEOUT_SECS: u64 = 3;

/// Where and how one event goes out.
pub enum Route {
    /// Publish to the default exchange with the queue name as routing key,
    /// after declaring the queue durable.
    Rabbitmq { connection_url: String, queue: String },
    /// Produce to the topic through these bootstrap servers, keyed by the
    /// event identifier.
    Kafka { bootstrap_servers: String, topic: String, key: String },
}

/// An event ready to be sent, and where it goes.
pub struct Delivery {
    pub event: Event,
    pub route: Route,
}

/// Prepares an event for one destination: the copy sent carries this node's
/// identity, and the route follows the destination's broker.
pub fn plan_delivery(event: &Event, dest: &Destination, node: &config::NodeInfo) -> (d: Delivery)
    ensures
        d.event.event_id@ == event.event_id@,
        d.event.event_type@ == event.event_type@,
        d.event.data == event.data,
        d.event.received_at == event.received_at,
        opt_view(d.event.node_id) == opt_view(node.node_id),
        dest.broker == Broker::Rabbitmq ==> (d.route matches Route::Rabbitmq { connection_url, queue }
            && connection_url@ == dest.connection_url@ && queue@ == dest.topic_queue@),
        dest.broker == Broker::Kafka ==> (d.route matches Route::Kafka { bootstrap_servers, topic, key }
            && bootstrap_servers@ == dest.connection_url@ && topic@ == dest.topic_queue@
            && key@ == event.event_id@),
{
    let node_id = node.get_node_id();
    let sent = event.with_node_id(&node_id);
    let route = match dest.broker {
        Broker::Rabbitmq => Route::Rabbitmq {
            connection_url: dest.connection_url.clone(),
            queue: dest.topic_queue.clone(),
        },
        Broker::Kafka => Route::Kafka {
            bootstrap_servers: dest.connection_url.clone(),
            topic: dest.topic_queue.clone(),
            key: event.event_id.clone(),
        },
    };
    Delivery { event: sent, route }
}

/// The stages of a RabbitMQ publish.
#[derive(Clone, Copy, Debug, PartialEq, Eq, Structural)]
pub enum RabbitmqStep {
    Connect,
    OpenChannel,
    DeclareQueue,
    Serialize,
    Publish,
    Finished(bool),
}

/// The stage after `s`, given whether `s` succeeded. A failed queue
/// declaration does not stop the publish.
pub open spec fn rabbitmq_next(s: RabbitmqStep, succeeded: bool) -> RabbitmqStep {
    match s {
        RabbitmqStep::Connect => if succeeded { RabbitmqStep::OpenChannel } else { RabbitmqStep::Finished(false) },
        RabbitmqStep::OpenChannel => if succeeded { RabbitmqStep::DeclareQueue } else { RabbitmqStep::Finished(false) },
        RabbitmqStep::DeclareQueue => RabbitmqStep::Serialize,
        RabbitmqStep::Serialize => if succeeded { RabbitmqStep::Publish } else { RabbitmqStep::Finished(false) },
        RabbitmqStep::Publish => RabbitmqStep::Finished(succeeded),
        RabbitmqStep::Finished(b) => RabbitmqStep::Finished(b),
    }
}

/// The stage reached from `s` after these outcomes, in order.
pub open spec fn rabbitmq_run(s: RabbitmqStep, outcomes: Seq<bool>) -> RabbitmqStep
    decreases outcomes.len(),
{
    if outcomes.len() == 0 {
        s
    } else {
        rabbitmq_run(rabbitmq_next(s, outcomes[0]), outcomes.drop_first())
    }
}

impl RabbitmqStep {
    /// A publish starts by connecting.
    pub fn start() -> (s: RabbitmqStep)
        ensures
            s == RabbitmqStep::Connect,
    {
        RabbitmqStep::Connect
    }

    /// Moves on once the current stage has been attempted.
    pub fn next(self, succeeded: bool) -> (s: RabbitmqStep)
        ensures
            s == rabbitmq_next(self, succeeded),
    {
        match self {
            RabbitmqStep::Connect => if succeeded { RabbitmqStep::OpenChannel } else { RabbitmqStep::Finished(false) },
            RabbitmqStep::OpenChannel => if succeeded { RabbitmqStep::DeclareQueue } else { RabbitmqStep::Finished(false) },
            RabbitmqStep::DeclareQueue => RabbitmqStep::Serialize,
            RabbitmqStep::Serialize => if succeeded { RabbitmqStep::Publish } else { RabbitmqStep::Finished(false) },
            RabbitmqStep::Publish => RabbitmqStep::Finished(succeeded),
            RabbitmqStep::Finished(b) => RabbitmqStep::Finished(b),
        }
    }
}

/// A RabbitMQ publish is reported delivered exactly when connecting,
/// opening the channel, serialising and publishing all succeeded; the queue
/// declaration's outcome never matters, and a finished publish stays
/// finished.
pub proof fn law_rabbitmq_delivery(connect: bool, channel: bool, declare: bool, serialize: bool, publish: bool)
    ensures
        rabbitmq_run(RabbitmqStep::Connect, seq![connect, channel, declare, serialize, publish])
            == RabbitmqStep::Finished(connect && channel && serialize && publish),
{
    let o: Seq<bool> = seq![connect, channel, declare, serialize, publish];
    assert(o.drop_first() =~= seq![channel, declare, serialize, publish]);
    assert(o.drop_first().drop_first() =~= seq![declare, serialize, publish]);
    assert(o.drop_first().drop_first().drop_first() =~= seq![serialize, publish]);
    assert(o.drop_first().drop_first().drop_first().drop_first() =~= seq![publish]);
    assert(o.drop_first().drop_first().drop_first().drop_first().drop_first() =~= Seq::<bool>::empty());
    reveal_with_fuel(rabbitmq_run, 6);
}

/// The stages of a Kafka send.
#[derive(Clone, Copy, Debug, PartialEq, Eq, Structural)]
pub enum KafkaStep {
    CreateProducer,
    Serialize,
    Send,
    Finished(bool),
}

/// The stage after `s`, given whether `s` succeeded.
pub open spec fn kafka_next(s: KafkaStep, succeeded: bool) -> KafkaStep {
    match s {
        KafkaStep::CreateProducer => if succeeded { KafkaStep::Serialize } else { KafkaStep::Finished(false) },
        KafkaStep::Serialize => if succeeded { KafkaStep::Send } else { KafkaStep::Finished(false) },
        KafkaStep::Send => KafkaStep::Finished(succeeded),
        KafkaStep::Finished(b) => KafkaStep::Finished(b),
    }
}

/// The stage reached from `s` after these outcomes, in order.
pub open spec fn kafka_run(s: KafkaStep, outcomes: Seq<bool>) -> KafkaStep
    decreases outcomes.len(),
{
    if outcomes.len() == 0 {
        s
    } else {
        kafka_run(kafka_next(s, outcomes[0]), outcomes.drop_first())
    }
}

impl KafkaStep {
    /// A send starts by creating the producer.
    pub fn start() -> (s: KafkaStep)
        ensures
            s == KafkaStep::CreateProducer,
    {
        KafkaStep::CreateProducer
    }

    /// Moves on once the current stage has been attempted.
    pub fn next(self, succeeded: bool) -> (s: KafkaStep)
        ensures
            s == kafka_next(self, succeeded),
    {
        match self {
            KafkaStep::CreateProducer => if succeeded { KafkaStep::Serialize } else { KafkaStep::Finished(false) },
            KafkaStep::Serialize => if succeeded { KafkaStep::Send } else { KafkaStep::Finished(false) },
            KafkaStep::Send => KafkaStep::Finished(succeeded),
            KafkaStep::Finished(b) => KafkaStep::Finished(b),
        }
    }
}

/// A Kafka send is reported delivered exactly when the producer was
/// created, the event serialised and the record delivered.
pub proof fn law_kafka_delivery(producer: bool, serialize: bool, send: bool)
    ensures
        kafka_run(KafkaStep::CreateProducer, seq![producer, serialize, send])
            == KafkaStep::Finished(producer && serialize && send),
{
    let o: Seq<bool> = seq![producer, serialize, send];
    assert(o.drop_first() =~= seq![serialize, send]);
    assert(o.drop_first().drop_first() =~= seq![send]);
    assert(o.drop_first().drop_first().drop_first() =~= Seq::<bool>::empty());
    reveal_with_fuel(kafka_run, 4);
}

/// A URL that does not parse, or that carries no password, is shown as it
/// is.
pub proof fn law_redaction_keeps_passwordless_urls(url: Seq<char>)
    requires
        !(url_password_of(url) matches Some(Some(_))),
    ensures
        redacted(url) == url,
{
}

} // verus!
