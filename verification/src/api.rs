use vstd::prelude::*;
use vstd::string::*;
use crate::config::{self, clone_opt_string, opt_view};
use crate::models::{Destination, DestinationRecord, Event, EventResponse, NewDestination};
use crate::text::{contains, int_decimal, push_i64, spec_contains};

verus! {

/// 200 OK.
pub const OK: u16 = 200;
/// 201 Created.
pub const CREATED: u16 = 201;
/// 202 Accepted.
pub const ACCEPTED: u16 = 202;
/// 204 No Content.
pub const NO_CONTENT: u16 = 204;
/// 400 Bad Request.
pub const BAD_REQUEST: u16 = 400;
/// 404 Not Found.
pub const NOT_FOUND: u16 = 404;
/// 409 Conflict.
pub const CONFLICT: u16 = 409;
/// 412 Precondition Failed: the node has no identity yet.
pub const PRECONDITION_FAILED: u16 = 412;
/// 500 Internal Server Error.
pub const INTERNAL_SERVER_ERROR: u16 = 500;

/// A JSON error answer: `{"error": .., "details": ..}`, the details left out
/// when there are none.
pub struct ErrorReply {
    pub status: u16,
    pub error: String,
    pub details: Option<String>,
}

/// `r` is the error answer with this status, title and details.
pub open spec fn error_is(r: ErrorReply, status: u16, error: Seq<char>, details: Option<Seq<char>>) -> bool {
    &&& r.status == status
    &&& r.error@ == error
    &&& opt_view(r.details) == details
}

fn error_reply(status: u16, error: &str, details: Option<String>) -> (r: ErrorReply)
    ensures
        error_is(r, status, error@, opt_view(details)),
{
    ErrorReply { status, error: error.to_owned(), details }
}

/// Identity reported by the status endpoint and by a node-info update.
pub struct NodeInfo {
    pub node_id: Option<String>,
    pub version: String,
    pub region: String,
    pub name: String,
    pub started_at: String,
}

/// The service's state as the status endpoint reports it.
pub struct StatusResponse {
    pub status: String,
    pub active_destinations: i64,
    pub total_destinations: i64,
    pub pending_events: i64,
    pub node_info: NodeInfo,
}

/// A request to name this node.
pub struct NodeInfoRequest {
    pub node_id: Option<String>,
    pub name: String,
    pub region: String,
}

/// One key/value row of the configuration table.
pub struct ConfigEntry {
    pub key: String,
    pub value: String,
}

/// What an endpoint answers.
pub enum ApiReply {
    /// A JSON error document.
    Error(ErrorReply),
    /// One destination, with the given status.
    Destination(u16, Destination),
    /// The list of destinations, 200.
    Destinations(Vec<Destination>),
    /// An empty 204 answer.
    NoContent,
    /// The status document, 200.
    Status(StatusResponse),
    /// The node identity, 200.
    NodeInfo(NodeInfo),
    /// `{"message":"Retry initiated"}`, 200.
    RetryInitiated,
    /// The accepted event, 202.
    Accepted(EventResponse),
}

/// The HTTP status of an answer.
pub open spec fn reply_status(r: ApiReply) -> u16 {
    match r {
        ApiReply::Error(e) => e.status,
        ApiReply::Destination(s, _) => s,
        ApiReply::Destinations(_) => OK,
        ApiReply::NoContent => NO_CONTENT,
        ApiReply::Status(_) => OK,
        ApiReply::NodeInfo(_) => OK,
        ApiReply::RetryInitiated => OK,
        ApiReply::Accepted(_) => ACCEPTED,
    }
}

impl ApiReply {
    /// The HTTP status of this answer.
    pub fn status(&self) -> (s: u16)
        ensures
            s == reply_status(*self),
    {
        match self {
            ApiReply::Error(e) => e.status,
            ApiReply::Destination(s, _) => *s,
            ApiReply::Destinations(_) => OK,
            ApiReply::NoContent => NO_CONTENT,
            ApiReply::Status(_) => OK,
            ApiReply::NodeInfo(_) => OK,
            ApiReply::RetryInitiated => OK,
            ApiReply::Accepted(_) => ACCEPTED,
        }
    }
}

/// The answer of every guarded endpoint while the node has no identity.
pub open spec fn node_id_missing(r: ErrorReply) -> bool {
    error_is(
        r,
        PRECONDITION_FAILED,
        "Node ID not set"@,
        Some("The node ID must be set before using this endpoint"@),
    )
}

/// The guard in front of every endpoint but the webhook and the node-info
/// update: it lets a request through only once the node has an identity.
pub fn check_node_id_set(node: &config::NodeInfo) -> (res: Result<(), ErrorReply>)
    ensures
        res is Ok <==> node.node_id is Some,
        res matches Err(r) ==> node_id_missing(r),
{
    if !node.is_node_id_set() {
        return Err(
            error_reply(
                PRECONDITION_FAILED,
                "Node ID not set",
                Some(String::from_str("The node ID must be set before using this endpoint")),
            ),
        );
    }
    Ok(())
}

/// Which statement failed on a destination write.
#[derive(Clone, Copy, Debug, PartialEq, Eq, Structural)]
pub enum WriteKind {
    Create,
    Update,
}

/// The answer to a failed destination write, read from the database's
/// error text: status, title and details.
pub open spec fn write_error(kind: WriteKind, message: Seq<char>) -> (u16, Seq<char>, Seq<char>) {
    if spec_contains(message, "UNIQUE constraint failed"@) {
        (
            CONFLICT,
            "Destination already exists"@,
            "A destination with the same broker, topic_queue, and connection_url already exists"@,
        )
    } else if spec_contains(message, "NOT NULL constraint failed"@) {
        (BAD_REQUEST, "Validation error"@, "Required fields cannot be empty"@)
    } else if kind == WriteKind::Create && spec_contains(message, "CHECK constraint failed"@) {
        (BAD_REQUEST, "Invalid broker value"@, "Broker must be either 'rabbitmq' or 'kafka'"@)
    } else if kind == WriteKind::Create {
        (INTERNAL_SERVER_ERROR, "Failed to create destination"@, message)
    } else {
        (INTERNAL_SERVER_ERROR, "Failed to update destination"@, message)
    }
}

/// Turns the database's error text for a failed destination write into the
/// answer: a duplicate is a conflict, a missing field or (on create) a bad
/// broker is a bad request, anything else an internal error.
pub fn classify_write_error(kind: WriteKind, message: String) -> (r: ErrorReply)
    ensures
        error_is(r, write_error(kind, message@).0, write_error(kind, message@).1, Some(write_error(kind, message@).2)),
{
    if contains(message.as_str(), "UNIQUE constraint failed") {
        error_reply(
            CONFLICT,
            "Destination already exists",
            Some(String::from_str("A destination with the same broker, topic_queue, and connection_url already exists")),
        )
    } else if contains(message.as_str(), "NOT NULL constraint failed") {
        error_reply(BAD_REQUEST, "Validation error", Some(String::from_str("Required fields cannot be empty")))
    } else if kind == WriteKind::Create && contains(message.as_str(), "CHECK constraint failed") {
        error_reply(
            BAD_REQUEST,
            "Invalid broker value",
            Some(String::from_str("Broker must be either 'rabbitmq' or 'kafka'")),
        )
    } else if kind == WriteKind::Create {
        error_reply(INTERNAL_SERVER_ERROR, "Failed to create destination", Some(message))
    } else {
        error_reply(INTERNAL_SERVER_ERROR, "Failed to update destination", Some(message))
    }
}

/// The answer for an identifier that names no destination.
pub open spec fn destination_missing(r: ErrorReply, id: i64) -> bool {
    error_is(r, NOT_FOUND, "Destination not found"@, Some("No destination found with ID "@ + int_decimal(id as int)))
}

/// The 404 answer for a destination identifier that is not stored.
pub fn destination_not_found(id: i64) -> (r: ErrorReply)
    ensures
        destination_missing(r, id),
{
    let mut details = String::from_str("No destination found with ID ");
    push_i64(&mut details, id);
    error_reply(NOT_FOUND, "Destination not found", Some(details))
}

/// The answer when a destination cannot be written out as JSON.
pub fn destination_unserializable(message: String) -> (r: ErrorReply)
    ensures
        error_is(r, INTERNAL_SERVER_ERROR, "Failed to serialize destination"@, Some(message@)),
{
    error_reply(INTERNAL_SERVER_ERROR, "Failed to serialize destination", Some(message))
}

/// The next move of the webhook once the event has (or has not) been
/// written out as JSON.
pub enum WebhookStep {
    /// Store this JSON text as a pending event.
    Store(String),
    /// Answer now.
    Respond(ApiReply),
}

/// After serialising the accepted event: store it, or fail with 500 when it
/// could not be written out.
pub fn webhook_after_serialize(serialized: Option<String>) -> (step: WebhookStep)
    ensures
        match serialized {
            Some(json) => step matches WebhookStep::Store(s) && s@ == json@,
            None => step matches WebhookStep::Respond(ApiReply::Error(r))
                && error_is(r, INTERNAL_SERVER_ERROR, "Failed to serialize event"@, None),
        },
{
    match serialized {
        Some(json) => WebhookStep::Store(json),
        None => WebhookStep::Respond(ApiReply::Error(error_reply(INTERNAL_SERVER_ERROR, "Failed to serialize event", None))),
    }
}

/// After storing the pending event: 202 with the event's identifier and
/// arrival time, or 500 when the database refused it.
pub fn webhook_after_store(event: &Event, stored: bool) -> (reply: ApiReply)
    ensures
        stored ==> (reply matches ApiReply::Accepted(r) && r.status@ == "accepted"@
            && r.event_id@ == event.event_id@ && r.received_at == event.received_at),
        !stored ==> (reply matches ApiReply::Error(r) && error_is(r, INTERNAL_SERVER_ERROR, "Database error"@, None)),
{
    if stored {
        ApiReply::Accepted(
            EventResponse {
                status: String::from_str("accepted"),
                event_id: event.event_id.clone(),
                received_at: event.received_at,
            },
        )
    } else {
        ApiReply::Error(error_reply(INTERNAL_SERVER_ERROR, "Database error", None))
    }
}

/// The body sent, still with status 202, when the accepted-event answer
/// cannot be written out as JSON.
pub fn webhook_response_unserializable() -> (r: ErrorReply)
    ensures
        error_is(r, ACCEPTED, "Failed to create response"@, None),
{
    error_reply(ACCEPTED, "Failed to create response", None)
}

/// The next move of an endpoint whose only precondition is the node's
/// identity (listing destinations, reporting status, forcing a retry round).
pub enum GuardedStep {
    /// Do the endpoint's work.
    Proceed,
    /// Answer now.
    Respond(ApiReply),
}

/// `step` is what a guarded endpoint does first for this node: refuse with
/// the missing-identity answer when there is no identity, else proceed.
pub open spec fn guarded_start(node: config::NodeInfo, step: GuardedStep) -> bool {
    &&& node.node_id is None ==> (step matches GuardedStep::Respond(ApiReply::Error(r)) && node_id_missing(r))
    &&& node.node_id is Some ==> step == GuardedStep::Proceed
}

fn guarded_begin(node: &config::NodeInfo) -> (step: GuardedStep)
    ensures
        guarded_start(*node, step),
{
    match check_node_id_set(node) {
        Err(r) => GuardedStep::Respond(ApiReply::Error(r)),
        Ok(()) => GuardedStep::Proceed,
    }
}

/// Start of the list endpoint: refused while the node has no identity, else
/// read the enabled destinations.
pub fn list_destinations_begin(node: &config::NodeInfo) -> (step: GuardedStep)
    ensures
        guarded_start(*node, step),
{
    guarded_begin(node)
}

/// Start of the status endpoint: refused while the node has no identity,
/// else count destinations and pending events.
pub fn get_status_begin(node: &config::NodeInfo) -> (step: GuardedStep)
    ensures
        guarded_start(*node, step),
{
    guarded_begin(node)
}

/// Start of a forced retry: refused while the node has no identity, else run
/// a retry round.
pub fn force_retry_begin(node: &config::NodeInfo) -> (step: GuardedStep)
    ensures
        guarded_start(*node, step),
{
    guarded_begin(node)
}

/// The list endpoint's answer: the enabled destinations, or an empty list
/// when they could not be read.
pub fn list_destinations_reply(fetched: Option<Vec<Destination>>) -> (reply: ApiReply)
    ensures
        match fetched {
            Some(v) => reply matches ApiReply::Destinations(w) && w@ == v@,
            None => reply matches ApiReply::Destinations(w) && w@.len() == 0,
        },
        reply_status(reply) == 200,
{
    match fetched {
        Some(v) => ApiReply::Destinations(v),
        None => ApiReply::Destinations(Vec::new()),
    }
}

/// The next move while creating a destination.
pub enum AddDestinationStep {
    /// Insert a row with these values.
    Insert(DestinationRecord),
    /// Read back the newest row with this broker, topic and connection.
    FetchCreated(DestinationRecord),
    /// Answer now.
    Respond(ApiReply),
}

/// `r` holds the values bound for `d`.
pub open spec fn record_of(r: DestinationRecord, d: NewDestination) -> bool {
    &&& r.broker@ == crate::models::broker_name(d.broker)
    &&& r.topic_queue@ == d.topic_queue@
    &&& r.connection_url@ == d.connection_url@
    &&& r.enabled == d.enabled
}

/// Start of a create: refused while the node has no identity, else insert.
pub fn add_destination_begin(node: &config::NodeInfo, new_dest: &NewDestination) -> (step: AddDestinationStep)
    ensures
        node.node_id is None ==> (step matches AddDestinationStep::Respond(ApiReply::Error(r)) && node_id_missing(r)),
        node.node_id is Some ==> (step matches AddDestinationStep::Insert(rec) && record_of(rec, *new_dest)),
{
    match check_node_id_set(node) {
        Err(r) => AddDestinationStep::Respond(ApiReply::Error(r)),
        Ok(()) => AddDestinationStep::Insert(new_dest.record()),
    }
}

/// After the insert: read the new row back, or answer the write error.
pub fn add_destination_after_insert(new_dest: &NewDestination, inserted: Result<(), String>) -> (step: AddDestinationStep)
    ensures
        match inserted {
            Ok(()) => step matches AddDestinationStep::FetchCreated(rec) && record_of(rec, *new_dest),
            Err(m) => step matches AddDestinationStep::Respond(ApiReply::Error(r)) && error_is(
                r,
                write_error(WriteKind::Create, m@).0,
                write_error(WriteKind::Create, m@).1,
                Some(write_error(WriteKind::Create, m@).2),
            ),
        },
{
    match inserted {
        Ok(()) => AddDestinationStep::FetchCreated(new_dest.record()),
        Err(m) => AddDestinationStep::Respond(ApiReply::Error(classify_write_error(WriteKind::Create, m))),
    }
}

/// After reading the new row back: 201 with it, or 500.
pub fn add_destination_after_fetch(fetched: Result<Destination, String>) -> (reply: ApiReply)
    ensures
        match fetched {
            Ok(d) => reply == ApiReply::Destination(CREATED, d),
            Err(m) => reply matches ApiReply::Error(r)
                && error_is(r, INTERNAL_SERVER_ERROR, "Failed to retrieve created destination"@, Some(m@)),
        },
{
    match fetched {
        Ok(d) => ApiReply::Destination(CREATED, d),
        Err(m) => ApiReply::Error(error_reply(INTERNAL_SERVER_ERROR, "Failed to retrieve created destination", Some(m))),
    }
}

/// The next move while replacing a destination.
pub enum UpdateDestinationStep {
    /// Look the destination up by identifier.
    FetchExisting(i64),
    /// Overwrite the destination with these values.
    Update(i64, DestinationRecord),
    /// Read the destination back.
    FetchUpdated(i64),
    /// Answer now.
    Respond(ApiReply),
}

/// Start of a replacement: refused while the node has no identity, else
/// look the destination up.
pub fn update_destination_begin(node: &config::NodeInfo, id: i64) -> (step: UpdateDestinationStep)
    ensures
        node.node_id is None ==> (step matches UpdateDestinationStep::Respond(ApiReply::Error(r)) && node_id_missing(r)),
        node.node_id is Some ==> step == UpdateDestinationStep::FetchExisting(id),
{
    match check_node_id_set(node) {
        Err(r) => UpdateDestinationStep::Respond(ApiReply::Error(r)),
        Ok(()) => UpdateDestinationStep::FetchExisting(id),
    }
}

/// After the lookup: overwrite the destination, or 404 when it is not there.
pub fn update_destination_after_lookup(id: i64, new_dest: &NewDestination, found: bool) -> (step: UpdateDestinationStep)
    ensures
        found ==> (step matches UpdateDestinationStep::Update(i, rec) && i == id && record_of(rec, *new_dest)),
        !found ==> (step matches UpdateDestinationStep::Respond(ApiReply::Error(r)) && destination_missing(r, id)),
{
    if found {
        UpdateDestinationStep::Update(id, new_dest.record())
    } else {
        UpdateDestinationStep::Respond(ApiReply::Error(destination_not_found(id)))
    }
}

/// After the update: read the destination back, or answer the write error.
pub fn update_destination_after_update(id: i64, updated: Result<(), String>) -> (step: UpdateDestinationStep)
    ensures
        match updated {
            Ok(()) => step == UpdateDestinationStep::FetchUpdated(id),
            Err(m) => step matches UpdateDestinationStep::Respond(ApiReply::Error(r)) && error_is(
                r,
                write_error(WriteKind::Update, m@).0,
                write_error(WriteKind::Update, m@).1,
                Some(write_error(WriteKind::Update, m@).2),
            ),
        },
{
    match updated {
        Ok(()) => UpdateDestinationStep::FetchUpdated(id),
        Err(m) => UpdateDestinationStep::Respond(ApiReply::Error(classify_write_error(WriteKind::Update, m))),
    }
}

/// After reading the destination back: 200 with it, or 500.
pub fn update_destination_after_fetch(fetched: Result<Destination, String>) -> (reply: ApiReply)
    ensures
        match fetched {
            Ok(d) => reply == ApiReply::Destination(OK, d),
            Err(m) => reply matches ApiReply::Error(r)
                && error_is(r, INTERNAL_SERVER_ERROR, "Failed to retrieve updated destination"@, Some(m@)),
        },
{
    match fetched {
        Ok(d) => ApiReply::Destination(OK, d),
        Err(m) => ApiReply::Error(error_reply(INTERNAL_SERVER_ERROR, "Failed to retrieve updated destination", Some(m))),
    }
}

/// The next move while deleting a destination.
pub enum DeleteDestinationStep {
    /// Look the destination up by identifier.
    FetchExisting(i64),
    /// Delete the destination.
    Delete(i64),
    /// Answer now.
    Respond(ApiReply),
}

/// Start of a delete: refused while the node has no identity, else look the
/// destination up.
pub fn delete_destination_begin(node: &config::NodeInfo, id: i64) -> (step: DeleteDestinationStep)
    ensures
        node.node_id is None ==> (step matches DeleteDestinationStep::Respond(ApiReply::Error(r)) && node_id_missing(r)),
        node.node_id is Some ==> step == DeleteDestinationStep::FetchExisting(id),
{
    match check_node_id_set(node) {
        Err(r) => DeleteDestinationStep::Respond(ApiReply::Error(r)),
        Ok(()) => DeleteDestinationStep::FetchExisting(id),
    }
}

/// After the lookup: delete, or 404 when the destination is not there.
pub fn delete_destination_after_lookup(id: i64, found: bool) -> (step: DeleteDestinationStep)
    ensures
        found ==> step == DeleteDestinationStep::Delete(id),
        !found ==> (step matches DeleteDestinationStep::Respond(ApiReply::Error(r)) && destination_missing(r, id)),
{
    if found {
        DeleteDestinationStep::Delete(id)
    } else {
        DeleteDestinationStep::Respond(ApiReply::Error(destination_not_found(id)))
    }
}

/// After the delete: 204, or 500 with the database's error text.
pub fn delete_destination_after_delete(deleted: Result<(), String>) -> (reply: ApiReply)
    ensures
        match deleted {
            Ok(()) => reply == ApiReply::NoContent,
            Err(m) => reply matches ApiReply::Error(r)
                && error_is(r, INTERNAL_SERVER_ERROR, "Failed to delete destination"@, Some(m@)),
        },
{
    match deleted {
        Ok(()) => ApiReply::NoContent,
        Err(m) => ApiReply::Error(error_reply(INTERNAL_SERVER_ERROR, "Failed to delete destination", Some(m))),
    }
}

/// The instants chrono can write from a Unix timestamp, as the system clock
/// gives them: seconds from 1970-01-01T00:00:00Z up to chrono's last
/// representable second (262142-12-31T23:59:59Z), and a sub-second part
/// below one second.
pub open spec fn timestamp_in_range(secs: i64, nanos: u32) -> bool {
    0 <= secs <= 8_210_266_876_799 && nanos < 1_000_000_000
}

/// The first instant of the year 10000, where chrono's years get a fifth
/// digit and a sign.
pub open spec fn year_10000_secs() -> int {
    253_402_300_800
}

/// Text that ends in the UTC offset `+00:00`, after at least a date and time.
pub open spec fn ends_with_utc_offset(s: Seq<char>) -> bool {
    &&& s.len() >= 25
    &&& s.subrange(s.len() - 6, s.len() as int) == seq!['+', '0', '0', ':', '0', '0']
}

/// RFC 3339 text of a UTC instant with a four-digit year, as chrono writes
/// it: `YYYY-MM-DDTHH:MM:SS`, then a fraction of 3, 6 or 9 digits when the
/// sub-second part is not zero, then `+00:00`.
pub open spec fn is_rfc3339_utc_text(s: Seq<char>) -> bool {
    let n = s.len();
    &&& n == 25 || n == 29 || n == 32 || n == 35
    &&& forall|i: int|
        0 <= i < 19 && i != 4 && i != 7 && i != 10 && i != 13 && i != 16 ==> crate::text::is_digit(#[trigger] s[i])
    &&& s[4] == '-' && s[7] == '-' && s[10] == 'T' && s[13] == ':' && s[16] == ':'
    &&& n > 25 ==> s[19] == '.' && forall|i: int| 20 <= i < n - 6 ==> crate::text::is_digit(#[trigger] s[i])
    &&& ends_with_utc_offset(s)
}

/// What chrono writes for the UTC instant `secs` seconds and `nanos`
/// nanoseconds after the Unix epoch: `DateTime::from_timestamp` followed by
/// `DateTime::to_rfc3339`.
pub uninterp spec fn rfc3339_of_timestamp(secs: i64, nanos: u32) -> Seq<char>;

/// The instant as RFC 3339 text: `chrono::DateTime::from_timestamp(secs,
/// nanos)` (which succeeds on the range required here: the day number fits,
/// the second of the day is below 86400 and the nanoseconds below a second)
/// and `DateTime::to_rfc3339`, named by `rfc3339_of_timestamp`. chrono's
/// `write_rfc3339` writes two-digit fields with `write_hundreds`, a
/// four-digit year for years 0 to 9999 (a signed one otherwise), a 3, 6 or 9
/// digit fraction only when the nanoseconds are not zero, and the offset
/// `+00:00` for UTC; it cannot fail on these values.
#[verifier::external_body]
fn rfc3339(secs: i64, nanos: u32) -> (s: String)
    requires
        timestamp_in_range(secs, nanos),
    ensures
        s@ == rfc3339_of_timestamp(secs, nanos),
        ends_with_utc_offset(s@),
        secs < year_10000_secs() ==> is_rfc3339_utc_text(s@),
{
    match chrono::DateTime::from_timestamp(secs, nanos) {
        Some(t) => t.to_rfc3339(),
        None => String::new(),
    }
}

/// The identity this node reports, with the given start time.
pub open spec fn node_info_is(
    info: NodeInfo,
    node_id: Option<Seq<char>>,
    name: Seq<char>,
    region: Seq<char>,
    started_at: Seq<char>,
) -> bool {
    &&& opt_view(info.node_id) == node_id
    &&& info.version@ == "1.1.0"@
    &&& info.region@ == region
    &&& info.name@ == name
    &&& info.started_at@ == started_at
}

/// The status document for these counts, node identity and time.
pub fn status_report_at(
    total_destinations: i64,
    active_destinations: i64,
    pending_events: i64,
    node_id: Option<String>,
    started_at: String,
) -> (s: StatusResponse)
    ensures
        s.status@ == "running"@,
        s.total_destinations == total_destinations,
        s.active_destinations == active_destinations,
        s.pending_events == pending_events,
        node_info_is(s.node_info, opt_view(node_id), "node-01"@, "sa-east-1"@, started_at@),
{
    StatusResponse {
        status: String::from_str("running"),
        active_destinations,
        total_destinations,
        pending_events,
        node_info: NodeInfo {
            node_id,
            version: String::from_str("1.1.0"),
            region: String::from_str("sa-east-1"),
            name: String::from_str("node-01"),
            started_at,
        },
    }
}

/// The status document: the counts, this node's identity and the current
/// time (read from the clock by the caller as Unix seconds and nanoseconds)
/// as RFC 3339 text.
pub fn status_report(
    total_destinations: i64,
    active_destinations: i64,
    pending_events: i64,
    node: &config::NodeInfo,
    now_secs: i64,
    now_nanos: u32,
) -> (s: StatusResponse)
    requires
        timestamp_in_range(now_secs, now_nanos),
    ensures
        s.status@ == "running"@,
        s.total_destinations == total_destinations,
        s.active_destinations == active_destinations,
        s.pending_events == pending_events,
        opt_view(s.node_info.node_id) == opt_view(node.node_id),
        s.node_info.version@ == "1.1.0"@,
        s.node_info.region@ == "sa-east-1"@,
        s.node_info.name@ == "node-01"@,
        s.node_info.started_at@ == rfc3339_of_timestamp(now_secs, now_nanos),
        ends_with_utc_offset(s.node_info.started_at@),
        now_secs < year_10000_secs() ==> is_rfc3339_utc_text(s.node_info.started_at@),
{
    let started_at = rfc3339(now_secs, now_nanos);
    status_report_at(total_destinations, active_destinations, pending_events, node.get_node_id(), started_at)
}

/// The configuration rows written for a node-info update: the identifier
/// (empty when cleared), the name and the region.
pub open spec fn node_info_rows(rows: Seq<ConfigEntry>, req: NodeInfoRequest) -> bool {
    &&& rows.len() == 3
    &&& rows[0].key@ == "node_id"@
    &&& rows[0].value@ == config::stored_node_id(opt_view(req.node_id))
    &&& rows[1].key@ == "node_name"@
    &&& rows[1].value@ == req.name@
    &&& rows[2].key@ == "node_region"@
    &&& rows[2].value@ == req.region@
}

/// Start of a node-info update: the node takes the requested identity at
/// once (whether or not it is then saved), and the rows to save are returned.
pub fn set_node_info_begin(node: &mut config::NodeInfo, req: &NodeInfoRequest) -> (rows: Vec<ConfigEntry>)
    ensures
        opt_view(final(node).node_id) == opt_view(req.node_id),
        node_info_rows(rows@, *req),
{
    node.set_node_id(clone_opt_string(&req.node_id));
    let mut rows: Vec<ConfigEntry> = Vec::new();
    rows.push(ConfigEntry { key: String::from_str("node_id"), value: config::store_node_id(&req.node_id) });
    rows.push(ConfigEntry { key: String::from_str("node_name"), value: req.name.clone() });
    rows.push(ConfigEntry { key: String::from_str("node_region"), value: req.region.clone() });
    rows
}

/// The node identity answered after a node-info update, with the given
/// start time.
pub fn node_info_at(req: NodeInfoRequest, started_at: String) -> (info: NodeInfo)
    ensures
        node_info_is(info, opt_view(req.node_id), req.name@, req.region@, started_at@),
{
    NodeInfo {
        node_id: req.node_id,
        version: String::from_str("1.1.0"),
        region: req.region,
        name: req.name,
        started_at,
    }
}

/// After saving the node info: 200 with the identity and the current time
/// (read from the clock by the caller as Unix seconds and nanoseconds) as
/// RFC 3339 text, or 500.
pub fn set_node_info_after_save(
    req: NodeInfoRequest,
    saved: Result<(), String>,
    now_secs: i64,
    now_nanos: u32,
) -> (reply: ApiReply)
    requires
        timestamp_in_range(now_secs, now_nanos),
    ensures
        match saved {
            Ok(()) => reply matches ApiReply::NodeInfo(info) && opt_view(info.node_id) == opt_view(req.node_id)
                && info.version@ == "1.1.0"@ && info.region@ == req.region@ && info.name@ == req.name@
                && reply_status(reply) == 200
                && info.started_at@ == rfc3339_of_timestamp(now_secs, now_nanos)
                && ends_with_utc_offset(info.started_at@)
                && (now_secs < year_10000_secs() ==> is_rfc3339_utc_text(info.started_at@)),
            Err(m) => reply matches ApiReply::Error(r)
                && error_is(r, INTERNAL_SERVER_ERROR, "Failed to save node info"@, Some(m@)),
        },
{
    match saved {
        Ok(()) => {
            let started_at = rfc3339(now_secs, now_nanos);
            ApiReply::NodeInfo(node_info_at(req, started_at))
        },
        Err(m) => ApiReply::Error(error_reply(INTERNAL_SERVER_ERROR, "Failed to save node info", Some(m))),
    }
}

/// The answer once a retry round has been run on request.
pub fn force_retry_reply() -> (reply: ApiReply)
    ensures
        reply == ApiReply::RetryInitiated,
{
    ApiReply::RetryInitiated
}

/// An identity given in a node-info update survives a restart: the node
/// that loads back the value saved in the `node_id` row (as
/// `set_node_info_begin` produced it) has the requested identity. (A cleared
/// identity is saved as the empty text, which loads back as an identity;
/// it is left out.)
pub proof fn law_saved_identity_is_restored(
    req: NodeInfoRequest,
    rows: Seq<ConfigEntry>,
    reloaded: config::NodeInfo,
)
    requires
        node_info_rows(rows, req),
        req.node_id is Some,
        opt_view(reloaded.node_id) == Some(rows[0].value@),
    ensures
        opt_view(reloaded.node_id) == opt_view(req.node_id),
{
}

/// The HTTP status of every kind of answer: a listing, the status document,
/// the node identity and the retry acknowledgement are 200 OK with a body; a
/// delete is 204 No Content; an accepted event is 202 Accepted; a single
/// destination and an error carry their own status.
pub proof fn law_answer_statuses(
    dests: Vec<Destination>,
    status: StatusResponse,
    info: NodeInfo,
    event: EventResponse,
    code: u16,
    dest: Destination,
    err: ErrorReply,
)
    ensures
        reply_status(ApiReply::Destinations(dests)) == 200,
        reply_status(ApiReply::Status(status)) == 200,
        reply_status(ApiReply::NodeInfo(info)) == 200,
        reply_status(ApiReply::RetryInitiated) == 200,
        reply_status(ApiReply::NoContent) == 204,
        reply_status(ApiReply::Accepted(event)) == 202,
        reply_status(ApiReply::Destination(code, dest)) == code,
        reply_status(ApiReply::Error(err)) == err.status,
{
}

/// Each endpoint's success answer: a created destination is 201, a replaced
/// one 200, a deleted one 204, a saved node identity 200, a stored event 202.
pub proof fn law_success_statuses(d: Destination, e: EventResponse, info: NodeInfo)
    ensures
        reply_status(ApiReply::Destination(CREATED, d)) == 201,
        reply_status(ApiReply::Destination(OK, d)) == 200,
        reply_status(ApiReply::NoContent) == 204,
        reply_status(ApiReply::NodeInfo(info)) == 200,
        reply_status(ApiReply::Accepted(e)) == 202,
{
}

/// How a failed destination write is answered, by what the database said:
/// a duplicate is 409 whatever else the message says; a missing required
/// field (and no duplicate) is 400; on create, a refused broker (and neither
/// of those) is 400; anything else is 500 carrying the message.
pub proof fn law_write_error_answers(kind: WriteKind, message: Seq<char>)
    ensures
        spec_contains(message, "UNIQUE constraint failed"@) ==> write_error(kind, message).0 == 409,
        !spec_contains(message, "UNIQUE constraint failed"@) && spec_contains(message, "NOT NULL constraint failed"@)
            ==> write_error(kind, message).0 == 400,
        kind == WriteKind::Create && !spec_contains(message, "UNIQUE constraint failed"@)
            && !spec_contains(message, "NOT NULL constraint failed"@)
            && spec_contains(message, "CHECK constraint failed"@) ==> write_error(kind, message).0 == 400,
        kind == WriteKind::Update && !spec_contains(message, "UNIQUE constraint failed"@)
            && !spec_contains(message, "NOT NULL constraint failed"@) ==> write_error(kind, message).0 == 500
            && write_error(kind, message).2 == message,
        kind == WriteKind::Create && !spec_contains(message, "UNIQUE constraint failed"@)
            && !spec_contains(message, "NOT NULL constraint failed"@)
            && !spec_contains(message, "CHECK constraint failed"@) ==> write_error(kind, message).0 == 500
            && write_error(kind, message).2 == message,
{
}

/// A failed destination write is always answered with an error status: a
/// duplicate (whatever else the message says) is a conflict, and every
/// other failure is a bad request or an internal error.
pub proof fn law_write_errors_are_errors(kind: WriteKind, message: Seq<char>)
    ensures
        spec_contains(message, "UNIQUE constraint failed"@) ==> write_error(kind, message).0 == CONFLICT,
        write_error(kind, message).0 == CONFLICT || write_error(kind, message).0 == BAD_REQUEST
            || write_error(kind, message).0 == INTERNAL_SERVER_ERROR,
{
}

} // verus!
