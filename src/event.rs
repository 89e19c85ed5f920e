//! The records sent towards the host for each detected transition.

use vstd::prelude::*;
use vstd::string::*;
use crate::detector::Transition;

verus! {

/// How the host is asked to deliver a record.
#[derive(Clone, Copy, Debug, PartialEq, Eq, Structural)]
pub enum DeliveryMode {
    BestEffort,
}

/// An outgoing event record.
#[derive(Clone, Debug)]
pub struct OutgoingEvent {
    pub event_id: String,
    pub routing_id: String,
    pub source_port_id: String,
    pub event_type: String,
    /// Capture time, in milliseconds since the Unix epoch (UTC).
    pub timestamp_millis: i64,
    pub source_tag: String,
    pub delivery_mode: DeliveryMode,
}

pub open spec fn started_event_type() -> Seq<char> {
    "io.caru.device.button_press.started"@
}

pub open spec fn ended_event_type() -> Seq<char> {
    "io.caru.device.button_press.ended"@
}

/// The tag naming the device class that produces the records.
pub open spec fn device_source_tag() -> Seq<char> {
    "crn:io.caru.device.button"@
}

pub open spec fn spec_event_type(t: Transition) -> Seq<char> {
    match t {
        Transition::Started => started_event_type(),
        Transition::Ended => ended_event_type(),
    }
}

/// The type name under which a transition is sent.
pub fn event_type_of(t: Transition) -> (r: String)
    ensures
        r@ == spec_event_type(t),
{
    match t {
        Transition::Started => String::from_str("io.caru.device.button_press.started"),
        Transition::Ended => String::from_str("io.caru.device.button_press.ended"),
    }
}

/// What a record built from these parts holds.
pub open spec fn is_record_of(
    r: OutgoingEvent,
    event_id: Seq<char>,
    source_port_id: Seq<char>,
    t: Transition,
    timestamp_millis: i64,
) -> bool {
    &&& r.event_id@ == event_id
    &&& r.routing_id@ == event_id
    &&& r.source_port_id@ == source_port_id
    &&& r.event_type@ == spec_event_type(t)
    &&& r.timestamp_millis == timestamp_millis
    &&& r.source_tag@ == device_source_tag()
    &&& r.delivery_mode == DeliveryMode::BestEffort
}

/// Builds the record for transition `t`, given its identifier and capture
/// time; the routing identifier is the event identifier.
pub fn make_event(event_id: String, source_port_id: &String, t: Transition, timestamp_millis: i64) -> (r: OutgoingEvent)
    ensures
        is_record_of(r, event_id@, source_port_id@, t, timestamp_millis),
{
    let routing_id = event_id.clone();
    OutgoingEvent {
        event_id,
        routing_id,
        source_port_id: source_port_id.clone(),
        event_type: event_type_of(t),
        timestamp_millis,
        source_tag: String::from_str("crn:io.caru.device.button"),
        delivery_mode: DeliveryMode::BestEffort,
    }
}

/// Relies on uuid::Uuid::new_v4 for a random identifier, written out by its
/// `Display` impl in the hyphenated form of 36 characters.
#[verifier::external_body]
fn fresh_event_id() -> (r: String)
    ensures
        r@.len() == 36,
{
    uuid::Uuid::new_v4().to_string()
}

/// Relies on chrono::Utc::now, read as milliseconds since the Unix epoch.
#[verifier::external_body]
fn now_millis() -> (r: i64) {
    chrono::Utc::now().timestamp_millis()
}

/// Builds the record for transition `t` raised by port `source_port_id`,
/// with a fresh random identifier and the current time.
pub fn new_event(source_port_id: &String, t: Transition) -> (r: OutgoingEvent)
    ensures
        r.event_id@.len() == 36,
        is_record_of(r, r.event_id@, source_port_id@, t, r.timestamp_millis),
{
    let event_id = fresh_event_id();
    let timestamp_millis = now_millis();
    make_event(event_id, source_port_id, t, timestamp_millis)
}

/// Every record carries a non-empty identifier, routes under that same
/// identifier and asks for best-effort delivery.
pub proof fn lemma_record_identity(r: OutgoingEvent, source_port_id: Seq<char>, t: Transition)
    requires
        r.event_id@.len() == 36,
        is_record_of(r, r.event_id@, source_port_id, t, r.timestamp_millis),
    ensures
        r.event_id@.len() > 0,
        r.routing_id@ == r.event_id@,
        r.delivery_mode == DeliveryMode::BestEffort,
{
}

} // verus!
