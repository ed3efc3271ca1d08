//! The event envelope: the record that wraps a create request on its way to
//! the message log.

use vstd::prelude::*;
use vstd::string::*;
use crate::clock::{format_rfc3339, is_stamp, text_at, utc_now, Precision, Timestamp};
use crate::error::ServerError;
use crate::model::CreateRequest;
use crate::text::{is_plain, is_plain_char, is_plain_text, push_quoted, quoted};

verus! {

/// A JSON value of `serde_json`. It is carried through as it is: nothing here
/// looks inside.
#[verifier::external_type_specification]
#[verifier::external_body]
pub struct ExJsonValue(serde_json::Value);

/// `Value::clone`, which `serde_json` derives: the copy of a JSON value is the
/// same JSON value.
pub assume_specification[ <serde_json::Value as Clone>::clone ](
    value: &serde_json::Value,
) -> (copy: serde_json::Value)
    ensures
        copy == *value,
;

/// The compact JSON text of a value: what `serde_json` writes for it, without
/// any white space between the tokens.
pub uninterp spec fn json_text(value: serde_json::Value) -> Seq<char>;

/// The compact JSON text of a value, from the `Display` of `Value`, which
/// writes the value with the compact formatter.
#[verifier::external_body]
fn write_json(value: &serde_json::Value) -> (r: String)
    ensures
        r@ == json_text(*value),
{
    value.to_string()
}

/// The kind of resource that an event is about.
#[derive(Clone, Copy, Debug, PartialEq, Eq, Structural)]
pub enum EventType {
    Movie,
    User,
    Payment,
}

/// The name of an event type, as the envelope spells it.
pub open spec fn name_of(t: EventType) -> Seq<char> {
    match t {
        EventType::Movie => "Movie"@,
        EventType::User => "User"@,
        EventType::Payment => "Payment"@,
    }
}

/// The topic of the message log that takes the events of a type.
pub open spec fn topic_of(t: EventType) -> Seq<char> {
    match t {
        EventType::Movie => "movie-events"@,
        EventType::User => "user-events"@,
        EventType::Payment => "payment-events"@,
    }
}

impl EventType {
    /// The name of the type, as the envelope spells it.
    pub fn name(&self) -> (r: &'static str)
        ensures
            r@ == name_of(*self),
    {
        match self {
            EventType::Movie => "Movie",
            EventType::User => "User",
            EventType::Payment => "Payment",
        }
    }

    /// The topic that takes the events of this type.
    pub fn topic(&self) -> (r: &'static str)
        ensures
            r@ == topic_of(*self),
    {
        match self {
            EventType::Movie => "movie-events",
            EventType::User => "user-events",
            EventType::Payment => "payment-events",
        }
    }
}

/// The topics of the three event types differ from one another, so that a
/// topic names the type of its events.
pub proof fn lemma_topics_differ()
    ensures
        forall|a: EventType, b: EventType| topic_of(a) == topic_of(b) ==> a == b,
        forall|t: EventType| kind_of_topic(#[trigger] topic_of(t)) == Some(t),
{
    reveal_strlit("movie-events");
    reveal_strlit("user-events");
    reveal_strlit("payment-events");
    assert forall|a: EventType, b: EventType| topic_of(a) == topic_of(b) implies a == b by {
        assert(topic_of(a).len() == topic_of(b).len());
    }
}

/// The event type whose events a topic takes, if the topic is one of the
/// relay's.
pub open spec fn kind_of_topic(topic: Seq<char>) -> Option<EventType> {
    if topic == topic_of(EventType::Movie) {
        Some(EventType::Movie)
    } else if topic == topic_of(EventType::User) {
        Some(EventType::User)
    } else if topic == topic_of(EventType::Payment) {
        Some(EventType::Payment)
    } else {
        None
    }
}

/// The event type whose events a topic takes, if the topic is one of the
/// relay's.
pub fn from_topic(topic: &str) -> (r: Option<EventType>)
    ensures
        r == kind_of_topic(topic@),
{
    let name = topic.to_owned();
    if name == EventType::Movie.topic().to_owned() {
        Some(EventType::Movie)
    } else if name == EventType::User.topic().to_owned() {
        Some(EventType::User)
    } else if name == EventType::Payment.topic().to_owned() {
        Some(EventType::Payment)
    } else {
        None
    }
}

/// Whether an event reached the message log.
#[derive(Clone, Copy, Debug, PartialEq, Eq, Structural)]
pub enum EventStatus {
    Success,
    Failed,
}

/// A field that a builder was asked to build without.
#[derive(Clone, Copy, Debug, PartialEq, Eq)]
pub enum BuilderError {
    UninitializedField(&'static str),
}

/// Whether a character is a decimal digit or one of `a` to `f`.
pub open spec fn is_lower_hex(c: char) -> bool {
    ('0' <= c && c <= '9') || ('a' <= c && c <= 'f')
}

/// The shape of a freshly generated event identifier: 36 characters in five
/// groups of lower-case hexadecimal digits, with hyphens between the groups;
/// the third group starts with the version digit `4`, the fourth with one of
/// `8`, `9`, `a`, `b`.
pub open spec fn is_event_id(s: Seq<char>) -> bool {
    &&& s.len() == 36
    &&& forall|i: int|
        0 <= i < 36 ==> if i == 8 || i == 13 || i == 18 || i == 23 {
            #[trigger] s[i] == '-'
        } else {
            is_lower_hex(s[i])
        }
    &&& s[14] == '4'
    &&& (s[19] == '8' || s[19] == '9' || s[19] == 'a' || s[19] == 'b')
}

/// A freshly generated identifier stands for itself inside a JSON string.
pub proof fn lemma_event_id_is_plain(s: Seq<char>)
    requires
        is_event_id(s),
    ensures
        is_plain(s),
{
    assert forall|i: int| 0 <= i < s.len() implies is_plain_char(#[trigger] s[i]) by {
        if i == 8 || i == 13 || i == 18 || i == 23 {
            assert(s[i] == '-');
        } else {
            assert(is_lower_hex(s[i]));
        }
    }
}

/// A fresh identifier: `uuid::Uuid::new_v4()` in its default text form, which
/// is the hyphenated lower-case one. The contract states the shape of that
/// text and nothing of the random digits in it.
#[verifier::external_body]
fn fresh_id() -> (id: String)
    ensures
        is_event_id(id@),
{
    uuid::Uuid::new_v4().to_string()
}

/// An event: a create request on its way to the message log.
///
/// The identifier is generated with the envelope and has nothing to do with
/// the identifier that a backend gives the resource. The payload is the create
/// request as it came in, not the backend's answer.
#[derive(Clone, Debug)]
pub struct Event {
    id: String,
    event_type: EventType,
    timestamp: Timestamp,
    payload: serde_json::Value,
}

/// What an [`Event`] holds.
pub struct EventView {
    pub id: Seq<char>,
    pub event_type: EventType,
    pub timestamp: Timestamp,
    pub payload: serde_json::Value,
}

/// The JSON text of an envelope: an object with the members `id`, `type`,
/// `timestamp` and `payload`, in this order and without white space. The time
/// is written in RFC 3339 with the fewest decimals. There is no text where
/// the time has none, or where the identifier or the time's text would not
/// stand for itself inside a JSON string; the text of a time always does.
pub open spec fn wire_text(e: EventView) -> Option<Seq<char>> {
    match text_at(e.timestamp, Precision::Shortest) {
        Some(time) => if is_plain(e.id) && is_plain(time) {
            Some(
                "{\"id\":"@ + quoted(e.id) + ",\"type\":"@ + quoted(name_of(e.event_type))
                    + ",\"timestamp\":"@ + quoted(time) + ",\"payload\":"@ + json_text(e.payload)
                    + "}"@,
            )
        } else {
            None
        },
        None => None,
    }
}

/// The text of an instant stands for itself inside a JSON string.
pub proof fn lemma_stamp_is_plain(s: Seq<char>)
    requires
        is_stamp(s),
    ensures
        is_plain(s),
{
    assert forall|i: int| 0 <= i < s.len() implies is_plain_char(#[trigger] s[i]) by {
        assert(crate::clock::is_stamp_char(s[i]));
    }
}

/// An envelope with a freshly generated identifier has a JSON text wherever
/// its time has a text.
pub proof fn lemma_fresh_envelope_has_text(e: EventView)
    requires
        is_event_id(e.id),
        crate::clock::has_text(e.timestamp, Precision::Shortest),
    ensures
        wire_text(e) is Some,
{
    lemma_event_id_is_plain(e.id);
    lemma_stamp_is_plain(text_at(e.timestamp, Precision::Shortest)->Some_0);
}

impl View for Event {
    type V = EventView;

    closed spec fn view(&self) -> EventView {
        EventView {
            id: self.id@,
            event_type: self.event_type,
            timestamp: self.timestamp,
            payload: self.payload,
        }
    }
}

impl Event {
    /// The envelope with the given identifier and time.
    pub fn assemble(
        id: String,
        event_type: EventType,
        timestamp: Timestamp,
        payload: serde_json::Value,
    ) -> (e: Event)
        ensures
            e@ == (EventView { id: id@, event_type, timestamp, payload }),
    {
        Event { id, event_type, timestamp, payload }
    }

    /// A fresh envelope around a create request: a new identifier, the current
    /// time, the type of the call, and the request unchanged as the payload.
    /// Such an envelope has a JSON text.
    pub fn build(event_type: EventType, payload: serde_json::Value) -> (e: Event)
        ensures
            e@.event_type == event_type,
            e@.payload == payload,
            is_event_id(e@.id),
            wire_text(e@) is Some,
    {
        let id = fresh_id();
        let timestamp = utc_now();
        let e = Event::assemble(id, event_type, timestamp, payload);
        proof {
            lemma_fresh_envelope_has_text(e@);
        }
        e
    }

    /// The fresh envelope around a create request, with the type that belongs
    /// to the kind of the request. `payload` is the request in JSON.
    pub fn try_from<T: CreateRequest>(value: &T, payload: serde_json::Value) -> (r: Result<
        Event,
        ServerError,
    >)
        ensures
            r is Ok,
            r->Ok_0@.event_type == T::kind(),
            r->Ok_0@.payload == payload,
            is_event_id(r->Ok_0@.id),
            wire_text(r->Ok_0@) is Some,
    {
        Ok(Event::build(value.event_type(), payload))
    }

    /// The JSON text of the envelope, as it is handed to the message log.
    pub fn to_json(&self) -> (r: Option<String>)
        ensures
            match wire_text(self@) {
                Some(text) => r is Some && r->Some_0@ == text,
                None => r is None,
            },
    {
        let time = match format_rfc3339(self.timestamp, Precision::Shortest) {
            Some(time) => time,
            None => {
                return None;
            },
        };
        if !is_plain_text(self.id.as_str()) {
            return None;
        }
        proof {
            lemma_stamp_is_plain(time@);
        }
        let text = push_quoted(String::from_str("{\"id\":"), self.id.as_str());
        let text = push_quoted(text.concat(",\"type\":"), self.event_type.name());
        let text = push_quoted(text.concat(",\"timestamp\":"), time.as_str());
        let payload = write_json(&self.payload);
        let text = text.concat(",\"payload\":").concat(payload.as_str()).concat("}");
        assert(text@ =~= wire_text(self@)->Some_0);
        Some(text)
    }

    pub fn id(&self) -> (r: &String)
        ensures
            r@ == self@.id,
    {
        &self.id
    }

    pub fn event_type(&self) -> (r: EventType)
        ensures
            r == self@.event_type,
    {
        self.event_type
    }

    pub fn timestamp(&self) -> (r: Timestamp)
        ensures
            r == self@.timestamp,
    {
        self.timestamp
    }

    pub fn payload(&self) -> (r: &serde_json::Value)
        ensures
            *r == self@.payload,
    {
        &self.payload
    }
}

/// Collects the fields of an [`Event`] one by one.
pub struct EventBuilder {
    pub id: Option<String>,
    pub event_type: Option<EventType>,
    pub timestamp: Option<Timestamp>,
    pub payload: Option<serde_json::Value>,
}

impl Default for EventBuilder {
    /// The builder with no field set.
    fn default() -> (b: EventBuilder)
        ensures
            b.id is None,
            b.event_type is None,
            b.timestamp is None,
            b.payload is None,
    {
        EventBuilder { id: None, event_type: None, timestamp: None, payload: None }
    }
}

impl EventBuilder {
    /// The first field, in the order of the envelope, that is not set yet.
    pub open spec fn missing(&self) -> Option<&'static str> {
        if self.id is None {
            Some("id")
        } else if self.event_type is None {
            Some("event_type")
        } else if self.timestamp is None {
            Some("timestamp")
        } else if self.payload is None {
            Some("payload")
        } else {
            None
        }
    }

    pub fn id(self, value: String) -> (b: EventBuilder)
        ensures
            b == (EventBuilder { id: Some(value), ..self }),
    {
        EventBuilder { id: Some(value), ..self }
    }

    pub fn event_type(self, value: EventType) -> (b: EventBuilder)
        ensures
            b == (EventBuilder { event_type: Some(value), ..self }),
    {
        EventBuilder { event_type: Some(value), ..self }
    }

    pub fn timestamp(self, value: Timestamp) -> (b: EventBuilder)
        ensures
            b == (EventBuilder { timestamp: Some(value), ..self }),
    {
        EventBuilder { timestamp: Some(value), ..self }
    }

    pub fn payload(self, value: serde_json::Value) -> (b: EventBuilder)
        ensures
            b == (EventBuilder { payload: Some(value), ..self }),
    {
        EventBuilder { payload: Some(value), ..self }
    }

    /// The event of the fields that were set, or the first field that was not.
    pub fn build(self) -> (r: Result<Event, BuilderError>)
        ensures
            match self.missing() {
                Some(field) => r == Err::<Event, BuilderError>(
                    BuilderError::UninitializedField(field),
                ),
                None => r is Ok && r->Ok_0@ == (EventView {
                    id: self.id->Some_0@,
                    event_type: self.event_type->Some_0,
                    timestamp: self.timestamp->Some_0,
                    payload: self.payload->Some_0,
                }),
            },
    {
        let id = match self.id {
            Some(id) => id,
            None => {
                return Err(BuilderError::UninitializedField("id"));
            },
        };
        let event_type = match self.event_type {
            Some(event_type) => event_type,
            None => {
                return Err(BuilderError::UninitializedField("event_type"));
            },
        };
        let timestamp = match self.timestamp {
            Some(timestamp) => timestamp,
            None => {
                return Err(BuilderError::UninitializedField("timestamp"));
            },
        };
        let payload = match self.payload {
            Some(payload) => payload,
            None => {
                return Err(BuilderError::UninitializedField("payload"));
            },
        };
        Ok(Event::assemble(id, event_type, timestamp, payload))
    }
}

/// What the relay reports of one event: whether it reached the message log,
/// and where.
#[derive(Clone, Debug)]
pub struct EventResponse {
    status: EventStatus,
    partition: String,
    offset: i32,
    event: Event,
}

/// What an [`EventResponse`] holds.
pub struct EventResponseView {
    pub status: EventStatus,
    pub partition: Seq<char>,
    pub offset: i32,
    pub event: EventView,
}

impl View for EventResponse {
    type V = EventResponseView;

    closed spec fn view(&self) -> EventResponseView {
        EventResponseView {
            status: self.status,
            partition: self.partition@,
            offset: self.offset,
            event: self.event@,
        }
    }
}

impl EventResponse {
    /// A builder with no field set.
    pub fn builder() -> (b: EventResponseBuilder)
        ensures
            b.status is None,
            b.partition is None,
            b.offset is None,
            b.event is None,
    {
        EventResponseBuilder::default()
    }

    pub fn status(&self) -> (r: EventStatus)
        ensures
            r == self@.status,
    {
        self.status
    }

    pub fn partition(&self) -> (r: &String)
        ensures
            r@ == self@.partition,
    {
        &self.partition
    }

    pub fn offset(&self) -> (r: i32)
        ensures
            r == self@.offset,
    {
        self.offset
    }

    pub fn event(&self) -> (r: &Event)
        ensures
            r@ == self@.event,
    {
        &self.event
    }
}

/// Collects the fields of an [`EventResponse`] one by one.
pub struct EventResponseBuilder {
    pub status: Option<EventStatus>,
    pub partition: Option<String>,
    pub offset: Option<i32>,
    pub event: Option<Event>,
}

impl Default for EventResponseBuilder {
    /// The builder with no field set.
    fn default() -> (b: EventResponseBuilder)
        ensures
            b.status is None,
            b.partition is None,
            b.offset is None,
            b.event is None,
    {
        EventResponseBuilder { status: None, partition: None, offset: None, event: None }
    }
}

impl EventResponseBuilder {
    /// The first field, in the order of the response, that is not set yet.
    pub open spec fn missing(&self) -> Option<&'static str> {
        if self.status is None {
            Some("status")
        } else if self.partition is None {
            Some("partition")
        } else if self.offset is None {
            Some("offset")
        } else if self.event is None {
            Some("event")
        } else {
            None
        }
    }

    pub fn status(self, value: EventStatus) -> (b: EventResponseBuilder)
        ensures
            b == (EventResponseBuilder { status: Some(value), ..self }),
    {
        EventResponseBuilder { status: Some(value), ..self }
    }

    pub fn partition(self, value: String) -> (b: EventResponseBuilder)
        ensures
            b == (EventResponseBuilder { partition: Some(value), ..self }),
    {
        EventResponseBuilder { partition: Some(value), ..self }
    }

    pub fn offset(self, value: i32) -> (b: EventResponseBuilder)
        ensures
            b == (EventResponseBuilder { offset: Some(value), ..self }),
    {
        EventResponseBuilder { offset: Some(value), ..self }
    }

    pub fn event(self, value: Event) -> (b: EventResponseBuilder)
        ensures
            b == (EventResponseBuilder { event: Some(value), ..self }),
    {
        EventResponseBuilder { event: Some(value), ..self }
    }

    /// The response of the fields that were set, or the first field that was
    /// not.
    pub fn build(self) -> (r: Result<EventResponse, BuilderError>)
        ensures
            match self.missing() {
                Some(field) => r == Err::<EventResponse, BuilderError>(
                    BuilderError::UninitializedField(field),
                ),
                None => r is Ok && r->Ok_0@ == (EventResponseView {
                    status: self.status->Some_0,
                    partition: self.partition->Some_0@,
                    offset: self.offset->Some_0,
                    event: self.event->Some_0@,
                }),
            },
    {
        let status = match self.status {
            Some(status) => status,
            None => {
                return Err(BuilderError::UninitializedField("status"));
            },
        };
        let partition = match self.partition {
            Some(partition) => partition,
            None => {
                return Err(BuilderError::UninitializedField("partition"));
            },
        };
        let offset = match self.offset {
            Some(offset) => offset,
            None => {
                return Err(BuilderError::UninitializedField("offset"));
            },
        };
        let event = match self.event {
            Some(event) => event,
            None => {
                return Err(BuilderError::UninitializedField("event"));
            },
        };
        Ok(EventResponse { status, partition, offset, event })
    }
}

} // verus!
