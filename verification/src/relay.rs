//! The publish path of the event relay: what is sent to the message log for
//! an event, and what the request that caused it is answered.

use vstd::prelude::*;
use vstd::string::*;
use crate::consumer::ConsumerState;
use crate::error::{ServerError, Success, CREATED};
use crate::event::{is_event_id, topic_of, wire_text, Event, EventView};
use crate::model::CreateRequest;

verus! {

/// The seconds within which the message log must acknowledge a record.
pub const PUBLISH_DEADLINE_SECS: u64 = 5;

/// The group under which every consumer of the relay reads.
pub const CONSUMER_GROUP: &'static str = "cinemaabyss";

/// One setting of a client of the message log.
#[derive(Clone, Debug, PartialEq, Eq)]
pub struct Setting {
    pub name: &'static str,
    pub value: String,
}

/// What a [`Setting`] says: its name and its value.
pub open spec fn setting_view(s: Setting) -> (Seq<char>, Seq<char>) {
    (s.name@, s.value@)
}

/// A record on its way to the message log.
#[derive(Clone, Debug, PartialEq, Eq)]
pub struct Record {
    pub topic: String,
    pub key: String,
    pub payload: Vec<u8>,
    pub deadline_secs: u64,
}

/// The record that carries an envelope with the given JSON text: on the topic
/// of the envelope's type, keyed by the topic's name with `-key` behind it,
/// with the text in UTF-8 as the payload, and due within the deadline.
pub open spec fn carries(record: Record, e: EventView, text: Seq<char>) -> bool {
    &&& record.topic@ == topic_of(e.event_type)
    &&& record.key@ == topic_of(e.event_type) + "-key"@
    &&& record.payload@ == vstd::utf8::encode_utf8(text)
    &&& record.deadline_secs == PUBLISH_DEADLINE_SECS
}

/// The relay: the publisher's side of the message log.
///
/// A record is sent by one writer at a time, and the request that caused it is
/// answered only when the log has acknowledged the record or the deadline has
/// passed.
#[derive(Clone, Debug)]
pub struct ServerApp {
    brokers: String,
}

impl View for ServerApp {
    type V = Seq<char>;

    /// The connection string of the brokers.
    closed spec fn view(&self) -> Seq<char> {
        self.brokers@
    }
}

impl ServerApp {
    pub fn new(brokers: String) -> (app: ServerApp)
        ensures
            app@ == brokers@,
    {
        ServerApp { brokers }
    }

    /// The settings that the publisher is created with.
    pub fn create_publisher(brokers: &String) -> (settings: Vec<Setting>)
        ensures
            settings@.map_values(|s: Setting| setting_view(s)) == seq![
                ("bootstrap.servers"@, brokers@),
            ],
    {
        let mut settings: Vec<Setting> = Vec::new();
        settings.push(Setting { name: "bootstrap.servers", value: brokers.clone() });
        assert(settings@.map_values(|s: Setting| setting_view(s)) =~= seq![
            ("bootstrap.servers"@, brokers@),
        ]);
        settings
    }

    /// The settings that the consumer is created with. The client commits
    /// nothing by itself: a position is committed when the consumer's machine
    /// asks for it, and at no other time.
    pub fn consumer_settings(brokers: &String) -> (settings: Vec<Setting>)
        ensures
            settings@.map_values(|s: Setting| setting_view(s)) == seq![
                ("bootstrap.servers"@, brokers@),
                ("enable.partition.eof"@, "false"@),
                ("session.timeout.ms"@, "360000"@),
                ("enable.auto.commit"@, "false"@),
                ("group.id"@, CONSUMER_GROUP@),
            ],
    {
        let mut settings: Vec<Setting> = Vec::new();
        settings.push(Setting { name: "bootstrap.servers", value: brokers.clone() });
        settings.push(Setting { name: "enable.partition.eof", value: String::from_str("false") });
        settings.push(Setting { name: "session.timeout.ms", value: String::from_str("360000") });
        settings.push(Setting { name: "enable.auto.commit", value: String::from_str("false") });
        settings.push(Setting { name: "group.id", value: String::from_str(CONSUMER_GROUP) });
        assert(settings@.map_values(|s: Setting| setting_view(s)) =~= seq![
            ("bootstrap.servers"@, brokers@),
            ("enable.partition.eof"@, "false"@),
            ("session.timeout.ms"@, "360000"@),
            ("enable.auto.commit"@, "false"@),
            ("group.id"@, CONSUMER_GROUP@),
        ]);
        settings
    }

    /// The consumer as it is before it has been started. It is started once,
    /// with the service, and runs until the process ends.
    pub fn start_consumer() -> (c: ConsumerState)
        ensures
            c == ConsumerState::Created,
    {
        ConsumerState::Created
    }

    /// The record that publishes `data` on `topic`: keyed by the topic's name
    /// with `-key` behind it, and due within the deadline.
    pub fn publish(&self, topic: &str, data: Vec<u8>) -> (r: Record)
        ensures
            r.topic@ == topic@,
            r.key@ == topic@ + "-key"@,
            r.payload == data,
            r.deadline_secs == PUBLISH_DEADLINE_SECS,
    {
        Record {
            topic: String::from_str(topic),
            key: String::from_str(topic).concat("-key"),
            payload: data,
            deadline_secs: PUBLISH_DEADLINE_SECS,
        }
    }

    /// The record that publishes an envelope, if the envelope has a JSON text.
    pub fn publish_event(&self, event: &Event) -> (r: Option<Record>)
        ensures
            match wire_text(event@) {
                Some(text) => r is Some && carries(r->Some_0, event@, text),
                None => r is None,
            },
    {
        match event.to_json() {
            Some(text) => Some(
                self.publish(event.event_type().topic(), text.as_str().as_bytes_vec()),
            ),
            None => None,
        }
    }

    /// The fresh envelope around a create request, and the record that
    /// publishes it. `payload` is the request in JSON.
    pub fn publish_create<T: CreateRequest>(&self, value: &T, payload: serde_json::Value) -> (r: (
        Event,
        Record,
    ))
        ensures
            r.0@.event_type == T::kind(),
            r.0@.payload == payload,
            is_event_id(r.0@.id),
            wire_text(r.0@) is Some,
            carries(r.1, r.0@, wire_text(r.0@)->Some_0),
    {
        let event = Event::build(value.event_type(), payload);
        match self.publish_event(&event) {
            Some(record) => (event, record),
            None => unreached(),
        }
    }

    /// What the publisher reports of a record: the partition and the offset at
    /// which the log took it, or an internal error with the failure's message
    /// where the log refused it or the deadline passed.
    pub fn published(outcome: Result<(i32, i64), String>) -> (r: Result<(i32, i64), ServerError>)
        ensures
            r == (match outcome {
                Ok(place) => Ok::<(i32, i64), ServerError>(place),
                Err(msg) => Err(ServerError::InternalError(msg)),
            }),
    {
        match outcome {
            Ok(place) => Ok(place),
            Err(msg) => Err(ServerError::InternalError(msg)),
        }
    }

    /// What a create request of the relay is answered once its event has been
    /// handed to the publisher: `CREATED` with the plain success where the log
    /// acknowledged the record, the failure otherwise.
    pub fn created(outcome: Result<(i32, i64), String>) -> (r: Result<(u16, Success), ServerError>)
        ensures
            match outcome {
                Ok(_) => r is Ok && r->Ok_0.0 == CREATED && r->Ok_0.1.status == 200
                    && r->Ok_0.1.message@ == "Ok"@,
                Err(msg) => r == Err::<(u16, Success), ServerError>(ServerError::InternalError(msg)),
            },
    {
        match ServerApp::published(outcome) {
            Ok(_) => Ok((CREATED, Success::success())),
            Err(e) => Err(e),
        }
    }
}

} // verus!
