use cinemaabyss::consumer::{
    events_topics, ConsumerAction, ConsumerEvent, ConsumerState, Message, Position,
};
use cinemaabyss::error::{require_success, respond, ServerError, Success, SwaggerExamples};
use cinemaabyss::event::EventType;
use cinemaabyss::model::User;
use cinemaabyss::clock::Timestamp;
use cinemaabyss::event::Event;
use cinemaabyss::model::CreateUser;
use cinemaabyss::relay::{ServerApp, Setting, CONSUMER_GROUP, PUBLISH_DEADLINE_SECS};
use cinemaabyss::server::conclude_create;

fn message(offset: i64) -> Message {
    Message {
        position: Position { topic: EventType::Movie, partition: 0, offset },
        key: Some(b"movie-events-key".to_vec()),
        timestamp: Some(1_736_951_400_000),
        payload: Some(b"{}".to_vec()),
    }
}

fn user() -> User {
    User { id: 1, username: "user".to_string(), email: "user@email.net".to_string() }
}

#[test]
fn internal_error_is_answered_with_500() {
    let e = ServerError::InternalError("boom".to_string());
    assert_eq!(e.status_code(), ("boom".to_string(), 500));
    assert_eq!(e.to_string(), "internal service error: boom");
}

#[test]
fn service_unavailable_is_answered_with_503() {
    let e = ServerError::ServiceUnavailable;
    assert_eq!(e.status_code(), ("service unavailable".to_string(), 503));
    assert_eq!(e.to_string(), "service unavailable");
}

#[test]
fn error_from_message_is_internal() {
    assert_eq!(
        ServerError::from("connection refused".to_string()),
        ServerError::InternalError("connection refused".to_string())
    );
}

#[test]
fn examples_of_errors_and_successes() {
    assert_eq!(ServerError::example(None), ServerError::ServiceUnavailable);
    assert_eq!(
        ServerError::example(Some("internal error".to_string())),
        ServerError::InternalError("internal error".to_string())
    );
    assert_eq!(Success::example(None), Success { status: 200, message: "Ok".to_string() });
    assert_eq!(
        Success::example(Some("done".to_string())),
        Success { status: 200, message: "done".to_string() }
    );
    assert_eq!(Success::success(), Success { status: 200, message: "Ok".to_string() });
}

#[test]
fn get_movie_999_not_found_is_an_internal_error() {
    let not_found =
        "HTTP status client error (404 Not Found) for url (http://movies/api/movies/999)";
    let answer = respond::<User>(Err(not_found.to_string()));
    let error = answer.unwrap_err();
    assert_eq!(error, ServerError::InternalError(not_found.to_string()));
    assert_eq!(error.status_code().1, 500);
}

#[test]
fn respond_hands_the_entity_on() {
    assert_eq!(respond(Ok(user())), Ok(user()));
}

#[test]
fn failed_publish_fails_the_create_request() {
    let refused = "Message production error: MessageTimedOut (Local: Message timed out)";
    let answer =
        conclude_create::<User, (i32, i64)>(Ok(user()), Some(Err(refused.to_string())));
    assert_eq!(answer, Err(ServerError::InternalError(refused.to_string())));
    let answer = conclude_create::<User, (i32, i64)>(
        Err("backend down".to_string()),
        Some(Err(refused.to_string())),
    );
    assert_eq!(answer, Err(ServerError::InternalError("backend down".to_string())));
}

#[test]
fn create_succeeds_when_backend_and_publish_do() {
    assert_eq!(conclude_create(Ok(user()), Some(Ok((0, 42)))), Ok(user()));
    let answer =
        conclude_create::<User, (i32, i64)>(Err("backend down".to_string()), Some(Ok((0, 42))));
    assert_eq!(answer, Err(ServerError::InternalError("backend down".to_string())));
}

#[test]
fn create_without_an_event_rests_on_the_backend_alone() {
    assert_eq!(conclude_create::<User, (i32, i64)>(Ok(user()), None), Ok(user()));
    let answer = conclude_create::<User, (i32, i64)>(Err("backend down".to_string()), None);
    assert_eq!(answer, Err(ServerError::InternalError("backend down".to_string())));
}

#[test]
fn publish_keys_the_record_by_its_topic() {
    let app = ServerApp::new("kafka:9092".to_string());
    let record = app.publish("movie-events", b"{\"id\":\"1\"}".to_vec());
    assert_eq!(record.topic, "movie-events");
    assert_eq!(record.key, "movie-events-key");
    assert_eq!(record.payload, b"{\"id\":\"1\"}".to_vec());
    assert_eq!(record.deadline_secs, 5);
    assert_eq!(PUBLISH_DEADLINE_SECS, 5);
    let record = app.publish("", Vec::new());
    assert_eq!(record.key, "-key");
}

#[test]
fn publisher_reports_place_or_failure() {
    assert_eq!(ServerApp::published(Ok((3, 17))), Ok((3, 17)));
    assert_eq!(
        ServerApp::published(Err("broker rejected".to_string())),
        Err(ServerError::InternalError("broker rejected".to_string()))
    );
}

#[test]
fn relay_answers_created_or_failure() {
    assert_eq!(
        ServerApp::created(Ok((0, 1))),
        Ok((201, Success { status: 200, message: "Ok".to_string() }))
    );
    assert_eq!(
        ServerApp::created(Err("timed out".to_string())),
        Err(ServerError::InternalError("timed out".to_string()))
    );
}

#[test]
fn client_settings() {
    let brokers = "kafka:9092".to_string();
    assert_eq!(
        ServerApp::create_publisher(&brokers),
        vec![Setting { name: "bootstrap.servers", value: "kafka:9092".to_string() }]
    );
    assert_eq!(
        ServerApp::consumer_settings(&brokers),
        vec![
            Setting { name: "bootstrap.servers", value: "kafka:9092".to_string() },
            Setting { name: "enable.partition.eof", value: "false".to_string() },
            Setting { name: "session.timeout.ms", value: "360000".to_string() },
            Setting { name: "enable.auto.commit", value: "false".to_string() },
            Setting { name: "group.id", value: "cinemaabyss".to_string() },
        ]
    );
    assert_eq!(CONSUMER_GROUP, "cinemaabyss");
    assert_eq!(events_topics(), vec!["movie-events", "user-events", "payment-events"]);
}

#[test]
fn consumer_logs_then_commits() {
    let state = ServerApp::start_consumer();
    assert_eq!(state, ConsumerState::Created);
    let (state, action) = state.step(ConsumerEvent::Started);
    assert_eq!((state, action), (ConsumerState::Subscribing, ConsumerAction::Subscribe));
    let (state, action) = state.step(ConsumerEvent::Subscribed);
    assert_eq!((state, action), (ConsumerState::Polling, ConsumerAction::Poll));
    let (state, action) = state.step(ConsumerEvent::Received(message(7)));
    assert_eq!(state, ConsumerState::Logging(message(7).position));
    assert_eq!(action, ConsumerAction::Log(message(7)));
    let (state, action) = state.step(ConsumerEvent::Logged);
    assert_eq!(state, ConsumerState::Committing(message(7).position));
    assert_eq!(action, ConsumerAction::Commit(message(7).position));
    let (state, action) = state.step(ConsumerEvent::Committed);
    assert_eq!((state, action), (ConsumerState::Polling, ConsumerAction::Poll));
}

#[test]
fn consumer_never_commits_before_the_sink_has_the_message() {
    let events = vec![
        ConsumerEvent::Started,
        ConsumerEvent::Subscribed,
        ConsumerEvent::Received(message(1)),
        ConsumerEvent::Committed,
        ConsumerEvent::Received(message(2)),
        ConsumerEvent::Logged,
        ConsumerEvent::Logged,
        ConsumerEvent::Committed,
        ConsumerEvent::ReceiveFailed("broker transport failure".to_string()),
        ConsumerEvent::Logged,
        ConsumerEvent::Received(message(2)),
        ConsumerEvent::Logged,
        ConsumerEvent::Committed,
    ];
    let mut state = ConsumerState::Created;
    let mut logged: Vec<Position> = Vec::new();
    let mut commits = 0;
    for event in events {
        let (next, action) = state.step(event);
        match action {
            ConsumerAction::Log(message) => logged.push(message.position),
            ConsumerAction::Commit(position) => {
                assert!(logged.contains(&position));
                commits += 1;
            }
            _ => {}
        }
        state = next;
    }
    assert_eq!(commits, 2);
    assert_eq!(state, ConsumerState::Polling);
}

#[test]
fn message_is_logged_again_when_the_consumer_restarts_before_commit() {
    let mut state = ConsumerState::Created;
    for event in [ConsumerEvent::Started, ConsumerEvent::Subscribed] {
        state = state.step(event).0;
    }
    let (state, first) = state.step(ConsumerEvent::Received(message(5)));
    assert_eq!(first, ConsumerAction::Log(message(5)));
    assert_eq!(state, ConsumerState::Logging(message(5).position));
    // The process ends here: position 5 was never committed, and the log
    // delivers the message again to the consumer that starts next.
    let mut state = ServerApp::start_consumer();
    for event in [ConsumerEvent::Started, ConsumerEvent::Subscribed] {
        state = state.step(event).0;
    }
    let (state, again) = state.step(ConsumerEvent::Received(message(5)));
    assert_eq!(again, ConsumerAction::Log(message(5)));
    let (_, action) = state.step(ConsumerEvent::Logged);
    assert_eq!(action, ConsumerAction::Commit(message(5).position));
}

#[test]
fn consumer_goes_on_after_a_bad_message() {
    let state = ConsumerState::Polling;
    let (state, action) = state.step(ConsumerEvent::ReceiveFailed("bad".to_string()));
    assert_eq!(state, ConsumerState::Reporting);
    assert_eq!(action, ConsumerAction::LogError("bad".to_string()));
    let (state, action) = state.step(ConsumerEvent::Logged);
    assert_eq!((state, action), (ConsumerState::Polling, ConsumerAction::Poll));
}

#[test]
fn consumer_stops_where_it_cannot_subscribe_and_at_the_end_of_the_log() {
    let (state, action) =
        ConsumerState::Subscribing.step(ConsumerEvent::SubscribeFailed("no broker".to_string()));
    assert_eq!(state, ConsumerState::Stopped);
    assert_eq!(action, ConsumerAction::Stop(Err("no broker".to_string())));
    let (state, action) = ConsumerState::Polling.step(ConsumerEvent::StreamEnded);
    assert_eq!(state, ConsumerState::Stopped);
    assert_eq!(action, ConsumerAction::Stop(Ok(())));
}

#[test]
fn consumer_goes_on_after_a_failed_commit() {
    let position = message(9).position;
    let (state, action) =
        ConsumerState::Committing(position).step(ConsumerEvent::CommitFailed("gone".to_string()));
    assert_eq!(state, ConsumerState::Reporting);
    assert_eq!(action, ConsumerAction::LogError("gone".to_string()));
    let (state, action) = state.step(ConsumerEvent::Logged);
    assert_eq!((state, action), (ConsumerState::Polling, ConsumerAction::Poll));
    let (state, action) = state.step(ConsumerEvent::Received(message(10)));
    assert_eq!(state, ConsumerState::Logging(message(10).position));
    assert_eq!(action, ConsumerAction::Log(message(10)));
}

#[test]
fn consumer_outlasts_any_number_of_failures() {
    let mut state = ConsumerState::Created;
    for event in [ConsumerEvent::Started, ConsumerEvent::Subscribed] {
        state = state.step(event).0;
    }
    for round in 0..1_000 {
        let events = if round % 2 == 0 {
            vec![
                ConsumerEvent::Received(message(round)),
                ConsumerEvent::Logged,
                ConsumerEvent::CommitFailed("commit refused".to_string()),
                ConsumerEvent::Logged,
            ]
        } else {
            vec![ConsumerEvent::ReceiveFailed("bad message".to_string()), ConsumerEvent::Logged]
        };
        for event in events {
            let (next, action) = state.step(event);
            assert_ne!(next, ConsumerState::Stopped);
            assert!(!matches!(action, ConsumerAction::Stop(_)));
            state = next;
        }
        assert_eq!(state, ConsumerState::Polling);
    }
}

#[test]
fn consumer_ignores_what_it_does_not_wait_for() {
    let position = message(1).position;
    let cases = vec![
        (ConsumerState::Created, ConsumerEvent::Logged),
        (ConsumerState::Created, ConsumerEvent::Received(message(1))),
        (ConsumerState::Subscribing, ConsumerEvent::Started),
        (ConsumerState::Polling, ConsumerEvent::Logged),
        (ConsumerState::Polling, ConsumerEvent::Committed),
        (ConsumerState::Logging(position), ConsumerEvent::Committed),
        (ConsumerState::Logging(position), ConsumerEvent::Received(message(2))),
        (ConsumerState::Reporting, ConsumerEvent::Committed),
        (ConsumerState::Committing(position), ConsumerEvent::Logged),
        (ConsumerState::Stopped, ConsumerEvent::Started),
        (ConsumerState::Stopped, ConsumerEvent::Received(message(3))),
    ];
    for (state, event) in cases {
        assert_eq!(state.step(event), (state, ConsumerAction::Nothing));
    }
}

#[test]
fn failing_statuses_are_the_client_and_server_errors() {
    let text = "HTTP status error";
    for status in [100, 199, 200, 201, 204, 301, 399, 600, 999, u16::MAX, 0] {
        assert_eq!(require_success(status, text.to_string()), Ok(()));
    }
    for status in [400, 404, 499, 500, 503, 599] {
        assert_eq!(require_success(status, text.to_string()), Err(text.to_string()));
    }
}

#[test]
fn backend_404_is_answered_with_500() {
    let not_found =
        "HTTP status client error (404 Not Found) for url (http://movies/api/movies/999)";
    let outcome: Result<User, String> = match require_success(404, not_found.to_string()) {
        Ok(()) => Ok(user()),
        Err(message) => Err(message),
    };
    let error = respond(outcome).unwrap_err();
    assert_eq!(error, ServerError::InternalError(not_found.to_string()));
    let (message, status) = error.status_code();
    assert_eq!(status, 500);
    assert_eq!(message, not_found);
}

#[test]
fn record_of_an_envelope_carries_its_text() {
    let app = ServerApp::new("kafka:9092".to_string());
    let event = Event::assemble(
        "795732d4-ddc3-4ce8-8f59-5c35fc43066e".to_string(),
        EventType::User,
        Timestamp { secs: 1_736_951_400, nanos: 0 },
        serde_json::Value::String("é".to_string()),
    );
    let record = app.publish_event(&event).unwrap();
    assert_eq!(record.topic, "user-events");
    assert_eq!(record.key, "user-events-key");
    assert_eq!(record.deadline_secs, 5);
    let text = "{\"id\":\"795732d4-ddc3-4ce8-8f59-5c35fc43066e\",\"type\":\"User\",\
        \"timestamp\":\"2025-01-15T14:30:00Z\",\"payload\":\"é\"}";
    assert_eq!(record.payload, text.as_bytes().to_vec());
    assert_eq!(Some(String::from_utf8(record.payload).unwrap()), event.to_json());
}

#[test]
fn envelope_without_text_has_no_record() {
    let app = ServerApp::new("kafka:9092".to_string());
    let at = Timestamp { secs: 0, nanos: 0 };
    let event = Event::assemble("a\"b".to_string(), EventType::Movie, at, serde_json::Value::Null);
    assert_eq!(app.publish_event(&event), None);
}

#[test]
fn create_request_is_published_as_a_fresh_envelope() {
    let app = ServerApp::new("kafka:9092".to_string());
    let request = CreateUser { username: "user".to_string(), email: "user@email.net".to_string() };
    let payload = serde_json::Value::String("request".to_string());
    let (event, record) = app.publish_create(&request, payload.clone());
    assert_eq!(event.event_type(), EventType::User);
    assert_eq!(event.payload(), &payload);
    assert_eq!(record.topic, "user-events");
    assert_eq!(record.key, "user-events-key");
    assert_eq!(record.payload, event.to_json().unwrap().into_bytes());
    let parsed: serde_json::Value = serde_json::from_slice(&record.payload).unwrap();
    assert_eq!(parsed["type"], serde_json::Value::String("User".to_string()));
    assert_eq!(parsed["payload"], payload);
}
